//! The launch descriptor of one version of the game.

use crate::table::StringTable;
use crate::vanilla::manifest::VersionType;
use vstd::prelude::*;

verus! {

#[derive(Debug, Clone)]
pub struct VersionInfo {
    pub id: String,
    pub assets: String,
    pub asset_index: PistonFile,
    pub java_version: VersionJavaInfo,
    pub libraries: Vec<PistonLibrary>,
    pub downloads: VersionDownloads,
    pub arguments: VersionArguments,
    pub minecraft_arguments: String,
    pub compliance_level: u8,
    pub minimum_launcher_version: u8,
    pub main_class: String,
    pub logging: LoggingInfoWrapper,
    pub version_type: VersionType,
    pub time: String,
    pub release_time: String,
}

#[derive(Debug, Clone)]
pub struct VersionDownloads {
    pub client: PistonFile,
    pub client_mappings: PistonFile,
    pub server: PistonFile,
    pub server_mappings: PistonFile,
    pub windows_server: PistonFile,
}

#[derive(Debug, Clone)]
pub struct VersionJavaInfo {
    pub major_version: u8,
    pub component: String,
}

#[derive(Debug, Clone)]
pub struct VersionArguments {
    pub game: Vec<PistonArgument>,
    pub jvm: Vec<PistonArgument>,
}

/// One entry of an argument list: a plain argument, or a value that is
/// passed only on hosts that pass the rules.
#[derive(Debug, Clone)]
pub enum PistonArgument {
    Normal(String),
    Ruled { rules: Vec<PistonRule>, value: ArgumentValue },
}

/// One argument or several.
#[derive(Debug, Clone)]
pub enum ArgumentValue {
    Single(String),
    Many(Vec<String>),
}

/// A library of the game, with the files that belong to it.
#[derive(Debug, Clone)]
pub struct PistonLibrary {
    pub name: String,
    pub downloads: PistonArtifact,
    /// For each operating system that has a native variant, the key of its
    /// classifier; the key may hold placeholders.
    pub natives: Option<StringTable<String>>,
    pub rules: Vec<PistonRule>,
}

/// A constraint together with what a host that meets it means.
#[derive(Debug, Clone)]
pub enum PistonRule {
    /// Passes on the hosts that meet the constraint.
    Allow(PistonRuleConstraints),
    /// Passes on the hosts that do not meet the constraint.
    Deny(PistonRuleConstraints),
}

/// What a rule asks of a host. A part that is absent asks nothing.
#[derive(Debug, Clone)]
pub struct PistonRuleConstraints {
    pub os: Option<PistonRuleConstraintOS>,
    /// The features that must be switched on; only the keys count.
    pub features: Option<StringTable<bool>>,
}

/// What a rule asks of the operating system. An empty field asks nothing;
/// `version` is a regular expression.
#[derive(Debug, Clone)]
pub struct PistonRuleConstraintOS {
    pub name: String,
    pub arch: String,
    pub version: String,
}

#[derive(Debug, Clone)]
pub struct PistonArtifact {
    pub artifact: PistonFile,
    /// Files that some hosts need beside the library, each under its
    /// classifier.
    pub classifiers: Option<StringTable<PistonFile>>,
}

#[derive(Debug, Clone)]
pub struct LoggingInfoWrapper {
    pub client: VersionLoggingInfo,
}

#[derive(Debug, Clone)]
pub struct VersionLoggingInfo {
    pub argument: String,
    pub file: PistonFile,
    pub logging_type: String,
}

/// A file that can be downloaded.
#[derive(Debug)]
pub struct PistonFile {
    pub sha1: String,
    pub size: u64,
    pub url: String,
    pub id: Option<String>,
    pub total_size: u64,
    /// Only present on library files.
    pub path: Option<String>,
}

/// A copy of an optional string.
pub fn clone_optional(text: &Option<String>) -> (copy: Option<String>)
    ensures
        copy == *text,
{
    match text {
        Some(s) => Some(s.clone()),
        None => None,
    }
}

impl Clone for PistonFile {
    fn clone(&self) -> (copy: Self)
        ensures
            copy == *self,
    {
        PistonFile {
            sha1: self.sha1.clone(),
            size: self.size,
            url: self.url.clone(),
            id: clone_optional(&self.id),
            total_size: self.total_size,
            path: clone_optional(&self.path),
        }
    }
}

impl PistonLibrary {
    /// The file stored under the classifier `native_id`, if the library has
    /// one.
    pub open spec fn native(&self, native_id: Seq<char>) -> Option<PistonFile> {
        match self.downloads.classifiers {
            Some(files) => if files@.contains_key(native_id) {
                Some(files@[native_id])
            } else {
                None
            },
            None => None,
        }
    }

    /// The library's own file.
    #[must_use]
    pub fn get_artifact(&self) -> (file: &PistonFile)
        ensures
            *file == self.downloads.artifact,
    {
        &self.downloads.artifact
    }

    /// A copy of the file stored under the classifier `native_id`.
    #[must_use]
    pub fn get_native(&self, native_id: &str) -> (file: Option<PistonFile>)
        ensures
            file == self.native(native_id@),
    {
        match &self.downloads.classifiers {
            None => None,
            Some(files) => match files.get(native_id) {
                Some(found) => Some(found.clone()),
                None => None,
            },
        }
    }

    /// The path of the library's own file, if it has one.
    #[must_use]
    pub fn get_artifact_path(&self) -> (path: Option<String>)
        ensures
            path == self.downloads.artifact.path,
    {
        clone_optional(&self.downloads.artifact.path)
    }

    /// The path of the file stored under the classifier `native_id`, if
    /// there is such a file and it has a path.
    #[must_use]
    pub fn get_native_path(&self, native_id: &str) -> (path: Option<String>)
        ensures
            path == match self.native(native_id@) {
                Some(file) => file.path,
                None => None,
            },
    {
        match &self.downloads.classifiers {
            None => None,
            Some(files) => match files.get(native_id) {
                Some(found) => clone_optional(&found.path),
                None => None,
            },
        }
    }
}

} // verus!
