//! What the Quilt services report, and where the Quilt installers lie.

use crate::text::{starts_with, text_of, texts};
use crate::McError;
use vstd::prelude::*;
use vstd::string::StringExecFns;

verus! {

#[derive(Debug, Clone)]
pub struct QuiltVersion {
    pub version: String,
    pub stable: bool,
}

#[derive(Debug, Clone)]
pub struct QuiltLoader {
    pub separator: String,
    pub build: i64,
    pub maven: String,
    pub version: String,
}

#[derive(Debug, Clone)]
pub struct QuiltInstaller {
    pub url: String,
    pub maven: String,
    pub version: String,
}

pub const QUILT_META_URL: &'static str = "https://meta.quiltmc.org";

pub const QUILT_MAVEN_URL: &'static str = "https://maven.quiltmc.org";

pub const QUILT_INSTALLER_UNIVERSAL_PATH: &'static str =
    "/repository/release/org/quiltmc/quilt-installer";

pub const QUILT_INSTALLER_NATIVE_PATH: &'static str =
    "/repository/release/org/quiltmc/quilt-installer-native-bootstrap";

pub const METADATA: &'static str = "maven-metadata.xml";

pub const VERSION_REGEX: &'static str = "<version>(.+?)</version>";

/// The error with which the `roxmltree` crate rejects a text.
#[verifier::external_type_specification]
#[verifier::external_body]
pub struct ExXmlError(roxmltree::Error);

/// A node of an XML document, as far as the list of versions reads it.
#[derive(Debug)]
pub struct XmlNode {
    /// The name of the node's tag; empty for a node that is no element.
    pub tag: String,
    /// The node's text: for an element that of its first child, where that
    /// is a text.
    pub text: Option<String>,
}

/// What a list of nodes holds, as plain values.
pub open spec fn node_views(nodes: Seq<XmlNode>) -> Seq<(Seq<char>, Option<Seq<char>>)> {
    nodes.map_values(|node: XmlNode| (node.tag@, text_of(node.text)))
}

/// The nodes of the XML document `xml` in document order, the root node
/// first, each with its tag's name and its text; `None` where `xml` is no
/// document that the `roxmltree` crate accepts.
pub uninterp spec fn xml_nodes(xml: Seq<char>) -> Option<Seq<(Seq<char>, Option<Seq<char>>)>>;

/// Parses `xml` with `roxmltree::Document::parse` and hands out what
/// `Document::descendants` walks over: of each node the name of its tag
/// (`Node::tag_name`) and its text (`Node::text`).
///
/// The contract gives that list the name `xml_nodes` and claims nothing of
/// what it holds; the call fails exactly where the name is `None`.
#[verifier::external_body]
fn parse_nodes(xml: &str) -> (parsed: Result<Vec<XmlNode>, roxmltree::Error>)
    ensures
        match parsed {
            Ok(nodes) => xml_nodes(xml@) == Some(node_views(nodes@)),
            Err(_) => xml_nodes(xml@) is None,
        },
{
    let document = roxmltree::Document::parse(xml)?;
    Ok(
        document.descendants().map(
            |node|
                XmlNode {
                    tag: node.tag_name().name().to_owned(),
                    text: node.text().map(|text| text.to_owned()),
                },
        ).collect(),
    )
}

/// The texts of the nodes whose tag is `version`, in order; a node without
/// text gives none.
pub open spec fn version_texts(nodes: Seq<(Seq<char>, Option<Seq<char>>)>) -> Seq<Seq<char>>
    decreases nodes.len(),
{
    if nodes.len() == 0 {
        Seq::empty()
    } else {
        let before = version_texts(nodes.drop_last());
        match nodes.last().1 {
            Some(text) => if nodes.last().0 == "version"@ {
                before.push(text)
            } else {
                before
            },
            None => before,
        }
    }
}

/// The versions that a list of nodes names: the text of every node whose
/// tag is `version`.
pub fn versions_among(nodes: &Vec<XmlNode>) -> (versions: Vec<String>)
    ensures
        texts(versions@) == version_texts(node_views(nodes@)),
{
    let mut versions: Vec<String> = Vec::new();
    let mut i: usize = 0;
    assert(texts(versions@) =~= Seq::<Seq<char>>::empty());
    assert(node_views(nodes@.take(0)) =~= Seq::empty());
    while i < nodes.len()
        invariant
            i <= nodes@.len(),
            texts(versions@) == version_texts(node_views(nodes@.take(i as int))),
        decreases nodes@.len() - i,
    {
        let ghost before = texts(versions@);
        assert(node_views(nodes@.take(i + 1)).drop_last() =~= node_views(nodes@.take(i as int)));
        assert(node_views(nodes@.take(i + 1)).last() == (
            nodes@[i as int].tag@,
            text_of(nodes@[i as int].text),
        ));
        if nodes[i].tag.as_str().eq("version") {
            match &nodes[i].text {
                Some(text) => {
                    versions.push(text.clone());
                    assert(texts(versions@) =~= before.push(text@));
                },
                None => {},
            }
        }
        i += 1;
    }
    assert(nodes@.take(i as int) =~= nodes@);
    versions
}

/// The versions of an installer that the metadata `xml` lists, in the
/// order of the document.
pub fn installer_versions(xml: &str) -> (listed: Result<Vec<String>, McError>)
    ensures
        match listed {
            Ok(versions) => xml_nodes(xml@) is Some && texts(versions@) == version_texts(
                xml_nodes(xml@)->0,
            ),
            Err(error) => xml_nodes(xml@) is None && error is XML,
        },
{
    match parse_nodes(xml) {
        Ok(nodes) => Ok(versions_among(&nodes)),
        Err(error) => Err(McError::XML(error)),
    }
}

/// An installer: the one that runs everywhere, or the native one of an
/// architecture.
pub enum InstallerVariant {
    Universal,
    Native(String),
}

impl InstallerVariant {
    /// The address of the list of the installer's versions.
    pub open spec fn metadata_url(&self) -> Seq<char> {
        match self {
            InstallerVariant::Universal => QUILT_MAVEN_URL@ + QUILT_INSTALLER_UNIVERSAL_PATH@
                + METADATA@,
            InstallerVariant::Native(arch) => QUILT_MAVEN_URL@ + QUILT_INSTALLER_NATIVE_PATH@
                + arch@ + "/"@ + METADATA@,
        }
    }

    /// What the name of a native installer's file ends with.
    pub open spec fn extension(arch: Seq<char>) -> Seq<char> {
        if "windows"@.is_prefix_of(arch) {
            ".exe"@
        } else {
            ""@
        }
    }

    /// The address of the installer's file for `version`.
    pub open spec fn artifact_url(&self, version: Seq<char>) -> Seq<char> {
        match self {
            InstallerVariant::Universal => QUILT_MAVEN_URL@ + QUILT_INSTALLER_UNIVERSAL_PATH@
                + "/"@ + version + "/quilt-installer-"@ + version + ".jar"@,
            InstallerVariant::Native(arch) => QUILT_MAVEN_URL@ + QUILT_INSTALLER_NATIVE_PATH@
                + "/"@ + arch@ + "/"@ + version + "/"@ + arch@ + "-"@ + version + Self::extension(
                arch@,
            ),
        }
    }

    #[must_use]
    pub fn get_metadata_url(&self) -> (url: String)
        ensures
            url@ == self.metadata_url(),
    {
        let mut url = String::from_str(QUILT_MAVEN_URL);
        match self {
            Self::Universal => {
                url.append(QUILT_INSTALLER_UNIVERSAL_PATH);
            },
            Self::Native(arch) => {
                url.append(QUILT_INSTALLER_NATIVE_PATH);
                url.append(arch.as_str());
                url.append("/");
            },
        }
        url.append(METADATA);
        url
    }

    #[must_use]
    pub fn get_artifact_url(&self, version: &str) -> (url: String)
        ensures
            url@ == self.artifact_url(version@),
    {
        let mut url = String::from_str(QUILT_MAVEN_URL);
        match self {
            Self::Universal => {
                url.append(QUILT_INSTALLER_UNIVERSAL_PATH);
                url.append("/");
                url.append(version);
                url.append("/quilt-installer-");
                url.append(version);
                url.append(".jar");
            },
            Self::Native(arch) => {
                let ext = if starts_with(arch.as_str(), "windows") {
                    ".exe"
                } else {
                    ""
                };
                url.append(QUILT_INSTALLER_NATIVE_PATH);
                url.append("/");
                url.append(arch.as_str());
                url.append("/");
                url.append(version);
                url.append("/");
                url.append(arch.as_str());
                url.append("-");
                url.append(version);
                url.append(ext);
            },
        }
        url
    }
}

/// The address of the list of game versions that Quilt supports.
pub fn supported_versions_url() -> (url: String)
    ensures
        url@ == QUILT_META_URL@ + "/v3/versions/game"@,
{
    let mut url = String::from_str(QUILT_META_URL);
    url.append("/v3/versions/game");
    url
}

/// The address of the list of loaders.
pub fn loaders_url() -> (url: String)
    ensures
        url@ == QUILT_META_URL@ + "/v3/versions/loader"@,
{
    let mut url = String::from_str(QUILT_META_URL);
    url.append("/v3/versions/loader");
    url
}

/// The address of the list of installers.
pub fn installers_url() -> (url: String)
    ensures
        url@ == QUILT_META_URL@ + "/v3/versions/installer"@,
{
    let mut url = String::from_str(QUILT_META_URL);
    url.append("/v3/versions/installer");
    url
}

} // verus!
