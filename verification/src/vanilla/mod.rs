//! The launcher metadata of the game: versions, libraries, assets, and the
//! rules that select among them for a host.

use vstd::prelude::*;

pub mod assets;
pub mod launch;
pub mod manifest;
pub mod rules;
pub mod version;

pub use crate::vanilla::assets::{MCAsset, MCAssetIndex, RESOURCES_URL};
pub use crate::vanilla::manifest::{LatestVersions, VersionIndex, VersionManifest, VersionType};
pub use crate::vanilla::rules::{HostFamily, PistonOs, PistonRuleMatcher};
pub use crate::vanilla::version::{
    ArgumentValue, LoggingInfoWrapper, PistonArgument, PistonArtifact, PistonFile, PistonLibrary,
    PistonRule, PistonRuleConstraintOS, PistonRuleConstraints, VersionArguments, VersionDownloads,
    VersionInfo, VersionJavaInfo, VersionLoggingInfo,
};

verus! {

/// Where the version manifest is published.
pub const VERSION_MANIFEST_URL: &'static str =
    "https://piston-meta.mojang.com/mc/game/version_manifest_v2.json";

} // verus!
