//! What the Fabric meta service reports.

use vstd::prelude::*;
use vstd::string::StringExecFns;

verus! {

/// Where the Fabric meta service answers.
pub const FABRIC_META_URL: &'static str = "https://meta.fabricmc.net";

#[derive(Debug, Clone)]
pub struct FabricVersion {
    pub version: String,
    pub stable: bool,
}

#[derive(Debug, Clone)]
pub struct FabricLoader {
    pub separator: String,
    pub build: i64,
    pub maven: String,
    pub version: String,
    pub stable: bool,
}

#[derive(Debug, Clone)]
pub struct FabricInstaller {
    pub url: String,
    pub maven: String,
    pub version: String,
    pub stable: bool,
}

/// The address of the list of game versions that Fabric supports.
pub fn supported_versions_url() -> (url: String)
    ensures
        url@ == FABRIC_META_URL@ + "/v2/versions/game"@,
{
    let mut url = String::from_str(FABRIC_META_URL);
    url.append("/v2/versions/game");
    url
}

/// The address of the list of loaders.
pub fn loaders_url() -> (url: String)
    ensures
        url@ == FABRIC_META_URL@ + "/v2/versions/loader"@,
{
    let mut url = String::from_str(FABRIC_META_URL);
    url.append("/v2/versions/loader");
    url
}

/// The address of the list of installers.
pub fn installers_url() -> (url: String)
    ensures
        url@ == FABRIC_META_URL@ + "/v2/versions/installer"@,
{
    let mut url = String::from_str(FABRIC_META_URL);
    url.append("/v2/versions/installer");
    url
}

/// The address of the server jar for a game version, a loader and an
/// installer.
pub fn server_jar_url(game_version: &str, loader_version: &str, installer_version: &str) -> (url: String)
    ensures
        url@ == FABRIC_META_URL@ + "/v2/versions/loader/"@ + game_version@ + "/"@ + loader_version@ + "/"@ + installer_version@ + "/server/jar"@,
{
    let mut url = String::from_str(FABRIC_META_URL);
    url.append("/v2/versions/loader/");
    url.append(game_version);
    url.append("/");
    url.append(loader_version);
    url.append("/");
    url.append(installer_version);
    url.append("/server/jar");
    url
}

} // verus!
