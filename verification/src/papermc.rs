//! What the PaperMC service reports about Paper, Folia, Velocity and
//! Waterfall.

use crate::table::StringTable;
use vstd::prelude::*;
use vstd::string::StringExecFns;

verus! {

#[derive(Debug)]
pub struct PaperVersion {
    pub project_id: String,
    pub project_name: String,
    pub version: String,
    pub builds: Vec<i32>,
}

#[derive(Debug)]
pub struct PaperBuild {
    pub project_id: String,
    pub project_name: String,
    pub version: String,
    pub build: i32,
    pub time: String,
    pub channel: PaperChannel,
    pub promoted: bool,
    pub changes: Vec<PaperChange>,
    pub downloads: StringTable<PaperDownload>,
}

#[derive(Debug)]
pub enum PaperChannel {
    Default,
    Experimental,
}

#[derive(Debug)]
pub struct PaperChange {
    pub commit: String,
    pub summary: String,
    pub message: String,
}

#[derive(Debug)]
pub struct PaperBuildsResponse {
    pub project_id: String,
    pub project_name: String,
    pub version: String,
    pub builds: Vec<PaperVersionBuild>,
}

#[derive(Debug)]
pub struct PaperDownload {
    pub name: String,
    pub sha256: String,
}

#[derive(Debug)]
pub struct PaperProject {
    pub project_id: String,
    pub project_name: String,
    pub version_groups: Vec<String>,
    pub versions: Vec<String>,
}

#[derive(Debug)]
pub struct PaperProjectsResponse {
    pub projects: Vec<String>,
}

#[derive(Debug)]
pub struct PaperVersionBuild {
    pub build: i32,
    pub time: String,
    pub channel: PaperChannel,
    pub promoted: bool,
    pub changes: Vec<PaperChange>,
    pub downloads: StringTable<PaperDownload>,
}

#[derive(Debug)]
pub struct PaperVersionFamily {
    pub project_id: String,
    pub project_name: String,
    pub version_group: String,
    pub versions: Vec<String>,
}

#[derive(Debug)]
pub struct PaperVersionFamilyBuildsResponse {
    pub project_id: String,
    pub project_name: String,
    pub version_group: String,
    pub versions: Vec<String>,
    pub builds: Vec<PaperVersionFamilyBuild>,
}

#[derive(Debug)]
pub struct PaperVersionFamilyBuild {
    pub version: String,
    pub build: i32,
    pub time: String,
    pub channel: PaperChannel,
    pub promoted: bool,
    pub changes: Vec<PaperChange>,
    pub downloads: StringTable<PaperDownload>,
}

/// Where the PaperMC service answers.
pub const PAPERMC_URL: &'static str = "https://api.papermc.io/v2";

/// The address of the list of projects.
pub fn projects_url() -> (url: String)
    ensures
        url@ == PAPERMC_URL@ + "/projects"@,
{
    let mut url = String::from_str(PAPERMC_URL);
    url.append("/projects");
    url
}

/// The address of the project `project_id`.
pub fn project_url(project_id: &str) -> (url: String)
    ensures
        url@ == PAPERMC_URL@ + "/projects/"@ + project_id@,
{
    let mut url = String::from_str(PAPERMC_URL);
    url.append("/projects/");
    url.append(project_id);
    url
}

/// The address of a version of a project.
pub fn version_url(project_id: &str, version: &str) -> (url: String)
    ensures
        url@ == PAPERMC_URL@ + "/projects/"@ + project_id@ + "/versions/"@ + version@,
{
    let mut url = String::from_str(PAPERMC_URL);
    url.append("/projects/");
    url.append(project_id);
    url.append("/versions/");
    url.append(version);
    url
}

/// The address of the list of a version's builds.
pub fn builds_url(project_id: &str, version: &str) -> (url: String)
    ensures
        url@ == PAPERMC_URL@ + "/projects/"@ + project_id@ + "/versions/"@ + version@ + "/builds"@,
{
    let mut url = String::from_str(PAPERMC_URL);
    url.append("/projects/");
    url.append(project_id);
    url.append("/versions/");
    url.append(version);
    url.append("/builds");
    url
}

/// The address of a build; `build` is the build's number in decimal.
pub fn build_url(project_id: &str, version: &str, build: &str) -> (url: String)
    ensures
        url@ == PAPERMC_URL@ + "/projects/"@ + project_id@ + "/versions/"@ + version@ + "/builds/"@ + build@,
{
    let mut url = String::from_str(PAPERMC_URL);
    url.append("/projects/");
    url.append(project_id);
    url.append("/versions/");
    url.append(version);
    url.append("/builds/");
    url.append(build);
    url
}

/// The address of the file `download` of a build; `build` is the build's
/// number in decimal.
pub fn download_url(project_id: &str, version: &str, build: &str, download: &str) -> (url: String)
    ensures
        url@ == PAPERMC_URL@ + "/projects/"@ + project_id@ + "/versions/"@ + version@ + "/builds/"@ + build@ + "/downloads/"@ + download@,
{
    let mut url = String::from_str(PAPERMC_URL);
    url.append("/projects/");
    url.append(project_id);
    url.append("/versions/");
    url.append(version);
    url.append("/builds/");
    url.append(build);
    url.append("/downloads/");
    url.append(download);
    url
}

/// The address of a group of versions.
pub fn version_group_url(project_id: &str, family: &str) -> (url: String)
    ensures
        url@ == PAPERMC_URL@ + "/projects/"@ + project_id@ + "/version_group/"@ + family@,
{
    let mut url = String::from_str(PAPERMC_URL);
    url.append("/projects/");
    url.append(project_id);
    url.append("/version_group/");
    url.append(family);
    url
}

/// The address of the list of builds of a group of versions.
pub fn version_group_builds_url(project_id: &str, family: &str) -> (url: String)
    ensures
        url@ == PAPERMC_URL@ + "/projects/"@ + project_id@ + "/version_group/"@ + family@ + "/builds"@,
{
    let mut url = String::from_str(PAPERMC_URL);
    url.append("/projects/");
    url.append(project_id);
    url.append("/version_group/");
    url.append(family);
    url.append("/builds");
    url
}

} // verus!
