//! What the Hangar service reports about projects and their versions.

use std::collections::{HashMap, HashSet};
use vstd::prelude::*;
use vstd::string::StringExecFns;

verus! {

#[derive(Debug, Default)]
pub struct Namespace {
    pub owner: String,
    pub slug: String,
}

#[derive(Debug, Default)]
pub struct ProjectStats {
    pub views: i64,
    pub downloads: i64,
    pub recent_views: i64,
    pub recent_downloads: i64,
    pub stars: i64,
    pub watchers: i64,
}

#[derive(Debug, Default)]
pub struct VersionStats {
    pub total_downloads: i64,
    pub platform_downloads: HashMap<Platform, i64>,
}

#[derive(Debug, Default)]
pub enum Category {
    AdminTools,
    Chat,
    DevTools,
    Economy,
    Gameplay,
    Games,
    Protection,
    RolePlaying,
    WorldManagement,
    Misc,
    #[default]
    Undefined,
}

#[derive(Debug, Default)]
pub enum Visibility {
    #[default]
    Public,
    New,
    NeedsChanges,
    NeedsApproval,
    SoftDelete,
}

#[derive(Debug)]
pub struct Project {
    pub created_at: String,
    pub name: String,
    pub namespace: Namespace,
    pub stats: ProjectStats,
    pub category: Category,
    pub last_updated: String,
    pub visibility: Visibility,
    pub avatar_url: String,
    pub description: String,
}

#[derive(Debug)]
pub struct ProjectSettings {
    pub links: Vec<LinkSection>,
    pub tags: Vec<String>,
    pub license: ProjectLicense,
    pub keywords: Vec<String>,
    pub sponsors: String,
    pub donation: ProjectDonation,
}

#[derive(Debug)]
pub struct ProjectDonation {
    pub enable: bool,
    pub subject: String,
}

#[derive(Debug)]
pub struct ProjectLicense {
    pub name: String,
    pub url: String,
    pub license_type: String,
}

#[derive(Debug)]
pub struct LinkSection {
    pub id: i64,
    pub link_type: LinkType,
    pub title: String,
    pub links: Vec<Link>,
}

#[derive(Debug)]
pub enum LinkType {
    Top,
    Sidebar,
}

#[derive(Debug)]
pub struct Link {
    pub id: i64,
    pub name: String,
    pub url: String,
}

#[derive(Debug)]
pub struct Pagination {
    pub limit: i64,
    pub offset: i64,
    pub count: i64,
}

#[derive(Debug)]
pub struct ProjectVersion {
    pub created_at: String,
    pub name: String,
    pub visibility: Visibility,
    pub description: String,
    pub stats: VersionStats,
    pub author: String,
    pub review_state: ReviewState,
    pub channel: ProjectChannel,
    pub pinned_status: PinnedStatus,
    pub downloads: HashMap<Platform, PlatformVersionDownload>,
    pub plugin_dependencies: HashMap<Platform, Vec<PluginDependency>>,
    pub platform_dependencies: HashMap<Platform, Vec<String>>,
    pub platform_dependencies_formatted: HashMap<Platform, String>,
}

#[derive(Debug)]
pub struct PluginDependency {
    pub name: String,
    pub required: bool,
    pub external_url: Option<String>,
    pub platform: Platform,
}

/// The server software that a version of a project runs on.
#[derive(Debug, PartialEq, Eq, Hash)]
pub enum Platform {
    Paper,
    Waterfall,
    Velocity,
}

impl Platform {
    /// The platform's name as the service writes it.
    pub open spec fn name(self) -> Seq<char> {
        match self {
            Platform::Paper => "PAPER"@,
            Platform::Waterfall => "WATERFALL"@,
            Platform::Velocity => "VELOCITY"@,
        }
    }

    /// The platform's name as the service writes it, in capitals.
    pub fn to_string(&self) -> (text: String)
        ensures
            text@ == self.name(),
    {
        match self {
            Self::Paper => String::from_str("PAPER"),
            Self::Waterfall => String::from_str("WATERFALL"),
            Self::Velocity => String::from_str("VELOCITY"),
        }
    }
}

#[derive(Debug)]
pub enum PlatformVersionDownload {
    Hangar { file_info: FileInfo, download_url: String },
    External { file_info: FileInfo, external_url: String },
}

#[derive(Debug)]
pub struct FileInfo {
    pub name: String,
    pub size_bytes: i64,
    pub sha256_hash: String,
}

#[derive(Debug)]
pub struct ProjectChannel {
    pub created_at: String,
    pub name: String,
    pub description: String,
    pub color: String,
    pub flags: HashSet<ChannelFlag>,
}

#[derive(Debug, PartialEq, Eq, Hash)]
pub enum ChannelFlag {
    Frozen,
    Unstable,
    Pinned,
    SendsNotifications,
}

#[derive(Debug, Default)]
pub enum PinnedStatus {
    Version,
    Channel,
    #[default]
    Unpinned,
}

#[derive(Debug)]
pub enum ReviewState {
    Unreviewed,
    Reviewed,
    UnderReview,
    PartiallyReviewed,
}

/// Which versions of a project to list.
#[derive(Debug)]
pub struct VersionsFilter {
    pub limit: i64,
    pub offset: i64,
    pub channel: Option<String>,
    pub platform: Option<String>,
    pub platform_version: Option<String>,
}

impl Default for VersionsFilter {
    /// The first 25 versions, of every channel and platform.
    fn default() -> (filter: Self)
        ensures
            filter.limit == 25,
            filter.offset == 0,
            filter.channel is None,
            filter.platform is None,
            filter.platform_version is None,
    {
        Self { limit: 25, offset: 0, channel: None, platform: None, platform_version: None }
    }
}

#[derive(Debug)]
pub struct ProjectVersionsResponse {
    pub pagination: Pagination,
    pub result: Vec<ProjectVersion>,
}

/// Where the Hangar service answers.
pub const API_V1: &'static str = "https://hangar.papermc.io/api/v1";

/// The address of the project `id`.
pub fn project_url(id: &str) -> (url: String)
    ensures
        url@ == API_V1@ + "/projects/"@ + id@,
{
    let mut url = String::from_str(API_V1);
    url.append("/projects/");
    url.append(id);
    url
}

/// The address of the list of the project's versions.
pub fn project_versions_url(id: &str) -> (url: String)
    ensures
        url@ == API_V1@ + "/projects/"@ + id@ + "/versions"@,
{
    let mut url = String::from_str(API_V1);
    url.append("/projects/");
    url.append(id);
    url.append("/versions");
    url
}

/// The address of the project's version `name`.
pub fn project_version_url(id: &str, name: &str) -> (url: String)
    ensures
        url@ == API_V1@ + "/projects/"@ + id@ + "/versions/"@ + name@,
{
    let mut url = String::from_str(API_V1);
    url.append("/projects/");
    url.append(id);
    url.append("/versions/");
    url.append(name);
    url
}

/// The address that names the project's latest version.
pub fn latest_version_url(id: &str) -> (url: String)
    ensures
        url@ == API_V1@ + "/projects/"@ + id@ + "/latest"@,
{
    let mut url = String::from_str(API_V1);
    url.append("/projects/");
    url.append(id);
    url.append("/latest");
    url
}

/// The address that names the project's latest release.
pub fn latest_release_url(id: &str) -> (url: String)
    ensures
        url@ == API_V1@ + "/projects/"@ + id@ + "/latestrelease"@,
{
    let mut url = String::from_str(API_V1);
    url.append("/projects/");
    url.append(id);
    url.append("/latestrelease");
    url
}

/// The address of the file of the project's version `name` for `platform`.
pub fn download_url(id: &str, name: &str, platform: &Platform) -> (url: String)
    ensures
        url@ == API_V1@ + "/projects/"@ + id@ + "/versions/"@ + name@ + "/"@ + platform.name() + "/download"@,
{
    let mut url = String::from_str(API_V1);
    url.append("/projects/");
    url.append(id);
    url.append("/versions/");
    url.append(name);
    url.append("/");
    url.append(platform.to_string().as_str());
    url.append("/download");
    url
}

} // verus!
