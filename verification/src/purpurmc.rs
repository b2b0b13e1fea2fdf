//! What the PurpurMC service reports about versions and builds.

use vstd::prelude::*;
use vstd::string::StringExecFns;

verus! {

/// Where the PurpurMC service answers.
pub const PURPURMC_URL: &'static str = "https://api.purpurmc.org/v2";

#[derive(Debug, Clone)]
pub struct PurpurVersion {
    pub project: String,
    pub version: String,
    pub builds: PurpurBuilds<PurpurBuild>,
}

#[derive(Debug, Clone)]
pub struct PurpurVersionShort {
    pub project: String,
    pub version: String,
    pub builds: PurpurBuilds<String>,
}

/// The builds of a version: the latest, and all of them.
#[derive(Debug, Clone)]
pub struct PurpurBuilds<T> {
    pub latest: T,
    pub all: Vec<T>,
}

#[derive(Debug)]
pub struct PurpurBuild {
    pub project: String,
    pub version: String,
    pub build: String,
    pub result: String,
    pub timestamp: i64,
    pub duration: i64,
    pub commits: Vec<PurpurCommit>,
    pub md5: String,
}

#[derive(Debug)]
pub struct PurpurCommit {
    pub author: String,
    pub email: String,
    pub description: String,
    pub hash: String,
    pub timestamp: i64,
}

impl Clone for PurpurCommit {
    fn clone(&self) -> (copy: Self)
        ensures
            copy == *self,
    {
        PurpurCommit {
            author: self.author.clone(),
            email: self.email.clone(),
            description: self.description.clone(),
            hash: self.hash.clone(),
            timestamp: self.timestamp,
        }
    }
}

impl PurpurBuild {
    /// `other` says of a build what `self` says: the same fields and the
    /// same commits in the same order.
    pub open spec fn agrees(&self, other: &PurpurBuild) -> bool {
        &&& self.project == other.project
        &&& self.version == other.version
        &&& self.build == other.build
        &&& self.result == other.result
        &&& self.timestamp == other.timestamp
        &&& self.duration == other.duration
        &&& self.commits@ == other.commits@
        &&& self.md5 == other.md5
    }
}

impl Clone for PurpurBuild {
    fn clone(&self) -> (copy: Self)
        ensures
            copy.agrees(self),
    {
        let mut commits: Vec<PurpurCommit> = Vec::new();
        let mut i: usize = 0;
        while i < self.commits.len()
            invariant
                i <= self.commits@.len(),
                commits@ == self.commits@.take(i as int),
            decreases self.commits@.len() - i,
        {
            commits.push(self.commits[i].clone());
            i += 1;
            assert(commits@ =~= self.commits@.take(i as int));
        }
        assert(self.commits@.take(i as int) =~= self.commits@);
        PurpurBuild {
            project: self.project.clone(),
            version: self.version.clone(),
            build: self.build.clone(),
            result: self.result.clone(),
            timestamp: self.timestamp,
            duration: self.duration,
            commits,
            md5: self.md5.clone(),
        }
    }
}

impl PurpurVersion {
    /// A copy of the latest build.
    #[must_use]
    pub fn get_latest_build(&self) -> (build: PurpurBuild)
        ensures
            build.agrees(&self.builds.latest),
    {
        self.builds.latest.clone()
    }

    /// The first of all builds whose id is `build_id`.
    #[must_use]
    pub fn get_build(&self, build_id: &str) -> (found: Option<&PurpurBuild>)
        ensures
            match found {
                Some(build) => exists|i: int|
                    0 <= i < self.builds.all@.len() && *build == #[trigger] self.builds.all@[i]
                        && build.build@ == build_id@ && forall|j: int|
                        0 <= j < i ==> (#[trigger] self.builds.all@[j]).build@ != build_id@,
                None => forall|j: int|
                    0 <= j < self.builds.all@.len() ==> (#[trigger] self.builds.all@[j]).build@
                        != build_id@,
            },
    {
        let mut i: usize = 0;
        while i < self.builds.all.len()
            invariant
                i <= self.builds.all@.len(),
                forall|j: int| 0 <= j < i ==> (#[trigger] self.builds.all@[j]).build@ != build_id@,
            decreases self.builds.all@.len() - i,
        {
            if self.builds.all[i].build.as_str().eq(build_id) {
                return Some(&self.builds.all[i]);
            }
            i += 1;
        }
        None
    }
}

impl PurpurVersionShort {
    /// The id of the latest build.
    #[must_use]
    pub fn get_latest_build_id(&self) -> (id: String)
        ensures
            id == self.builds.latest,
    {
        self.builds.latest.clone()
    }
}

/// The address of the list of versions.
pub fn versions_url() -> (url: String)
    ensures
        url@ == PURPURMC_URL@ + "/purpur"@,
{
    let mut url = String::from_str(PURPURMC_URL);
    url.append("/purpur");
    url
}

/// The address of a version with its builds in full.
pub fn version_url(version: &str) -> (url: String)
    ensures
        url@ == PURPURMC_URL@ + "/purpur/"@ + version@ + "?detailed=true"@,
{
    let mut url = String::from_str(PURPURMC_URL);
    url.append("/purpur/");
    url.append(version);
    url.append("?detailed=true");
    url
}

/// The address of a version with the ids of its builds.
pub fn version_short_url(version: &str) -> (url: String)
    ensures
        url@ == PURPURMC_URL@ + "/purpur/"@ + version@,
{
    let mut url = String::from_str(PURPURMC_URL);
    url.append("/purpur/");
    url.append(version);
    url
}

/// The address of a build.
pub fn build_url(version: &str, build_id: &str) -> (url: String)
    ensures
        url@ == PURPURMC_URL@ + "/purpur/"@ + version@ + "/"@ + build_id@,
{
    let mut url = String::from_str(PURPURMC_URL);
    url.append("/purpur/");
    url.append(version);
    url.append("/");
    url.append(build_id);
    url
}

/// The address of a build's file.
pub fn download_url(version: &str, build_id: &str) -> (url: String)
    ensures
        url@ == PURPURMC_URL@ + "/purpur/"@ + version@ + "/"@ + build_id@ + "/download"@,
{
    let mut url = String::from_str(PURPURMC_URL);
    url.append("/purpur/");
    url.append(version);
    url.append("/");
    url.append(build_id);
    url.append("/download");
    url
}

} // verus!
