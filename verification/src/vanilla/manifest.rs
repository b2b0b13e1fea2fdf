//! The list of all versions of the game.

use vstd::prelude::*;

verus! {

/// The version manifest.
#[derive(Debug, Clone)]
pub struct VersionManifest {
    pub latest: LatestVersions,
    pub versions: Vec<VersionIndex>,
}

#[derive(Debug, Clone)]
pub struct LatestVersions {
    pub release: String,
    pub snapshot: String,
}

/// One entry of the manifest's list of versions.
#[derive(Debug)]
pub struct VersionIndex {
    pub id: String,
    pub version_type: VersionType,
    pub url: String,
    pub time: String,
    pub release_time: String,
    pub sha1: String,
    pub compliance_level: u8,
}

#[derive(Debug, Clone, Copy, PartialEq, Eq)]
pub enum VersionType {
    Release,
    Snapshot,
    OldAlpha,
    OldBeta,
}

impl Clone for VersionIndex {
    fn clone(&self) -> (copy: Self)
        ensures
            copy == *self,
    {
        VersionIndex {
            id: self.id.clone(),
            version_type: self.version_type,
            url: self.url.clone(),
            time: self.time.clone(),
            release_time: self.release_time.clone(),
            sha1: self.sha1.clone(),
            compliance_level: self.compliance_level,
        }
    }
}

impl VersionManifest {
    /// The first version in the list whose id is `id`.
    pub open spec fn first_with_id(versions: Seq<VersionIndex>, id: Seq<char>) -> Option<
        VersionIndex,
    >
        decreases versions.len(),
    {
        if versions.len() == 0 {
            None
        } else if versions.last().id@ == id && Self::first_with_id(versions.drop_last(), id)
            is None {
            Some(versions.last())
        } else {
            Self::first_with_id(versions.drop_last(), id)
        }
    }

    /// Find the version with id from the list.
    #[must_use]
    pub fn find(&self, id: &str) -> (found: Option<VersionIndex>)
        ensures
            found == Self::first_with_id(self.versions@, id@),
            found matches Some(v) ==> v.id@ == id@,
            found is None <==> forall|i: int|
                0 <= i < self.versions@.len() ==> (#[trigger] self.versions@[i]).id@ != id@,
    {
        let mut i: usize = 0;
        while i < self.versions.len()
            invariant
                i <= self.versions@.len(),
                Self::first_with_id(self.versions@.take(i as int), id@) is None,
                forall|j: int| 0 <= j < i ==> (#[trigger] self.versions@[j]).id@ != id@,
            decreases self.versions@.len() - i,
        {
            assert(self.versions@.take(i + 1).drop_last() =~= self.versions@.take(i as int));
            if self.versions[i].id.as_str().eq(id) {
                proof {
                    Self::lemma_first_stays(self.versions@, id@, i + 1);
                }
                return Some(self.versions[i].clone());
            }
            i += 1;
        }
        assert(self.versions@.take(i as int) =~= self.versions@);
        None
    }

    /// Once a prefix of the list holds the id, the answer no longer changes.
    pub proof fn lemma_first_stays(versions: Seq<VersionIndex>, id: Seq<char>, k: int)
        requires
            0 <= k <= versions.len(),
            Self::first_with_id(versions.take(k), id) is Some,
        ensures
            Self::first_with_id(versions, id) == Self::first_with_id(versions.take(k), id),
        decreases versions.len() - k,
    {
        if k == versions.len() {
            assert(versions.take(k) =~= versions);
        } else {
            assert(versions.take(k + 1).drop_last() =~= versions.take(k));
            Self::lemma_first_stays(versions, id, k + 1);
        }
    }
}

} // verus!
