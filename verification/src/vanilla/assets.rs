//! The index of the game's assets.

use crate::table::StringTable;
use vstd::prelude::*;
use vstd::string::{StrSliceExecFns, StringExecFns};

verus! {

/// Where the assets are downloaded from.
pub const RESOURCES_URL: &'static str = "https://resources.download.minecraft.net";

#[derive(Debug)]
pub struct MCAssetIndex {
    pub map_to_resources: bool,
    pub objects: StringTable<MCAsset>,
}

#[derive(Debug)]
pub struct MCAsset {
    pub hash: String,
    pub size: u64,
}

impl MCAsset {
    /// The characters that the first two bytes of `hash` spell: two
    /// characters of one byte each, or one of two bytes. `None` where the
    /// hash is shorter, or where its second byte ends no character.
    pub open spec fn directory(hash: Seq<char>) -> Option<Seq<char>> {
        if hash.len() >= 2 && (hash[0] as u32) < 0x80 && (hash[1] as u32) < 0x80 {
            Some(hash.subrange(0, 2))
        } else if hash.len() >= 1 && 0x80 <= (hash[0] as u32) < 0x800 {
            Some(hash.subrange(0, 1))
        } else {
            None
        }
    }

    /// The path of the asset below the download address: the directory
    /// named by the start of the hash, then the hash.
    pub open spec fn path(&self) -> Seq<char> {
        Self::directory(self.hash@)->0 + "/"@ + self.hash@
    }

    /// Get the url for downloading this asset.
    #[must_use]
    pub fn get_url(&self) -> (url: String)
        requires
            Self::directory(self.hash@) is Some,
        ensures
            url@ == RESOURCES_URL@ + "/"@ + self.path(),
    {
        let mut url = String::from_str(RESOURCES_URL);
        url.append("/");
        let path = self.get_path();
        url.append(path.as_str());
        url
    }

    /// Get the path for this asset - no slashes at beginning or end.
    #[must_use]
    pub fn get_path(&self) -> (path: String)
        requires
            Self::directory(self.hash@) is Some,
        ensures
            path@ == self.path(),
    {
        let hash = self.hash.as_str();
        let first = hash.get_char(0);
        let mut path = String::new();
        path.push(first);
        if (first as u32) < 0x80 {
            path.push(hash.get_char(1));
        }
        assert(path@ =~= Self::directory(self.hash@)->0);
        path.append("/");
        path.append(hash);
        path
    }
}

} // verus!
