//! Where Forge publishes its versions.

use vstd::prelude::*;

verus! {

/// The address of the list of Forge versions.
pub const FORGE_MANIFEST_URL: &'static str =
    "https://files.minecraftforge.net/net/minecraftforge/forge/maven-metadata.json";

} // verus!
