//! Items that the newer and the older metadata shapes share.
use vstd::prelude::*;

verus! {

/// Hasher used by storage maps.
#[derive(Clone, Copy, Debug, PartialEq, Eq, Structural)]
pub enum StorageHasher {
    /// 128-bit Blake2 hash.
    Blake2_128,
    /// 256-bit Blake2 hash.
    Blake2_256,
    /// 128-bit Blake2 concatenating multiple hashes.
    Blake2_128Concat,
    /// 128-bit XX hash.
    Twox128,
    /// 256-bit XX hash.
    Twox256,
    /// 64-bit XX hashes concatenation.
    Twox64Concat,
    /// Identity hashing (no hashing).
    Identity,
}

/// A storage entry modifier.
#[derive(Clone, Copy, Debug, PartialEq, Eq, Structural)]
pub enum StorageEntryModifier {
    /// The value may not be set.
    Optional,
    /// If the value is not set it will resolve to default value.
    Default,
}

/// The characters of each string, in order.
pub open spec fn strings(v: Seq<String>) -> Seq<Seq<char>> {
    v.map_values(|s: String| s@)
}

} // verus!
