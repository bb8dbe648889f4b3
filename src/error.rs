use vstd::prelude::*;

verus! {

/// Why a conversion from the newer metadata shape to the older one failed.
#[derive(Clone, Copy, Debug, PartialEq, Eq, Structural)]
pub enum ConvertError {
    /// A type identifier does not resolve in the registry.
    TypeNotFound(u32),
    /// A composite or variant type has no path, so it has no name to render.
    MissingTypeName(u32),
    /// The structure of a type nests deeper than the registry has types,
    /// which only a cycle among its sequence, array, tuple, compact and
    /// bit-sequence types can cause.
    NestingTooDeep(u32),
    /// A call, event or error type did not resolve to an enum type.
    NotAVariant(u32),
    /// A call argument has no name.
    UnnamedField,
    /// A storage map with two hashers has a key that is not a pair.
    KeyArityMismatch,
    /// A storage map declares no hasher at all.
    NoHashers,
    /// Only conversion from the newest version to the one before it is provided.
    UnsupportedVersion(u32),
}

} // verus!

verus! {

/// Why metadata cannot be used by [`crate::metadata::Metadata`].
#[derive(Clone, Copy, Debug, PartialEq, Eq, Structural)]
pub enum Error {
    /// The metadata has another version than the one expected.
    InvalidMetadataVersion {
        /// The version expected.
        expected: u32,
        /// The version received.
        got: u32,
    },
}

} // verus!
