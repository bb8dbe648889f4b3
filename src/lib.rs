//! Runtime metadata of a blockchain node: the newer shape, in which types
//! live in a registry, the older shape, in which they are written out by
//! name, and the conversion from the first to the second.
use vstd::prelude::*;

pub mod api;
pub mod common;
pub mod convert;
pub mod decode_different;
pub mod error;
pub mod ident;
pub mod laws;
pub mod metadata;
pub mod registry;
pub mod runtime;
pub mod v13;
pub mod v14;

pub use api::supported_versions;
pub use convert::v14_to_v13;
pub use runtime::backwards;
pub use runtime::{RuntimeMetadata, RuntimeMetadataPrefixed, META_RESERVED};

verus! {

} // verus!
