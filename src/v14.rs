//! The newer metadata shape: calls, events and errors are enum types of a
//! type registry, and a storage map gives its arity by its hasher count.
use vstd::prelude::*;
use crate::registry::PortableRegistry;
pub use crate::common::{StorageEntryModifier, StorageHasher};

verus! {

/// The type of a storage entry; each `u32` is a type id.
#[derive(Clone, Debug)]
pub enum StorageEntryType {
    /// A single value.
    Plain(u32),
    /// A map with one hasher for each part of its key.
    Keyed { hashers: Vec<StorageHasher>, key: u32, value: u32 },
    /// A map over the key parts of `keys`, with a hasher for each.
    NMap { keys: u32, hashers: Vec<StorageHasher>, value: u32 },
}

/// One storage entry.
#[derive(Clone, Debug)]
pub struct StorageEntryMetadata {
    pub name: String,
    pub modifier: StorageEntryModifier,
    pub ty: StorageEntryType,
    /// Default value (SCALE encoded).
    pub default: Vec<u8>,
    pub docs: Vec<String>,
}

/// The storage of a pallet.
#[derive(Clone, Debug)]
pub struct PalletStorageMetadata {
    /// The common prefix of all its entries.
    pub prefix: String,
    pub entries: Vec<StorageEntryMetadata>,
}

/// The calls of a pallet: the id of an enum type with one variant per call.
#[derive(Clone, Copy, Debug)]
pub struct PalletCallMetadata {
    pub ty: u32,
}

/// The events of a pallet: the id of an enum type with one variant per event.
#[derive(Clone, Copy, Debug)]
pub struct PalletEventMetadata {
    pub ty: u32,
}

/// A constant of a pallet.
#[derive(Clone, Debug)]
pub struct PalletConstantMetadata {
    pub name: String,
    pub ty: u32,
    /// The value (SCALE encoded).
    pub value: Vec<u8>,
    pub docs: Vec<String>,
}

/// The errors of a pallet: the id of an enum type with one variant per error.
#[derive(Clone, Copy, Debug)]
pub struct PalletErrorMetadata {
    pub ty: u32,
}

/// A signed extension of the extrinsic format.
#[derive(Clone, Debug)]
pub struct SignedExtensionMetadata {
    pub identifier: String,
    pub ty: u32,
    pub additional_signed: u32,
}

/// The extrinsic format of the runtime.
#[derive(Clone, Debug)]
pub struct ExtrinsicMetadata {
    pub ty: u32,
    pub version: u8,
    /// In the order they appear in the extrinsic.
    pub signed_extensions: Vec<SignedExtensionMetadata>,
}

/// One pallet.
#[derive(Clone, Debug)]
pub struct PalletMetadata {
    pub name: String,
    pub storage: Option<PalletStorageMetadata>,
    pub calls: Option<PalletCallMetadata>,
    pub event: Option<PalletEventMetadata>,
    pub constants: Vec<PalletConstantMetadata>,
    pub error: Option<PalletErrorMetadata>,
    pub index: u8,
}

/// Runtime metadata in the newer shape.
#[derive(Clone, Debug)]
pub struct RuntimeMetadataV14 {
    pub types: PortableRegistry,
    pub pallets: Vec<PalletMetadata>,
    pub extrinsic: ExtrinsicMetadata,
    /// The id of the runtime's own type.
    pub ty: u32,
}

} // verus!
