//! Runtime metadata of any version this library knows, and the step from
//! one version to the one before it.
use vstd::prelude::*;
use crate::convert::{runtime_metadata, v14_to_v13};
use crate::error::ConvertError;
use crate::v13;
use crate::v14;

verus! {

/// The magic number that prefixes encoded metadata ("meta").
pub const META_RESERVED: u32 = 0x6174656d;

/// Runtime metadata; the variant gives the version.
#[derive(Clone, Debug)]
pub enum RuntimeMetadata {
    V13(v13::RuntimeMetadataV13),
    V14(v14::RuntimeMetadataV14),
}

impl RuntimeMetadata {
    pub open spec fn spec_version(&self) -> u32 {
        match self {
            RuntimeMetadata::V13(_) => 13,
            RuntimeMetadata::V14(_) => 14,
        }
    }

    /// The version number of this metadata.
    pub fn version(&self) -> (r: u32)
        ensures
            r == self.spec_version(),
    {
        match self {
            RuntimeMetadata::V13(_) => 13,
            RuntimeMetadata::V14(_) => 14,
        }
    }
}

/// Metadata behind its prefix number.
#[derive(Clone, Debug)]
pub struct RuntimeMetadataPrefixed(pub u32, pub RuntimeMetadata);

/// Converts metadata of the newest version to the version before it,
/// keeping the prefix; any other version is refused.
pub fn backwards(metadata: RuntimeMetadataPrefixed) -> (r: Result<RuntimeMetadataPrefixed, ConvertError>)
    ensures
        match metadata.1 {
            RuntimeMetadata::V14(m) => match r {
                Ok(out) => {
                    &&& out.0 == metadata.0
                    &&& out.1 matches RuntimeMetadata::V13(old)
                    &&& runtime_metadata(m) == Ok::<v13::RuntimeMetadataV13View, ConvertError>(old@)
                },
                Err(e) => runtime_metadata(m) == Err::<v13::RuntimeMetadataV13View, ConvertError>(e),
            },
            _ => r == Err::<RuntimeMetadataPrefixed, ConvertError>(
                ConvertError::UnsupportedVersion(metadata.1.spec_version()),
            ),
        },
{
    let prefix = metadata.0;
    match metadata.1 {
        RuntimeMetadata::V14(m) => match v14_to_v13(m) {
            Ok(old) => Ok(RuntimeMetadataPrefixed(prefix, RuntimeMetadata::V13(old))),
            Err(e) => Err(e),
        },
        other => Err(ConvertError::UnsupportedVersion(other.version())),
    }
}

} // verus!
