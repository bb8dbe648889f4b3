//! The older metadata shape: no type registry, every type is written out as
//! its name, and calls, events and errors are explicit lists.
use vstd::prelude::*;
use crate::common::strings;
pub use crate::common::{StorageEntryModifier, StorageHasher};

verus! {

/// The type of a storage entry; each type is given by its name.
#[derive(Clone, Debug)]
pub enum StorageEntryType {
    /// A single value.
    Plain(String),
    /// A map with a single key.
    SingleMap {
        hasher: StorageHasher,
        key: String,
        value: String,
        /// Kept for the layout of the encoding; always false.
        unused: bool,
    },
    /// A map with two keys, each with its own hasher.
    DoubleMap {
        hasher: StorageHasher,
        key1: String,
        key2: String,
        value: String,
        key2_hasher: StorageHasher,
    },
    /// A map with any number of keys, each with its own hasher.
    NMap { keys: Vec<String>, hashers: Vec<StorageHasher>, value: String },
}

pub enum StorageEntryTypeView {
    Plain(Seq<char>),
    SingleMap { hasher: StorageHasher, key: Seq<char>, value: Seq<char>, unused: bool },
    DoubleMap {
        hasher: StorageHasher,
        key1: Seq<char>,
        key2: Seq<char>,
        value: Seq<char>,
        key2_hasher: StorageHasher,
    },
    NMap { keys: Seq<Seq<char>>, hashers: Seq<StorageHasher>, value: Seq<char> },
}

impl View for StorageEntryType {
    type V = StorageEntryTypeView;

    open spec fn view(&self) -> StorageEntryTypeView {
        match self {
            StorageEntryType::Plain(v) => StorageEntryTypeView::Plain(v@),
            StorageEntryType::SingleMap { hasher, key, value, unused } => StorageEntryTypeView::SingleMap {
                hasher: *hasher,
                key: key@,
                value: value@,
                unused: *unused,
            },
            StorageEntryType::DoubleMap { hasher, key1, key2, value, key2_hasher } => StorageEntryTypeView::DoubleMap {
                hasher: *hasher,
                key1: key1@,
                key2: key2@,
                value: value@,
                key2_hasher: *key2_hasher,
            },
            StorageEntryType::NMap { keys, hashers, value } => StorageEntryTypeView::NMap {
                keys: strings(keys@),
                hashers: hashers@,
                value: value@,
            },
        }
    }
}

/// One storage entry.
#[derive(Clone, Debug)]
pub struct StorageEntryMetadata {
    pub name: String,
    pub modifier: StorageEntryModifier,
    pub ty: StorageEntryType,
    /// Default value (SCALE encoded).
    pub default: Vec<u8>,
    pub documentation: Vec<String>,
}

pub struct StorageEntryMetadataView {
    pub name: Seq<char>,
    pub modifier: StorageEntryModifier,
    pub ty: StorageEntryTypeView,
    pub default: Seq<u8>,
    pub documentation: Seq<Seq<char>>,
}

impl View for StorageEntryMetadata {
    type V = StorageEntryMetadataView;

    open spec fn view(&self) -> StorageEntryMetadataView {
        StorageEntryMetadataView {
            name: self.name@,
            modifier: self.modifier,
            ty: self.ty@,
            default: self.default@,
            documentation: strings(self.documentation@),
        }
    }
}

/// The storage of a module.
#[derive(Clone, Debug)]
pub struct StorageMetadata {
    /// The common prefix of all its entries.
    pub prefix: String,
    pub entries: Vec<StorageEntryMetadata>,
}

pub struct StorageMetadataView {
    pub prefix: Seq<char>,
    pub entries: Seq<StorageEntryMetadataView>,
}

impl View for StorageMetadata {
    type V = StorageMetadataView;

    open spec fn view(&self) -> StorageMetadataView {
        StorageMetadataView {
            prefix: self.prefix@,
            entries: self.entries@.map_values(|e: StorageEntryMetadata| e@),
        }
    }
}

/// An argument of a call: its name and the name of its type.
#[derive(Clone, Debug)]
pub struct FunctionArgumentMetadata {
    pub name: String,
    pub ty: String,
}

pub struct FunctionArgumentMetadataView {
    pub name: Seq<char>,
    pub ty: Seq<char>,
}

impl View for FunctionArgumentMetadata {
    type V = FunctionArgumentMetadataView;

    open spec fn view(&self) -> FunctionArgumentMetadataView {
        FunctionArgumentMetadataView { name: self.name@, ty: self.ty@ }
    }
}

/// A call of a module.
#[derive(Clone, Debug)]
pub struct FunctionMetadata {
    pub name: String,
    pub arguments: Vec<FunctionArgumentMetadata>,
    pub documentation: Vec<String>,
}

pub struct FunctionMetadataView {
    pub name: Seq<char>,
    pub arguments: Seq<FunctionArgumentMetadataView>,
    pub documentation: Seq<Seq<char>>,
}

impl View for FunctionMetadata {
    type V = FunctionMetadataView;

    open spec fn view(&self) -> FunctionMetadataView {
        FunctionMetadataView {
            name: self.name@,
            arguments: self.arguments@.map_values(|a: FunctionArgumentMetadata| a@),
            documentation: strings(self.documentation@),
        }
    }
}

/// An event of a module: its name and the type names of its arguments.
#[derive(Clone, Debug)]
pub struct EventMetadata {
    pub name: String,
    pub arguments: Vec<String>,
    pub documentation: Vec<String>,
}

pub struct EventMetadataView {
    pub name: Seq<char>,
    pub arguments: Seq<Seq<char>>,
    pub documentation: Seq<Seq<char>>,
}

impl View for EventMetadata {
    type V = EventMetadataView;

    open spec fn view(&self) -> EventMetadataView {
        EventMetadataView {
            name: self.name@,
            arguments: strings(self.arguments@),
            documentation: strings(self.documentation@),
        }
    }
}

/// A constant of a module.
#[derive(Clone, Debug)]
pub struct ModuleConstantMetadata {
    pub name: String,
    pub ty: String,
    /// The value (SCALE encoded).
    pub value: Vec<u8>,
    pub documentation: Vec<String>,
}

pub struct ModuleConstantMetadataView {
    pub name: Seq<char>,
    pub ty: Seq<char>,
    pub value: Seq<u8>,
    pub documentation: Seq<Seq<char>>,
}

impl View for ModuleConstantMetadata {
    type V = ModuleConstantMetadataView;

    open spec fn view(&self) -> ModuleConstantMetadataView {
        ModuleConstantMetadataView {
            name: self.name@,
            ty: self.ty@,
            value: self.value@,
            documentation: strings(self.documentation@),
        }
    }
}

/// An error of a module.
#[derive(Clone, Debug)]
pub struct ErrorMetadata {
    pub name: String,
    pub documentation: Vec<String>,
}

pub struct ErrorMetadataView {
    pub name: Seq<char>,
    pub documentation: Seq<Seq<char>>,
}

impl View for ErrorMetadata {
    type V = ErrorMetadataView;

    open spec fn view(&self) -> ErrorMetadataView {
        ErrorMetadataView { name: self.name@, documentation: strings(self.documentation@) }
    }
}

/// One module (pallet).
#[derive(Clone, Debug)]
pub struct ModuleMetadata {
    pub name: String,
    pub storage: Option<StorageMetadata>,
    pub calls: Option<Vec<FunctionMetadata>>,
    pub event: Option<Vec<EventMetadata>>,
    pub constants: Vec<ModuleConstantMetadata>,
    pub errors: Vec<ErrorMetadata>,
    /// The index of the module in the runtime.
    pub index: u8,
}

pub struct ModuleMetadataView {
    pub name: Seq<char>,
    pub storage: Option<StorageMetadataView>,
    pub calls: Option<Seq<FunctionMetadataView>>,
    pub event: Option<Seq<EventMetadataView>>,
    pub constants: Seq<ModuleConstantMetadataView>,
    pub errors: Seq<ErrorMetadataView>,
    pub index: u8,
}

impl View for ModuleMetadata {
    type V = ModuleMetadataView;

    open spec fn view(&self) -> ModuleMetadataView {
        ModuleMetadataView {
            name: self.name@,
            storage: match self.storage {
                Some(s) => Some(s@),
                None => None,
            },
            calls: match self.calls {
                Some(c) => Some(c@.map_values(|f: FunctionMetadata| f@)),
                None => None,
            },
            event: match self.event {
                Some(e) => Some(e@.map_values(|x: EventMetadata| x@)),
                None => None,
            },
            constants: self.constants@.map_values(|c: ModuleConstantMetadata| c@),
            errors: self.errors@.map_values(|e: ErrorMetadata| e@),
            index: self.index,
        }
    }
}

/// The extrinsic format: its version and its signed extensions by name.
#[derive(Clone, Debug)]
pub struct ExtrinsicMetadata {
    pub version: u8,
    pub signed_extensions: Vec<String>,
}

pub struct ExtrinsicMetadataView {
    pub version: u8,
    pub signed_extensions: Seq<Seq<char>>,
}

impl View for ExtrinsicMetadata {
    type V = ExtrinsicMetadataView;

    open spec fn view(&self) -> ExtrinsicMetadataView {
        ExtrinsicMetadataView {
            version: self.version,
            signed_extensions: strings(self.signed_extensions@),
        }
    }
}

/// Runtime metadata in the older shape.
#[derive(Clone, Debug)]
pub struct RuntimeMetadataV13 {
    pub modules: Vec<ModuleMetadata>,
    pub extrinsic: ExtrinsicMetadata,
}

pub struct RuntimeMetadataV13View {
    pub modules: Seq<ModuleMetadataView>,
    pub extrinsic: ExtrinsicMetadataView,
}

impl View for RuntimeMetadataV13 {
    type V = RuntimeMetadataV13View;

    open spec fn view(&self) -> RuntimeMetadataV13View {
        RuntimeMetadataV13View {
            modules: self.modules@.map_values(|m: ModuleMetadata| m@),
            extrinsic: self.extrinsic@,
        }
    }
}

} // verus!
