//! A portable type registry: a flat table of type descriptions in which a
//! type refers to another by its index (its id), never by a pointer.
use vstd::prelude::*;

verus! {

/// A primitive type.
#[derive(Clone, Copy, Debug, PartialEq, Eq, Structural)]
pub enum TypeDefPrimitive {
    Bool,
    Char,
    Str,
    U8,
    U16,
    U32,
    U64,
    U128,
    U256,
    I8,
    I16,
    I32,
    I64,
    I128,
    I256,
}

/// A field of a composite type or of an enum variant.
#[derive(Clone, Debug)]
pub struct Field {
    /// The field's name, absent for a positional field.
    pub name: Option<String>,
    /// The id of the field's type.
    pub ty: u32,
    /// The name of the field's type as written in the source, if known.
    pub display_name: Option<String>,
    /// Documentation lines.
    pub docs: Vec<String>,
}

/// One alternative of an enum type.
#[derive(Clone, Debug)]
pub struct Variant {
    pub name: String,
    pub fields: Vec<Field>,
    pub index: u8,
    pub docs: Vec<String>,
}

/// The shape of a type.
#[derive(Clone, Debug)]
pub enum TypeDef {
    /// A struct.
    Composite(Vec<Field>),
    /// An enum.
    Variant(Vec<Variant>),
    /// A sequence of the type with the given id.
    Sequence(u32),
    /// An array of `len` elements of the type `type_param`.
    Array { len: u32, type_param: u32 },
    /// A tuple of the types with the given ids.
    Tuple(Vec<u32>),
    /// A primitive type.
    Primitive(TypeDefPrimitive),
    /// The compact encoding of the type with the given id.
    Compact(u32),
    /// A bit sequence stored in `bit_store_type`, in the order `bit_order_type`.
    BitSequence { bit_store_type: u32, bit_order_type: u32 },
}

/// A type: where it is declared, and its shape.
#[derive(Clone, Debug)]
pub struct Type {
    /// The segments of the path that declares the type; empty for types
    /// that have no declaration of their own (tuples, primitives, ...).
    pub path: Vec<String>,
    pub type_def: TypeDef,
    pub docs: Vec<String>,
}

/// All the types that metadata refers to; the id of a type is its index.
#[derive(Clone, Debug)]
pub struct PortableRegistry {
    pub types: Vec<Type>,
}

impl PortableRegistry {
    /// The type with the given id, if there is one.
    pub fn resolve(&self, id: u32) -> (r: Option<&Type>)
        ensures
            (id as int) < self.types@.len() ==> r == Some(&self.types@[id as int]),
            (id as int) >= self.types@.len() ==> r is None,
    {
        if (id as usize) < self.types.len() {
            Some(&self.types[id as usize])
        } else {
            None
        }
    }
}

} // verus!
