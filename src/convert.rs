//! Conversion of metadata from the newer shape to the older one.
use vstd::prelude::*;
use crate::common::{strings, StorageHasher};
use crate::error::ConvertError;
use crate::ident::{
    decimal_string, ident, join, primitive_str, strip_config_prefix, tuple_idents, type_ident,
    without_config_prefix,
};
use crate::registry::{Field, Type, TypeDef, Variant};
use crate::v13;
use crate::v14;

verus! {

/// A result with its success value seen through its view.
pub open spec fn result_view<T: View>(r: Result<T, ConvertError>) -> Result<T::V, ConvertError> {
    match r {
        Ok(x) => Ok(x@),
        Err(e) => Err(e),
    }
}

/// A result holding a list, with each item seen through its view.
pub open spec fn results_view<T: View>(r: Result<Vec<T>, ConvertError>) -> Result<Seq<T::V>, ConvertError> {
    match r {
        Ok(v) => Ok(v@.map_values(|x: T| x@)),
        Err(e) => Err(e),
    }
}

/// `f` applied to each item of `s` in order: all the results if every
/// application succeeds, else the failure of the first that fails.
pub open spec fn collect<A, B>(s: Seq<A>, f: spec_fn(A) -> Result<B, ConvertError>) -> Result<Seq<B>, ConvertError>
    decreases s.len(),
{
    if s.len() == 0 {
        Ok(Seq::empty())
    } else {
        match collect(s.drop_last(), f) {
            Ok(pre) => match f(s.last()) {
                Ok(x) => Ok(pre.push(x)),
                Err(e) => Err(e),
            },
            Err(e) => Err(e),
        }
    }
}

/// Once a prefix fails, the whole sequence fails the same way.
proof fn lemma_collect_err<A, B>(s: Seq<A>, f: spec_fn(A) -> Result<B, ConvertError>, i: int)
    requires
        0 <= i <= s.len(),
        collect(s.take(i), f) is Err,
    ensures
        collect(s, f) == collect(s.take(i), f),
    decreases s.len() - i,
{
    if i < s.len() {
        assert(s.take(i + 1).drop_last() =~= s.take(i));
        lemma_collect_err(s, f, i + 1);
    } else {
        assert(s.take(i) =~= s);
    }
}

proof fn lemma_tuple_idents_err(types: Seq<Type>, ids: Seq<u32>, fuel: nat, i: int)
    requires
        0 <= i <= ids.len(),
        tuple_idents(types, ids.take(i), fuel) is Err,
    ensures
        tuple_idents(types, ids, fuel) == tuple_idents(types, ids.take(i), fuel),
    decreases ids.len() - i,
{
    if i < ids.len() {
        assert(ids.take(i + 1).drop_last() =~= ids.take(i));
        lemma_tuple_idents_err(types, ids, fuel, i + 1);
    } else {
        assert(ids.take(i) =~= ids);
    }
}

/// The name of a field's type: the name the source wrote for it, kept
/// inside `Compact<..>` when the type is a compact encoding, or else the
/// rendered name of the type itself.
pub open spec fn field_type_name(types: Seq<Type>, f: Field) -> Result<Seq<char>, ConvertError> {
    match f.display_name {
        Some(name) => if f.ty as int >= types.len() {
            Err(ConvertError::TypeNotFound(f.ty))
        } else if types[f.ty as int].type_def is Compact {
            Ok("Compact<"@ + name@ + ">"@)
        } else {
            Ok(name@)
        },
        None => ident(types, f.ty),
    }
}

/// The names of the parts of a storage key: of each element where the key
/// is a tuple, else of the key alone.
pub open spec fn key_idents(types: Seq<Type>, key: u32) -> Result<Seq<Seq<char>>, ConvertError> {
    if key as int >= types.len() {
        Err(ConvertError::TypeNotFound(key))
    } else {
        match types[key as int].type_def {
            TypeDef::Tuple(elems) => tuple_idents(types, elems@, types.len()),
            _ => match ident(types, key) {
                Ok(k) => Ok(seq![k]),
                Err(e) => Err(e),
            },
        }
    }
}

/// A storage entry type in the older shape: a map's hasher count decides
/// between a single map, a double map and an n-map.
pub open spec fn storage_entry_type(types: Seq<Type>, t: v14::StorageEntryType) -> Result<v13::StorageEntryTypeView, ConvertError> {
    match t {
        v14::StorageEntryType::Plain(value) => match ident(types, value) {
            Ok(v) => Ok(v13::StorageEntryTypeView::Plain(v)),
            Err(e) => Err(e),
        },
        v14::StorageEntryType::Keyed { hashers, key, value } => match key_idents(types, key) {
            Err(e) => Err(e),
            Ok(keys) => if hashers@.len() == 0 {
                Err(ConvertError::NoHashers)
            } else if hashers@.len() == 1 {
                match ident(types, key) {
                    Err(e) => Err(e),
                    Ok(k) => match ident(types, value) {
                        Err(e) => Err(e),
                        Ok(v) => Ok(v13::StorageEntryTypeView::SingleMap {
                            hasher: hashers@[0],
                            key: k,
                            value: v,
                            unused: false,
                        }),
                    },
                }
            } else if hashers@.len() == 2 {
                if keys.len() != 2 {
                    Err(ConvertError::KeyArityMismatch)
                } else {
                    match ident(types, value) {
                        Err(e) => Err(e),
                        Ok(v) => Ok(v13::StorageEntryTypeView::DoubleMap {
                            hasher: hashers@[0],
                            key1: keys[0],
                            key2: keys[1],
                            value: v,
                            key2_hasher: hashers@[1],
                        }),
                    }
                }
            } else {
                match ident(types, value) {
                    Err(e) => Err(e),
                    Ok(v) => Ok(v13::StorageEntryTypeView::NMap { keys, hashers: hashers@, value: v }),
                }
            },
        },
        v14::StorageEntryType::NMap { keys, hashers, value } => match key_idents(types, keys) {
            Err(e) => Err(e),
            Ok(ks) => match ident(types, value) {
                Err(e) => Err(e),
                Ok(v) => Ok(v13::StorageEntryTypeView::NMap { keys: ks, hashers: hashers@, value: v }),
            },
        },
    }
}

/// A storage entry in the older shape.
pub open spec fn storage_entry(types: Seq<Type>, e: v14::StorageEntryMetadata) -> Result<v13::StorageEntryMetadataView, ConvertError> {
    match storage_entry_type(types, e.ty) {
        Ok(ty) => Ok(v13::StorageEntryMetadataView {
            name: e.name@,
            modifier: e.modifier,
            ty,
            default: e.default@,
            documentation: strings(e.docs@),
        }),
        Err(err) => Err(err),
    }
}

pub open spec fn storage_entry_fn(types: Seq<Type>) -> spec_fn(v14::StorageEntryMetadata) -> Result<v13::StorageEntryMetadataView, ConvertError> {
    |e: v14::StorageEntryMetadata| storage_entry(types, e)
}

/// A pallet's storage in the older shape: the same prefix, each entry converted.
pub open spec fn pallet_storage(types: Seq<Type>, s: v14::PalletStorageMetadata) -> Result<v13::StorageMetadataView, ConvertError> {
    match collect(s.entries@, storage_entry_fn(types)) {
        Ok(entries) => Ok(v13::StorageMetadataView { prefix: s.prefix@, entries }),
        Err(e) => Err(e),
    }
}

/// A call argument: the field's name, which it must have, and its type's name.
pub open spec fn call_argument(types: Seq<Type>, f: Field) -> Result<v13::FunctionArgumentMetadataView, ConvertError> {
    match f.name {
        None => Err(ConvertError::UnnamedField),
        Some(name) => match field_type_name(types, f) {
            Ok(ty) => Ok(v13::FunctionArgumentMetadataView { name: name@, ty }),
            Err(e) => Err(e),
        },
    }
}

pub open spec fn call_argument_fn(types: Seq<Type>) -> spec_fn(Field) -> Result<v13::FunctionArgumentMetadataView, ConvertError> {
    |f: Field| call_argument(types, f)
}

/// A call: a variant of the call enum, with one argument per field.
pub open spec fn function(types: Seq<Type>, v: Variant) -> Result<v13::FunctionMetadataView, ConvertError> {
    match collect(v.fields@, call_argument_fn(types)) {
        Ok(arguments) => Ok(v13::FunctionMetadataView {
            name: v.name@,
            arguments,
            documentation: strings(v.docs@),
        }),
        Err(e) => Err(e),
    }
}

pub open spec fn function_fn(types: Seq<Type>) -> spec_fn(Variant) -> Result<v13::FunctionMetadataView, ConvertError> {
    |v: Variant| function(types, v)
}

/// The variants of enum type `id`, or why it has none.
pub open spec fn variants(types: Seq<Type>, id: u32) -> Result<Seq<Variant>, ConvertError> {
    if id as int >= types.len() {
        Err(ConvertError::TypeNotFound(id))
    } else {
        match types[id as int].type_def {
            TypeDef::Variant(vs) => Ok(vs@),
            _ => Err(ConvertError::NotAVariant(id)),
        }
    }
}

/// A pallet's calls: one per variant of its call enum.
pub open spec fn pallet_calls(types: Seq<Type>, c: v14::PalletCallMetadata) -> Result<Seq<v13::FunctionMetadataView>, ConvertError> {
    match variants(types, c.ty) {
        Ok(vs) => collect(vs, function_fn(types)),
        Err(e) => Err(e),
    }
}

/// An event argument: its type's name, without `T::`.
pub open spec fn event_argument(types: Seq<Type>, f: Field) -> Result<Seq<char>, ConvertError> {
    match field_type_name(types, f) {
        Ok(ty) => Ok(without_config_prefix(ty)),
        Err(e) => Err(e),
    }
}

pub open spec fn event_argument_fn(types: Seq<Type>) -> spec_fn(Field) -> Result<Seq<char>, ConvertError> {
    |f: Field| event_argument(types, f)
}

/// An event: a variant of the event enum, with one argument per field.
pub open spec fn event(types: Seq<Type>, v: Variant) -> Result<v13::EventMetadataView, ConvertError> {
    match collect(v.fields@, event_argument_fn(types)) {
        Ok(arguments) => Ok(v13::EventMetadataView {
            name: v.name@,
            arguments,
            documentation: strings(v.docs@),
        }),
        Err(e) => Err(e),
    }
}

pub open spec fn event_fn(types: Seq<Type>) -> spec_fn(Variant) -> Result<v13::EventMetadataView, ConvertError> {
    |v: Variant| event(types, v)
}

/// A pallet's events: one per variant of its event enum.
pub open spec fn pallet_events(types: Seq<Type>, e: v14::PalletEventMetadata) -> Result<Seq<v13::EventMetadataView>, ConvertError> {
    match variants(types, e.ty) {
        Ok(vs) => collect(vs, event_fn(types)),
        Err(err) => Err(err),
    }
}

/// A constant in the older shape: its type by name, the rest unchanged.
pub open spec fn constant(types: Seq<Type>, c: v14::PalletConstantMetadata) -> Result<v13::ModuleConstantMetadataView, ConvertError> {
    match ident(types, c.ty) {
        Ok(ty) => Ok(v13::ModuleConstantMetadataView {
            name: c.name@,
            ty,
            value: c.value@,
            documentation: strings(c.docs@),
        }),
        Err(e) => Err(e),
    }
}

pub open spec fn constant_fn(types: Seq<Type>) -> spec_fn(v14::PalletConstantMetadata) -> Result<v13::ModuleConstantMetadataView, ConvertError> {
    |c: v14::PalletConstantMetadata| constant(types, c)
}

/// An error: the name and documentation of a variant; its fields are dropped.
pub open spec fn error_item(v: Variant) -> v13::ErrorMetadataView {
    v13::ErrorMetadataView { name: v.name@, documentation: strings(v.docs@) }
}

/// A pallet's errors: one per variant of its error enum.
pub open spec fn pallet_errors(types: Seq<Type>, e: v14::PalletErrorMetadata) -> Result<Seq<v13::ErrorMetadataView>, ConvertError> {
    match variants(types, e.ty) {
        Ok(vs) => Ok(vs.map_values(|v: Variant| error_item(v))),
        Err(err) => Err(err),
    }
}

/// A pallet in the older shape; the first failure, in the order storage,
/// calls, event, constants, errors, fails the whole pallet.
pub open spec fn pallet(types: Seq<Type>, p: v14::PalletMetadata) -> Result<v13::ModuleMetadataView, ConvertError> {
    let storage = match p.storage {
        Some(st) => match pallet_storage(types, st) {
            Ok(x) => Ok(Some(x)),
            Err(e) => Err(e),
        },
        None => Ok(None),
    };
    let call_list = match p.calls {
        Some(c) => match pallet_calls(types, c) {
            Ok(x) => Ok(Some(x)),
            Err(e) => Err(e),
        },
        None => Ok(None),
    };
    let event_list = match p.event {
        Some(ev) => match pallet_events(types, ev) {
            Ok(x) => Ok(Some(x)),
            Err(e) => Err(e),
        },
        None => Ok(None),
    };
    let constants = collect(p.constants@, constant_fn(types));
    let error_list = match p.error {
        Some(er) => pallet_errors(types, er),
        None => Ok(Seq::empty()),
    };
    match storage {
        Err(e) => Err(e),
        Ok(storage) => match call_list {
            Err(e) => Err(e),
            Ok(calls) => match event_list {
                Err(e) => Err(e),
                Ok(event) => match constants {
                    Err(e) => Err(e),
                    Ok(constants) => match error_list {
                        Err(e) => Err(e),
                        Ok(errors) => Ok(v13::ModuleMetadataView {
                            name: p.name@,
                            storage,
                            calls,
                            event,
                            constants,
                            errors,
                            index: p.index,
                        }),
                    },
                },
            },
        },
    }
}

pub open spec fn pallet_fn(types: Seq<Type>) -> spec_fn(v14::PalletMetadata) -> Result<v13::ModuleMetadataView, ConvertError> {
    |p: v14::PalletMetadata| pallet(types, p)
}

/// The extrinsic format in the older shape: the version, and each signed
/// extension by its identifier alone.
pub open spec fn extrinsic(x: v14::ExtrinsicMetadata) -> v13::ExtrinsicMetadataView {
    v13::ExtrinsicMetadataView {
        version: x.version,
        signed_extensions: x.signed_extensions@.map_values(|se: v14::SignedExtensionMetadata| se.identifier@),
    }
}

/// Runtime metadata in the older shape: every pallet converted, in order,
/// or the first failure.
pub open spec fn runtime_metadata(m: v14::RuntimeMetadataV14) -> Result<v13::RuntimeMetadataV13View, ConvertError> {
    match collect(m.pallets@, pallet_fn(m.types.types@)) {
        Ok(modules) => Ok(v13::RuntimeMetadataV13View { modules, extrinsic: extrinsic(m.extrinsic) }),
        Err(e) => Err(e),
    }
}

fn copy_hashers(v: &Vec<StorageHasher>) -> (r: Vec<StorageHasher>)
    ensures
        r@ == v@,
{
    let mut out: Vec<StorageHasher> = Vec::new();
    let mut i: usize = 0;
    while i < v.len()
        invariant
            i <= v@.len(),
            out@ == v@.take(i as int),
        decreases v@.len() - i,
    {
        out.push(v[i]);
        assert(v@.take(i + 1) =~= v@.take(i as int).push(v@[i as int]));
        i = i + 1;
    }
    assert(v@.take(v@.len() as int) =~= v@);
    out
}

fn clone_strings(v: &Vec<String>) -> (r: Vec<String>)
    ensures
        strings(r@) == strings(v@),
{
    let mut out: Vec<String> = Vec::new();
    let mut i: usize = 0;
    while i < v.len()
        invariant
            i <= v@.len(),
            strings(out@) == strings(v@.take(i as int)),
        decreases v@.len() - i,
    {
        let s = v[i].clone();
        let ghost before = out@;
        out.push(s);
        assert(strings(out@) =~= strings(before).push(s@));
        assert(strings(v@.take(i + 1)) =~= strings(v@.take(i as int)).push(v@[i as int]@));
        i = i + 1;
    }
    assert(v@.take(v@.len() as int) =~= v@);
    out
}

fn clone_bytes(v: &Vec<u8>) -> (r: Vec<u8>)
    ensures
        r@ == v@,
{
    let mut out: Vec<u8> = Vec::new();
    let mut i: usize = 0;
    while i < v.len()
        invariant
            i <= v@.len(),
            out@ == v@.take(i as int),
        decreases v@.len() - i,
    {
        out.push(v[i]);
        assert(v@.take(i + 1) =~= v@.take(i as int).push(v@[i as int]));
        i = i + 1;
    }
    assert(v@.take(v@.len() as int) =~= v@);
    out
}

/// `parts` joined by `sep`.
fn join_strings(parts: &Vec<String>, sep: &str) -> (r: String)
    ensures
        r@ == join(strings(parts@), sep@),
{
    let ghost p = strings(parts@);
    let mut s = String::new();
    let mut i: usize = 0;
    while i < parts.len()
        invariant
            i <= parts@.len(),
            p == strings(parts@),
            s@ == join(p.take(i as int), sep@),
        decreases parts@.len() - i,
    {
        if i > 0 {
            s.append(sep);
        }
        s.append(parts[i].as_str());
        proof {
            assert(p.take(i + 1).drop_last() =~= p.take(i as int));
            if i == 0 {
                assert(Seq::<char>::empty() + p[0] =~= p[0]);
            }
        }
        i = i + 1;
    }
    assert(p.take(parts@.len() as int) =~= p);
    s
}

/// Converts metadata of the newer shape into the older one.
pub struct Converter {
    pub metadata: v14::RuntimeMetadataV14,
}

impl Converter {
    /// The registry's types.
    pub open spec fn types(&self) -> Seq<Type> {
        self.metadata.types.types@
    }

    /// The type with the given id.
    pub fn resolve_type(&self, id: u32) -> (r: Result<&Type, ConvertError>)
        ensures
            (id as int) < self.types().len() ==> r == Ok::<&Type, ConvertError>(&self.types()[id as int]),
            (id as int) >= self.types().len() ==> r == Err::<&Type, ConvertError>(ConvertError::TypeNotFound(id)),
    {
        match self.metadata.types.resolve(id) {
            Some(t) => Ok(t),
            None => Err(ConvertError::TypeNotFound(id)),
        }
    }

    fn type_ident_within(&self, id: u32, fuel: usize) -> (r: Result<String, ConvertError>)
        ensures
            result_view(r) == type_ident(self.types(), id, fuel as nat),
        decreases fuel, 0nat,
    {
        let ty = match self.resolve_type(id) {
            Ok(t) => t,
            Err(e) => {
                return Err(e);
            },
        };
        if fuel == 0 {
            return Err(ConvertError::NestingTooDeep(id));
        }
        match &ty.type_def {
            TypeDef::Composite(_) | TypeDef::Variant(_) => {
                let n = ty.path.len();
                if n == 0 {
                    Err(ConvertError::MissingTypeName(id))
                } else {
                    Ok(ty.path[n - 1].clone())
                }
            },
            TypeDef::Sequence(elem) => match self.type_ident_within(*elem, fuel - 1) {
                Ok(e) => {
                    let mut s = String::from_str("Vec<");
                    s.append(e.as_str());
                    s.append(">");
                    Ok(s)
                },
                Err(err) => Err(err),
            },
            TypeDef::Array { len, type_param } => match self.type_ident_within(*type_param, fuel - 1) {
                Ok(e) => {
                    let mut s = String::from_str("[");
                    s.append(e.as_str());
                    s.append("; ");
                    let digits = decimal_string(*len);
                    s.append(digits.as_str());
                    s.append("]");
                    Ok(s)
                },
                Err(err) => Err(err),
            },
            TypeDef::Tuple(elems) => match self.tuple_element_idents(elems, fuel - 1) {
                Ok(parts) => {
                    let mut s = String::from_str("(");
                    let inner = join_strings(&parts, ", ");
                    s.append(inner.as_str());
                    s.append(")");
                    assert(strings(parts@) == parts@.map_values(|x: String| x@));
                    Ok(s)
                },
                Err(err) => Err(err),
            },
            TypeDef::Primitive(p) => Ok(String::from_str(primitive_str(*p))),
            TypeDef::Compact(inner) => match self.type_ident_within(*inner, fuel - 1) {
                Ok(e) => {
                    let mut s = String::from_str("Compact<");
                    s.append(e.as_str());
                    s.append(">");
                    Ok(s)
                },
                Err(err) => Err(err),
            },
            TypeDef::BitSequence { bit_store_type, bit_order_type } => {
                let order = match self.type_ident_within(*bit_order_type, fuel - 1) {
                    Ok(o) => o,
                    Err(err) => {
                        return Err(err);
                    },
                };
                match self.type_ident_within(*bit_store_type, fuel - 1) {
                    Ok(store) => {
                        let mut s = String::from_str("BitVec<");
                        s.append(order.as_str());
                        s.append(", ");
                        s.append(store.as_str());
                        s.append(">");
                        Ok(s)
                    },
                    Err(err) => Err(err),
                }
            },
        }
    }

    fn tuple_element_idents(&self, ids: &Vec<u32>, fuel: usize) -> (r: Result<Vec<String>, ConvertError>)
        ensures
            results_view(r) == tuple_idents(self.types(), ids@, fuel as nat),
        decreases fuel, 1nat,
    {
        let mut out: Vec<String> = Vec::new();
        let mut i: usize = 0;
        assert(ids@.take(0) =~= Seq::<u32>::empty());
        assert(out@.map_values(|x: String| x@) =~= Seq::<Seq<char>>::empty());
        while i < ids.len()
            invariant
                i <= ids@.len(),
                tuple_idents(self.types(), ids@.take(i as int), fuel as nat) == Ok::<Seq<Seq<char>>, ConvertError>(
                    out@.map_values(|x: String| x@),
                ),
            decreases ids@.len() - i,
        {
            let r = self.type_ident_within(ids[i], fuel);
            assert(ids@.take(i + 1).drop_last() =~= ids@.take(i as int));
            match r {
                Ok(e) => {
                    let ghost before = out@;
                    out.push(e);
                    assert(out@.map_values(|x: String| x@) =~= before.map_values(|x: String| x@).push(e@));
                },
                Err(err) => {
                    proof {
                        lemma_tuple_idents_err(self.types(), ids@, fuel as nat, i + 1);
                    }
                    return Err(err);
                },
            }
            i = i + 1;
        }
        assert(ids@.take(ids@.len() as int) =~= ids@);
        Ok(out)
    }

    /// The rendered name of type `id`.
    pub fn get_type_ident(&self, id: u32) -> (r: Result<String, ConvertError>)
        ensures
            result_view(r) == ident(self.types(), id),
    {
        self.type_ident_within(id, self.metadata.types.types.len())
    }

    /// The name of a field's type, as the older shape writes it.
    pub fn field_type_name(&self, field: &Field) -> (r: Result<String, ConvertError>)
        ensures
            result_view(r) == field_type_name(self.types(), *field),
    {
        match &field.display_name {
            Some(name) => {
                let ty = match self.resolve_type(field.ty) {
                    Ok(t) => t,
                    Err(e) => {
                        return Err(e);
                    },
                };
                if let TypeDef::Compact(_) = &ty.type_def {
                    let mut s = String::from_str("Compact<");
                    s.append(name.as_str());
                    s.append(">");
                    Ok(s)
                } else {
                    Ok(name.clone())
                }
            },
            None => self.get_type_ident(field.ty),
        }
    }

    fn key_idents(&self, key: u32) -> (r: Result<Vec<String>, ConvertError>)
        ensures
            results_view(r) == key_idents(self.types(), key),
    {
        let ty = match self.resolve_type(key) {
            Ok(t) => t,
            Err(e) => {
                return Err(e);
            },
        };
        match &ty.type_def {
            TypeDef::Tuple(elems) => self.tuple_element_idents(elems, self.metadata.types.types.len()),
            _ => match self.get_type_ident(key) {
                Ok(k) => {
                    let mut v: Vec<String> = Vec::new();
                    v.push(k);
                    assert(v@.map_values(|x: String| x@) =~= seq![k@]);
                    Ok(v)
                },
                Err(e) => Err(e),
            },
        }
    }
    /// A storage entry type in the older shape.
    pub fn convert_storage_entry_type(&self, t: &v14::StorageEntryType) -> (r: Result<v13::StorageEntryType, ConvertError>)
        ensures
            result_view(r) == storage_entry_type(self.types(), *t),
    {
        match t {
            v14::StorageEntryType::Plain(value) => match self.get_type_ident(*value) {
                Ok(v) => Ok(v13::StorageEntryType::Plain(v)),
                Err(e) => Err(e),
            },
            v14::StorageEntryType::Keyed { hashers, key, value } => {
                let keys = match self.key_idents(*key) {
                    Ok(k) => k,
                    Err(e) => {
                        return Err(e);
                    },
                };
                let n = hashers.len();
                if n == 0 {
                    Err(ConvertError::NoHashers)
                } else if n == 1 {
                    let k = match self.get_type_ident(*key) {
                        Ok(k) => k,
                        Err(e) => {
                            return Err(e);
                        },
                    };
                    match self.get_type_ident(*value) {
                        Ok(v) => Ok(v13::StorageEntryType::SingleMap { hasher: hashers[0], key: k, value: v, unused: false }),
                        Err(e) => Err(e),
                    }
                } else if n == 2 {
                    if keys.len() != 2 {
                        Err(ConvertError::KeyArityMismatch)
                    } else {
                        match self.get_type_ident(*value) {
                            Ok(v) => Ok(v13::StorageEntryType::DoubleMap {
                                hasher: hashers[0],
                                key1: keys[0].clone(),
                                key2: keys[1].clone(),
                                value: v,
                                key2_hasher: hashers[1],
                            }),
                            Err(e) => Err(e),
                        }
                    }
                } else {
                    match self.get_type_ident(*value) {
                        Ok(v) => {
                            assert(strings(keys@) =~= keys@.map_values(|x: String| x@));
                            Ok(v13::StorageEntryType::NMap { keys, hashers: copy_hashers(hashers), value: v })
                        },
                        Err(e) => Err(e),
                    }
                }
            },
            v14::StorageEntryType::NMap { keys, hashers, value } => {
                let ks = match self.key_idents(*keys) {
                    Ok(k) => k,
                    Err(e) => {
                        return Err(e);
                    },
                };
                match self.get_type_ident(*value) {
                    Ok(v) => {
                        assert(strings(ks@) =~= ks@.map_values(|x: String| x@));
                        Ok(v13::StorageEntryType::NMap { keys: ks, hashers: copy_hashers(hashers), value: v })
                    },
                    Err(e) => Err(e),
                }
            },
        }
    }

    fn convert_storage_entry(&self, e: &v14::StorageEntryMetadata) -> (r: Result<v13::StorageEntryMetadata, ConvertError>)
        ensures
            result_view(r) == storage_entry(self.types(), *e),
    {
        match self.convert_storage_entry_type(&e.ty) {
            Ok(ty) => Ok(v13::StorageEntryMetadata {
                name: e.name.clone(),
                modifier: e.modifier,
                ty,
                default: clone_bytes(&e.default),
                documentation: clone_strings(&e.docs),
            }),
            Err(err) => Err(err),
        }
    }

    /// A pallet's storage in the older shape.
    pub fn convert_pallet_storage(&self, storage: &v14::PalletStorageMetadata) -> (r: Result<v13::StorageMetadata, ConvertError>)
        ensures
            result_view(r) == pallet_storage(self.types(), *storage),
    {
        let ghost f = storage_entry_fn(self.types());
        let items = &storage.entries;
        let mut out: Vec<v13::StorageEntryMetadata> = Vec::new();
        let mut i: usize = 0;
        assert(items@.take(0) =~= Seq::<v14::StorageEntryMetadata>::empty());
        assert(out@.map_values(|x: v13::StorageEntryMetadata| x@) =~= Seq::<v13::StorageEntryMetadataView>::empty());
        while i < items.len()
            invariant
                i <= items@.len(),
                f == storage_entry_fn(self.types()),
                items@ == storage.entries@,
                collect(items@.take(i as int), f) == Ok::<Seq<v13::StorageEntryMetadataView>, ConvertError>(
                    out@.map_values(|x: v13::StorageEntryMetadata| x@),
                ),
            decreases items@.len() - i,
        {
            let r = self.convert_storage_entry(&items[i]);
            assert(items@.take(i + 1).drop_last() =~= items@.take(i as int));
            match r {
                Ok(x) => {
                    let ghost before = out@;
                    out.push(x);
                    assert(out@.map_values(|x: v13::StorageEntryMetadata| x@) =~= before.map_values(
                        |x: v13::StorageEntryMetadata| x@,
                    ).push(x@));
                },
                Err(e) => {
                    proof {
                        lemma_collect_err(items@, f, i + 1);
                    }
                    return Err(e);
                },
            }
            i = i + 1;
        }
        assert(items@.take(items@.len() as int) =~= items@);
        Ok(v13::StorageMetadata { prefix: storage.prefix.clone(), entries: out })
    }

    /// The variants of enum type `id`.
    fn resolve_variants(&self, id: u32) -> (r: Result<&Vec<Variant>, ConvertError>)
        ensures
            match r {
                Ok(vs) => variants(self.types(), id) == Ok::<Seq<Variant>, ConvertError>(vs@),
                Err(e) => variants(self.types(), id) == Err::<Seq<Variant>, ConvertError>(e),
            },
    {
        let ty = match self.resolve_type(id) {
            Ok(t) => t,
            Err(e) => {
                return Err(e);
            },
        };
        match &ty.type_def {
            TypeDef::Variant(vs) => Ok(vs),
            _ => Err(ConvertError::NotAVariant(id)),
        }
    }

    fn convert_call_argument(&self, f: &Field) -> (r: Result<v13::FunctionArgumentMetadata, ConvertError>)
        ensures
            result_view(r) == call_argument(self.types(), *f),
    {
        match &f.name {
            None => Err(ConvertError::UnnamedField),
            Some(name) => match self.field_type_name(f) {
                Ok(ty) => Ok(v13::FunctionArgumentMetadata { name: name.clone(), ty }),
                Err(e) => Err(e),
            },
        }
    }

    fn convert_function(&self, v: &Variant) -> (r: Result<v13::FunctionMetadata, ConvertError>)
        ensures
            result_view(r) == function(self.types(), *v),
    {
        let ghost f = call_argument_fn(self.types());
        let items = &v.fields;
        let mut out: Vec<v13::FunctionArgumentMetadata> = Vec::new();
        let mut i: usize = 0;
        assert(items@.take(0) =~= Seq::<Field>::empty());
        assert(out@.map_values(|x: v13::FunctionArgumentMetadata| x@) =~= Seq::<v13::FunctionArgumentMetadataView>::empty());
        while i < items.len()
            invariant
                i <= items@.len(),
                f == call_argument_fn(self.types()),
                items@ == v.fields@,
                collect(items@.take(i as int), f) == Ok::<Seq<v13::FunctionArgumentMetadataView>, ConvertError>(
                    out@.map_values(|x: v13::FunctionArgumentMetadata| x@),
                ),
            decreases items@.len() - i,
        {
            let r = self.convert_call_argument(&items[i]);
            assert(items@.take(i + 1).drop_last() =~= items@.take(i as int));
            match r {
                Ok(x) => {
                    let ghost before = out@;
                    out.push(x);
                    assert(out@.map_values(|x: v13::FunctionArgumentMetadata| x@) =~= before.map_values(
                        |x: v13::FunctionArgumentMetadata| x@,
                    ).push(x@));
                },
                Err(e) => {
                    proof {
                        lemma_collect_err(items@, f, i + 1);
                    }
                    return Err(e);
                },
            }
            i = i + 1;
        }
        assert(items@.take(items@.len() as int) =~= items@);
        Ok(v13::FunctionMetadata { name: v.name.clone(), arguments: out, documentation: clone_strings(&v.docs) })
    }

    /// A pallet's calls: one per variant of its call enum, each field a named argument.
    pub fn convert_call(&self, call: &v14::PalletCallMetadata) -> (r: Result<Vec<v13::FunctionMetadata>, ConvertError>)
        ensures
            results_view(r) == pallet_calls(self.types(), *call),
    {
        let items = match self.resolve_variants(call.ty) {
            Ok(vs) => vs,
            Err(e) => {
                return Err(e);
            },
        };
        let ghost f = function_fn(self.types());
        let mut out: Vec<v13::FunctionMetadata> = Vec::new();
        let mut i: usize = 0;
        assert(items@.take(0) =~= Seq::<Variant>::empty());
        assert(out@.map_values(|x: v13::FunctionMetadata| x@) =~= Seq::<v13::FunctionMetadataView>::empty());
        while i < items.len()
            invariant
                i <= items@.len(),
                f == function_fn(self.types()),
                variants(self.types(), call.ty) == Ok::<Seq<Variant>, ConvertError>(items@),
                collect(items@.take(i as int), f) == Ok::<Seq<v13::FunctionMetadataView>, ConvertError>(
                    out@.map_values(|x: v13::FunctionMetadata| x@),
                ),
            decreases items@.len() - i,
        {
            let r = self.convert_function(&items[i]);
            assert(items@.take(i + 1).drop_last() =~= items@.take(i as int));
            match r {
                Ok(x) => {
                    let ghost before = out@;
                    out.push(x);
                    assert(out@.map_values(|x: v13::FunctionMetadata| x@) =~= before.map_values(
                        |x: v13::FunctionMetadata| x@,
                    ).push(x@));
                },
                Err(e) => {
                    proof {
                        lemma_collect_err(items@, f, i + 1);
                    }
                    return Err(e);
                },
            }
            i = i + 1;
        }
        assert(items@.take(items@.len() as int) =~= items@);
        Ok(out)
    }

    fn convert_event_argument(&self, f: &Field) -> (r: Result<String, ConvertError>)
        ensures
            result_view(r) == event_argument(self.types(), *f),
    {
        match self.field_type_name(f) {
            Ok(ty) => Ok(strip_config_prefix(&ty)),
            Err(e) => Err(e),
        }
    }

    fn convert_event_variant(&self, v: &Variant) -> (r: Result<v13::EventMetadata, ConvertError>)
        ensures
            result_view(r) == event(self.types(), *v),
    {
        let ghost f = event_argument_fn(self.types());
        let items = &v.fields;
        let mut out: Vec<String> = Vec::new();
        let mut i: usize = 0;
        assert(items@.take(0) =~= Seq::<Field>::empty());
        assert(out@.map_values(|x: String| x@) =~= Seq::<Seq<char>>::empty());
        while i < items.len()
            invariant
                i <= items@.len(),
                f == event_argument_fn(self.types()),
                items@ == v.fields@,
                collect(items@.take(i as int), f) == Ok::<Seq<Seq<char>>, ConvertError>(
                    out@.map_values(|x: String| x@),
                ),
            decreases items@.len() - i,
        {
            let r = self.convert_event_argument(&items[i]);
            assert(items@.take(i + 1).drop_last() =~= items@.take(i as int));
            match r {
                Ok(x) => {
                    let ghost before = out@;
                    out.push(x);
                    assert(out@.map_values(|x: String| x@) =~= before.map_values(|x: String| x@).push(x@));
                },
                Err(e) => {
                    proof {
                        lemma_collect_err(items@, f, i + 1);
                    }
                    return Err(e);
                },
            }
            i = i + 1;
        }
        assert(items@.take(items@.len() as int) =~= items@);
        assert(strings(out@) =~= out@.map_values(|x: String| x@));
        Ok(v13::EventMetadata { name: v.name.clone(), arguments: out, documentation: clone_strings(&v.docs) })
    }

    /// A pallet's events: one per variant of its event enum.
    pub fn convert_event(&self, event: &v14::PalletEventMetadata) -> (r: Result<Vec<v13::EventMetadata>, ConvertError>)
        ensures
            results_view(r) == pallet_events(self.types(), *event),
    {
        let items = match self.resolve_variants(event.ty) {
            Ok(vs) => vs,
            Err(e) => {
                return Err(e);
            },
        };
        let ghost f = event_fn(self.types());
        let mut out: Vec<v13::EventMetadata> = Vec::new();
        let mut i: usize = 0;
        assert(items@.take(0) =~= Seq::<Variant>::empty());
        assert(out@.map_values(|x: v13::EventMetadata| x@) =~= Seq::<v13::EventMetadataView>::empty());
        while i < items.len()
            invariant
                i <= items@.len(),
                f == event_fn(self.types()),
                variants(self.types(), event.ty) == Ok::<Seq<Variant>, ConvertError>(items@),
                collect(items@.take(i as int), f) == Ok::<Seq<v13::EventMetadataView>, ConvertError>(
                    out@.map_values(|x: v13::EventMetadata| x@),
                ),
            decreases items@.len() - i,
        {
            let r = self.convert_event_variant(&items[i]);
            assert(items@.take(i + 1).drop_last() =~= items@.take(i as int));
            match r {
                Ok(x) => {
                    let ghost before = out@;
                    out.push(x);
                    assert(out@.map_values(|x: v13::EventMetadata| x@) =~= before.map_values(
                        |x: v13::EventMetadata| x@,
                    ).push(x@));
                },
                Err(e) => {
                    proof {
                        lemma_collect_err(items@, f, i + 1);
                    }
                    return Err(e);
                },
            }
            i = i + 1;
        }
        assert(items@.take(items@.len() as int) =~= items@);
        Ok(out)
    }

    /// A constant in the older shape.
    pub fn convert_constant(&self, c: &v14::PalletConstantMetadata) -> (r: Result<v13::ModuleConstantMetadata, ConvertError>)
        ensures
            result_view(r) == constant(self.types(), *c),
    {
        match self.get_type_ident(c.ty) {
            Ok(ty) => Ok(v13::ModuleConstantMetadata {
                name: c.name.clone(),
                ty,
                value: clone_bytes(&c.value),
                documentation: clone_strings(&c.docs),
            }),
            Err(e) => Err(e),
        }
    }

    /// A pallet's errors: the name and documentation of each variant of its error enum.
    pub fn convert_error(&self, error: &v14::PalletErrorMetadata) -> (r: Result<Vec<v13::ErrorMetadata>, ConvertError>)
        ensures
            results_view(r) == pallet_errors(self.types(), *error),
    {
        let items = match self.resolve_variants(error.ty) {
            Ok(vs) => vs,
            Err(e) => {
                return Err(e);
            },
        };
        let mut out: Vec<v13::ErrorMetadata> = Vec::new();
        let mut i: usize = 0;
        while i < items.len()
            invariant
                i <= items@.len(),
                out@.len() == i,
                forall|j: int| 0 <= j < i ==> #[trigger] out@[j]@ == error_item(items@[j]),
            decreases items@.len() - i,
        {
            let v = &items[i];
            out.push(v13::ErrorMetadata { name: v.name.clone(), documentation: clone_strings(&v.docs) });
            i = i + 1;
        }
        assert(out@.map_values(|x: v13::ErrorMetadata| x@) =~= items@.map_values(|v: Variant| error_item(v)));
        Ok(out)
    }
    /// A pallet in the older shape.
    pub fn convert_pallet(&self, p: &v14::PalletMetadata) -> (r: Result<v13::ModuleMetadata, ConvertError>)
        ensures
            result_view(r) == pallet(self.types(), *p),
    {
        let storage = match &p.storage {
            Some(st) => match self.convert_pallet_storage(st) {
                Ok(x) => Some(x),
                Err(e) => {
                    return Err(e);
                },
            },
            None => None,
        };
        let calls = match &p.calls {
            Some(c) => match self.convert_call(c) {
                Ok(x) => Some(x),
                Err(e) => {
                    return Err(e);
                },
            },
            None => None,
        };
        let event = match &p.event {
            Some(ev) => match self.convert_event(ev) {
                Ok(x) => Some(x),
                Err(e) => {
                    return Err(e);
                },
            },
            None => None,
        };
        let ghost f = constant_fn(self.types());
        let items = &p.constants;
        let mut constants: Vec<v13::ModuleConstantMetadata> = Vec::new();
        let mut i: usize = 0;
        assert(items@.take(0) =~= Seq::<v14::PalletConstantMetadata>::empty());
        assert(constants@.map_values(|x: v13::ModuleConstantMetadata| x@) =~= Seq::<v13::ModuleConstantMetadataView>::empty());
        while i < items.len()
            invariant
                i <= items@.len(),
                f == constant_fn(self.types()),
                items@ == p.constants@,
                match p.storage {
                    Some(st) => pallet_storage(self.types(), st) is Ok,
                    None => true,
                },
                match p.calls {
                    Some(c) => pallet_calls(self.types(), c) is Ok,
                    None => true,
                },
                match p.event {
                    Some(ev) => pallet_events(self.types(), ev) is Ok,
                    None => true,
                },
                collect(items@.take(i as int), f) == Ok::<Seq<v13::ModuleConstantMetadataView>, ConvertError>(
                    constants@.map_values(|x: v13::ModuleConstantMetadata| x@),
                ),
            decreases items@.len() - i,
        {
            let r = self.convert_constant(&items[i]);
            assert(items@.take(i + 1).drop_last() =~= items@.take(i as int));
            match r {
                Ok(x) => {
                    let ghost before = constants@;
                    constants.push(x);
                    assert(constants@.map_values(|x: v13::ModuleConstantMetadata| x@) =~= before.map_values(
                        |x: v13::ModuleConstantMetadata| x@,
                    ).push(x@));
                },
                Err(e) => {
                    proof {
                        lemma_collect_err(items@, f, i + 1);
                    }
                    return Err(e);
                },
            }
            i = i + 1;
        }
        assert(items@.take(items@.len() as int) =~= items@);
        let error_list = match &p.error {
            Some(er) => match self.convert_error(er) {
                Ok(x) => x,
                Err(e) => {
                    return Err(e);
                },
            },
            None => Vec::new(),
        };
        assert(error_list@.map_values(|x: v13::ErrorMetadata| x@) == match p.error {
            Some(er) => pallet_errors(self.types(), er)->Ok_0,
            None => Seq::<v13::ErrorMetadataView>::empty(),
        }) by {
            if p.error is None {
                assert(error_list@.map_values(|x: v13::ErrorMetadata| x@) =~= Seq::<v13::ErrorMetadataView>::empty());
            }
        }
        Ok(v13::ModuleMetadata { name: p.name.clone(), storage, calls, event, constants, errors: error_list, index: p.index })
    }

    /// The extrinsic format in the older shape.
    pub fn convert_extrinsic(&self) -> (r: v13::ExtrinsicMetadata)
        ensures
            r@ == extrinsic(self.metadata.extrinsic),
    {
        let items = &self.metadata.extrinsic.signed_extensions;
        let mut out: Vec<String> = Vec::new();
        let mut i: usize = 0;
        while i < items.len()
            invariant
                i <= items@.len(),
                out@.len() == i,
                forall|j: int| 0 <= j < i ==> #[trigger] out@[j]@ == items@[j].identifier@,
            decreases items@.len() - i,
        {
            out.push(items[i].identifier.clone());
            i = i + 1;
        }
        assert(strings(out@) =~= items@.map_values(|se: v14::SignedExtensionMetadata| se.identifier@));
        v13::ExtrinsicMetadata { version: self.metadata.extrinsic.version, signed_extensions: out }
    }

    /// The whole metadata in the older shape.
    pub fn convert(&self) -> (r: Result<v13::RuntimeMetadataV13, ConvertError>)
        ensures
            result_view(r) == runtime_metadata(self.metadata),
    {
        let ghost f = pallet_fn(self.types());
        let items = &self.metadata.pallets;
        let mut modules: Vec<v13::ModuleMetadata> = Vec::new();
        let mut i: usize = 0;
        assert(items@.take(0) =~= Seq::<v14::PalletMetadata>::empty());
        assert(modules@.map_values(|x: v13::ModuleMetadata| x@) =~= Seq::<v13::ModuleMetadataView>::empty());
        while i < items.len()
            invariant
                i <= items@.len(),
                f == pallet_fn(self.types()),
                items@ == self.metadata.pallets@,
                collect(items@.take(i as int), f) == Ok::<Seq<v13::ModuleMetadataView>, ConvertError>(
                    modules@.map_values(|x: v13::ModuleMetadata| x@),
                ),
            decreases items@.len() - i,
        {
            let r = self.convert_pallet(&items[i]);
            assert(items@.take(i + 1).drop_last() =~= items@.take(i as int));
            match r {
                Ok(x) => {
                    let ghost before = modules@;
                    modules.push(x);
                    assert(modules@.map_values(|x: v13::ModuleMetadata| x@) =~= before.map_values(
                        |x: v13::ModuleMetadata| x@,
                    ).push(x@));
                },
                Err(e) => {
                    proof {
                        lemma_collect_err(items@, f, i + 1);
                    }
                    return Err(e);
                },
            }
            i = i + 1;
        }
        assert(items@.take(items@.len() as int) =~= items@);
        let extrinsic = self.convert_extrinsic();
        Ok(v13::RuntimeMetadataV13 { modules, extrinsic })
    }
}

/// Converts metadata of the newer shape into the older one.
pub fn v14_to_v13(metadata: v14::RuntimeMetadataV14) -> (r: Result<v13::RuntimeMetadataV13, ConvertError>)
    ensures
        result_view(r) == runtime_metadata(metadata),
{
    let converter = Converter { metadata };
    converter.convert()
}

} // verus!
