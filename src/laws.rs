//! What the storage-entry conversion and the renderer guarantee, stated
//! over their specifications and proved.
use vstd::prelude::*;
use crate::common::StorageHasher;
use crate::convert::{key_idents, result_view, storage_entry_type, Converter};
use crate::error::ConvertError;
use crate::ident::{ident, tuple_idents};
use crate::registry::{Type, TypeDef};
use crate::v13::StorageEntryTypeView;
use crate::v14::StorageEntryType;

verus! {

/// The number of parts of a storage key of type `key`: the number of
/// elements of a tuple, else one.
pub open spec fn key_arity(types: Seq<Type>, key: u32) -> nat {
    match types[key as int].type_def {
        TypeDef::Tuple(elems) => elems@.len(),
        _ => 1,
    }
}

/// Rendering a list of types gives one name per type.
pub proof fn lemma_tuple_idents_len(types: Seq<Type>, ids: Seq<u32>, fuel: nat)
    requires
        tuple_idents(types, ids, fuel) is Ok,
    ensures
        tuple_idents(types, ids, fuel)->Ok_0.len() == ids.len(),
    decreases ids.len(),
{
    if ids.len() > 0 {
        lemma_tuple_idents_len(types, ids.drop_last(), fuel);
    }
}

/// The names of a key's parts are as many as the key has parts.
pub proof fn lemma_key_idents_len(types: Seq<Type>, key: u32)
    requires
        key_idents(types, key) is Ok,
    ensures
        key_idents(types, key)->Ok_0.len() == key_arity(types, key),
{
    if let TypeDef::Tuple(elems) = types[key as int].type_def {
        lemma_tuple_idents_len(types, elems@, types.len());
    }
}

/// A map with one hasher that converts becomes a single map whose key and
/// value are the rendered names of its key and value types, with the
/// unused flag false.
pub proof fn lemma_single_hasher_map(types: Seq<Type>, hashers: Vec<StorageHasher>, key: u32, value: u32)
    requires
        hashers@.len() == 1,
        storage_entry_type(types, StorageEntryType::Keyed { hashers, key, value }) is Ok,
    ensures
        ident(types, key) is Ok,
        ident(types, value) is Ok,
        storage_entry_type(types, StorageEntryType::Keyed { hashers, key, value }) == Ok::<StorageEntryTypeView, ConvertError>(
            StorageEntryTypeView::SingleMap {
                hasher: hashers@[0],
                key: ident(types, key)->Ok_0,
                value: ident(types, value)->Ok_0,
                unused: false,
            },
        ),
{
}

/// A map with two hashers whose key is a pair of types that render, and
/// whose value type renders, becomes a double map: the pair's names in
/// order, the first hasher for the first key, the second for the second.
pub proof fn lemma_two_hasher_map(types: Seq<Type>, hashers: Vec<StorageHasher>, key: u32, value: u32)
    requires
        hashers@.len() == 2,
        (key as int) < types.len(),
        types[key as int].type_def is Tuple,
        types[key as int].type_def->Tuple_0@.len() == 2,
        ident(types, types[key as int].type_def->Tuple_0@[0]) is Ok,
        ident(types, types[key as int].type_def->Tuple_0@[1]) is Ok,
        ident(types, value) is Ok,
    ensures
        storage_entry_type(types, StorageEntryType::Keyed { hashers, key, value }) == Ok::<StorageEntryTypeView, ConvertError>(
            StorageEntryTypeView::DoubleMap {
                hasher: hashers@[0],
                key1: ident(types, types[key as int].type_def->Tuple_0@[0])->Ok_0,
                key2: ident(types, types[key as int].type_def->Tuple_0@[1])->Ok_0,
                value: ident(types, value)->Ok_0,
                key2_hasher: hashers@[1],
            },
        ),
{
    let elems = types[key as int].type_def->Tuple_0@;
    let n = types.len();
    assert(elems.drop_last().drop_last() =~= Seq::<u32>::empty());
    assert(elems.drop_last().last() == elems[0]);
    assert(tuple_idents(types, elems.drop_last().drop_last(), n) == Ok::<Seq<Seq<char>>, ConvertError>(Seq::empty()));
    assert(tuple_idents(types, elems.drop_last(), n) == Ok::<Seq<Seq<char>>, ConvertError>(
        seq![ident(types, elems[0])->Ok_0],
    )) by {
        assert(Seq::<Seq<char>>::empty().push(ident(types, elems[0])->Ok_0) =~= seq![ident(types, elems[0])->Ok_0]);
    }
    assert(tuple_idents(types, elems, n) == Ok::<Seq<Seq<char>>, ConvertError>(
        seq![ident(types, elems[0])->Ok_0, ident(types, elems[1])->Ok_0],
    )) by {
        assert(seq![ident(types, elems[0])->Ok_0].push(ident(types, elems[1])->Ok_0) =~= seq![
            ident(types, elems[0])->Ok_0,
            ident(types, elems[1])->Ok_0,
        ]);
    }
}

/// A map with two hashers whose key is not a pair of types fails with
/// `KeyArityMismatch`, once the names of its key's parts render.
pub proof fn lemma_two_hashers_need_pair(types: Seq<Type>, hashers: Vec<StorageHasher>, key: u32, value: u32)
    requires
        hashers@.len() == 2,
        key_idents(types, key) is Ok,
        !(types[key as int].type_def is Tuple && types[key as int].type_def->Tuple_0@.len() == 2),
    ensures
        storage_entry_type(types, StorageEntryType::Keyed { hashers, key, value }) == Err::<StorageEntryTypeView, ConvertError>(
            ConvertError::KeyArityMismatch,
        ),
{
    lemma_key_idents_len(types, key);
}

/// An n-map, or a map with three hashers or more, that converts becomes an
/// n-map with one key name per part of its key and the hashers unchanged.
pub proof fn lemma_n_map(types: Seq<Type>, t: StorageEntryType)
    requires
        match t {
            StorageEntryType::NMap { .. } => true,
            StorageEntryType::Keyed { hashers, .. } => hashers@.len() >= 3,
            StorageEntryType::Plain(_) => false,
        },
        storage_entry_type(types, t) is Ok,
    ensures
        match (t, storage_entry_type(types, t)->Ok_0) {
            (StorageEntryType::NMap { keys: key, hashers, .. }, StorageEntryTypeView::NMap { keys, hashers: out, .. })
            | (StorageEntryType::Keyed { key, hashers, .. }, StorageEntryTypeView::NMap { keys, hashers: out, .. }) => {
                &&& keys.len() == key_arity(types, key)
                &&& out == hashers@
            },
            _ => false,
        },
{
    match t {
        StorageEntryType::NMap { keys, .. } => lemma_key_idents_len(types, keys),
        StorageEntryType::Keyed { key, .. } => lemma_key_idents_len(types, key),
        StorageEntryType::Plain(_) => {},
    }
}

/// Rendering is deterministic: two renderings of one type id give the
/// same result, character for character.
pub proof fn lemma_render_deterministic(
    c: Converter,
    id: u32,
    first: Result<String, ConvertError>,
    second: Result<String, ConvertError>,
)
    requires
        result_view(first) == ident(c.types(), id),
        result_view(second) == ident(c.types(), id),
    ensures
        result_view(first) == result_view(second),
{
}

} // verus!
