use frame_metadata::convert::{v14_to_v13, Converter};
use frame_metadata::error::ConvertError;
use frame_metadata::ident::{decimal_string, strip_config_prefix};
use frame_metadata::registry::{Field, PortableRegistry, Type, TypeDef, TypeDefPrimitive, Variant};
use frame_metadata::runtime::{backwards, RuntimeMetadata, RuntimeMetadataPrefixed, META_RESERVED};
use frame_metadata::v13;
use frame_metadata::v14;
use frame_metadata::v14::{StorageEntryModifier, StorageHasher};

fn strs(items: &[&str]) -> Vec<String> {
    items.iter().map(|s| s.to_string()).collect()
}

fn prim(p: TypeDefPrimitive) -> Type {
    Type { path: vec![], type_def: TypeDef::Primitive(p), docs: vec![] }
}

fn named(path: &[&str], type_def: TypeDef) -> Type {
    Type { path: strs(path), type_def, docs: vec![] }
}

fn anon(type_def: TypeDef) -> Type {
    Type { path: vec![], type_def, docs: vec![] }
}

fn field(name: Option<&str>, ty: u32, display: Option<&str>) -> Field {
    Field {
        name: name.map(|n| n.to_string()),
        ty,
        display_name: display.map(|n| n.to_string()),
        docs: vec![],
    }
}

fn variant(name: &str, fields: Vec<Field>, index: u8, docs: &[&str]) -> Variant {
    Variant { name: name.to_string(), fields, index, docs: strs(docs) }
}

fn extrinsic() -> v14::ExtrinsicMetadata {
    v14::ExtrinsicMetadata { ty: 0, version: 4, signed_extensions: vec![] }
}

fn metadata(types: Vec<Type>, pallets: Vec<v14::PalletMetadata>) -> v14::RuntimeMetadataV14 {
    v14::RuntimeMetadataV14 { types: PortableRegistry { types }, pallets, extrinsic: extrinsic(), ty: 0 }
}

fn converter(types: Vec<Type>) -> Converter {
    Converter { metadata: metadata(types, vec![]) }
}

fn empty_pallet(name: &str, index: u8) -> v14::PalletMetadata {
    v14::PalletMetadata {
        name: name.to_string(),
        storage: None,
        calls: None,
        event: None,
        constants: vec![],
        error: None,
        index,
    }
}

/// Types shared by several tests; each line gives the id of its type.
fn common_types() -> Vec<Type> {
    vec![
        prim(TypeDefPrimitive::U32),                                          // 0
        prim(TypeDefPrimitive::Bool),                                         // 1
        named(&["sp_core", "crypto", "AccountId"], TypeDef::Composite(vec![])), // 2
        named(&["pallet", "Balance"], TypeDef::Composite(vec![])),           // 3
        anon(TypeDef::Tuple(vec![2, 0])),                                     // 4
        prim(TypeDefPrimitive::U8),                                           // 5
        anon(TypeDef::Sequence(5)),                                           // 6
        anon(TypeDef::Tuple(vec![0, 1, 5])),                                  // 7
        anon(TypeDef::Compact(3)),                                            // 8
    ]
}

fn ident_of(c: &Converter, id: u32) -> String {
    c.get_type_ident(id).expect("renders")
}

#[test]
fn v14_to_v13_calls() {
    let mut types = common_types();
    types.push(named(
        &["pallet_balances", "pallet", "Call"],
        TypeDef::Variant(vec![
            variant(
                "transfer",
                vec![field(Some("dest"), 2, Some("T::AccountId")), field(Some("value"), 8, Some("T::Balance"))],
                0,
                &["Transfer some liquid free balance to another account."],
            ),
            variant("remark", vec![field(Some("remark"), 6, None)], 1, &[]),
        ]),
    )); // 9
    let mut pallet = empty_pallet("Balances", 5);
    pallet.calls = Some(v14::PalletCallMetadata { ty: 9 });
    let converted = v14_to_v13(metadata(types, vec![pallet])).expect("converts");
    let calls = converted.modules[0].calls.as_ref().expect("calls");
    assert_eq!(calls.len(), 2);
    assert_eq!(calls[0].name, "transfer");
    assert_eq!(calls[0].documentation, strs(&["Transfer some liquid free balance to another account."]));
    assert_eq!(calls[0].arguments[0].name, "dest");
    assert_eq!(calls[0].arguments[0].ty, "T::AccountId");
    assert_eq!(calls[0].arguments[1].name, "value");
    assert_eq!(calls[0].arguments[1].ty, "Compact<T::Balance>");
    assert_eq!(calls[1].name, "remark");
    assert_eq!(calls[1].arguments[0].ty, "Vec<u8>");
}

#[test]
fn v14_to_v13_events() {
    let mut types = common_types();
    types.push(named(
        &["pallet_balances", "pallet", "Event"],
        TypeDef::Variant(vec![
            variant(
                "Transfer",
                vec![
                    field(None, 2, Some("T::AccountId")),
                    field(None, 2, Some("T::AccountId")),
                    field(None, 8, Some("T::Balance")),
                ],
                0,
                &["Transfer succeeded."],
            ),
            variant("Flag", vec![field(None, 1, None)], 1, &[]),
        ]),
    )); // 9
    let mut pallet = empty_pallet("Balances", 5);
    pallet.event = Some(v14::PalletEventMetadata { ty: 9 });
    let converted = v14_to_v13(metadata(types, vec![pallet])).expect("converts");
    let events = converted.modules[0].event.as_ref().expect("events");
    assert_eq!(events.len(), 2);
    assert_eq!(events[0].name, "Transfer");
    assert_eq!(events[0].documentation, strs(&["Transfer succeeded."]));
    assert_eq!(events[0].arguments, strs(&["AccountId", "AccountId", "Compact<Balance>"]));
    assert_eq!(events[1].arguments, strs(&["bool"]));
}

#[test]
fn single_hasher_map_keeps_whole_key() {
    let c = converter(common_types());
    let t = v14::StorageEntryType::Keyed { hashers: vec![StorageHasher::Blake2_128Concat], key: 4, value: 1 };
    match c.convert_storage_entry_type(&t).expect("converts") {
        v13::StorageEntryType::SingleMap { hasher, key, value, unused } => {
            assert_eq!(hasher, StorageHasher::Blake2_128Concat);
            assert_eq!(key, "(AccountId, u32)");
            assert_eq!(value, "bool");
            assert!(!unused);
        }
        other => panic!("expected a single map, got {:?}", other),
    }
}

#[test]
fn two_hashers_over_pair_make_double_map() {
    let c = converter(common_types());
    let t = v14::StorageEntryType::Keyed {
        hashers: vec![StorageHasher::Twox64Concat, StorageHasher::Identity],
        key: 4,
        value: 3,
    };
    match c.convert_storage_entry_type(&t).expect("converts") {
        v13::StorageEntryType::DoubleMap { hasher, key1, key2, value, key2_hasher } => {
            assert_eq!(hasher, StorageHasher::Twox64Concat);
            assert_eq!(key1, "AccountId");
            assert_eq!(key2, "u32");
            assert_eq!(value, "Balance");
            assert_eq!(key2_hasher, StorageHasher::Identity);
        }
        other => panic!("expected a double map, got {:?}", other),
    }
}

#[test]
fn two_hashers_over_single_key_fail() {
    let c = converter(common_types());
    let t = v14::StorageEntryType::Keyed {
        hashers: vec![StorageHasher::Twox64Concat, StorageHasher::Identity],
        key: 0,
        value: 3,
    };
    assert_eq!(c.convert_storage_entry_type(&t).unwrap_err(), ConvertError::KeyArityMismatch);
    let triple = v14::StorageEntryType::Keyed {
        hashers: vec![StorageHasher::Twox64Concat, StorageHasher::Identity],
        key: 7,
        value: 3,
    };
    assert_eq!(c.convert_storage_entry_type(&triple).unwrap_err(), ConvertError::KeyArityMismatch);
}

#[test]
fn three_hashers_make_n_map() {
    let c = converter(common_types());
    let hashers = vec![StorageHasher::Blake2_128, StorageHasher::Twox128, StorageHasher::Identity];
    let t = v14::StorageEntryType::Keyed { hashers: hashers.clone(), key: 7, value: 6 };
    match c.convert_storage_entry_type(&t).expect("converts") {
        v13::StorageEntryType::NMap { keys, hashers: out, value } => {
            assert_eq!(keys, strs(&["u32", "bool", "u8"]));
            assert_eq!(out, hashers);
            assert_eq!(value, "Vec<u8>");
        }
        other => panic!("expected an n-map, got {:?}", other),
    }
}

#[test]
fn n_map_over_single_key_has_one_key() {
    let c = converter(common_types());
    let hashers = vec![StorageHasher::Twox256];
    let t = v14::StorageEntryType::NMap { keys: 2, hashers: hashers.clone(), value: 0 };
    match c.convert_storage_entry_type(&t).expect("converts") {
        v13::StorageEntryType::NMap { keys, hashers: out, value } => {
            assert_eq!(keys, strs(&["AccountId"]));
            assert_eq!(out, hashers);
            assert_eq!(value, "u32");
        }
        other => panic!("expected an n-map, got {:?}", other),
    }
}

#[test]
fn map_without_hashers_fails() {
    let c = converter(common_types());
    let t = v14::StorageEntryType::Keyed { hashers: vec![], key: 0, value: 1 };
    assert_eq!(c.convert_storage_entry_type(&t).unwrap_err(), ConvertError::NoHashers);
}

#[test]
fn plain_u32_storage() {
    let c = converter(common_types());
    match c.convert_storage_entry_type(&v14::StorageEntryType::Plain(0)).expect("converts") {
        v13::StorageEntryType::Plain(name) => assert_eq!(name, "u32"),
        other => panic!("expected a plain entry, got {:?}", other),
    }
}

#[test]
fn rendering_twice_is_identical() {
    let c = converter(common_types());
    for id in 0..9u32 {
        assert_eq!(c.get_type_ident(id), c.get_type_ident(id));
    }
    assert_eq!(ident_of(&c, 7), ident_of(&c, 7));
}

#[test]
fn render_each_shape() {
    let mut types = common_types();
    types.push(anon(TypeDef::Array { len: 32, type_param: 5 })); // 9
    types.push(anon(TypeDef::Tuple(vec![]))); // 10
    types.push(named(&["bitvec", "order", "Lsb0"], TypeDef::Composite(vec![]))); // 11
    types.push(anon(TypeDef::BitSequence { bit_store_type: 5, bit_order_type: 11 })); // 12
    types.push(anon(TypeDef::Compact(0))); // 13
    types.push(anon(TypeDef::Sequence(4))); // 14
    types.push(named(&["Option"], TypeDef::Variant(vec![]))); // 15
    let c = converter(types);
    assert_eq!(ident_of(&c, 6), "Vec<u8>");
    assert_eq!(ident_of(&c, 9), "[u8; 32]");
    assert_eq!(ident_of(&c, 10), "()");
    assert_eq!(ident_of(&c, 7), "(u32, bool, u8)");
    assert_eq!(ident_of(&c, 12), "BitVec<Lsb0, u8>");
    assert_eq!(ident_of(&c, 13), "Compact<u32>");
    assert_eq!(ident_of(&c, 14), "Vec<(AccountId, u32)>");
    assert_eq!(ident_of(&c, 15), "Option");
}

#[test]
fn render_every_primitive() {
    let all = [
        (TypeDefPrimitive::Bool, "bool"),
        (TypeDefPrimitive::Char, "char"),
        (TypeDefPrimitive::Str, "str"),
        (TypeDefPrimitive::U8, "u8"),
        (TypeDefPrimitive::U16, "u16"),
        (TypeDefPrimitive::U32, "u32"),
        (TypeDefPrimitive::U64, "u64"),
        (TypeDefPrimitive::U128, "u128"),
        (TypeDefPrimitive::U256, "U256"),
        (TypeDefPrimitive::I8, "i8"),
        (TypeDefPrimitive::I16, "i16"),
        (TypeDefPrimitive::I32, "i32"),
        (TypeDefPrimitive::I64, "i64"),
        (TypeDefPrimitive::I128, "i128"),
        (TypeDefPrimitive::I256, "I256"),
    ];
    let c = converter(all.iter().map(|(p, _)| prim(*p)).collect());
    for (i, (_, name)) in all.iter().enumerate() {
        assert_eq!(ident_of(&c, i as u32), *name);
    }
}

#[test]
fn render_failures() {
    let types = vec![
        anon(TypeDef::Composite(vec![])), // 0: no path
        anon(TypeDef::Sequence(1)),       // 1: refers to itself
        anon(TypeDef::Sequence(9)),       // 2: refers to a missing type
    ];
    let c = converter(types);
    assert_eq!(c.get_type_ident(0), Err(ConvertError::MissingTypeName(0)));
    assert_eq!(c.get_type_ident(1), Err(ConvertError::NestingTooDeep(1)));
    assert_eq!(c.get_type_ident(2), Err(ConvertError::TypeNotFound(9)));
    assert_eq!(c.get_type_ident(3), Err(ConvertError::TypeNotFound(3)));
}

#[test]
fn field_display_name_wins_and_keeps_compact() {
    let c = converter(common_types());
    assert_eq!(c.field_type_name(&field(Some("x"), 8, Some("BalanceOf<T>"))).unwrap(), "Compact<BalanceOf<T>>");
    assert_eq!(c.field_type_name(&field(Some("x"), 0, Some("BlockNumber"))).unwrap(), "BlockNumber");
    assert_eq!(c.field_type_name(&field(Some("x"), 8, None)).unwrap(), "Compact<Balance>");
    assert_eq!(c.field_type_name(&field(Some("x"), 99, Some("Missing"))), Err(ConvertError::TypeNotFound(99)));
}

#[test]
fn transfer_call_converts_to_one_function() {
    let mut types = common_types();
    types.push(named(
        &["pallet", "Call"],
        TypeDef::Variant(vec![variant(
            "Transfer",
            vec![field(Some("dest"), 2, None), field(Some("amount"), 3, None)],
            0,
            &["Move funds.", "", "Fails when the sender is short."],
        )]),
    )); // 9
    let c = converter(types);
    let calls = c.convert_call(&v14::PalletCallMetadata { ty: 9 }).expect("converts");
    assert_eq!(calls.len(), 1);
    assert_eq!(calls[0].name, "Transfer");
    assert_eq!(calls[0].arguments.len(), 2);
    assert_eq!(calls[0].arguments[0].name, "dest");
    assert_eq!(calls[0].arguments[0].ty, "AccountId");
    assert_eq!(calls[0].arguments[1].name, "amount");
    assert_eq!(calls[0].arguments[1].ty, "Balance");
    assert_eq!(calls[0].documentation, strs(&["Move funds.", "", "Fails when the sender is short."]));
}

#[test]
fn error_enum_converts_to_names_and_docs() {
    let mut types = common_types();
    types.push(named(
        &["pallet", "Error"],
        TypeDef::Variant(vec![variant(
            "InsufficientBalance",
            vec![field(Some("needed"), 3, None)],
            0,
            &["Not enough funds."],
        )]),
    )); // 9
    let c = converter(types);
    let errors = c.convert_error(&v14::PalletErrorMetadata { ty: 9 }).expect("converts");
    assert_eq!(errors.len(), 1);
    assert_eq!(errors[0].name, "InsufficientBalance");
    assert_eq!(errors[0].documentation, strs(&["Not enough funds."]));
}

#[test]
fn empty_pallet_converts_to_empty_module() {
    let converted = v14_to_v13(metadata(common_types(), vec![empty_pallet("System", 0)])).expect("converts");
    assert_eq!(converted.modules.len(), 1);
    let m = &converted.modules[0];
    assert_eq!(m.name, "System");
    assert!(m.storage.is_none());
    assert!(m.calls.is_none());
    assert!(m.event.is_none());
    assert!(m.constants.is_empty());
    assert!(m.errors.is_empty());
    assert_eq!(m.index, 0);
}

#[test]
fn unnamed_call_field_fails_whole_conversion() {
    let mut types = common_types();
    types.push(named(
        &["pallet", "Call"],
        TypeDef::Variant(vec![variant("Transfer", vec![field(None, 2, None)], 0, &[])]),
    )); // 9
    let mut pallet = empty_pallet("Balances", 1);
    pallet.calls = Some(v14::PalletCallMetadata { ty: 9 });
    let pallets = vec![empty_pallet("System", 0), pallet];
    assert_eq!(v14_to_v13(metadata(types, pallets)).unwrap_err(), ConvertError::UnnamedField);
}

#[test]
fn call_type_must_be_an_enum() {
    let c = converter(common_types());
    assert_eq!(c.convert_call(&v14::PalletCallMetadata { ty: 0 }).unwrap_err(), ConvertError::NotAVariant(0));
    assert_eq!(c.convert_event(&v14::PalletEventMetadata { ty: 4 }).unwrap_err(), ConvertError::NotAVariant(4));
    assert_eq!(c.convert_error(&v14::PalletErrorMetadata { ty: 50 }).unwrap_err(), ConvertError::TypeNotFound(50));
}

#[test]
fn storage_constants_and_extrinsic_convert() {
    let mut pallet = empty_pallet("Balances", 7);
    pallet.storage = Some(v14::PalletStorageMetadata {
        prefix: "Balances".to_string(),
        entries: vec![v14::StorageEntryMetadata {
            name: "TotalIssuance".to_string(),
            modifier: StorageEntryModifier::Default,
            ty: v14::StorageEntryType::Plain(3),
            default: vec![0, 0, 1],
            docs: strs(&["The total units issued."]),
        }],
    });
    pallet.constants = vec![v14::PalletConstantMetadata {
        name: "ExistentialDeposit".to_string(),
        ty: 0,
        value: vec![1, 0, 0, 0],
        docs: strs(&["The minimum balance."]),
    }];
    let mut md = metadata(common_types(), vec![pallet]);
    md.extrinsic.signed_extensions = vec![
        v14::SignedExtensionMetadata { identifier: "CheckNonce".to_string(), ty: 0, additional_signed: 1 },
        v14::SignedExtensionMetadata { identifier: "CheckWeight".to_string(), ty: 1, additional_signed: 0 },
    ];
    let converted = v14_to_v13(md).expect("converts");
    let m = &converted.modules[0];
    let storage = m.storage.as_ref().expect("storage");
    assert_eq!(storage.prefix, "Balances");
    assert_eq!(storage.entries[0].name, "TotalIssuance");
    assert_eq!(storage.entries[0].modifier, StorageEntryModifier::Default);
    assert_eq!(storage.entries[0].default, vec![0, 0, 1]);
    assert_eq!(storage.entries[0].documentation, strs(&["The total units issued."]));
    assert_eq!(m.constants[0].name, "ExistentialDeposit");
    assert_eq!(m.constants[0].ty, "u32");
    assert_eq!(m.constants[0].value, vec![1, 0, 0, 0]);
    assert_eq!(m.index, 7);
    assert_eq!(converted.extrinsic.version, 4);
    assert_eq!(converted.extrinsic.signed_extensions, strs(&["CheckNonce", "CheckWeight"]));
}

#[test]
fn backwards_keeps_prefix_and_refuses_older() {
    let md = metadata(common_types(), vec![empty_pallet("System", 0)]);
    let out = backwards(RuntimeMetadataPrefixed(META_RESERVED, RuntimeMetadata::V14(md))).expect("converts");
    assert_eq!(out.0, META_RESERVED);
    let older = match out.1 {
        RuntimeMetadata::V13(m) => m,
        other => panic!("expected the older shape, got version {}", other.version()),
    };
    assert_eq!(older.modules[0].name, "System");
    let again = backwards(RuntimeMetadataPrefixed(META_RESERVED, RuntimeMetadata::V13(older)));
    assert_eq!(again.unwrap_err(), ConvertError::UnsupportedVersion(13));
}

#[test]
fn strip_config_prefix_removes_every_occurrence() {
    assert_eq!(strip_config_prefix(&"T::AccountId".to_string()), "AccountId");
    assert_eq!(strip_config_prefix(&"Vec<(T::AccountId, T::Balance)>".to_string()), "Vec<(AccountId, Balance)>");
    assert_eq!(strip_config_prefix(&"T:".to_string()), "T:");
    assert_eq!(strip_config_prefix(&"AT::B".to_string()), "AB");
}

#[test]
fn decimal_string_values() {
    assert_eq!(decimal_string(0), "0");
    assert_eq!(decimal_string(7), "7");
    assert_eq!(decimal_string(10), "10");
    assert_eq!(decimal_string(4294967295), "4294967295");
}
