use frame_metadata::decode_different::{DecodeDifferent, DecodeDifferentArray, DecodeDifferentStr};
use frame_metadata::error::Error;
use frame_metadata::metadata::{str_eq_ignore_ascii_case, Metadata};
use frame_metadata::registry::PortableRegistry;
use frame_metadata::runtime::RuntimeMetadata;
use frame_metadata::supported_versions;
use frame_metadata::v13;
use frame_metadata::v14;

fn module(name: &str, index: u8) -> v13::ModuleMetadata {
    v13::ModuleMetadata {
        name: name.to_string(),
        storage: None,
        calls: None,
        event: None,
        constants: vec![],
        errors: vec![],
        index,
    }
}

fn older(names: &[&str]) -> RuntimeMetadata {
    RuntimeMetadata::V13(v13::RuntimeMetadataV13 {
        modules: names.iter().enumerate().map(|(i, n)| module(n, i as u8)).collect(),
        extrinsic: v13::ExtrinsicMetadata { version: 4, signed_extensions: vec![] },
    })
}

#[test]
fn pallets_in_order() {
    let md = Metadata::new(older(&["System", "Balances", "Staking"])).expect("older shape");
    assert_eq!(md.pallets(), vec!["System".to_string(), "Balances".to_string(), "Staking".to_string()]);
}

#[test]
fn pallet_index_ignores_ascii_case() {
    let md = Metadata::new(older(&["System", "Balances", "balances"])).expect("older shape");
    assert_eq!(md.pallet_index("balances"), Some(1));
    assert_eq!(md.pallet_index("SYSTEM"), Some(0));
    assert_eq!(md.pallet_index("Staking"), None);
    assert_eq!(md.pallet_index("System2"), None);
}

#[test]
fn newer_shape_is_refused() {
    let newer = RuntimeMetadata::V14(v14::RuntimeMetadataV14 {
        types: PortableRegistry { types: vec![] },
        pallets: vec![],
        extrinsic: v14::ExtrinsicMetadata { ty: 0, version: 4, signed_extensions: vec![] },
        ty: 0,
    });
    match Metadata::new(newer) {
        Err(e) => assert_eq!(e, Error::InvalidMetadataVersion { expected: 13, got: 14 }),
        Ok(_) => panic!("the newer shape must be refused"),
    }
}

#[test]
fn ascii_case_comparison() {
    assert!(str_eq_ignore_ascii_case("Balances", "bALANCES"));
    assert!(!str_eq_ignore_ascii_case("Balances", "Balance"));
    assert!(!str_eq_ignore_ascii_case("a", "b"));
    assert!(str_eq_ignore_ascii_case("Ünit", "Ünit"));
    assert!(!str_eq_ignore_ascii_case("Ünit", "ünit"));
    assert!(str_eq_ignore_ascii_case("", ""));
}

#[test]
fn decode_different_either_form() {
    static ITEMS: [u32; 3] = [1, 2, 3];
    let encoded: DecodeDifferentArray<u32> = DecodeDifferent::Encode(&ITEMS);
    let decoded: DecodeDifferentArray<u32> = DecodeDifferent::Decoded(vec![4, 5]);
    assert_eq!(encoded.as_slice(), &[1, 2, 3]);
    assert_eq!(decoded.as_slice(), &[4, 5]);
    let s1: DecodeDifferentStr = DecodeDifferent::Encode("System");
    let s2: DecodeDifferentStr = DecodeDifferent::Decoded("Balances".to_string());
    assert_eq!(s1.to_string(), "System");
    assert_eq!(s2.to_string(), "Balances");
}

#[test]
fn supported_versions_lists_newer_shape() {
    assert_eq!(supported_versions(), vec![14]);
}
