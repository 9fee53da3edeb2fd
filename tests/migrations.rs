use kitties::migrations::v1::OldKitty;
use kitties::migrations::v2::{OldKitty_V0, OldKitty_V1};
use kitties::migrations::{on_runtime_upgrade, v1, v2, KittyStorage, STORAGE_VERSION};

fn dna() -> Vec<u8> {
    (1..=16u8).collect()
}

#[test]
fn v0_records_move_to_the_current_layout_once() {
    let mut storage = KittyStorage { on_chain_version: 0, records: vec![(5, dna())] };
    v2::migrate(&mut storage, 2);
    let mut expected = dna();
    expected.extend_from_slice(b"abcdfdff");
    assert_eq!(storage.on_chain_version, 2);
    assert_eq!(storage.records, vec![(5, expected.clone())]);
    v2::migrate(&mut storage, 2);
    assert_eq!(storage.on_chain_version, 2);
    assert_eq!(storage.records, vec![(5, expected)]);
}

#[test]
fn v1_records_get_a_zero_padded_label() {
    let mut value = dna();
    value.extend_from_slice(b"wxyz");
    let mut storage = KittyStorage { on_chain_version: 1, records: vec![(0, value), (3, dna())] };
    v2::migrate(&mut storage, 2);
    let mut expected = dna();
    expected.extend_from_slice(b"wxyz\0\0\0\0");
    assert_eq!(storage.on_chain_version, 2);
    assert_eq!(storage.records, vec![(0, expected), (3, dna())]);
}

#[test]
fn migration_without_a_matching_version_is_a_no_op() {
    let untouched = vec![(1, dna())];
    let mut storage = KittyStorage { on_chain_version: 2, records: untouched.clone() };
    v2::migrate(&mut storage, 2);
    assert_eq!(storage.records, untouched);
    let mut storage = KittyStorage { on_chain_version: 0, records: untouched.clone() };
    v2::migrate(&mut storage, 3);
    assert_eq!(storage.on_chain_version, 0);
    assert_eq!(storage.records, untouched);
    v1::migrate(&mut storage, 2);
    assert_eq!(storage.on_chain_version, 0);
    assert_eq!(storage.records, untouched);
}

#[test]
fn v0_to_v1_then_current() {
    let mut storage = KittyStorage { on_chain_version: 0, records: vec![(9, dna()), (10, vec![1, 2])] };
    v1::migrate(&mut storage, 1);
    let mut expected = dna();
    expected.extend_from_slice(b"abcd");
    assert_eq!(storage.on_chain_version, 1);
    assert_eq!(storage.records, vec![(9, expected), (10, vec![1, 2])]);
    v1::migrate(&mut storage, 1);
    assert_eq!(storage.on_chain_version, 1);
    on_runtime_upgrade(&mut storage);
    let mut current = dna();
    current.extend_from_slice(b"abcd\0\0\0\0");
    assert_eq!(storage.on_chain_version, STORAGE_VERSION);
    assert_eq!(storage.records, vec![(9, current), (10, vec![1, 2])]);
}

#[test]
fn old_layout_decoders() {
    let mut bytes = dna();
    bytes.extend_from_slice(b"wxyz");
    let expected: [u8; 16] = dna().try_into().unwrap();
    assert_eq!(OldKitty::decode(&bytes), Some(OldKitty(expected)));
    assert_eq!(OldKitty_V0::decode(&bytes[..16]), Some(OldKitty_V0(expected)));
    assert_eq!(OldKitty_V0::decode(&bytes[..15]), None);
    let v1 = OldKitty_V1::decode(&bytes).unwrap();
    assert_eq!(v1, OldKitty_V1 { dna: expected, name: *b"wxyz" });
    assert_eq!(v1.encode(), bytes);
    assert_eq!(OldKitty_V1::decode(&bytes[..19]), None);
}
