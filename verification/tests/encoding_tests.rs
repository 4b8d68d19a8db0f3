use signal_protocol::encoding::{
    append_bytes, bytes_equal, bytes_to_vec, copy_range, hex_encode_bytes, hex_preview,
    push_decimal, push_decimal_str, push_key_id, u32_to_be_bytes,
};
use signal_protocol::labels::{
    chain_key_info, chain_key_salt, dh_ratchet_salt, initial_chain_salt, message_key_info,
    message_key_salt, none_label, x3dh_associated_data, x3dh_info, x3dh_salt,
};
use signal_protocol::skipped_keys::{bytes_lt, SkippedKeys};

#[test]
fn hex_encoding_matches_hex_crate() {
    let data: Vec<u8> = (0u8..=255).collect();
    assert_eq!(hex_encode_bytes(&data), hex::encode(&data).into_bytes());
    assert_eq!(hex_encode_bytes(&[]), Vec::<u8>::new());
    assert_eq!(hex_encode_bytes(&[0x0f, 0xa0]), b"0fa0".to_vec());
}

#[test]
fn hex_preview_short_and_long() {
    assert_eq!(hex_preview(&[0xde, 0xad], 8), "dead");
    assert_eq!(hex_preview(&[0xde, 0xad, 0xbe, 0xef], 4), "dead\u{2026}");
    assert_eq!(hex_preview(&[0xde, 0xad], 4), "dead");
    assert_eq!(hex_preview(&[], 0), "");
    assert_eq!(hex_preview(&[1], 0), "\u{2026}");
}

#[test]
fn decimal_and_big_endian() {
    let mut v = b"n=".to_vec();
    push_decimal(&mut v, 0);
    assert_eq!(v, b"n=0");
    let mut v = Vec::new();
    push_decimal(&mut v, 18446744073709551615);
    assert_eq!(v, b"18446744073709551615");
    let mut s = String::from("got ");
    push_decimal_str(&mut s, 1200);
    assert_eq!(s, "got 1200");
    assert_eq!(u32_to_be_bytes(0x01020304), vec![1, 2, 3, 4]);
    assert_eq!(u32_to_be_bytes(u32::MAX), vec![255, 255, 255, 255]);
}

#[test]
fn key_ids_and_byte_helpers() {
    let mut id = b"none".to_vec();
    push_key_id(&mut id, 42);
    assert_eq!(id, b"none:42");
    let mut v = vec![1u8];
    append_bytes(&mut v, &[2, 3]);
    assert_eq!(v, vec![1, 2, 3]);
    assert_eq!(bytes_to_vec(&[4, 5]), vec![4, 5]);
    assert_eq!(copy_range(&[1, 2, 3, 4], 1, 3), vec![2, 3]);
    assert!(bytes_equal(b"ab", b"ab"));
    assert!(!bytes_equal(b"ab", b"abc"));
    assert!(!bytes_equal(b"ab", b"ac"));
}

#[test]
fn byte_order_is_lexicographic() {
    assert!(bytes_lt(b"", b"a"));
    assert!(!bytes_lt(b"", b""));
    assert!(bytes_lt(b"ab", b"abc"));
    assert!(bytes_lt(b"ab:10", b"ab:2"));
    assert!(!bytes_lt(b"b", b"abc"));
}

#[test]
fn labels_are_the_protocol_strings() {
    assert_eq!(x3dh_salt(), b"Signal_X3DH_Salt");
    assert_eq!(x3dh_info(), b"Signal_X3DH_Key_Derivation");
    assert_eq!(x3dh_associated_data(), b"X3DH_Key_Exchange");
    assert_eq!(chain_key_info(), b"Signal_DoubleRatchet_ChainKey");
    assert_eq!(none_label(), b"none");
    assert_eq!(message_key_info(), b"Signal_DoubleRatchet_MessageKey");
    assert_eq!(message_key_salt(), b"Signal_Message_Salt");
    assert_eq!(chain_key_salt(), b"Signal_Chain_Salt");
    assert_eq!(dh_ratchet_salt(), b"Signal_DH_Ratchet");
    assert_eq!(initial_chain_salt(), b"Signal_Initial_Chain");
}

#[test]
fn skipped_key_store_is_a_sorted_map() {
    let mut store = SkippedKeys::new();
    assert!(store.is_empty());
    store.insert(b"k:2".to_vec(), vec![2u8; 32]);
    store.insert(b"k:10".to_vec(), vec![10u8; 32]);
    store.insert(b"k:1".to_vec(), vec![1u8; 32]);
    assert_eq!(store.len(), 3);
    assert_eq!(
        store.keys(),
        vec![b"k:1".to_vec(), b"k:10".to_vec(), b"k:2".to_vec()]
    );
    store.insert(b"k:10".to_vec(), vec![11u8; 32]);
    assert_eq!(store.len(), 3);
    assert_eq!(store.get(b"k:10"), Some(vec![11u8; 32]));
    assert!(store.contains_key(b"k:2"));
    assert_eq!(store.get(b"k:3"), None);
    assert_eq!(store.remove(b"k:2"), Some(vec![2u8; 32]));
    assert_eq!(store.remove(b"k:2"), None);
    assert!(!store.contains_key(b"k:2"));
    let copy = store.copy();
    store.remove_first(1);
    assert_eq!(store.keys(), vec![b"k:10".to_vec()]);
    assert_eq!(copy.keys(), vec![b"k:1".to_vec(), b"k:10".to_vec()]);
    let cloned = copy.clone();
    assert_eq!(cloned.len(), 2);
    assert_eq!(cloned.get(b"k:1"), Some(vec![1u8; 32]));
}
