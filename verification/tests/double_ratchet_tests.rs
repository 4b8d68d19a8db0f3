use aes_gcm::aead::generic_array::GenericArray;
use aes_gcm::aead::{AeadInPlace, KeyInit};
use aes_gcm::Aes256Gcm;
use signal_protocol::double_ratchet::{
    aead_decrypt, aead_encrypt, cleanup_skipped_message_keys_internal, decrypt_would_overflow,
    derive_message_key,
    derive_next_chain_key, double_ratchet_decrypt_internal, double_ratchet_decrypt_with_keypair,
    double_ratchet_encrypt_internal, double_ratchet_encrypt_with_nonce,
    initialize_double_ratchet_internal, initialize_double_ratchet_with_keypair,
    perform_dh_ratchet_step, perform_dh_ratchet_step_with_keypair, skip_message_keys,
    DoubleRatchetMessage, DoubleRatchetState, MAX_SKIPPED_MESSAGE_KEYS,
};
use signal_protocol::error::SignalError;
use signal_protocol::keys::{generate_identity_keypair, generate_x25519_keypair_internal};
use signal_protocol::labels::{chain_key_info, initial_chain_salt, message_key_info, message_key_salt};

fn shared_secret() -> [u8; 32] {
    [0x42u8; 32]
}

fn hkdf32(salt: &[u8], ikm: &[u8], info: &[u8]) -> Vec<u8> {
    let hk = hkdf::Hkdf::<sha2::Sha256>::new(Some(salt), ikm);
    let mut out = vec![0u8; 32];
    hk.expand(info, &mut out).unwrap();
    out
}

// Tests of the protocol's own module.

#[test]
fn state_new_defaults() {
    let s = DoubleRatchetState::new();
    assert_eq!(s.root_key.len(), 32);
    assert!(s.sending_chain_key.is_none());
    assert!(s.receiving_chain_key.is_none());
    assert!(s.skipped_message_keys.is_empty());
    let _ = format!("{:?}", s);
}

#[test]
fn init_rejects_bad_secret_length() {
    let err = initialize_double_ratchet_internal(&[0u8; 16], true).unwrap_err();
    assert!(matches!(err, SignalError::InvalidInput(_)));
}

#[test]
fn encrypt_without_chain_fails() {
    let mut bob = initialize_double_ratchet_internal(&shared_secret(), false).unwrap();
    let err = double_ratchet_encrypt_internal(&mut bob, b"hi").unwrap_err();
    assert!(matches!(err, SignalError::InvalidInput(_)));
}

#[test]
fn roundtrip_alice_to_bob() {
    let mut alice = initialize_double_ratchet_internal(&shared_secret(), true).unwrap();
    let mut bob = initialize_double_ratchet_internal(&shared_secret(), false).unwrap();

    let msg = double_ratchet_encrypt_internal(&mut alice, b"hello bob").unwrap();
    let _ = format!("{:?}", msg);
    let plain = double_ratchet_decrypt_internal(&mut bob, &msg).unwrap();
    assert_eq!(plain, b"hello bob");
}

#[test]
fn bidirectional_messaging() {
    let mut alice = initialize_double_ratchet_internal(&shared_secret(), true).unwrap();
    let mut bob = initialize_double_ratchet_internal(&shared_secret(), false).unwrap();

    let m1 = double_ratchet_encrypt_internal(&mut alice, b"ping").unwrap();
    assert_eq!(double_ratchet_decrypt_internal(&mut bob, &m1).unwrap(), b"ping");

    let m2 = double_ratchet_encrypt_internal(&mut bob, b"pong").unwrap();
    assert_eq!(double_ratchet_decrypt_internal(&mut alice, &m2).unwrap(), b"pong");

    let m3 = double_ratchet_encrypt_internal(&mut alice, b"again").unwrap();
    assert_eq!(double_ratchet_decrypt_internal(&mut bob, &m3).unwrap(), b"again");
}

#[test]
fn out_of_order_skipped_keys() {
    let mut alice = initialize_double_ratchet_internal(&shared_secret(), true).unwrap();
    let mut bob = initialize_double_ratchet_internal(&shared_secret(), false).unwrap();

    let m0 = double_ratchet_encrypt_internal(&mut alice, b"msg0").unwrap();
    let m1 = double_ratchet_encrypt_internal(&mut alice, b"msg1").unwrap();
    let m2 = double_ratchet_encrypt_internal(&mut alice, b"msg2").unwrap();

    assert_eq!(double_ratchet_decrypt_internal(&mut bob, &m2).unwrap(), b"msg2");
    assert_eq!(double_ratchet_decrypt_internal(&mut bob, &m0).unwrap(), b"msg0");
    assert_eq!(double_ratchet_decrypt_internal(&mut bob, &m1).unwrap(), b"msg1");
}

#[test]
fn skip_message_keys_too_many() {
    let mut bob = initialize_double_ratchet_internal(&shared_secret(), false).unwrap();
    bob.receiving_chain_key = Some(vec![1u8; 32]);
    bob.receiving_dh_public_key = Some(vec![2u8; 32]);
    bob.receiving_message_number = 0;
    let err = skip_message_keys(&mut bob, (MAX_SKIPPED_MESSAGE_KEYS as u32) + 1).unwrap_err();
    assert!(matches!(err, SignalError::InvalidInput(_)));
}

#[test]
fn skip_message_keys_noop_paths() {
    let mut bob = initialize_double_ratchet_internal(&shared_secret(), false).unwrap();
    bob.receiving_message_number = 5;
    assert!(skip_message_keys(&mut bob, 5).is_ok());
    bob.receiving_message_number = 0;
    bob.receiving_chain_key = None;
    assert!(skip_message_keys(&mut bob, 3).is_ok());
}

#[test]
fn skip_without_dh_public_uses_none_key_id() {
    let mut bob = initialize_double_ratchet_internal(&shared_secret(), false).unwrap();
    bob.receiving_chain_key = Some(vec![3u8; 32]);
    bob.receiving_dh_public_key = None;
    bob.receiving_message_number = 0;
    skip_message_keys(&mut bob, 2).unwrap();
    assert!(bob
        .skipped_message_keys
        .keys()
        .iter()
        .any(|k| k.starts_with(b"none:")));
}

#[test]
fn cleanup_skipped_message_keys() {
    let mut alice = initialize_double_ratchet_internal(&shared_secret(), true).unwrap();
    let mut bob = initialize_double_ratchet_internal(&shared_secret(), false).unwrap();
    let msgs: Vec<_> = (0..5)
        .map(|i| {
            double_ratchet_encrypt_internal(&mut alice, format!("m{i}").as_bytes()).unwrap()
        })
        .collect();
    double_ratchet_decrypt_internal(&mut bob, &msgs[4]).unwrap();
    assert!(bob.skipped_message_keys.len() >= 4);
    assert_eq!(cleanup_skipped_message_keys_internal(&mut bob, 100), 0);
    let before = bob.skipped_message_keys.len();
    let removed = cleanup_skipped_message_keys_internal(&mut bob, 2);
    assert_eq!(removed, before - 2);
    assert_eq!(bob.skipped_message_keys.len(), 2);
    let left = bob.skipped_message_keys.len();
    assert_eq!(cleanup_skipped_message_keys_internal(&mut bob, 0), left);
    assert!(bob.skipped_message_keys.is_empty());
}

#[test]
fn decrypt_tampered_ciphertext_fails() {
    let mut alice = initialize_double_ratchet_internal(&shared_secret(), true).unwrap();
    let mut bob = initialize_double_ratchet_internal(&shared_secret(), false).unwrap();
    let mut msg = double_ratchet_encrypt_internal(&mut alice, b"secret").unwrap();
    if let Some(b) = msg.ciphertext.last_mut() {
        *b ^= 0xff;
    }
    let err = double_ratchet_decrypt_internal(&mut bob, &msg).unwrap_err();
    assert!(matches!(err, SignalError::Decryption(_)));
}

#[test]
fn decrypt_short_ciphertext_fails() {
    let mut alice = initialize_double_ratchet_internal(&shared_secret(), true).unwrap();
    let mut bob = initialize_double_ratchet_internal(&shared_secret(), false).unwrap();
    let mut msg = double_ratchet_encrypt_internal(&mut alice, b"x").unwrap();
    msg.ciphertext = vec![1u8; 8];
    let err = double_ratchet_decrypt_internal(&mut bob, &msg).unwrap_err();
    assert!(matches!(err, SignalError::Decryption(_)));
}

#[test]
fn decrypt_message_number_mismatch() {
    let mut alice = initialize_double_ratchet_internal(&shared_secret(), true).unwrap();
    let mut bob = initialize_double_ratchet_internal(&shared_secret(), false).unwrap();
    let msg = double_ratchet_encrypt_internal(&mut alice, b"a").unwrap();
    double_ratchet_decrypt_internal(&mut bob, &msg).unwrap();
    let err = double_ratchet_decrypt_internal(&mut bob, &msg).unwrap_err();
    assert!(matches!(
        err,
        SignalError::InvalidInput(_) | SignalError::Decryption(_)
    ));
}

#[test]
fn decrypt_missing_receiving_chain_key() {
    let mut bob = initialize_double_ratchet_internal(&shared_secret(), false).unwrap();
    bob.receiving_dh_public_key = Some(vec![9u8; 32]);
    bob.receiving_chain_key = None;
    bob.receiving_message_number = 0;
    let msg = DoubleRatchetMessage {
        ciphertext: vec![0u8; 28],
        dh_public_key: vec![9u8; 32],
        message_number: 0,
        previous_chain_length: 0,
    };
    let err = double_ratchet_decrypt_internal(&mut bob, &msg).unwrap_err();
    assert!(matches!(err, SignalError::InvalidInput(_)));
}

#[test]
fn perform_dh_without_prior_sending_keypair() {
    let mut bob = initialize_double_ratchet_internal(&shared_secret(), false).unwrap();
    assert!(bob.sending_dh_keypair.is_none());
    let remote = generate_identity_keypair();
    perform_dh_ratchet_step(&mut bob, &remote.public_key).unwrap();
    assert!(bob.sending_dh_keypair.is_some());
    assert!(bob.receiving_chain_key.is_some());
    assert!(bob.sending_chain_key.is_some());
}

#[test]
fn perform_dh_with_existing_sending_keypair() {
    let mut alice = initialize_double_ratchet_internal(&shared_secret(), true).unwrap();
    assert!(alice.sending_dh_keypair.is_some());
    let remote = generate_identity_keypair();
    let before = alice.root_key.clone();
    perform_dh_ratchet_step(&mut alice, &remote.public_key).unwrap();
    assert_ne!(alice.root_key, before);
}

#[test]
fn aead_decrypt_tag_too_short() {
    let err = aead_decrypt(&[0u8; 32], &[0u8; 8], &[0u8; 12], b"").unwrap_err();
    assert!(matches!(err, SignalError::Decryption(_)));
}

#[test]
fn derive_helpers() {
    let ck = [9u8; 32];
    assert_eq!(derive_message_key(&ck).unwrap().len(), 32);
    assert_eq!(derive_next_chain_key(&ck).unwrap().len(), 32);
}

#[test]
fn encrypt_without_dh_keypair_fails() {
    let mut state = initialize_double_ratchet_internal(&shared_secret(), true).unwrap();
    state.sending_dh_keypair = None;
    let err = double_ratchet_encrypt_internal(&mut state, b"x").unwrap_err();
    assert!(matches!(err, SignalError::InvalidInput(_)));
}

// Tests of the same functions from the WebAssembly package's suite.

#[test]
fn test_derive_message_key() {
    let chain_key = vec![1u8; 32];

    let message_key = derive_message_key(&chain_key).unwrap();
    assert_eq!(message_key.len(), 32);

    let message_key2 = derive_message_key(&chain_key).unwrap();
    assert_eq!(message_key, message_key2);

    let different_chain_key = vec![2u8; 32];
    let different_message_key = derive_message_key(&different_chain_key).unwrap();
    assert_ne!(message_key, different_message_key);
}

#[test]
fn test_derive_next_chain_key() {
    let chain_key = vec![1u8; 32];

    let next_chain_key = derive_next_chain_key(&chain_key).unwrap();
    assert_eq!(next_chain_key.len(), 32);

    let next_chain_key2 = derive_next_chain_key(&chain_key).unwrap();
    assert_eq!(next_chain_key, next_chain_key2);

    let different_chain_key = vec![2u8; 32];
    let different_next_chain_key = derive_next_chain_key(&different_chain_key).unwrap();
    assert_ne!(next_chain_key, different_next_chain_key);
}

#[test]
fn test_chain_key_advancement() {
    let initial_chain_key = vec![1u8; 32];

    let chain_key_1 = derive_next_chain_key(&initial_chain_key).unwrap();
    let chain_key_2 = derive_next_chain_key(&chain_key_1).unwrap();
    let chain_key_3 = derive_next_chain_key(&chain_key_2).unwrap();

    assert_ne!(initial_chain_key, chain_key_1);
    assert_ne!(chain_key_1, chain_key_2);
    assert_ne!(chain_key_2, chain_key_3);

    let msg_key_1 = derive_message_key(&chain_key_1).unwrap();
    let msg_key_2 = derive_message_key(&chain_key_2).unwrap();
    assert_ne!(msg_key_1, msg_key_2);
}

#[test]
fn test_double_ratchet_state_creation() {
    let state = DoubleRatchetState::new();

    assert_eq!(state.root_key.len(), 32);
    assert_eq!(state.sending_message_number, 0);
    assert_eq!(state.receiving_message_number, 0);
    assert_eq!(state.skipped_keys_count(), 0);
    assert!(state.sending_chain_key.is_none());
    assert!(state.receiving_chain_key.is_none());
}

#[test]
fn test_double_ratchet_state_creation_native() {
    let state = DoubleRatchetState::new();

    assert_eq!(state.root_key.len(), 32);
    assert_eq!(state.sending_message_number, 0);
    assert_eq!(state.receiving_message_number, 0);
    assert_eq!(state.skipped_keys_count(), 0);
    assert!(state.sending_chain_key.is_none());
    assert!(state.receiving_chain_key.is_none());
}

#[test]
fn test_initialize_double_ratchet_internal_initiator() {
    let shared_secret = vec![1u8; 32];
    let state = initialize_double_ratchet_internal(&shared_secret, true).unwrap();

    assert_eq!(state.root_key, shared_secret);
    assert!(state.sending_chain_key.is_some());
    assert!(state.sending_dh_keypair.is_some());
    assert_eq!(state.sending_message_number, 0);
    assert_eq!(state.receiving_message_number, 0);
    assert_eq!(state.previous_chain_length, 0);
}

#[test]
fn test_initialize_double_ratchet_internal_responder() {
    let shared_secret = vec![1u8; 32];
    let state = initialize_double_ratchet_internal(&shared_secret, false).unwrap();

    assert_eq!(state.root_key, shared_secret);
    assert!(state.sending_chain_key.is_none());
    assert!(state.sending_dh_keypair.is_none());
    assert_eq!(state.receiving_message_number, 0);
    assert_eq!(state.previous_chain_length, 0);
}

#[test]
fn test_initialize_double_ratchet_internal_invalid_secret() {
    let short_secret = vec![1u8; 16];
    let result = initialize_double_ratchet_internal(&short_secret, true);
    assert!(result.is_err());
}

#[test]
fn test_double_ratchet_encrypt_decrypt_roundtrip() {
    let shared_secret = vec![1u8; 32];
    let mut alice_state = initialize_double_ratchet_internal(&shared_secret, true).unwrap();
    let mut bob_state = initialize_double_ratchet_internal(&shared_secret, false).unwrap();

    let plaintext = b"Hello, Double Ratchet!";
    let encrypted = double_ratchet_encrypt_internal(&mut alice_state, plaintext).unwrap();

    assert_eq!(encrypted.message_number, 0);
    assert_eq!(alice_state.sending_message_number, 1);

    let decrypted = double_ratchet_decrypt_internal(&mut bob_state, &encrypted).unwrap();
    assert_eq!(decrypted, plaintext);
    assert_eq!(bob_state.receiving_message_number, 1);
}

#[test]
fn test_double_ratchet_multiple_messages() {
    let shared_secret = vec![1u8; 32];
    let mut alice_state = initialize_double_ratchet_internal(&shared_secret, true).unwrap();
    let mut bob_state = initialize_double_ratchet_internal(&shared_secret, false).unwrap();

    let msg1 = b"Message 1";
    let msg2 = b"Message 2";
    let msg3 = b"Message 3";

    let enc1 = double_ratchet_encrypt_internal(&mut alice_state, msg1).unwrap();
    let enc2 = double_ratchet_encrypt_internal(&mut alice_state, msg2).unwrap();
    let enc3 = double_ratchet_encrypt_internal(&mut alice_state, msg3).unwrap();

    assert_eq!(double_ratchet_decrypt_internal(&mut bob_state, &enc1).unwrap(), msg1);
    assert_eq!(double_ratchet_decrypt_internal(&mut bob_state, &enc2).unwrap(), msg2);
    assert_eq!(double_ratchet_decrypt_internal(&mut bob_state, &enc3).unwrap(), msg3);

    assert_eq!(bob_state.receiving_message_number, 3);
}

#[test]
fn test_double_ratchet_bidirectional() {
    let shared_secret = vec![1u8; 32];
    let mut alice_state = initialize_double_ratchet_internal(&shared_secret, true).unwrap();
    let mut bob_state = initialize_double_ratchet_internal(&shared_secret, false).unwrap();

    let msg1 = double_ratchet_encrypt_internal(&mut alice_state, b"Alice to Bob").unwrap();
    let _dec1 = double_ratchet_decrypt_internal(&mut bob_state, &msg1).unwrap();

    let msg2 = double_ratchet_encrypt_internal(&mut bob_state, b"Bob to Alice").unwrap();
    let _dec2 = double_ratchet_decrypt_internal(&mut alice_state, &msg2).unwrap();

    let msg3 = double_ratchet_encrypt_internal(&mut alice_state, b"Alice to Bob again").unwrap();
    let dec3 = double_ratchet_decrypt_internal(&mut bob_state, &msg3).unwrap();
    assert_eq!(dec3, b"Alice to Bob again");
}

#[test]
fn test_double_ratchet_root_key_invariants_after_init() {
    let shared_secret = vec![1u8; 32];
    let alice_state = initialize_double_ratchet_internal(&shared_secret, true).unwrap();
    let bob_state = initialize_double_ratchet_internal(&shared_secret, false).unwrap();

    assert_eq!(alice_state.root_key, bob_state.root_key, "roots must match at init");
    assert_eq!(alice_state.root_key, vec![1u8; 32], "initial root equals shared_secret");
}

#[test]
fn test_double_ratchet_send_does_not_advance_root_key() {
    let shared_secret = vec![1u8; 32];
    let mut alice_state = initialize_double_ratchet_internal(&shared_secret, true).unwrap();
    let before = alice_state.root_key.clone();
    let _enc = double_ratchet_encrypt_internal(&mut alice_state, b"Message 1").unwrap();
    let after = alice_state.root_key.clone();
    assert_eq!(before, after, "encrypt must not advance root_key");
}

#[test]
fn test_double_ratchet_root_advances_on_receive() {
    let shared_secret = vec![1u8; 32];
    let mut alice_state = initialize_double_ratchet_internal(&shared_secret, true).unwrap();
    let mut bob_state = initialize_double_ratchet_internal(&shared_secret, false).unwrap();
    let initial_root = alice_state.root_key.clone();

    let enc1 = double_ratchet_encrypt_internal(&mut alice_state, b"Message 1").unwrap();
    let _ = double_ratchet_decrypt_internal(&mut bob_state, &enc1).unwrap();

    assert_ne!(bob_state.root_key, initial_root, "Bob's root must advance on first DH ratchet");
    assert_eq!(alice_state.root_key, initial_root, "Alice's root unchanged until she receives");
}

#[test]
fn test_double_ratchet_roots_diverge_after_pingpong() {
    let shared_secret = vec![1u8; 32];
    let mut alice_state = initialize_double_ratchet_internal(&shared_secret, true).unwrap();
    let mut bob_state = initialize_double_ratchet_internal(&shared_secret, false).unwrap();
    let initial_root = alice_state.root_key.clone();

    let enc1 = double_ratchet_encrypt_internal(&mut alice_state, b"Message 1").unwrap();
    let _ = double_ratchet_decrypt_internal(&mut bob_state, &enc1).unwrap();
    let enc2 = double_ratchet_encrypt_internal(&mut bob_state, b"Message 2").unwrap();
    let _ = double_ratchet_decrypt_internal(&mut alice_state, &enc2).unwrap();

    assert_ne!(alice_state.root_key, initial_root, "Alice's root advances after receiving");
    assert_ne!(bob_state.root_key, initial_root, "Bob's root advances after receiving");
    assert_ne!(
        alice_state.root_key, bob_state.root_key,
        "per Signal spec, receiver ends one DH-ratchet step ahead of peer"
    );
}

#[test]
fn test_double_ratchet_works_after_root_key_divergence() {
    let shared_secret = vec![1u8; 32];
    let mut alice_state = initialize_double_ratchet_internal(&shared_secret, true).unwrap();
    let mut bob_state = initialize_double_ratchet_internal(&shared_secret, false).unwrap();

    let enc1 = double_ratchet_encrypt_internal(&mut alice_state, b"Message 1").unwrap();
    let dec1 = double_ratchet_decrypt_internal(&mut bob_state, &enc1).unwrap();
    assert_eq!(dec1, b"Message 1");

    let enc2 = double_ratchet_encrypt_internal(&mut bob_state, b"Message 2").unwrap();
    let dec2 = double_ratchet_decrypt_internal(&mut alice_state, &enc2).unwrap();
    assert_eq!(dec2, b"Message 2");

    let enc3 = double_ratchet_encrypt_internal(&mut alice_state, b"Message 3").unwrap();
    let dec3 = double_ratchet_decrypt_internal(&mut bob_state, &enc3).unwrap();
    assert_eq!(dec3, b"Message 3");

    let enc4 = double_ratchet_encrypt_internal(&mut bob_state, b"Message 4").unwrap();
    let dec4 = double_ratchet_decrypt_internal(&mut alice_state, &enc4).unwrap();
    assert_eq!(dec4, b"Message 4");
}

#[test]
fn test_double_ratchet_encrypt_no_chain_key() {
    let mut state = DoubleRatchetState::new();
    state.root_key = vec![1u8; 32];

    let result = double_ratchet_encrypt_internal(&mut state, b"test");
    assert!(result.is_err());
}

#[test]
fn test_double_ratchet_decrypt_short_ciphertext() {
    let shared_secret = vec![1u8; 32];
    let mut state = initialize_double_ratchet_internal(&shared_secret, false).unwrap();

    let message = DoubleRatchetMessage {
        ciphertext: vec![1u8; 10],
        dh_public_key: vec![2u8; 32],
        message_number: 0,
        previous_chain_length: 0,
    };

    let result = double_ratchet_decrypt_internal(&mut state, &message);
    assert!(result.is_err());
}

#[test]
fn test_perform_dh_ratchet_step_first_message() {
    let shared_secret = vec![1u8; 32];
    let mut state = initialize_double_ratchet_internal(&shared_secret, false).unwrap();

    let alice_keypair = generate_x25519_keypair_internal();
    perform_dh_ratchet_step(&mut state, &alice_keypair.public_key).unwrap();

    assert!(state.receiving_chain_key.is_some());
    assert!(state.sending_chain_key.is_some());
    assert!(state.sending_dh_keypair.is_some());
    assert_eq!(state.receiving_message_number, 0);
    assert_eq!(state.sending_message_number, 0);
}

#[test]
fn test_perform_dh_ratchet_step_normal_ratchet() {
    let shared_secret = vec![1u8; 32];
    let mut state = initialize_double_ratchet_internal(&shared_secret, true).unwrap();

    let bob_keypair1 = generate_x25519_keypair_internal();
    perform_dh_ratchet_step(&mut state, &bob_keypair1.public_key).unwrap();

    let bob_keypair2 = generate_x25519_keypair_internal();
    perform_dh_ratchet_step(&mut state, &bob_keypair2.public_key).unwrap();

    assert!(state.receiving_chain_key.is_some());
    assert!(state.sending_chain_key.is_some());
}

#[test]
fn test_skip_message_keys() {
    let shared_secret = vec![1u8; 32];
    let mut state = initialize_double_ratchet_internal(&shared_secret, true).unwrap();

    let remote_keypair = generate_x25519_keypair_internal();
    perform_dh_ratchet_step(&mut state, &remote_keypair.public_key).unwrap();

    skip_message_keys(&mut state, 5).unwrap();

    assert_eq!(state.receiving_message_number, 5);
    assert_eq!(state.skipped_message_keys.len(), 5);
}

#[test]
fn test_skip_message_keys_too_many() {
    let shared_secret = vec![1u8; 32];
    let mut state = initialize_double_ratchet_internal(&shared_secret, true).unwrap();

    let remote_keypair = generate_x25519_keypair_internal();
    perform_dh_ratchet_step(&mut state, &remote_keypair.public_key).unwrap();

    let result = skip_message_keys(&mut state, 2000);
    assert!(result.is_err());
}

#[test]
fn test_skip_message_keys_no_chain() {
    let mut state = DoubleRatchetState::new();
    state.root_key = vec![1u8; 32];

    skip_message_keys(&mut state, 5).unwrap();
    assert_eq!(state.skipped_message_keys.len(), 0);
}

#[test]
fn test_out_of_order_messages() {
    let shared_secret = vec![1u8; 32];
    let mut alice_state = initialize_double_ratchet_internal(&shared_secret, true).unwrap();
    let mut bob_state = initialize_double_ratchet_internal(&shared_secret, false).unwrap();

    let msg1 = double_ratchet_encrypt_internal(&mut alice_state, b"Message 1").unwrap();
    let msg2 = double_ratchet_encrypt_internal(&mut alice_state, b"Message 2").unwrap();
    let msg3 = double_ratchet_encrypt_internal(&mut alice_state, b"Message 3").unwrap();

    assert_eq!(double_ratchet_decrypt_internal(&mut bob_state, &msg3).unwrap(), b"Message 3");
    assert_eq!(double_ratchet_decrypt_internal(&mut bob_state, &msg1).unwrap(), b"Message 1");
    assert_eq!(double_ratchet_decrypt_internal(&mut bob_state, &msg2).unwrap(), b"Message 2");

    assert_eq!(bob_state.receiving_message_number, 3);
}

#[test]
fn test_cleanup_skipped_message_keys() {
    let shared_secret = vec![1u8; 32];
    let mut state = initialize_double_ratchet_internal(&shared_secret, true).unwrap();

    let remote_keypair = generate_x25519_keypair_internal();
    perform_dh_ratchet_step(&mut state, &remote_keypair.public_key).unwrap();

    skip_message_keys(&mut state, 10).unwrap();
    assert_eq!(state.skipped_message_keys.len(), 10);

    let removed = cleanup_skipped_message_keys_internal(&mut state, 5);
    assert_eq!(removed, 5);
    assert_eq!(state.skipped_message_keys.len(), 5);
}

#[test]
fn test_cleanup_skipped_message_keys_none_to_remove() {
    let mut state = DoubleRatchetState::new();
    state.skipped_message_keys.insert(b"key1".to_vec(), vec![1u8; 32]);
    state.skipped_message_keys.insert(b"key2".to_vec(), vec![2u8; 32]);

    let removed = cleanup_skipped_message_keys_internal(&mut state, 5);
    assert_eq!(removed, 0);
    assert_eq!(state.skipped_message_keys.len(), 2);
}

#[test]
fn test_double_ratchet_message_number_mismatch() {
    let shared_secret = vec![1u8; 32];
    let mut alice_state = initialize_double_ratchet_internal(&shared_secret, true).unwrap();
    let mut bob_state = initialize_double_ratchet_internal(&shared_secret, false).unwrap();

    let msg1 = double_ratchet_encrypt_internal(&mut alice_state, b"Message 1").unwrap();
    let _dec1 = double_ratchet_decrypt_internal(&mut bob_state, &msg1).unwrap();

    let result = double_ratchet_decrypt_internal(&mut bob_state, &msg1);
    assert!(result.is_err());
}

#[test]
fn test_double_ratchet_message_struct() {
    let message = DoubleRatchetMessage {
        ciphertext: vec![1u8; 100],
        dh_public_key: vec![2u8; 32],
        message_number: 42,
        previous_chain_length: 10,
    };

    assert_eq!(message.ciphertext.len(), 100);
    assert_eq!(message.dh_public_key.len(), 32);
    assert_eq!(message.message_number, 42);
    assert_eq!(message.previous_chain_length, 10);

    let cloned = message.clone();
    assert_eq!(cloned.ciphertext, message.ciphertext);
    assert_eq!(cloned.dh_public_key, message.dh_public_key);
    assert_eq!(cloned.message_number, message.message_number);
    assert_eq!(cloned.previous_chain_length, message.previous_chain_length);

    let debug_str = format!("{:?}", message);
    assert!(debug_str.contains("DoubleRatchetMessage"));
}

// Exact values and laws on concrete sessions.

#[test]
fn first_chain_and_message_key_are_the_stated_derivations() {
    let secret = [7u8; 32];
    let kp = generate_x25519_keypair_internal();
    let mut alice = initialize_double_ratchet_with_keypair(&secret, true, kp.clone()).unwrap();
    let chain = hkdf32(&initial_chain_salt(), &secret, &chain_key_info());
    assert_eq!(alice.sending_chain_key, Some(chain.clone()));
    assert_eq!(alice.sending_dh_keypair.as_ref().unwrap().public_key, kp.public_key);

    let nonce = [3u8; 12];
    let msg = double_ratchet_encrypt_with_nonce(&mut alice, b"exact", &nonce).unwrap();
    let message_key = hkdf32(&message_key_salt(), &chain, &message_key_info());
    assert_eq!(derive_message_key(&chain).unwrap(), message_key);

    let mut aad = kp.public_key.clone();
    aad.extend_from_slice(&0u32.to_be_bytes());
    aad.extend_from_slice(&0u32.to_be_bytes());
    let cipher = Aes256Gcm::new(GenericArray::from_slice(&message_key));
    let mut body = b"exact".to_vec();
    let tag = cipher
        .encrypt_in_place_detached(GenericArray::from_slice(&nonce), &aad, &mut body)
        .unwrap();
    let mut expected = nonce.to_vec();
    expected.extend_from_slice(&body);
    expected.extend_from_slice(tag.as_slice());
    assert_eq!(msg.ciphertext, expected);
    assert_eq!(msg.ciphertext.len(), 28 + 5);
    assert_eq!(msg.message_number, 0);
    assert_eq!(msg.previous_chain_length, 0);
    assert_eq!(alice.sending_chain_key, Some(derive_next_chain_key(&chain).unwrap()));
    assert_eq!(alice.sending_message_number, 1);
    assert_eq!(alice.root_key, secret.to_vec());
}

#[test]
fn replayed_message_is_refused_and_changes_nothing() {
    let mut alice = initialize_double_ratchet_internal(&shared_secret(), true).unwrap();
    let mut bob = initialize_double_ratchet_internal(&shared_secret(), false).unwrap();
    let msg = double_ratchet_encrypt_internal(&mut alice, b"once").unwrap();
    assert_eq!(double_ratchet_decrypt_internal(&mut bob, &msg).unwrap(), b"once");
    let root = bob.root_key.clone();
    let chain = bob.receiving_chain_key.clone();
    let err = double_ratchet_decrypt_internal(&mut bob, &msg).unwrap_err();
    assert_eq!(
        err.to_string(),
        "Invalid input: Message number mismatch: expected 1, got 0"
    );
    assert_eq!(bob.root_key, root);
    assert_eq!(bob.receiving_chain_key, chain);
    assert_eq!(bob.receiving_message_number, 1);
}

#[test]
fn skipped_keys_are_consumed_once() {
    let mut alice = initialize_double_ratchet_internal(&shared_secret(), true).unwrap();
    let mut bob = initialize_double_ratchet_internal(&shared_secret(), false).unwrap();
    let m0 = double_ratchet_encrypt_internal(&mut alice, b"zero").unwrap();
    let m1 = double_ratchet_encrypt_internal(&mut alice, b"one").unwrap();
    assert_eq!(double_ratchet_decrypt_internal(&mut bob, &m1).unwrap(), b"one");
    assert_eq!(bob.skipped_keys_count(), 1);
    let mut id = hex::encode(&m0.dh_public_key).into_bytes();
    id.extend_from_slice(b":0");
    assert_eq!(bob.skipped_message_keys.keys(), vec![id]);
    assert_eq!(double_ratchet_decrypt_internal(&mut bob, &m0).unwrap(), b"zero");
    assert_eq!(bob.skipped_keys_count(), 0);
    assert!(double_ratchet_decrypt_internal(&mut bob, &m0).is_err());
}

#[test]
fn long_conversation_with_gaps() {
    let mut alice = initialize_double_ratchet_internal(&shared_secret(), true).unwrap();
    let mut bob = initialize_double_ratchet_internal(&shared_secret(), false).unwrap();
    for round in 0..4u8 {
        let a: Vec<_> = (0..3u8)
            .map(|i| double_ratchet_encrypt_internal(&mut alice, &[round, i]).unwrap())
            .collect();
        assert_eq!(double_ratchet_decrypt_internal(&mut bob, &a[2]).unwrap(), vec![round, 2]);
        assert_eq!(double_ratchet_decrypt_internal(&mut bob, &a[0]).unwrap(), vec![round, 0]);
        assert_eq!(double_ratchet_decrypt_internal(&mut bob, &a[1]).unwrap(), vec![round, 1]);
        let b = double_ratchet_encrypt_internal(&mut bob, &[round, 9]).unwrap();
        assert_eq!(double_ratchet_decrypt_internal(&mut alice, &b).unwrap(), vec![round, 9]);
    }
    assert_eq!(bob.skipped_keys_count(), 0);
}

#[test]
fn skip_error_and_key_ids() {
    let mut bob = DoubleRatchetState::new();
    bob.receiving_chain_key = Some(vec![5u8; 32]);
    bob.receiving_dh_public_key = Some(vec![0xabu8; 2]);
    let err = skip_message_keys(&mut bob, 1001).unwrap_err();
    assert_eq!(err.to_string(), "Invalid input: Too many skipped message keys: 1001");
    assert_eq!(bob.receiving_message_number, 0);
    skip_message_keys(&mut bob, 1000).unwrap();
    assert_eq!(bob.skipped_keys_count(), 1000);
    assert_eq!(bob.receiving_message_number, 1000);
    let first = derive_message_key(&[5u8; 32]).unwrap();
    assert_eq!(bob.skipped_message_keys.get(b"abab:0"), Some(first));
    assert!(bob.skipped_message_keys.contains_key(b"abab:999"));
    assert!(!bob.skipped_message_keys.contains_key(b"abab:1000"));
    let keys = bob.skipped_message_keys.keys();
    let mut sorted = keys.clone();
    sorted.sort();
    assert_eq!(keys, sorted);
}

#[test]
fn ratchet_step_with_given_keypair_matches_peer() {
    let secret = [9u8; 32];
    let kp_a = generate_x25519_keypair_internal();
    let kp_b = generate_x25519_keypair_internal();
    let mut alice = initialize_double_ratchet_with_keypair(&secret, true, kp_a.clone()).unwrap();
    let mut bob = initialize_double_ratchet_with_keypair(&secret, false, kp_b.clone()).unwrap();
    let m = double_ratchet_encrypt_internal(&mut alice, b"hi").unwrap();
    assert_eq!(double_ratchet_decrypt_with_keypair(&mut bob, &m, kp_b.clone()).unwrap(), b"hi");
    assert_eq!(bob.sending_dh_keypair.as_ref().unwrap().public_key, kp_b.public_key);
    assert_eq!(bob.previous_chain_length, 0);

    let mut probe = alice.clone();
    let kp_c = generate_x25519_keypair_internal();
    perform_dh_ratchet_step_with_keypair(&mut probe, &kp_b.public_key, kp_c).unwrap();
    assert_eq!(probe.receiving_chain_key, bob.sending_chain_key);
    assert_eq!(probe.previous_chain_length, 1);
}

#[test]
fn ratchet_step_rejects_short_key() {
    let mut alice = initialize_double_ratchet_internal(&shared_secret(), true).unwrap();
    let root = alice.root_key.clone();
    let err = perform_dh_ratchet_step(&mut alice, &[1u8; 31]).unwrap_err();
    assert_eq!(err.to_string(), "Invalid input: X25519 public key must be 32 bytes, got 31");
    assert_eq!(alice.root_key, root);
    assert!(alice.receiving_chain_key.is_none());
}

#[test]
fn decrypt_error_messages() {
    let mut alice = initialize_double_ratchet_internal(&shared_secret(), true).unwrap();
    let mut bob = initialize_double_ratchet_internal(&shared_secret(), false).unwrap();
    let msg = double_ratchet_encrypt_internal(&mut alice, b"secret").unwrap();
    let mut short = msg.clone();
    short.ciphertext = vec![0u8; 11];
    let mut b1 = bob.clone();
    assert_eq!(
        double_ratchet_decrypt_internal(&mut b1, &short).unwrap_err().to_string(),
        "Decryption failed: Ciphertext too short for nonce"
    );
    let mut no_tag = msg.clone();
    no_tag.ciphertext = vec![0u8; 27];
    let mut b2 = bob.clone();
    assert_eq!(
        double_ratchet_decrypt_internal(&mut b2, &no_tag).unwrap_err().to_string(),
        "Decryption failed: Ciphertext too short for tag"
    );
    let mut tampered = msg.clone();
    tampered.ciphertext[12] ^= 1;
    assert_eq!(
        double_ratchet_decrypt_internal(&mut bob, &tampered).unwrap_err().to_string(),
        "Decryption failed: AES-GCM decryption failed: aead::Error"
    );
    let err = double_ratchet_encrypt_internal(&mut DoubleRatchetState::new(), b"x").unwrap_err();
    assert_eq!(err.to_string(), "Invalid input: No sending chain key available");
    let err = initialize_double_ratchet_internal(&[0u8; 31], false).unwrap_err();
    assert_eq!(err.to_string(), "Invalid input: Shared secret must be 32 bytes");
}

#[test]
fn cleanup_keeps_the_session_going() {
    let mut alice = initialize_double_ratchet_internal(&shared_secret(), true).unwrap();
    let mut bob = initialize_double_ratchet_internal(&shared_secret(), false).unwrap();
    let early = double_ratchet_encrypt_internal(&mut alice, b"early").unwrap();
    let late = double_ratchet_encrypt_internal(&mut alice, b"late").unwrap();
    assert_eq!(double_ratchet_decrypt_internal(&mut bob, &late).unwrap(), b"late");
    assert_eq!(cleanup_skipped_message_keys_internal(&mut bob, 0), 1);
    assert!(double_ratchet_decrypt_internal(&mut bob, &early).is_err());
    let next = double_ratchet_encrypt_internal(&mut alice, b"next").unwrap();
    assert_eq!(double_ratchet_decrypt_internal(&mut bob, &next).unwrap(), b"next");
    let reply = double_ratchet_encrypt_internal(&mut bob, b"reply").unwrap();
    assert_eq!(double_ratchet_decrypt_internal(&mut alice, &reply).unwrap(), b"reply");
}

#[test]
fn aead_encrypt_then_decrypt_round_trip() {
    let key = [5u8; 32];
    let (ct, nonce) = aead_encrypt(&key, b"hello", b"ad").unwrap();
    assert_eq!(nonce.len(), 12);
    assert_eq!(ct.len(), 5 + 16);
    assert_eq!(aead_decrypt(&key, &ct, &nonce, b"ad").unwrap(), b"hello".to_vec());
    let err = aead_decrypt(&key, &ct, &nonce, b"other").unwrap_err();
    assert!(matches!(err, SignalError::Decryption(_)));
}

#[test]
fn aead_decrypt_refuses_altered_tag() {
    let key = [6u8; 32];
    let (mut ct, nonce) = aead_encrypt(&key, b"tag check", b"").unwrap();
    let last = ct.len() - 1;
    ct[last] ^= 0x01;
    let err = aead_decrypt(&key, &ct, &nonce, b"").unwrap_err();
    assert_eq!(err.to_string(), "Decryption failed: AES-GCM decryption failed: aead::Error");
}

#[test]
fn decrypt_largest_number_on_new_chain_is_refused() {
    let mut alice = initialize_double_ratchet_internal(&shared_secret(), true).unwrap();
    let mut bob = initialize_double_ratchet_internal(&shared_secret(), false).unwrap();
    let mut msg = double_ratchet_encrypt_internal(&mut alice, b"far").unwrap();
    msg.message_number = u32::MAX;
    assert!(!decrypt_would_overflow(&bob, &msg));
    let err = double_ratchet_decrypt_internal(&mut bob, &msg).unwrap_err();
    assert_eq!(err.to_string(), "Invalid input: Too many skipped message keys: 4294967295");
}

#[test]
fn decrypt_overflow_is_detected() {
    let mut alice = initialize_double_ratchet_internal(&shared_secret(), true).unwrap();
    let mut bob = initialize_double_ratchet_internal(&shared_secret(), false).unwrap();
    let first = double_ratchet_encrypt_internal(&mut alice, b"first").unwrap();
    assert_eq!(double_ratchet_decrypt_internal(&mut bob, &first).unwrap(), b"first");
    let mut last = first.clone();
    last.message_number = u32::MAX;
    assert!(!decrypt_would_overflow(&bob, &last));
    bob.receiving_message_number = u32::MAX - 3;
    assert!(decrypt_would_overflow(&bob, &last));
    bob.receiving_message_number = u32::MAX - MAX_SKIPPED_MESSAGE_KEYS - 1;
    assert!(!decrypt_would_overflow(&bob, &last));
    let mut earlier = first.clone();
    earlier.message_number = u32::MAX - 1;
    bob.receiving_message_number = u32::MAX - 3;
    assert!(!decrypt_would_overflow(&bob, &earlier));
}

#[test]
fn decrypt_on_current_chain_keeps_sending_side() {
    let mut alice = initialize_double_ratchet_internal(&shared_secret(), true).unwrap();
    let mut bob = initialize_double_ratchet_internal(&shared_secret(), false).unwrap();
    let m0 = double_ratchet_encrypt_internal(&mut alice, b"zero").unwrap();
    let m1 = double_ratchet_encrypt_internal(&mut alice, b"one").unwrap();
    assert_eq!(double_ratchet_decrypt_internal(&mut bob, &m0).unwrap(), b"zero");
    let before = bob.clone();
    let mut forged = m1.clone();
    let last = forged.ciphertext.len() - 1;
    forged.ciphertext[last] ^= 0x80;
    let err = double_ratchet_decrypt_internal(&mut bob, &forged).unwrap_err();
    assert!(matches!(err, SignalError::Decryption(_)));
    assert_eq!(bob.root_key, before.root_key);
    assert_eq!(bob.sending_chain_key, before.sending_chain_key);
    assert_eq!(bob.sending_message_number, before.sending_message_number);
    assert_eq!(bob.previous_chain_length, before.previous_chain_length);
    assert_eq!(bob.receiving_dh_public_key, before.receiving_dh_public_key);
    assert_eq!(
        bob.sending_dh_keypair.as_ref().map(|k| k.public_key.clone()),
        before.sending_dh_keypair.as_ref().map(|k| k.public_key.clone())
    );
}
