use signal_protocol::error::SignalError;
use signal_protocol::keys::{
    generate_ephemeral_keypair, generate_identity_keypair, generate_one_time_prekey,
    generate_signed_prekey, generate_x25519_keypair_internal,
};
use signal_protocol::x3dh::{x3dh_initiate_internal, x3dh_respond_internal};

#[test]
fn x3dh_symmetric_with_otpk() {
    let alice_id = generate_identity_keypair();
    let alice_eph = generate_ephemeral_keypair();
    let bob_id = generate_identity_keypair();
    let bob_spk = generate_signed_prekey();
    let bob_otpk = generate_one_time_prekey();

    let init = x3dh_initiate_internal(
        &alice_id.private_key,
        &alice_eph.private_key,
        &bob_id.public_key,
        &bob_spk.public_key,
        Some(&bob_otpk.public_key),
    )
    .unwrap();

    let resp = x3dh_respond_internal(
        &bob_id.private_key,
        &bob_spk.private_key,
        Some(&bob_otpk.private_key),
        &alice_id.public_key,
        &alice_eph.public_key,
    )
    .unwrap();

    assert_eq!(init.shared_secret, resp.shared_secret);
    assert_eq!(init.associated_data, b"X3DH_Key_Exchange");
    assert_eq!(resp.associated_data, b"X3DH_Key_Exchange");
}

#[test]
fn x3dh_symmetric_without_otpk() {
    let alice_id = generate_identity_keypair();
    let alice_eph = generate_ephemeral_keypair();
    let bob_id = generate_identity_keypair();
    let bob_spk = generate_signed_prekey();

    let init = x3dh_initiate_internal(
        &alice_id.private_key,
        &alice_eph.private_key,
        &bob_id.public_key,
        &bob_spk.public_key,
        None,
    )
    .unwrap();

    let resp = x3dh_respond_internal(
        &bob_id.private_key,
        &bob_spk.private_key,
        None,
        &alice_id.public_key,
        &alice_eph.public_key,
    )
    .unwrap();

    assert_eq!(init.shared_secret, resp.shared_secret);
    assert_eq!(init.shared_secret.len(), 32);
}

#[test]
fn x3dh_bad_key_length() {
    let err = x3dh_initiate_internal(&[0u8; 16], &[0u8; 32], &[0u8; 32], &[0u8; 32], None)
        .unwrap_err();
    assert!(matches!(err, SignalError::InvalidInput(_)));
}

#[test]
fn test_x3dh_internal_rejects_bad_key_length() {
    let err = x3dh_initiate_internal(&[0u8; 16], &[0u8; 32], &[0u8; 32], &[0u8; 32], None);
    assert!(err.is_err());
    let err = x3dh_respond_internal(&[0u8; 16], &[0u8; 32], None, &[0u8; 32], &[0u8; 32]);
    assert!(err.is_err());
}

#[test]
fn test_x3dh_initiate_without_one_time_prekey() {
    let alice_identity = generate_x25519_keypair_internal();
    let alice_ephemeral = generate_x25519_keypair_internal();
    let bob_identity = generate_x25519_keypair_internal();
    let bob_signed_prekey = generate_x25519_keypair_internal();

    let result = x3dh_initiate_internal(
        &alice_identity.private_key,
        &alice_ephemeral.private_key,
        &bob_identity.public_key,
        &bob_signed_prekey.public_key,
        None,
    )
    .unwrap();

    assert_eq!(result.shared_secret.len(), 32);
    assert_eq!(result.associated_data, b"X3DH_Key_Exchange".to_vec());
}

#[test]
fn test_x3dh_initiate_with_one_time_prekey() {
    let alice_identity = generate_x25519_keypair_internal();
    let alice_ephemeral = generate_x25519_keypair_internal();
    let bob_identity = generate_x25519_keypair_internal();
    let bob_signed_prekey = generate_x25519_keypair_internal();
    let bob_one_time_prekey = generate_x25519_keypair_internal();

    let result = x3dh_initiate_internal(
        &alice_identity.private_key,
        &alice_ephemeral.private_key,
        &bob_identity.public_key,
        &bob_signed_prekey.public_key,
        Some(&bob_one_time_prekey.public_key),
    )
    .unwrap();

    assert_eq!(result.shared_secret.len(), 32);
    assert_eq!(result.associated_data, b"X3DH_Key_Exchange".to_vec());
}

#[test]
fn test_x3dh_respond_without_one_time_prekey() {
    let alice_identity = generate_x25519_keypair_internal();
    let alice_ephemeral = generate_x25519_keypair_internal();
    let bob_identity = generate_x25519_keypair_internal();
    let bob_signed_prekey = generate_x25519_keypair_internal();

    let result = x3dh_respond_internal(
        &bob_identity.private_key,
        &bob_signed_prekey.private_key,
        None,
        &alice_identity.public_key,
        &alice_ephemeral.public_key,
    )
    .unwrap();

    assert_eq!(result.shared_secret.len(), 32);
    assert_eq!(result.associated_data, b"X3DH_Key_Exchange".to_vec());
}

#[test]
fn test_x3dh_respond_with_one_time_prekey() {
    let alice_identity = generate_x25519_keypair_internal();
    let alice_ephemeral = generate_x25519_keypair_internal();
    let bob_identity = generate_x25519_keypair_internal();
    let bob_signed_prekey = generate_x25519_keypair_internal();
    let bob_one_time_prekey = generate_x25519_keypair_internal();

    let result = x3dh_respond_internal(
        &bob_identity.private_key,
        &bob_signed_prekey.private_key,
        Some(&bob_one_time_prekey.private_key),
        &alice_identity.public_key,
        &alice_ephemeral.public_key,
    )
    .unwrap();

    assert_eq!(result.shared_secret.len(), 32);
    assert_eq!(result.associated_data, b"X3DH_Key_Exchange".to_vec());
}

#[test]
fn test_x3dh_symmetry() {
    let alice_identity = generate_x25519_keypair_internal();
    let alice_ephemeral = generate_x25519_keypair_internal();
    let bob_identity = generate_x25519_keypair_internal();
    let bob_signed_prekey = generate_x25519_keypair_internal();
    let bob_one_time_prekey = generate_x25519_keypair_internal();

    let alice_result = x3dh_initiate_internal(
        &alice_identity.private_key,
        &alice_ephemeral.private_key,
        &bob_identity.public_key,
        &bob_signed_prekey.public_key,
        Some(&bob_one_time_prekey.public_key),
    )
    .unwrap();

    let bob_result = x3dh_respond_internal(
        &bob_identity.private_key,
        &bob_signed_prekey.private_key,
        Some(&bob_one_time_prekey.private_key),
        &alice_identity.public_key,
        &alice_ephemeral.public_key,
    )
    .unwrap();

    assert_eq!(alice_result.shared_secret, bob_result.shared_secret, "X3DH must be symmetric");
    assert_eq!(alice_result.associated_data, bob_result.associated_data);
}

#[test]
fn x3dh_one_time_prekey_changes_the_secret() {
    let alice_id = generate_identity_keypair();
    let alice_eph = generate_ephemeral_keypair();
    let bob_id = generate_identity_keypair();
    let bob_spk = generate_signed_prekey();
    let bob_otpk = generate_one_time_prekey();
    let with = x3dh_initiate_internal(
        &alice_id.private_key,
        &alice_eph.private_key,
        &bob_id.public_key,
        &bob_spk.public_key,
        Some(&bob_otpk.public_key),
    )
    .unwrap();
    let without = x3dh_initiate_internal(
        &alice_id.private_key,
        &alice_eph.private_key,
        &bob_id.public_key,
        &bob_spk.public_key,
        None,
    )
    .unwrap();
    assert_ne!(with.shared_secret, without.shared_secret);
}

#[test]
fn x3dh_errors_name_the_bad_key() {
    let good = generate_identity_keypair();
    let err = x3dh_initiate_internal(
        &good.private_key,
        &good.private_key,
        &good.public_key,
        &[0u8; 31],
        None,
    )
    .unwrap_err();
    assert_eq!(
        err.to_string(),
        "Invalid input: X25519 public key must be 32 bytes, got 31"
    );
    let err = x3dh_respond_internal(
        &good.private_key,
        &good.private_key,
        Some(&[0u8; 5]),
        &good.public_key,
        &good.public_key,
    )
    .unwrap_err();
    assert_eq!(err.to_string(), "Invalid input: Private key must be 32 bytes, got 5");
}
