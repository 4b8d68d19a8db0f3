use ed25519_dalek::SigningKey;
use rand::RngCore;
use signal_protocol::crypto::{
    hkdf_derive, simple_ecdh, sign_data_internal, validate_x25519_public_key,
    verify_signature_internal, x25519_ecdh,
};
use signal_protocol::error::SignalError;
use signal_protocol::keys::{
    generate_dh_ratchet_keypair, generate_ed25519_keypair_internal, generate_ephemeral_keypair,
    generate_identity_keypair, generate_one_time_prekey, generate_signed_prekey,
    generate_x25519_keypair_internal,
};

fn ed25519_keypair() -> (Vec<u8>, Vec<u8>) {
    let mut seed = [0u8; 32];
    rand::rngs::OsRng.fill_bytes(&mut seed);
    let signing = SigningKey::from_bytes(&seed);
    (
        signing.to_bytes().to_vec(),
        signing.verifying_key().to_bytes().to_vec(),
    )
}

fn unhex(s: &str) -> Vec<u8> {
    hex::decode(s).unwrap()
}

#[test]
fn validate_x25519_public_key_ok_and_bad_len() {
    let kp = generate_identity_keypair();
    assert!(validate_x25519_public_key(&kp.public_key).is_ok());
    assert!(validate_x25519_public_key(&[0u8; 16]).is_err());
}

#[test]
fn ecdh_roundtrip_and_errors() {
    let a = generate_identity_keypair();
    let b = generate_identity_keypair();
    let ab = simple_ecdh(&a.private_key, &b.public_key).unwrap();
    let ba = x25519_ecdh(&b.private_key, &a.public_key).unwrap();
    assert_eq!(ab, ba);
    assert_eq!(ab.len(), 32);

    assert!(x25519_ecdh(&[0u8; 16], &b.public_key).is_err());
    assert!(x25519_ecdh(&a.private_key, &[0u8; 16]).is_err());
}

#[test]
fn hkdf_derive_ok_and_too_long() {
    let out = hkdf_derive(b"salt", b"ikm", b"info", 32).unwrap();
    assert_eq!(out.len(), 32);
    let err = hkdf_derive(b"salt", b"ikm", b"info", 255 * 32 + 1).unwrap_err();
    assert!(matches!(err, SignalError::KeyDerivation(_)));
}

#[test]
fn sign_and_verify_roundtrip() {
    let (sk, pk) = ed25519_keypair();
    let data = b"hello signal";
    let sig = sign_data_internal(&sk, data).unwrap();
    assert_eq!(sig.len(), 64);
    assert!(verify_signature_internal(&pk, &sig, data).unwrap());
    assert!(!verify_signature_internal(&pk, &sig, b"tampered").unwrap());
}

#[test]
fn sign_verify_input_errors() {
    assert!(sign_data_internal(&[0u8; 16], b"x").is_err());
    assert!(verify_signature_internal(&[0u8; 16], &[0u8; 64], b"x").is_err());
    assert!(verify_signature_internal(&[0u8; 32], &[0u8; 32], b"x").is_err());
    let mut found = false;
    for b in 0u8..=255 {
        let mut pk = [0u8; 32];
        pk.fill(b);
        if let Err(SignalError::SignatureVerification(_)) =
            verify_signature_internal(&pk, &[0u8; 64], b"x")
        {
            found = true;
            break;
        }
    }
    assert!(
        found,
        "expected at least one invalid Ed25519 public key encoding"
    );
}

#[test]
fn test_generate_identity_keypair_native() {
    let keypair = generate_x25519_keypair_internal();
    assert_eq!(keypair.public_key.len(), 32, "Public key should be 32 bytes");
    assert_eq!(keypair.private_key.len(), 32, "Private key should be 32 bytes");

    let keypair2 = generate_x25519_keypair_internal();
    assert_ne!(keypair.public_key, keypair2.public_key, "Generated keys should be unique");
    assert_ne!(keypair.private_key, keypair2.private_key, "Generated keys should be unique");
}

#[test]
fn test_generate_signed_prekey_native() {
    let keypair = generate_x25519_keypair_internal();
    assert_eq!(keypair.public_key.len(), 32, "Public key should be 32 bytes");
    assert_eq!(keypair.private_key.len(), 32, "Private key should be 32 bytes");

    let keypair2 = generate_x25519_keypair_internal();
    assert_ne!(keypair.public_key, keypair2.public_key, "Generated keys should be unique");
}

#[test]
fn test_generate_one_time_prekey_native() {
    let keypair = generate_x25519_keypair_internal();
    assert_eq!(keypair.public_key.len(), 32, "Public key should be 32 bytes");
    assert_eq!(keypair.private_key.len(), 32, "Private key should be 32 bytes");

    let keypair2 = generate_x25519_keypair_internal();
    assert_ne!(keypair.public_key, keypair2.public_key, "Generated keys should be unique");
}

#[test]
fn test_generate_ephemeral_keypair_native() {
    let keypair = generate_x25519_keypair_internal();
    assert_eq!(keypair.public_key.len(), 32, "Public key should be 32 bytes");
    assert_eq!(keypair.private_key.len(), 32, "Private key should be 32 bytes");

    let keypair2 = generate_x25519_keypair_internal();
    assert_ne!(keypair.public_key, keypair2.public_key, "Generated keys should be unique");
}

#[test]
fn test_all_key_generation_functions_native() {
    let identity = generate_x25519_keypair_internal();
    let signed_prekey = generate_x25519_keypair_internal();
    let one_time_prekey = generate_x25519_keypair_internal();
    let ephemeral = generate_x25519_keypair_internal();

    assert_eq!(identity.public_key.len(), 32);
    assert_eq!(signed_prekey.public_key.len(), 32);
    assert_eq!(one_time_prekey.public_key.len(), 32);
    assert_eq!(ephemeral.public_key.len(), 32);

    assert_ne!(identity.public_key, signed_prekey.public_key);
    assert_ne!(signed_prekey.public_key, one_time_prekey.public_key);
    assert_ne!(one_time_prekey.public_key, ephemeral.public_key);
}

#[test]
fn test_x25519_ecdh_native() {
    let keypair_a = generate_x25519_keypair_internal();
    let keypair_b = generate_x25519_keypair_internal();

    let shared_ab = x25519_ecdh(&keypair_a.private_key, &keypair_b.public_key).unwrap();
    let shared_ba = x25519_ecdh(&keypair_b.private_key, &keypair_a.public_key).unwrap();

    assert_eq!(shared_ab, shared_ba, "ECDH must be commutative");
    assert_eq!(shared_ab.len(), 32, "Shared secret must be 32 bytes");
}

#[test]
fn test_x25519_ecdh_error_cases() {
    let valid_key = vec![1u8; 32];
    let short_key = vec![1u8; 16];
    let long_key = vec![1u8; 64];

    assert!(x25519_ecdh(&short_key, &valid_key).is_err());
    assert!(x25519_ecdh(&long_key, &valid_key).is_err());

    assert!(x25519_ecdh(&valid_key, &short_key).is_err());
    assert!(x25519_ecdh(&valid_key, &long_key).is_err());
}

#[test]
fn test_validate_x25519_public_key() {
    let valid_key = vec![1u8; 32];
    assert!(validate_x25519_public_key(&valid_key).is_ok());

    let short_key = vec![1u8; 16];
    let long_key = vec![1u8; 64];
    assert!(validate_x25519_public_key(&short_key).is_err());
    assert!(validate_x25519_public_key(&long_key).is_err());
}

#[test]
fn test_sign_data_internal() {
    let mut key_bytes = [0u8; 32];
    rand::rngs::OsRng.fill_bytes(&mut key_bytes);

    let data = b"Hello, Ed25519 signature!";

    let signature = sign_data_internal(&key_bytes, data).unwrap();
    assert_eq!(signature.len(), 64, "Ed25519 signatures are 64 bytes");

    let short_key = vec![1u8; 16];
    assert!(sign_data_internal(&short_key, data).is_err());
}

#[test]
fn test_verify_signature_internal() {
    let mut key_bytes = [0u8; 32];
    rand::rngs::OsRng.fill_bytes(&mut key_bytes);
    let signing_key = SigningKey::from_bytes(&key_bytes);
    let verifying_key = signing_key.verifying_key();

    let data = b"Test message for signature";

    let signature = sign_data_internal(&key_bytes, data).unwrap();

    let is_valid = verify_signature_internal(verifying_key.as_bytes(), &signature, data).unwrap();
    assert!(is_valid, "Valid signature must verify");

    let wrong_data = b"Different message";
    let is_invalid =
        verify_signature_internal(verifying_key.as_bytes(), &signature, wrong_data).unwrap();
    assert!(!is_invalid, "Signature with wrong data must fail");

    let short_key = vec![1u8; 16];
    assert!(verify_signature_internal(&short_key, &signature, data).is_err());

    let short_sig = vec![1u8; 32];
    assert!(verify_signature_internal(verifying_key.as_bytes(), &short_sig, data).is_err());
}

#[test]
fn test_simple_ecdh() {
    let keypair_a = generate_x25519_keypair_internal();
    let keypair_b = generate_x25519_keypair_internal();

    let shared_ab = simple_ecdh(&keypair_a.private_key, &keypair_b.public_key).unwrap();
    let shared_ba = simple_ecdh(&keypair_b.private_key, &keypair_a.public_key).unwrap();

    assert_eq!(shared_ab, shared_ba);
    assert_eq!(shared_ab.len(), 32);
}

// Known-answer tests of the wrapped primitives.

#[test]
fn x25519_matches_rfc7748_vector() {
    let alice_private = unhex("77076d0a7318a57d3c16c17251b26645df4c2f87ebc0992ab177fba51db92c2a");
    let bob_public = unhex("de9edb7d7b7dc1b4d35b61c2ece435373f8343c85b78674dadfc7e146f882b4f");
    let shared = x25519_ecdh(&alice_private, &bob_public).unwrap();
    assert_eq!(
        shared,
        unhex("4a5d9d5ba4ce2de1728e3bf480350f25e07e21c947d19e3376f09b3c1e161742")
    );
}

#[test]
fn hkdf_matches_rfc5869_vector() {
    let ikm = vec![0x0bu8; 22];
    let salt = unhex("000102030405060708090a0b0c");
    let info = unhex("f0f1f2f3f4f5f6f7f8f9");
    let okm = hkdf_derive(&salt, &ikm, &info, 42).unwrap();
    assert_eq!(
        okm,
        unhex("3cb25f25faacd57a90434f64d0362f2a2d2d0a90cf1a5a4c5db02d56ecc4c5bf34007208d5b887185865")
    );
}

#[test]
fn hkdf_longest_output_and_error_message() {
    assert_eq!(hkdf_derive(b"s", b"k", b"i", 8160).unwrap().len(), 8160);
    assert_eq!(hkdf_derive(b"s", b"k", b"i", 0).unwrap().len(), 0);
    let err = hkdf_derive(b"s", b"k", b"i", 8161).unwrap_err();
    assert_eq!(
        err.to_string(),
        "Key derivation failed: HKDF expand failed: invalid number of blocks, too large output"
    );
}

#[test]
fn ed25519_matches_rfc8032_vector() {
    let secret = unhex("9d61b19deffd5a60ba844af492ec2cc44449c5697b326919703bac031cae7f60");
    let public = unhex("d75a980182b10ab7d54bfed3c964073a0ee172f3daa62325af021a68f707511a");
    let signature = sign_data_internal(&secret, b"").unwrap();
    assert_eq!(
        signature,
        unhex(
            "e5564300c360ac729086e2cc806e828a84877f1eb8e5d974d873e065224901555fb8821590a33bacc61e39701cf9b46bd25bf5f0595bbe24655141438e7a100b"
        )
    );
    assert!(verify_signature_internal(&public, &signature, b"").unwrap());
}

#[test]
fn input_error_messages() {
    let e = x25519_ecdh(&[0u8; 16], &[0u8; 32]).unwrap_err();
    assert_eq!(e.to_string(), "Invalid input: Private key must be 32 bytes, got 16");
    let e = validate_x25519_public_key(&[0u8; 33]).unwrap_err();
    assert_eq!(
        e.to_string(),
        "Invalid input: X25519 public key must be 32 bytes, got 33"
    );
    let e = sign_data_internal(&[0u8; 31], b"x").unwrap_err();
    assert_eq!(e.to_string(), "Invalid input: Ed25519 private key must be 32 bytes");
    let e = verify_signature_internal(&[0u8; 31], &[0u8; 64], b"x").unwrap_err();
    assert_eq!(e.to_string(), "Invalid input: Ed25519 public key must be 32 bytes");
    let e = verify_signature_internal(&[0u8; 32], &[0u8; 63], b"x").unwrap_err();
    assert_eq!(e.to_string(), "Invalid input: Ed25519 signature must be 64 bytes");
}

#[test]
fn generated_keys_are_well_formed() {
    for kp in [
        generate_identity_keypair(),
        generate_signed_prekey(),
        generate_one_time_prekey(),
        generate_ephemeral_keypair(),
        generate_dh_ratchet_keypair(),
    ] {
        let private: [u8; 32] = kp.private_key.clone().try_into().unwrap();
        let secret = x25519_dalek::StaticSecret::from(private);
        let public = x25519_dalek::PublicKey::from(&secret);
        assert_eq!(kp.public_key, public.as_bytes().to_vec());
    }
    let ed = generate_ed25519_keypair_internal();
    assert_eq!(ed.public_key.len(), 32);
    let signature = sign_data_internal(&ed.private_key, b"data").unwrap();
    assert!(verify_signature_internal(&ed.public_key, &signature, b"data").unwrap());
}
