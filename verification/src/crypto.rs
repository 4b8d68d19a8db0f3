//! Checked cryptographic operations: X25519 agreement, HKDF derivation and Ed25519
//! signatures, each refusing malformed input with an error.
use vstd::prelude::*;
use crate::encoding::{decimal_chars, push_decimal_str};
use crate::error::{result_view, ErrorKind, ErrorModel, SignalError};
use crate::primitives::{
    ed25519_accepts, ed25519_key_valid, ed25519_public, ed25519_sign, ed25519_signature, ed25519_verifies,
    ed25519_verify, hkdf_sha256, hkdf_sha256_expand, x25519_agree, x25519_diffie_hellman,
    x25519_public,
};

verus! {

/// Length in bytes of X25519 and Ed25519 keys.
pub const KEY_LEN: usize = 32;

/// Length in bytes of an Ed25519 signature.
pub const SIGNATURE_LEN: usize = 64;

/// The longest output HKDF-SHA-256 can expand to: 255 blocks of 32 bytes.
pub open spec fn hkdf_max_len() -> nat {
    8160
}

pub open spec fn spec_validate_x25519_public_key(public_key: Seq<u8>) -> Result<(), ErrorModel> {
    if public_key.len() != 32 {
        Err(
            (
                ErrorKind::InvalidInput,
                "X25519 public key must be 32 bytes, got "@ + decimal_chars(public_key.len()),
            ),
        )
    } else {
        Ok(())
    }
}

pub open spec fn spec_x25519_ecdh(private_key: Seq<u8>, public_key: Seq<u8>) -> Result<Seq<u8>, ErrorModel> {
    if private_key.len() != 32 {
        Err(
            (
                ErrorKind::InvalidInput,
                "Private key must be 32 bytes, got "@ + decimal_chars(private_key.len()),
            ),
        )
    } else {
        match spec_validate_x25519_public_key(public_key) {
            Err(e) => Err(e),
            Ok(_) => Ok(x25519_agree(private_key, public_key)),
        }
    }
}

pub open spec fn spec_hkdf_derive(salt: Seq<u8>, ikm: Seq<u8>, info: Seq<u8>, output_len: nat) -> Result<Seq<u8>, ErrorModel> {
    if output_len <= hkdf_max_len() {
        Ok(hkdf_sha256(salt, ikm, info, output_len))
    } else {
        Err(
            (
                ErrorKind::KeyDerivation,
                "HKDF expand failed: "@ + "invalid number of blocks, too large output"@,
            ),
        )
    }
}

pub open spec fn spec_sign_data(private_key: Seq<u8>, data: Seq<u8>) -> Result<Seq<u8>, ErrorModel> {
    if private_key.len() != 32 {
        Err((ErrorKind::InvalidInput, "Ed25519 private key must be 32 bytes"@))
    } else {
        Ok(ed25519_signature(private_key, data))
    }
}

pub open spec fn spec_verify_signature(public_key: Seq<u8>, signature: Seq<u8>, data: Seq<u8>) -> Result<bool, ErrorModel> {
    if public_key.len() != 32 {
        Err((ErrorKind::InvalidInput, "Ed25519 public key must be 32 bytes"@))
    } else if signature.len() != 64 {
        Err((ErrorKind::InvalidInput, "Ed25519 signature must be 64 bytes"@))
    } else if !ed25519_key_valid(public_key) {
        Err(
            (
                ErrorKind::SignatureVerification,
                "Invalid Ed25519 public key: "@ + "signature error: Cannot decompress Edwards point"@,
            ),
        )
    } else {
        Ok(ed25519_verifies(public_key, signature, data))
    }
}

/// Checks that an X25519 public key has 32 bytes.
pub fn validate_x25519_public_key(public_key: &[u8]) -> (r: Result<(), SignalError>)
    ensures
        result_view(r) == spec_validate_x25519_public_key(public_key@),
{
    if public_key.len() != 32 {
        let mut message = String::from_str("X25519 public key must be 32 bytes, got ");
        push_decimal_str(&mut message, public_key.len() as u64);
        return Err(SignalError::InvalidInput(message));
    }
    Ok(())
}

/// X25519 Diffie-Hellman between a 32-byte private key and a 32-byte public key.
///
/// Both sides of an exchange agree: when the public key is that of another private key,
/// the result is what that key computes with this private key's public key.
pub fn x25519_ecdh(private_key: &[u8], public_key: &[u8]) -> (r: Result<Vec<u8>, SignalError>)
    ensures
        result_view(r) == spec_x25519_ecdh(private_key@, public_key@),
        r matches Ok(s) ==> s@.len() == 32,
        forall|other: Seq<u8>|
            other.len() == 32 && public_key@ == #[trigger] x25519_public(other) && r is Ok ==> r->Ok_0@
                == x25519_agree(other, x25519_public(private_key@)),
{
    if private_key.len() != 32 {
        let mut message = String::from_str("Private key must be 32 bytes, got ");
        push_decimal_str(&mut message, private_key.len() as u64);
        return Err(SignalError::InvalidInput(message));
    }
    match validate_x25519_public_key(public_key) {
        Err(e) => return Err(e),
        Ok(()) => {},
    }
    Ok(x25519_diffie_hellman(private_key, public_key))
}

/// X25519 Diffie-Hellman, under the name the protocol code uses.
pub fn simple_ecdh(private_key: &[u8], public_key: &[u8]) -> (r: Result<Vec<u8>, SignalError>)
    ensures
        result_view(r) == spec_x25519_ecdh(private_key@, public_key@),
        r matches Ok(s) ==> s@.len() == 32,
        forall|other: Seq<u8>|
            other.len() == 32 && public_key@ == #[trigger] x25519_public(other) && r is Ok ==> r->Ok_0@
                == x25519_agree(other, x25519_public(private_key@)),
{
    x25519_ecdh(private_key, public_key)
}

/// HKDF-SHA-256 of the input key material with the salt and info, to `output_len`
/// bytes; refused when more than 255 * 32 bytes are asked for.
pub fn hkdf_derive(salt: &[u8], input_key_material: &[u8], info: &[u8], output_len: usize) -> (r: Result<Vec<u8>, SignalError>)
    ensures
        result_view(r) == spec_hkdf_derive(salt@, input_key_material@, info@, output_len as nat),
        r matches Ok(k) ==> k@.len() == output_len,
{
    let mut output = vec![0u8; output_len];
    match hkdf_sha256_expand(salt, input_key_material, info, &mut output) {
        Ok(()) => Ok(output),
        Err(m) => {
            let mut message = String::from_str("HKDF expand failed: ");
            message.append(m.as_str());
            Err(SignalError::KeyDerivation(message))
        },
    }
}

/// Signs data with a 32-byte Ed25519 private key; verifying the 64-byte signature for
/// the data under the key's public key succeeds with `true`.
pub fn sign_data_internal(private_key: &[u8], data: &[u8]) -> (r: Result<Vec<u8>, SignalError>)
    ensures
        result_view(r) == spec_sign_data(private_key@, data@),
        r matches Ok(s) ==> s@.len() == 64,
        r matches Ok(s) ==> spec_verify_signature(ed25519_public(private_key@), s@, data@) == Ok::<bool, ErrorModel>(true),
        r matches Ok(s) ==> ed25519_accepts(ed25519_public(private_key@), s@, data@),
{
    if private_key.len() != 32 {
        return Err(SignalError::InvalidInput(String::from_str("Ed25519 private key must be 32 bytes")));
    }
    Ok(ed25519_sign(private_key, data))
}

/// Verifies an Ed25519 signature: refuses a public key that is not 32 bytes or not a
/// curve point and a signature that is not 64 bytes; otherwise tells whether the
/// signature is valid for the data.
pub fn verify_signature_internal(public_key: &[u8], signature: &[u8], data: &[u8]) -> (r: Result<bool, SignalError>)
    ensures
        result_view(r) == spec_verify_signature(public_key@, signature@, data@),
{
    if public_key.len() != 32 {
        return Err(SignalError::InvalidInput(String::from_str("Ed25519 public key must be 32 bytes")));
    }
    if signature.len() != 64 {
        return Err(SignalError::InvalidInput(String::from_str("Ed25519 signature must be 64 bytes")));
    }
    match ed25519_verify(public_key, signature, data) {
        Ok(valid) => Ok(valid),
        Err(m) => {
            let mut message = String::from_str("Invalid Ed25519 public key: ");
            message.append(m.as_str());
            Err(SignalError::SignatureVerification(message))
        },
    }
}

} // verus!
