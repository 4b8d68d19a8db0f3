//! The cryptographic primitives the protocol is built on, provided by outside crates.
//!
//! Every item here is trusted: Verus believes its contract and does not read its body.
//! The results of the primitives are named by specification functions without a body
//! (X25519, HKDF-SHA-256, Ed25519, AES-256-GCM); beside each name stand only the short
//! facts the crates' sources or documentation give (output lengths, the agreement of
//! the two sides of a Diffie-Hellman exchange, that a signature verifies under the key
//! it was made with, that opening a sealed message gives its plaintext back, and that
//! AES-GCM opens a body and tag only when they are the encryption of what it gives).
use vstd::prelude::*;
use aes_gcm::aead::generic_array::GenericArray;
use aes_gcm::aead::{AeadInPlace, KeyInit};
use aes_gcm::Aes256Gcm;
use ed25519_dalek::{Signer, Verifier};
use rand::RngCore;
use sha2::Sha256;

verus! {

/// The X25519 public key of a 32-byte private key.
pub uninterp spec fn x25519_public(private_key: Seq<u8>) -> Seq<u8>;

/// The X25519 shared secret of a 32-byte private key and a 32-byte public key.
pub uninterp spec fn x25519_agree(private_key: Seq<u8>, public_key: Seq<u8>) -> Seq<u8>;

/// HKDF-SHA-256 (extract with the salt, then expand with the info) to `len` bytes.
pub uninterp spec fn hkdf_sha256(salt: Seq<u8>, ikm: Seq<u8>, info: Seq<u8>, len: nat) -> Seq<u8>;

/// The Ed25519 public key of a 32-byte secret key.
pub uninterp spec fn ed25519_public(secret_key: Seq<u8>) -> Seq<u8>;

/// The Ed25519 signature of a message under a 32-byte secret key.
pub uninterp spec fn ed25519_signature(secret_key: Seq<u8>, message: Seq<u8>) -> Seq<u8>;

/// Whether 32 bytes are the encoding of an Ed25519 public key (a curve point).
pub uninterp spec fn ed25519_key_valid(public_key: Seq<u8>) -> bool;

/// Whether a 64-byte signature verifies for a message under a valid Ed25519 public key.
pub uninterp spec fn ed25519_verifies(public_key: Seq<u8>, signature: Seq<u8>, message: Seq<u8>) -> bool;

/// Whether a signature is accepted for a message under a public key: the key has 32
/// bytes, encodes a curve point, and the signature verifies.
pub open spec fn ed25519_accepts(public_key: Seq<u8>, signature: Seq<u8>, message: Seq<u8>) -> bool {
    &&& public_key.len() == 32
    &&& ed25519_key_valid(public_key)
    &&& ed25519_verifies(public_key, signature, message)
}

/// AES-256-GCM encryption of a plaintext: the ciphertext body followed by the 16-byte tag.
pub uninterp spec fn aes256gcm_seal(key: Seq<u8>, nonce: Seq<u8>, aad: Seq<u8>, plaintext: Seq<u8>) -> Seq<u8>;

/// AES-256-GCM decryption of a ciphertext body with its tag, or `None` when the tag
/// does not authenticate it.
pub uninterp spec fn aes256gcm_open(key: Seq<u8>, nonce: Seq<u8>, aad: Seq<u8>, ciphertext: Seq<u8>, tag: Seq<u8>) -> Option<Seq<u8>>;

/// The largest plaintext and associated data that AES-GCM accepts, in bytes.
pub open spec fn aes_gcm_max_len() -> nat {
    68719476736
}

/// Computes the X25519 public key of a private key.
///
/// Trusted: calls `x25519_dalek::StaticSecret::from` and `PublicKey::from(&StaticSecret)`;
/// claims the 32-byte result is the named public key of the private key.
#[verifier::external_body]
pub(crate) fn x25519_public_key_of(private_key: &[u8]) -> (public_key: Vec<u8>)
    requires
        private_key@.len() == 32,
    ensures
        public_key@ == x25519_public(private_key@),
        public_key@.len() == 32,
{
    let bytes: [u8; 32] = private_key.try_into().unwrap();
    let secret = x25519_dalek::StaticSecret::from(bytes);
    x25519_dalek::PublicKey::from(&secret).as_bytes().to_vec()
}

/// Computes an X25519 shared secret.
///
/// Trusted: calls `x25519_dalek::StaticSecret::diffie_hellman`; claims the 32-byte
/// result is the named shared secret, and that when the public key is the public key
/// of some private key `other`, it equals what `other` computes with the public key of
/// this private key (both sides of the exchange agree, as the crate documents).
#[verifier::external_body]
pub(crate) fn x25519_diffie_hellman(private_key: &[u8], public_key: &[u8]) -> (shared: Vec<u8>)
    requires
        private_key@.len() == 32,
        public_key@.len() == 32,
    ensures
        shared@ == x25519_agree(private_key@, public_key@),
        shared@.len() == 32,
        forall|other: Seq<u8>|
            other.len() == 32 && public_key@ == #[trigger] x25519_public(other) ==> shared@
                == x25519_agree(other, x25519_public(private_key@)),
{
    let sk: [u8; 32] = private_key.try_into().unwrap();
    let pk: [u8; 32] = public_key.try_into().unwrap();
    let secret = x25519_dalek::StaticSecret::from(sk);
    let public = x25519_dalek::PublicKey::from(pk);
    secret.diffie_hellman(&public).as_bytes().to_vec()
}

/// Fills `okm` with HKDF-SHA-256 output.
///
/// Trusted: calls `hkdf::Hkdf::<Sha256>::new(Some(salt), ikm)` and `Hkdf::expand`; claims
/// that up to 255 * 32 bytes the buffer is overwritten with the named output of its
/// length, and that a longer buffer is left as it was with the error the crate displays.
#[verifier::external_body]
pub(crate) fn hkdf_sha256_expand(salt: &[u8], ikm: &[u8], info: &[u8], okm: &mut Vec<u8>) -> (r: Result<(), String>)
    ensures
        old(okm)@.len() <= 8160 ==> (r is Ok && final(okm)@ == hkdf_sha256(salt@, ikm@, info@, old(okm)@.len())),
        old(okm)@.len() <= 8160 ==> final(okm)@.len() == old(okm)@.len(),
        old(okm)@.len() > 8160 ==> final(okm)@ == old(okm)@,
        old(okm)@.len() > 8160 ==> (r matches Err(m) && m@ == "invalid number of blocks, too large output"@),
{
    let hk = hkdf::Hkdf::<Sha256>::new(Some(salt), ikm);
    hk.expand(info, okm.as_mut_slice()).map_err(|e| e.to_string())
}

/// Computes the Ed25519 public key of a secret key.
///
/// Trusted: calls `ed25519_dalek::SigningKey::from_bytes` and `SigningKey::verifying_key`;
/// claims the 32-byte result is the named public key and encodes a curve point.
#[verifier::external_body]
pub(crate) fn ed25519_public_key_of(secret_key: &[u8]) -> (public_key: Vec<u8>)
    requires
        secret_key@.len() == 32,
    ensures
        public_key@ == ed25519_public(secret_key@),
        public_key@.len() == 32,
        ed25519_key_valid(public_key@),
{
    let bytes: [u8; 32] = secret_key.try_into().unwrap();
    ed25519_dalek::SigningKey::from_bytes(&bytes).verifying_key().to_bytes().to_vec()
}

/// Signs a message with Ed25519.
///
/// Trusted: calls `ed25519_dalek::SigningKey::from_bytes` and `Signer::sign`; claims the
/// 64-byte result is the named signature, and that it is accepted for the message under
/// the public key of the secret key (a 32-byte curve point).
#[verifier::external_body]
pub(crate) fn ed25519_sign(secret_key: &[u8], message: &[u8]) -> (signature: Vec<u8>)
    requires
        secret_key@.len() == 32,
    ensures
        signature@ == ed25519_signature(secret_key@, message@),
        signature@.len() == 64,
        ed25519_accepts(ed25519_public(secret_key@), signature@, message@),
{
    let bytes: [u8; 32] = secret_key.try_into().unwrap();
    ed25519_dalek::SigningKey::from_bytes(&bytes).sign(message).to_bytes().to_vec()
}

/// Verifies an Ed25519 signature.
///
/// Trusted: calls `ed25519_dalek::VerifyingKey::from_bytes`, `Signature::from_bytes` and
/// `Verifier::verify`; claims the key is refused, with the error the crate displays,
/// exactly when it does not encode a curve point, and that otherwise the result is the
/// named verification outcome.
#[verifier::external_body]
pub(crate) fn ed25519_verify(public_key: &[u8], signature: &[u8], message: &[u8]) -> (r: Result<bool, String>)
    requires
        public_key@.len() == 32,
        signature@.len() == 64,
    ensures
        r is Ok <==> ed25519_key_valid(public_key@),
        r matches Ok(b) ==> b == ed25519_verifies(public_key@, signature@, message@),
        r matches Err(m) ==> m@ == "signature error: Cannot decompress Edwards point"@,
{
    let pk: [u8; 32] = public_key.try_into().unwrap();
    let sig: [u8; 64] = signature.try_into().unwrap();
    match ed25519_dalek::VerifyingKey::from_bytes(&pk) {
        Ok(key) => Ok(key.verify(message, &ed25519_dalek::Signature::from_bytes(&sig)).is_ok()),
        Err(e) => Err(e.to_string()),
    }
}

/// Encrypts with AES-256-GCM, giving the ciphertext body and the tag apart.
///
/// Trusted: calls `aes_gcm::Aes256Gcm::new` and `AeadInPlace::encrypt_in_place_detached`;
/// claims the body followed by the tag is the named encryption, with a body as long as
/// the plaintext and a 16-byte tag, and that the named decryption of the body and the tag
/// gives the plaintext back (the crate's decryption recomputes the same tag and applies
/// the same keystream). The lengths that `requires` admits are those the crate accepts.
#[verifier::external_body]
pub(crate) fn aes256gcm_encrypt(key: &[u8], nonce: &[u8], aad: &[u8], plaintext: &[u8]) -> (r: (Vec<u8>, Vec<u8>))
    requires
        key@.len() == 32,
        nonce@.len() == 12,
        aad@.len() <= aes_gcm_max_len(),
        plaintext@.len() <= aes_gcm_max_len(),
    ensures
        r.0@ + r.1@ == aes256gcm_seal(key@, nonce@, aad@, plaintext@),
        r.0@.len() == plaintext@.len(),
        r.1@.len() == 16,
        aes256gcm_open(key@, nonce@, aad@, r.0@, r.1@) == Some(plaintext@),
{
    let cipher = Aes256Gcm::new(GenericArray::from_slice(key));
    let mut buffer = plaintext.to_vec();
    let tag = cipher.encrypt_in_place_detached(GenericArray::from_slice(nonce), aad, &mut buffer).unwrap();
    (buffer, tag.to_vec())
}

/// Decrypts with AES-256-GCM a ciphertext body and its tag.
///
/// Trusted: calls `aes_gcm::Aes256Gcm::new` and `AeadInPlace::decrypt_in_place_detached`;
/// claims the result is the named decryption, refused with the error the crate displays.
/// The crate computes the tag over the body and the associated data and compares it with
/// the given tag before it applies the counter-mode keystream, so the contract also
/// claims: a body and tag made by the encryption of some plaintext under the same key,
/// nonce and associated data open to that plaintext; what opens is as long as the body
/// and, within the AES-GCM limits, encrypts back to exactly the body and the tag; and
/// where the encryption of a plaintext `q` has this body (whatever its tag), what opens
/// is `q` (the keystream depends on the key and the nonce alone).
#[verifier::external_body]
pub(crate) fn aes256gcm_decrypt(key: &[u8], nonce: &[u8], aad: &[u8], ciphertext: &[u8], tag: &[u8]) -> (r: Result<Vec<u8>, String>)
    requires
        key@.len() == 32,
        nonce@.len() == 12,
        tag@.len() == 16,
    ensures
        r is Ok <==> aes256gcm_open(key@, nonce@, aad@, ciphertext@, tag@) is Some,
        r matches Ok(p) ==> aes256gcm_open(key@, nonce@, aad@, ciphertext@, tag@) == Some(p@),
        r matches Err(m) ==> m@ == "aead::Error"@,
        forall|p: Seq<u8>|
            aad@.len() <= aes_gcm_max_len() && p.len() <= aes_gcm_max_len()
                && #[trigger] aes256gcm_seal(key@, nonce@, aad@, p) == ciphertext@ + tag@
                ==> (r is Ok && r->Ok_0@ == p),
        r matches Ok(p) ==> p@.len() == ciphertext@.len(),
        r matches Ok(p) ==> (aad@.len() <= aes_gcm_max_len() && p@.len() <= aes_gcm_max_len()
            ==> aes256gcm_seal(key@, nonce@, aad@, p@) == ciphertext@ + tag@),
        forall|q: Seq<u8>|
            aad@.len() <= aes_gcm_max_len() && q.len() <= aes_gcm_max_len()
                && (#[trigger] aes256gcm_seal(key@, nonce@, aad@, q)).len() == ciphertext@.len() + 16
                && aes256gcm_seal(key@, nonce@, aad@, q).subrange(0, ciphertext@.len() as int) == ciphertext@
                && r is Ok ==> r->Ok_0@ == q,
{
    let cipher = Aes256Gcm::new(GenericArray::from_slice(key));
    let mut buffer = ciphertext.to_vec();
    match cipher.decrypt_in_place_detached(GenericArray::from_slice(nonce), aad, &mut buffer, GenericArray::from_slice(tag)) {
        Ok(()) => Ok(buffer),
        Err(e) => Err(e.to_string()),
    }
}

/// Draws `len` bytes from the operating system's random source.
///
/// Trusted: calls `rand::rngs::OsRng` through `RngCore::fill_bytes`; claims only the
/// length of the result, whose bytes are random. It panics if the operating system
/// cannot supply randomness.
#[verifier::external_body]
pub(crate) fn os_random_bytes(len: usize) -> (bytes: Vec<u8>)
    ensures
        bytes@.len() == len,
{
    let mut bytes = vec![0u8; len];
    rand::rngs::OsRng.fill_bytes(&mut bytes);
    bytes
}

} // verus!
