//! Generation of fresh key pairs from the operating system's randomness.
use vstd::prelude::*;
use crate::primitives::{
    ed25519_key_valid, ed25519_public, ed25519_public_key_of, os_random_bytes, x25519_public,
    x25519_public_key_of,
};
use crate::types::{KeyPair, KeyPairModel};

verus! {

/// A well-formed X25519 key pair: a 32-byte private key and its public key.
pub open spec fn is_x25519_keypair(kp: KeyPairModel) -> bool {
    &&& kp.private_key.len() == 32
    &&& kp.public_key.len() == 32
    &&& kp.public_key == x25519_public(kp.private_key)
}

/// A well-formed Ed25519 key pair: a 32-byte secret key and its public key.
pub open spec fn is_ed25519_keypair(kp: KeyPairModel) -> bool {
    &&& kp.private_key.len() == 32
    &&& kp.public_key.len() == 32
    &&& kp.public_key == ed25519_public(kp.private_key)
    &&& ed25519_key_valid(kp.public_key)
}

/// A fresh X25519 key pair: a random 32-byte private key and its public key.
pub fn generate_x25519_keypair_internal() -> (kp: KeyPair)
    ensures
        is_x25519_keypair(kp@),
{
    let private_key = os_random_bytes(32);
    let public_key = x25519_public_key_of(private_key.as_slice());
    KeyPair { public_key, private_key }
}

/// A fresh Ed25519 key pair: a random 32-byte secret key and its public key.
pub fn generate_ed25519_keypair_internal() -> (kp: KeyPair)
    ensures
        is_ed25519_keypair(kp@),
{
    let private_key = os_random_bytes(32);
    let public_key = ed25519_public_key_of(private_key.as_slice());
    KeyPair { public_key, private_key }
}

/// A fresh long-term identity key pair (X25519, used in the X3DH agreements).
pub fn generate_identity_keypair() -> (kp: KeyPair)
    ensures
        is_x25519_keypair(kp@),
{
    generate_x25519_keypair_internal()
}

/// A fresh signed prekey (X25519).
pub fn generate_signed_prekey() -> (kp: KeyPair)
    ensures
        is_x25519_keypair(kp@),
{
    generate_x25519_keypair_internal()
}

/// A fresh one-time prekey (X25519).
pub fn generate_one_time_prekey() -> (kp: KeyPair)
    ensures
        is_x25519_keypair(kp@),
{
    generate_x25519_keypair_internal()
}

/// A fresh ephemeral key pair (X25519).
pub fn generate_ephemeral_keypair() -> (kp: KeyPair)
    ensures
        is_x25519_keypair(kp@),
{
    generate_x25519_keypair_internal()
}

/// A fresh key pair for a step of the Double Ratchet (X25519).
pub fn generate_dh_ratchet_keypair() -> (kp: KeyPair)
    ensures
        is_x25519_keypair(kp@),
{
    generate_x25519_keypair_internal()
}

} // verus!
