//! What each derivation of the protocol computes, stated over the primitives
//! themselves: the X25519 outputs that enter the X3DH secret and their order, the
//! initial, message and next chain keys, the split of the ratchet step's HKDF output
//! into root key and chain key, the header and associated data of an encrypted message
//! with its big-endian numbers, and the data an Ed25519 signature covers.
use vstd::prelude::*;
use crate::crypto::{spec_sign_data, spec_verify_signature};
use crate::double_ratchet::{
    needs_ratchet_step, spec_decrypt_key, spec_dh_ratchet_step, spec_encrypt, spec_initialize,
    MessageModel, RatchetModel,
};
use crate::encoding::{be_bytes, hex_encode, key_id};
use crate::error::ErrorModel;
use crate::labels::{
    spec_chain_key_info, spec_chain_key_salt, spec_dh_ratchet_salt, spec_initial_chain_salt, spec_message_key_info,
    spec_message_key_salt, spec_x3dh_associated_data, spec_x3dh_info, spec_x3dh_salt,
};
use crate::primitives::{
    aes256gcm_seal, ed25519_key_valid, ed25519_signature, ed25519_verifies, hkdf_sha256, x25519_agree,
};
use crate::skipped_keys::entries_get;
use crate::types::KeyPairModel;
use crate::x3dh::{spec_x3dh_initiate, spec_x3dh_respond};

verus! {

/// On 32-byte keys the initiator's X3DH agreement succeeds, and its shared secret is
/// HKDF-SHA-256 with the X3DH salt and info, to 32 bytes, of DH(IK_A, SPK_B), then
/// DH(EK_A, IK_B), then DH(EK_A, SPK_B), then, with a one-time prekey, DH(EK_A, OPK_B);
/// the associated data is the fixed X3DH label.
pub proof fn law_x3dh_initiate_secret(
    alice_identity_private: Seq<u8>,
    alice_ephemeral_private: Seq<u8>,
    bob_identity_public: Seq<u8>,
    bob_signed_prekey_public: Seq<u8>,
    bob_one_time_prekey_public: Option<Seq<u8>>,
)
    requires
        alice_identity_private.len() == 32,
        alice_ephemeral_private.len() == 32,
        bob_identity_public.len() == 32,
        bob_signed_prekey_public.len() == 32,
        bob_one_time_prekey_public matches Some(k) ==> k.len() == 32,
    ensures
        ({
            let dh1 = x25519_agree(alice_identity_private, bob_signed_prekey_public);
            let dh2 = x25519_agree(alice_ephemeral_private, bob_identity_public);
            let dh3 = x25519_agree(alice_ephemeral_private, bob_signed_prekey_public);
            let input = match bob_one_time_prekey_public {
                None => dh1 + dh2 + dh3,
                Some(k) => dh1 + dh2 + dh3 + x25519_agree(alice_ephemeral_private, k),
            };
            spec_x3dh_initiate(
                alice_identity_private,
                alice_ephemeral_private,
                bob_identity_public,
                bob_signed_prekey_public,
                bob_one_time_prekey_public,
            ) == Ok::<(Seq<u8>, Seq<u8>), ErrorModel>(
                (hkdf_sha256(spec_x3dh_salt(), input, spec_x3dh_info(), 32), spec_x3dh_associated_data()),
            )
        }),
{
}

/// On 32-byte keys the responder's X3DH agreement succeeds, and its shared secret is
/// HKDF-SHA-256 with the X3DH salt and info, to 32 bytes, of DH(SPK_B, IK_A), then
/// DH(IK_B, EK_A), then DH(SPK_B, EK_A), then, with a one-time prekey, DH(OPK_B, EK_A);
/// the associated data is the fixed X3DH label.
pub proof fn law_x3dh_respond_secret(
    bob_identity_private: Seq<u8>,
    bob_signed_prekey_private: Seq<u8>,
    bob_one_time_prekey_private: Option<Seq<u8>>,
    alice_identity_public: Seq<u8>,
    alice_ephemeral_public: Seq<u8>,
)
    requires
        bob_identity_private.len() == 32,
        bob_signed_prekey_private.len() == 32,
        bob_one_time_prekey_private matches Some(k) ==> k.len() == 32,
        alice_identity_public.len() == 32,
        alice_ephemeral_public.len() == 32,
    ensures
        ({
            let dh1 = x25519_agree(bob_signed_prekey_private, alice_identity_public);
            let dh2 = x25519_agree(bob_identity_private, alice_ephemeral_public);
            let dh3 = x25519_agree(bob_signed_prekey_private, alice_ephemeral_public);
            let input = match bob_one_time_prekey_private {
                None => dh1 + dh2 + dh3,
                Some(k) => dh1 + dh2 + dh3 + x25519_agree(k, alice_ephemeral_public),
            };
            spec_x3dh_respond(
                bob_identity_private,
                bob_signed_prekey_private,
                bob_one_time_prekey_private,
                alice_identity_public,
                alice_ephemeral_public,
            ) == Ok::<(Seq<u8>, Seq<u8>), ErrorModel>(
                (hkdf_sha256(spec_x3dh_salt(), input, spec_x3dh_info(), 32), spec_x3dh_associated_data()),
            )
        }),
{
}

/// A ratchet step to a 32-byte remote ratchet key with a key pair whose private key has
/// 32 bytes succeeds. The receiving side first takes, from 64 bytes of HKDF-SHA-256
/// (the ratchet salt, the root key as input, the Diffie-Hellman output of the current
/// sending private key and the remote key as info), the first 32 as the root key and the
/// last 32 as the receiving chain key; with no sending key pair yet the root key stays
/// and the receiving chain starts at the initial chain key. The sending side then
/// derives 64 bytes the same way from that root key and the new key pair's output with
/// the remote key: the first 32 are the new root key, the last 32 the sending chain key.
/// The old sending count becomes the previous chain length, both counters restart, the
/// remote key and the new key pair are kept, and the kept skipped keys stay.
pub proof fn law_dh_ratchet_step_keys(s: RatchetModel, remote: Seq<u8>, keypair: KeyPairModel)
    requires
        remote.len() == 32,
        keypair.private_key.len() == 32,
        s.sending_dh_keypair matches Some(c) ==> c.private_key.len() == 32,
    ensures
        ({
            let (root1, receiving) = match s.sending_dh_keypair {
                Some(c) => {
                    let combined = hkdf_sha256(spec_dh_ratchet_salt(), s.root_key, x25519_agree(c.private_key, remote), 64);
                    (combined.subrange(0, 32), combined.subrange(32, 64))
                },
                None => (s.root_key, hkdf_sha256(spec_initial_chain_salt(), s.root_key, spec_chain_key_info(), 32)),
            };
            let combined = hkdf_sha256(spec_dh_ratchet_salt(), root1, x25519_agree(keypair.private_key, remote), 64);
            let after = spec_dh_ratchet_step(s, remote, keypair);
            &&& after.1 is Ok
            &&& after.0.root_key == combined.subrange(0, 32)
            &&& after.0.sending_chain_key == Some(combined.subrange(32, 64))
            &&& after.0.receiving_chain_key == Some(receiving)
            &&& after.0.receiving_dh_public_key == Some(remote)
            &&& after.0.sending_dh_keypair == Some(keypair)
            &&& after.0.previous_chain_length == s.sending_message_number
            &&& after.0.sending_message_number == 0
            &&& after.0.receiving_message_number == 0
            &&& after.0.skipped == s.skipped
        }),
{
}

/// Encrypting from a state with a sending chain key, a sending ratchet key pair and
/// room in its counter succeeds; the sending chain moves to HKDF-SHA-256 of its key with
/// the chain-key salt and info, and the counter grows by one. The message carries the sender's ratchet public key, the sending counter as
/// its number and the state's previous chain length; its ciphertext is the nonce and the
/// AES-256-GCM encryption of the plaintext under the message key of the sending chain
/// key (HKDF-SHA-256 with the message-key salt and info), with the ratchet public key,
/// the big-endian number and the big-endian previous chain length as associated data.
pub proof fn law_encrypt_header(s: RatchetModel, plaintext: Seq<u8>, nonce: Seq<u8>)
    requires
        s.sending_message_number < u32::MAX,
        s.sending_chain_key is Some,
        s.sending_dh_keypair is Some,
    ensures
        ({
            let chain_key = s.sending_chain_key->Some_0;
            let dh = s.sending_dh_keypair->Some_0.public_key;
            let key = hkdf_sha256(spec_message_key_salt(), chain_key, spec_message_key_info(), 32);
            let aad = dh + be_bytes(s.sending_message_number) + be_bytes(s.previous_chain_length);
            &&& spec_encrypt(s, plaintext, nonce).1 == Ok::<MessageModel, ErrorModel>(
                MessageModel {
                    ciphertext: nonce + aes256gcm_seal(key, nonce, aad, plaintext),
                    dh_public_key: dh,
                    message_number: s.sending_message_number,
                    previous_chain_length: s.previous_chain_length,
                },
            )
            &&& spec_encrypt(s, plaintext, nonce).0.sending_chain_key == Some(
                hkdf_sha256(spec_chain_key_salt(), chain_key, spec_chain_key_info(), 32),
            )
            &&& spec_encrypt(s, plaintext, nonce).0.sending_message_number == s.sending_message_number + 1
        }),
{
}

/// After a ratchet step, the first message sent carries as its previous chain length
/// the number of messages sent on the sending chain before the step.
pub proof fn law_previous_chain_length_after_step(s: RatchetModel, remote: Seq<u8>, keypair: KeyPairModel, plaintext: Seq<u8>, nonce: Seq<u8>)
    requires
        remote.len() == 32,
        keypair.private_key.len() == 32,
        s.sending_dh_keypair matches Some(c) ==> c.private_key.len() == 32,
    ensures
        spec_encrypt(spec_dh_ratchet_step(s, remote, keypair).0, plaintext, nonce).1 matches Ok(m)
            && m.previous_chain_length == s.sending_message_number && m.message_number == 0,
{
    law_dh_ratchet_step_keys(s, remote, keypair);
    law_encrypt_header(spec_dh_ratchet_step(s, remote, keypair).0, plaintext, nonce);
}

/// An initiator starts with the 32-byte shared secret as its root key and a sending
/// chain whose first key is HKDF-SHA-256 of the secret with the initial-chain salt and
/// the chain-key info; a responder starts with the secret as its root key and no chain.
pub proof fn law_initial_chain_key(shared_secret: Seq<u8>, keypair: KeyPairModel)
    requires
        shared_secret.len() == 32,
    ensures
        spec_initialize(shared_secret, true, keypair) matches Ok(a) && a.root_key == shared_secret
            && a.sending_chain_key == Some(
            hkdf_sha256(spec_initial_chain_salt(), shared_secret, spec_chain_key_info(), 32),
        ) && a.sending_dh_keypair == Some(keypair) && a.receiving_chain_key is None,
        spec_initialize(shared_secret, false, keypair) matches Ok(b) && b.root_key == shared_secret
            && b.sending_chain_key is None && b.receiving_chain_key is None && b.sending_dh_keypair is None,
{
}

/// The next message on the current receiving chain, with no key kept for it, is opened
/// with the message key of the receiving chain key (HKDF-SHA-256 with the message-key
/// salt and info); the chain moves to HKDF-SHA-256 of its key with the chain-key salt
/// and info, and the counter grows by one.
pub proof fn law_receive_in_order(s: RatchetModel, m: MessageModel, keypair: KeyPairModel)
    requires
        !needs_ratchet_step(s, m),
        entries_get(s.skipped, key_id(hex_encode(m.dh_public_key), m.message_number)) is None,
        s.receiving_chain_key is Some,
        m.message_number == s.receiving_message_number,
        m.message_number < u32::MAX,
    ensures
        ({
            let ck = s.receiving_chain_key->Some_0;
            let after = spec_decrypt_key(s, m, keypair);
            &&& after.1 == Ok::<Seq<u8>, ErrorModel>(hkdf_sha256(spec_message_key_salt(), ck, spec_message_key_info(), 32))
            &&& after.0 == (RatchetModel {
                receiving_chain_key: Some(hkdf_sha256(spec_chain_key_salt(), ck, spec_chain_key_info(), 32)),
                receiving_message_number: (s.receiving_message_number + 1) as u32,
                ..s
            })
        }),
{
}

/// The four bytes of a number in a message's associated data are its big-endian
/// encoding: read back most significant byte first, they give the number.
pub proof fn law_be_bytes_value(n: u32)
    ensures
        be_bytes(n).len() == 4,
        be_bytes(n)[0] * 16777216 + be_bytes(n)[1] * 65536 + be_bytes(n)[2] * 256 + be_bytes(n)[3] == n,
{
}

/// Signing with a 32-byte secret key succeeds and gives the Ed25519 signature of the
/// whole data.
pub proof fn law_sign_covers_data(private_key: Seq<u8>, data: Seq<u8>)
    requires
        private_key.len() == 32,
    ensures
        spec_sign_data(private_key, data) == Ok::<Seq<u8>, ErrorModel>(ed25519_signature(private_key, data)),
{
}

/// Verifying with a 32-byte public key that encodes a curve point and a 64-byte
/// signature succeeds and tells whether the signature verifies for the whole data.
pub proof fn law_verify_covers_data(public_key: Seq<u8>, signature: Seq<u8>, data: Seq<u8>)
    requires
        public_key.len() == 32,
        signature.len() == 64,
        ed25519_key_valid(public_key),
    ensures
        spec_verify_signature(public_key, signature, data) == Ok::<bool, ErrorModel>(
            ed25519_verifies(public_key, signature, data),
        ),
{
}

} // verus!
