//! X3DH (Extended Triple Diffie-Hellman) key agreement.
//!
//! The initiator combines her identity and ephemeral private keys with the responder's
//! identity key, signed prekey and, optionally, one-time prekey; the responder combines
//! the matching private keys with the initiator's public keys. Both feed the
//! concatenated Diffie-Hellman outputs to HKDF and obtain the same 32-byte secret.
use vstd::prelude::*;
use crate::crypto::{hkdf_derive, simple_ecdh, spec_x25519_ecdh};
use crate::encoding::append_bytes;
use crate::error::{result_view, ErrorModel, SignalError};
use crate::labels::{
    spec_x3dh_associated_data, spec_x3dh_info, spec_x3dh_salt, x3dh_associated_data, x3dh_info,
    x3dh_salt,
};
use crate::primitives::{hkdf_sha256, x25519_agree, x25519_public};
use crate::types::X3DHResult;

verus! {

/// The outcome of an agreement on the concatenated Diffie-Hellman outputs: the
/// 32-byte shared secret derived by HKDF and the fixed associated data.
pub open spec fn x3dh_outcome(dh_concat: Seq<u8>) -> (Seq<u8>, Seq<u8>) {
    (hkdf_sha256(spec_x3dh_salt(), dh_concat, spec_x3dh_info(), 32), spec_x3dh_associated_data())
}

/// Whether an agreement, when it succeeds, gives the outcome `v`.
pub open spec fn agrees_when_ok(agreement: Result<(Seq<u8>, Seq<u8>), ErrorModel>, v: (Seq<u8>, Seq<u8>)) -> bool {
    match agreement {
        Ok(w) => w == v,
        Err(_) => true,
    }
}

/// The public key of an optional private key.
pub open spec fn optional_public(key: Option<Seq<u8>>) -> Option<Seq<u8>> {
    match key {
        Some(k) => Some(x25519_public(k)),
        None => None,
    }
}

/// The view of an optional byte slice.
pub open spec fn optional_bytes(key: Option<&[u8]>) -> Option<Seq<u8>> {
    match key {
        Some(k) => Some(k@),
        None => None,
    }
}

/// What the initiator obtains: DH1 = DH(IK_A, SPK_B), DH2 = DH(EK_A, IK_B),
/// DH3 = DH(EK_A, SPK_B) and, with a one-time prekey, DH4 = DH(EK_A, OPK_B); the first
/// malformed key stops the agreement with its error.
pub open spec fn spec_x3dh_initiate(
    alice_identity_private: Seq<u8>,
    alice_ephemeral_private: Seq<u8>,
    bob_identity_public: Seq<u8>,
    bob_signed_prekey_public: Seq<u8>,
    bob_one_time_prekey_public: Option<Seq<u8>>,
) -> Result<(Seq<u8>, Seq<u8>), ErrorModel> {
    match spec_x25519_ecdh(alice_identity_private, bob_signed_prekey_public) {
        Err(e) => Err(e),
        Ok(dh1) => match spec_x25519_ecdh(alice_ephemeral_private, bob_identity_public) {
            Err(e) => Err(e),
            Ok(dh2) => match spec_x25519_ecdh(alice_ephemeral_private, bob_signed_prekey_public) {
                Err(e) => Err(e),
                Ok(dh3) => match bob_one_time_prekey_public {
                    None => Ok(x3dh_outcome(dh1 + dh2 + dh3)),
                    Some(opk) => match spec_x25519_ecdh(alice_ephemeral_private, opk) {
                        Err(e) => Err(e),
                        Ok(dh4) => Ok(x3dh_outcome(dh1 + dh2 + dh3 + dh4)),
                    },
                },
            },
        },
    }
}

/// What the responder obtains: DH1 = DH(SPK_B, IK_A), DH2 = DH(IK_B, EK_A),
/// DH3 = DH(SPK_B, EK_A) and, with a one-time prekey, DH4 = DH(OPK_B, EK_A).
pub open spec fn spec_x3dh_respond(
    bob_identity_private: Seq<u8>,
    bob_signed_prekey_private: Seq<u8>,
    bob_one_time_prekey_private: Option<Seq<u8>>,
    alice_identity_public: Seq<u8>,
    alice_ephemeral_public: Seq<u8>,
) -> Result<(Seq<u8>, Seq<u8>), ErrorModel> {
    match spec_x25519_ecdh(bob_signed_prekey_private, alice_identity_public) {
        Err(e) => Err(e),
        Ok(dh1) => match spec_x25519_ecdh(bob_identity_private, alice_ephemeral_public) {
            Err(e) => Err(e),
            Ok(dh2) => match spec_x25519_ecdh(bob_signed_prekey_private, alice_ephemeral_public) {
                Err(e) => Err(e),
                Ok(dh3) => match bob_one_time_prekey_private {
                    None => Ok(x3dh_outcome(dh1 + dh2 + dh3)),
                    Some(opk) => match spec_x25519_ecdh(opk, alice_ephemeral_public) {
                        Err(e) => Err(e),
                        Ok(dh4) => Ok(x3dh_outcome(dh1 + dh2 + dh3 + dh4)),
                    },
                },
            },
        },
    }
}

/// Derives the shared secret from the concatenated Diffie-Hellman outputs.
fn x3dh_finish(dh_concat: &[u8]) -> (r: Result<X3DHResult, SignalError>)
    ensures
        r matches Ok(res) && res@ == x3dh_outcome(dh_concat@) && res.shared_secret@.len() == 32,
{
    let salt = x3dh_salt();
    let info = x3dh_info();
    let shared_secret = match hkdf_derive(salt.as_slice(), dh_concat, info.as_slice(), 32) {
        Ok(s) => s,
        Err(e) => return Err(e),
    };
    Ok(X3DHResult { shared_secret, associated_data: x3dh_associated_data() })
}

/// The initiator's side of X3DH.
pub fn x3dh_initiate_internal(
    alice_identity_private: &[u8],
    alice_ephemeral_private: &[u8],
    bob_identity_public: &[u8],
    bob_signed_prekey_public: &[u8],
    bob_one_time_prekey_public: Option<&[u8]>,
) -> (r: Result<X3DHResult, SignalError>)
    ensures
        result_view(r) == spec_x3dh_initiate(
            alice_identity_private@,
            alice_ephemeral_private@,
            bob_identity_public@,
            bob_signed_prekey_public@,
            optional_bytes(bob_one_time_prekey_public),
        ),
        r matches Ok(res) ==> res.shared_secret@.len() == 32,
{
    let dh1 = match simple_ecdh(alice_identity_private, bob_signed_prekey_public) {
        Ok(d) => d,
        Err(e) => return Err(e),
    };
    let dh2 = match simple_ecdh(alice_ephemeral_private, bob_identity_public) {
        Ok(d) => d,
        Err(e) => return Err(e),
    };
    let dh3 = match simple_ecdh(alice_ephemeral_private, bob_signed_prekey_public) {
        Ok(d) => d,
        Err(e) => return Err(e),
    };
    let mut dh_concat: Vec<u8> = Vec::new();
    append_bytes(&mut dh_concat, dh1.as_slice());
    append_bytes(&mut dh_concat, dh2.as_slice());
    append_bytes(&mut dh_concat, dh3.as_slice());
    assert(dh_concat@ == dh1@ + dh2@ + dh3@);
    if let Some(bob_one_time_prekey) = bob_one_time_prekey_public {
        let dh4 = match simple_ecdh(alice_ephemeral_private, bob_one_time_prekey) {
            Ok(d) => d,
            Err(e) => return Err(e),
        };
        append_bytes(&mut dh_concat, dh4.as_slice());
    }
    x3dh_finish(dh_concat.as_slice())
}

/// The responder's side of X3DH.
///
/// Both sides agree: for any initiator whose identity and ephemeral public keys are
/// those of 32-byte private keys, an agreement of the initiator with the responder's
/// public keys that succeeds gives the same result as this one.
pub fn x3dh_respond_internal(
    bob_identity_private: &[u8],
    bob_signed_prekey_private: &[u8],
    bob_one_time_prekey_private: Option<&[u8]>,
    alice_identity_public: &[u8],
    alice_ephemeral_public: &[u8],
) -> (r: Result<X3DHResult, SignalError>)
    ensures
        result_view(r) == spec_x3dh_respond(
            bob_identity_private@,
            bob_signed_prekey_private@,
            optional_bytes(bob_one_time_prekey_private),
            alice_identity_public@,
            alice_ephemeral_public@,
        ),
        r matches Ok(res) ==> res.shared_secret@.len() == 32,
        forall|ik: Seq<u8>, ek: Seq<u8>|
            #![trigger x25519_public(ik), x25519_public(ek)]
            r is Ok && ik.len() == 32 && ek.len() == 32 && alice_identity_public@ == x25519_public(ik)
                && alice_ephemeral_public@ == x25519_public(ek) ==> agrees_when_ok(spec_x3dh_initiate(
                ik,
                ek,
                x25519_public(bob_identity_private@),
                x25519_public(bob_signed_prekey_private@),
                optional_public(optional_bytes(bob_one_time_prekey_private)),
            ), r->Ok_0@),
{
    let dh1 = match simple_ecdh(bob_signed_prekey_private, alice_identity_public) {
        Ok(d) => d,
        Err(e) => return Err(e),
    };
    let dh2 = match simple_ecdh(bob_identity_private, alice_ephemeral_public) {
        Ok(d) => d,
        Err(e) => return Err(e),
    };
    let dh3 = match simple_ecdh(bob_signed_prekey_private, alice_ephemeral_public) {
        Ok(d) => d,
        Err(e) => return Err(e),
    };
    let mut dh_concat: Vec<u8> = Vec::new();
    append_bytes(&mut dh_concat, dh1.as_slice());
    append_bytes(&mut dh_concat, dh2.as_slice());
    append_bytes(&mut dh_concat, dh3.as_slice());
    assert(dh_concat@ == dh1@ + dh2@ + dh3@);
    if let Some(opk) = bob_one_time_prekey_private {
        let dh4 = match simple_ecdh(opk, alice_ephemeral_public) {
            Ok(d) => d,
            Err(e) => return Err(e),
        };
        append_bytes(&mut dh_concat, dh4.as_slice());
        let r = x3dh_finish(dh_concat.as_slice());
        assert forall|ik: Seq<u8>, ek: Seq<u8>|
            #![trigger x25519_public(ik), x25519_public(ek)]
            ik.len() == 32 && ek.len() == 32 && alice_identity_public@ == x25519_public(ik)
                && alice_ephemeral_public@ == x25519_public(ek) implies agrees_when_ok(spec_x3dh_initiate(
                ik,
                ek,
                x25519_public(bob_identity_private@),
                x25519_public(bob_signed_prekey_private@),
                optional_public(optional_bytes(bob_one_time_prekey_private)),
            ), r->Ok_0@) by {
            assert(dh1@ == x25519_agree(ik, x25519_public(bob_signed_prekey_private@)));
            assert(dh2@ == x25519_agree(ek, x25519_public(bob_identity_private@)));
            assert(dh3@ == x25519_agree(ek, x25519_public(bob_signed_prekey_private@)));
            assert(dh4@ == x25519_agree(ek, x25519_public(opk@)));
        }
        return r;
    }
    let r = x3dh_finish(dh_concat.as_slice());
    assert forall|ik: Seq<u8>, ek: Seq<u8>|
        #![trigger x25519_public(ik), x25519_public(ek)]
        ik.len() == 32 && ek.len() == 32 && alice_identity_public@ == x25519_public(ik)
            && alice_ephemeral_public@ == x25519_public(ek) implies agrees_when_ok(spec_x3dh_initiate(
            ik,
            ek,
            x25519_public(bob_identity_private@),
            x25519_public(bob_signed_prekey_private@),
            optional_public(optional_bytes(bob_one_time_prekey_private)),
        ), r->Ok_0@) by {
        assert(dh1@ == x25519_agree(ik, x25519_public(bob_signed_prekey_private@)));
        assert(dh2@ == x25519_agree(ek, x25519_public(bob_identity_private@)));
        assert(dh3@ == x25519_agree(ek, x25519_public(bob_signed_prekey_private@)));
    }
    r
}

} // verus!
