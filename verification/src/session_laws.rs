//! Laws of Double Ratchet sessions: what two parties that started from one shared
//! secret can read of each other's messages, whatever order the operations come in.
//!
//! A party reads its peer's current sending chain either because it is already on it
//! (its receiving chain is a step of the same chain) or because its next ratchet step
//! to the peer's ratchet key derives exactly the peer's root key and chain. These two
//! relations, kept in both directions, make a session; every operation keeps it.
use vstd::prelude::*;
use crate::double_ratchet::{
    authenticated, carries_body, chain_after, message_aad, needs_ratchet_step, opens_to, sealed_frame, sealed_with,
    same_body, skipped_after, spec_cleanup, spec_decrypt, spec_decrypt_key, spec_derive_message_key,
    spec_derive_next_chain_key, spec_dh_ratchet_step, spec_encrypt, spec_initial_chain_key,
    spec_initialize, spec_receiving_keys, spec_select_key,
    spec_skip_message_keys, MessageModel, RatchetModel, MAX_SKIPPED_MESSAGE_KEYS,
};
use crate::encoding::{decimal_chars, hex_encode, key_id, lemma_key_id_injective};
use crate::error::{ErrorKind, ErrorModel};
use crate::keys::is_x25519_keypair;
use crate::primitives::{aes_gcm_max_len, x25519_agree};
use crate::skipped_keys::{
    entries_get, law_get_after_insert, law_get_after_remove,
    lemma_get_characterized, strictly_sorted, Entry,
};
use crate::types::KeyPairModel;

verus! {

/// The key of message number `n` on the chain whose first chain key is `base`.
pub open spec fn message_key_at(base: Seq<u8>, n: nat) -> Seq<u8> {
    spec_derive_message_key(chain_after(base, n))
}

/// The identifier of the skipped key of message `n` sent under the ratchet key `dh`.
pub open spec fn message_id(dh: Seq<u8>, n: u32) -> Seq<u8> {
    key_id(hex_encode(dh), n)
}

/// The public ratchet key with which a party sends.
pub open spec fn sending_public(s: RatchetModel) -> Seq<u8> {
    s.sending_dh_keypair->Some_0.public_key
}

/// A well-formed party: its store of skipped keys is sorted and its sending ratchet
/// key pair, when it has one, is an X25519 key pair.
pub open spec fn party_wf(s: RatchetModel) -> bool {
    &&& strictly_sorted(s.skipped)
    &&& s.sending_dh_keypair matches Some(kp) ==> is_x25519_keypair(kp)
}

/// Party `r` is on the current sending chain of party `s`, whose first chain key is
/// `base`: its receiving chain is the same chain at its own counter, which is not ahead
/// of the sender's, and the only keys it keeps for this chain are the keys of earlier
/// messages of it.
pub open spec fn on_chain(r: RatchetModel, s: RatchetModel, base: Seq<u8>) -> bool {
    &&& s.sending_dh_keypair is Some
    &&& s.sending_chain_key == Some(chain_after(base, s.sending_message_number as nat))
    &&& r.receiving_dh_public_key == Some(sending_public(s))
    &&& r.receiving_chain_key == Some(chain_after(base, r.receiving_message_number as nat))
    &&& r.receiving_message_number <= s.sending_message_number
    &&& forall|j: u32|
        #[trigger] entries_get(r.skipped, message_id(sending_public(s), j)) matches Some(k) ==> j
            < r.receiving_message_number && k == message_key_at(base, j as nat)
}

/// Party `r` has not reached the current sending chain of party `s` yet, and its next
/// ratchet step to the sender's key derives the sender's root key and the first key
/// `base` of that chain; it keeps no key under the sender's ratchet key.
pub open spec fn awaits_chain(r: RatchetModel, s: RatchetModel, base: Seq<u8>) -> bool {
    &&& s.sending_dh_keypair is Some
    &&& s.sending_chain_key == Some(chain_after(base, s.sending_message_number as nat))
    &&& r.receiving_dh_public_key != Some(sending_public(s))
    &&& spec_receiving_keys(r, sending_public(s)) == Ok::<(Seq<u8>, Seq<u8>), ErrorModel>((s.root_key, base))
    &&& forall|j: u32| #[trigger] entries_get(r.skipped, message_id(sending_public(s), j)) is None
}

/// Party `r` can read what party `s` sends: when `s` has a sending ratchet key, `r` is on
/// its chain or its next ratchet step leads there.
pub open spec fn reads(r: RatchetModel, s: RatchetModel, base: Seq<u8>) -> bool {
    s.sending_dh_keypair is Some ==> (on_chain(r, s, base) || awaits_chain(r, s, base))
}

/// A session between `a` and `b`: both are well formed, and each reads what the other
/// sends (`a`'s chain starts at `base_a`, `b`'s at `base_b`).
pub open spec fn session(a: RatchetModel, b: RatchetModel, base_a: Seq<u8>, base_b: Seq<u8>) -> bool {
    &&& party_wf(a)
    &&& party_wf(b)
    &&& reads(b, a, base_a)
    &&& reads(a, b, base_b)
}

/// Message `m` was sent under ratchet key `dh` on the chain that starts at `base`: it was
/// sealed under the key of its number, with `nonce`, from `plaintext`.
pub open spec fn sent_on_chain(base: Seq<u8>, dh: Seq<u8>, m: MessageModel, nonce: Seq<u8>, plaintext: Seq<u8>) -> bool {
    &&& m.dh_public_key == dh
    &&& sealed_with(message_key_at(base, m.message_number as nat), m, nonce, plaintext)
}

/// Whether party `r` still holds what it needs to open message `m`: for a message on
/// its current receiving chain, a kept key for it or a number not behind the chain
/// within the skipping limit; for a message that starts a new chain, a number within the
/// skipping limit.
pub open spec fn deliverable(r: RatchetModel, m: MessageModel) -> bool {
    if needs_ratchet_step(r, m) {
        m.message_number <= MAX_SKIPPED_MESSAGE_KEYS
    } else {
        ||| entries_get(r.skipped, message_id(m.dh_public_key, m.message_number)) is Some
        ||| (r.receiving_message_number <= m.message_number && m.message_number
            - r.receiving_message_number <= MAX_SKIPPED_MESSAGE_KEYS)
    }
}

/// Whether party `r` has finished with message `m`: it is on the message's chain, past
/// its number, and keeps no key for it.
pub open spec fn consumed(r: RatchetModel, m: MessageModel) -> bool {
    &&& r.receiving_dh_public_key == Some(m.dh_public_key)
    &&& r.receiving_chain_key is Some
    &&& m.message_number < r.receiving_message_number
    &&& entries_get(r.skipped, message_id(m.dh_public_key, m.message_number)) is None
}

// ---------------------------------------------------------------------------------
// Chains and skipped keys
// ---------------------------------------------------------------------------------

/// Stepping a chain `a` times and then `b` times steps it `a + b` times.
pub proof fn lemma_chain_after_add(ck: Seq<u8>, a: nat, b: nat)
    ensures
        chain_after(chain_after(ck, a), b) == chain_after(ck, a + b),
    decreases b,
{
    if b > 0 {
        lemma_chain_after_add(ck, a, (b - 1) as nat);
    }
}

/// Keeping the keys of `count` messages from number `start` on keeps the store sorted,
/// finds under the identifier of each of them the key of its message, and leaves every
/// other identifier with the same prefix as it was.
pub proof fn lemma_skipped_after(e: Seq<Entry>, prefix: Seq<u8>, start: nat, ck: Seq<u8>, count: nat)
    requires
        strictly_sorted(e),
        start + count <= u32::MAX + 1,
    ensures
        strictly_sorted(skipped_after(e, prefix, start, ck, count)),
        forall|j: u32|
            start <= j < start + count ==> #[trigger] entries_get(skipped_after(e, prefix, start, ck, count), key_id(prefix, j))
                == Some(spec_derive_message_key(chain_after(ck, (j - start) as nat))),
        forall|j: u32|
            !(start <= j < start + count) ==> #[trigger] entries_get(skipped_after(e, prefix, start, ck, count), key_id(prefix, j))
                == entries_get(e, key_id(prefix, j)),
    decreases count,
{
    if count > 0 {
        let prev = skipped_after(e, prefix, start, ck, (count - 1) as nat);
        lemma_skipped_after(e, prefix, start, ck, (count - 1) as nat);
        let last = (start + count - 1) as u32;
        let value = spec_derive_message_key(chain_after(ck, (count - 1) as nat));
        crate::skipped_keys::lemma_insert_sorted(prev, key_id(prefix, last), value);
        assert forall|j: u32|
            start <= j < start + count implies #[trigger] entries_get(skipped_after(e, prefix, start, ck, count), key_id(prefix, j))
                == Some(spec_derive_message_key(chain_after(ck, (j - start) as nat))) by {
            law_get_after_insert(prev, key_id(prefix, last), value, key_id(prefix, j));
            if j != last {
                if key_id(prefix, j) == key_id(prefix, last) {
                    lemma_key_id_injective(prefix, j, last);
                }
            }
        }
        assert forall|j: u32|
            !(start <= j < start + count) implies #[trigger] entries_get(skipped_after(e, prefix, start, ck, count), key_id(prefix, j))
                == entries_get(e, key_id(prefix, j)) by {
            law_get_after_insert(prev, key_id(prefix, last), value, key_id(prefix, j));
            if key_id(prefix, j) == key_id(prefix, last) {
                lemma_key_id_injective(prefix, j, last);
            }
        }
    }
}

// ---------------------------------------------------------------------------------
// Selecting the key of a message on the current chain
// ---------------------------------------------------------------------------------

/// What selecting a message key leaves of a party: the same root key, sending side and
/// remote ratchet key.
pub open spec fn keeps_sending_side(before: RatchetModel, after: RatchetModel) -> bool {
    &&& after.root_key == before.root_key
    &&& after.sending_chain_key == before.sending_chain_key
    &&& after.sending_dh_keypair == before.sending_dh_keypair
    &&& after.sending_message_number == before.sending_message_number
    &&& after.previous_chain_length == before.previous_chain_length
    &&& after.receiving_dh_public_key == before.receiving_dh_public_key
}

/// On the sender's chain, the key selected for a message the receiver still can open is
/// the key it was sealed under; the receiver stays on the chain and is done with it.
proof fn lemma_select_on_chain(r: RatchetModel, s: RatchetModel, base: Seq<u8>, m: MessageModel)
    requires
        strictly_sorted(r.skipped),
        on_chain(r, s, base),
        m.dh_public_key == sending_public(s),
        m.message_number < s.sending_message_number,
        !needs_ratchet_step(r, m),
        deliverable(r, m),
    ensures
        spec_select_key(r, m).1 == Ok::<Seq<u8>, ErrorModel>(message_key_at(base, m.message_number as nat)),
        on_chain(spec_select_key(r, m).0, s, base),
        strictly_sorted(spec_select_key(r, m).0.skipped),
        consumed(spec_select_key(r, m).0, m),
        keeps_sending_side(r, spec_select_key(r, m).0),
{
    let dh = sending_public(s);
    let n = m.message_number;
    let id = message_id(dh, n);
    let r2 = spec_select_key(r, m).0;
    match entries_get(r.skipped, id) {
        Some(k) => {
            crate::skipped_keys::lemma_remove_sorted(r.skipped, id);
            law_get_after_remove(r.skipped, id, id);
            assert forall|j: u32| (#[trigger] entries_get(r2.skipped, message_id(dh, j))) is Some implies j
                < r2.receiving_message_number && entries_get(r2.skipped, message_id(dh, j))->Some_0
                == message_key_at(base, j as nat) by {
                law_get_after_remove(r.skipped, id, message_id(dh, j));
                if message_id(dh, j) == id {
                    lemma_key_id_injective(hex_encode(dh), j, n);
                }
            }
        },
        None => {
            let rn = r.receiving_message_number;
            let ck = chain_after(base, rn as nat);
            let count = (n - rn) as nat;
            let r1 = if n > rn {
                spec_skip_message_keys(r, n).0
            } else {
                r
            };
            lemma_skipped_after(r.skipped, hex_encode(dh), rn as nat, ck, count);
            lemma_chain_after_add(base, rn as nat, count);
            if n > rn {
                assert(r1.skipped == skipped_after(r.skipped, hex_encode(dh), rn as nat, ck, count));
            }
            assert(r1.receiving_chain_key == Some(chain_after(base, n as nat)));
            assert(r1.receiving_message_number == n);
            assert forall|j: u32| (#[trigger] entries_get(r2.skipped, message_id(dh, j))) is Some implies j
                < r2.receiving_message_number && entries_get(r2.skipped, message_id(dh, j))->Some_0
                == message_key_at(base, j as nat) by {
                assert(entries_get(r2.skipped, message_id(dh, j)) == entries_get(
                    skipped_after(r.skipped, hex_encode(dh), rn as nat, ck, count),
                    key_id(hex_encode(dh), j),
                ));
                if rn <= j < n {
                    lemma_chain_after_add(base, rn as nat, (j - rn) as nat);
                }
            }
            assert(entries_get(r2.skipped, message_id(dh, n)) == entries_get(
                skipped_after(r.skipped, hex_encode(dh), rn as nat, ck, count),
                key_id(hex_encode(dh), n),
            ));
        },
    }
}


/// In a sorted store, what is found after dropping leading entries was found before.
proof fn lemma_skip_get(e: Seq<Entry>, k: int, x: Seq<u8>)
    requires
        strictly_sorted(e),
        0 <= k <= e.len(),
    ensures
        strictly_sorted(e.skip(k)),
        entries_get(e.skip(k), x) is Some ==> entries_get(e, x) == entries_get(e.skip(k), x),
{
    crate::skipped_keys::law_skip_keeps_greatest(e, k);
    let t = e.skip(k);
    lemma_get_characterized(t, x);
    if entries_get(t, x) is Some {
        let i = choose|i: int| 0 <= i < t.len() && (#[trigger] t[i]).0 == x;
        assert(t[i] == e[i + k]);
        lemma_get_characterized(e, x);
    }
}

// ---------------------------------------------------------------------------------
// Laws
// ---------------------------------------------------------------------------------

/// A ratchet key pair fresh to party `s`: `s` is not on a chain under its public key and
/// keeps no key under it, and its Diffie-Hellman output with the current sending key
/// pair of `s` is the same computed from either side.
pub open spec fn fresh_ratchet_key(s: RatchetModel, kp: KeyPairModel) -> bool {
    &&& s.receiving_dh_public_key != Some(kp.public_key)
    &&& forall|j: u32| #[trigger] entries_get(s.skipped, message_id(kp.public_key, j)) is None
    &&& x25519_agree(kp.private_key, sending_public(s)) == x25519_agree(
        s.sending_dh_keypair->Some_0.private_key,
        kp.public_key,
    )
}

/// The first key of the chain a receiver reads next from: a new sending chain when the
/// message made it take a ratchet step, else the chain it had.
pub open spec fn next_base(r: RatchetModel, m: MessageModel, kp: KeyPairModel, base: Seq<u8>) -> Seq<u8> {
    if needs_ratchet_step(r, m) {
        spec_decrypt_key(r, m, kp).0.sending_chain_key->Some_0
    } else {
        base
    }
}

/// A session is symmetric: what holds of the two parties one way round holds the
/// other way round.
pub proof fn law_session_symmetric(a: RatchetModel, b: RatchetModel, base_a: Seq<u8>, base_b: Seq<u8>)
    ensures
        session(a, b, base_a, base_b) == session(b, a, base_b, base_a),
{
}

/// Two parties started from the same 32-byte shared secret, one as initiator with an
/// X25519 ratchet key pair and one as responder, both succeed, share the secret as their
/// root key, and form a session in which the responder reads the initiator's chain
/// from its first key.
pub proof fn law_session_starts(shared_secret: Seq<u8>, initiator_keypair: KeyPairModel, responder_keypair: KeyPairModel, base_b: Seq<u8>)
    requires
        shared_secret.len() == 32,
        is_x25519_keypair(initiator_keypair),
    ensures
        spec_initialize(shared_secret, true, initiator_keypair) is Ok,
        spec_initialize(shared_secret, false, responder_keypair) is Ok,
        spec_initialize(shared_secret, true, initiator_keypair)->Ok_0.root_key == shared_secret,
        spec_initialize(shared_secret, false, responder_keypair)->Ok_0.root_key == shared_secret,
        session(
            spec_initialize(shared_secret, true, initiator_keypair)->Ok_0,
            spec_initialize(shared_secret, false, responder_keypair)->Ok_0,
            spec_initial_chain_key(shared_secret),
            base_b,
        ),
{
    let a = spec_initialize(shared_secret, true, initiator_keypair)->Ok_0;
    let b = spec_initialize(shared_secret, false, responder_keypair)->Ok_0;
    assert(a.skipped =~= Seq::<Entry>::empty());
    assert(b.skipped =~= Seq::<Entry>::empty());
    assert(chain_after(spec_initial_chain_key(shared_secret), 0) == spec_initial_chain_key(shared_secret));
    assert(awaits_chain(b, a, spec_initial_chain_key(shared_secret)));
}

/// Sending never changes the root key, the receiving side or the kept keys; only the
/// sending chain moves, one step per message.
pub proof fn law_send_keeps_root_key(s: RatchetModel, plaintext: Seq<u8>, nonce: Seq<u8>)
    ensures
        spec_encrypt(s, plaintext, nonce).0.root_key == s.root_key,
        spec_encrypt(s, plaintext, nonce).0.receiving_chain_key == s.receiving_chain_key,
        spec_encrypt(s, plaintext, nonce).0.receiving_dh_public_key == s.receiving_dh_public_key,
        spec_encrypt(s, plaintext, nonce).0.receiving_message_number == s.receiving_message_number,
        spec_encrypt(s, plaintext, nonce).0.skipped == s.skipped,
        spec_encrypt(s, plaintext, nonce).0.sending_dh_keypair == s.sending_dh_keypair,
        spec_encrypt(s, plaintext, nonce).1 is Ok ==> spec_encrypt(s, plaintext, nonce).0.sending_chain_key
            == Some(spec_derive_next_chain_key(s.sending_chain_key->Some_0)),
{
}

/// In a session, a party with a sending ratchet key can send: the message carries its
/// ratchet key and its counter, is sealed under the key of that number on its chain, and
/// the session goes on with the chain one step further.
pub proof fn law_session_send(a: RatchetModel, b: RatchetModel, base_a: Seq<u8>, base_b: Seq<u8>, plaintext: Seq<u8>, nonce: Seq<u8>)
    requires
        session(a, b, base_a, base_b),
        a.sending_dh_keypair is Some,
        a.sending_message_number < u32::MAX,
    ensures
        spec_encrypt(a, plaintext, nonce).1 is Ok,
        ({
            let m = spec_encrypt(a, plaintext, nonce).1->Ok_0;
            &&& m.dh_public_key == sending_public(a)
            &&& m.message_number == a.sending_message_number
            &&& m.ciphertext == sealed_frame(
                message_key_at(base_a, m.message_number as nat),
                nonce,
                message_aad(m.dh_public_key, m.message_number, m.previous_chain_length),
                plaintext,
            )
            &&& (nonce.len() == 12 && plaintext.len() <= aes_gcm_max_len() && m.dh_public_key.len() + 8
                <= aes_gcm_max_len() && m.ciphertext.len() >= 28) ==> sent_on_chain(
                base_a,
                sending_public(a),
                m,
                nonce,
                plaintext,
            )
        }),
        session(spec_encrypt(a, plaintext, nonce).0, b, base_a, base_b),
{
    let a2 = spec_encrypt(a, plaintext, nonce).0;
    let m = spec_encrypt(a, plaintext, nonce).1->Ok_0;
    let n = a.sending_message_number;
    assert(a2.sending_chain_key == Some(chain_after(base_a, (n + 1) as nat)));
    assert(message_aad(m.dh_public_key, m.message_number, m.previous_chain_length).len() == m.dh_public_key.len() + 8);
    assert(reads(a2, b, base_b) == reads(a, b, base_b));
}

/// Replaying a message a party is done with is refused as a number behind its chain,
/// and changes nothing.
pub proof fn law_replay_refused(r: RatchetModel, m: MessageModel, kp: KeyPairModel)
    requires
        consumed(r, m),
    ensures
        spec_decrypt(r, m, kp) == (
            r,
            Err::<Seq<u8>, ErrorModel>(
                (
                    ErrorKind::InvalidInput,
                    "Message number mismatch: expected "@ + decimal_chars(r.receiving_message_number as nat)
                        + ", got "@ + decimal_chars(m.message_number as nat),
                ),
            ),
        ),
{
}

/// In a session, every message sent on the sender's current chain that the receiver
/// still can open (in order or not, the first of a new chain or not) opens to its
/// plaintext under the key the receiver selects for it; the receiver is then on the
/// sender's chain and done with that message. When the ratchet key pair of a step it
/// takes is fresh to the sender, the session goes on: the receiver's new sending chain
/// is the one the sender reads next.
pub proof fn law_session_receive(s: RatchetModel, r: RatchetModel, base_s: Seq<u8>, base_r: Seq<u8>, m: MessageModel, nonce: Seq<u8>, plaintext: Seq<u8>, kp: KeyPairModel)
    requires
        session(s, r, base_s, base_r),
        s.sending_dh_keypair is Some,
        sent_on_chain(base_s, sending_public(s), m, nonce, plaintext),
        m.message_number < s.sending_message_number,
        deliverable(r, m),
        is_x25519_keypair(kp),
    ensures
        opens_to(spec_decrypt_key(r, m, kp).1, m, nonce, plaintext),
        consumed(spec_decrypt_key(r, m, kp).0, m),
        on_chain(spec_decrypt_key(r, m, kp).0, s, base_s),
        (needs_ratchet_step(r, m) ==> fresh_ratchet_key(s, kp)) ==> session(
            s,
            spec_decrypt_key(r, m, kp).0,
            base_s,
            next_base(r, m, kp, base_r),
        ),
{
    let dh = sending_public(s);
    let r2 = spec_decrypt_key(r, m, kp).0;
    if needs_ratchet_step(r, m) {
        assert(awaits_chain(r, s, base_s));
        let step = spec_dh_ratchet_step(r, dh, kp);
        let r1 = step.0;
        assert(step.1 is Ok);
        assert(chain_after(base_s, 0) == base_s);
        assert(on_chain(r1, s, base_s));
        lemma_select_on_chain(r1, s, base_s, m);
        if fresh_ratchet_key(s, kp) {
            let nb = next_base(r, m, kp, base_r);
            assert(r2.sending_message_number == 0);
            assert(chain_after(nb, 0) == nb);
            assert(spec_receiving_keys(s, kp.public_key) == Ok::<(Seq<u8>, Seq<u8>), ErrorModel>((r2.root_key, nb)));
            assert(awaits_chain(s, r2, nb));
        }
    } else {
        assert(on_chain(r, s, base_s));
        lemma_select_on_chain(r, s, base_s, m);
        assert(reads(s, r2, base_r) == reads(s, r, base_r));
    }
}

/// The first message of a session, as a user of the library sends it: two parties
/// start from one 32-byte secret; the initiator's first message, sealed with a 12-byte
/// nonce, opens at the responder to its plaintext, whatever X25519 key pair the
/// responder draws for its ratchet step.
pub proof fn law_first_message_opens(shared_secret: Seq<u8>, initiator_keypair: KeyPairModel, responder_keypair: KeyPairModel, plaintext: Seq<u8>, nonce: Seq<u8>)
    requires
        shared_secret.len() == 32,
        is_x25519_keypair(initiator_keypair),
        is_x25519_keypair(responder_keypair),
        nonce.len() == 12,
        plaintext.len() <= aes_gcm_max_len(),
    ensures
        ({
            let a = spec_initialize(shared_secret, true, initiator_keypair)->Ok_0;
            let b = spec_initialize(shared_secret, false, responder_keypair)->Ok_0;
            let m = spec_encrypt(a, plaintext, nonce).1->Ok_0;
            &&& spec_encrypt(a, plaintext, nonce).1 is Ok
            &&& m.ciphertext.len() >= 28 ==> opens_to(spec_decrypt_key(b, m, responder_keypair).1, m, nonce, plaintext)
        }),
{
    let base = spec_initial_chain_key(shared_secret);
    law_session_starts(shared_secret, initiator_keypair, responder_keypair, base);
    let a = spec_initialize(shared_secret, true, initiator_keypair)->Ok_0;
    let b = spec_initialize(shared_secret, false, responder_keypair)->Ok_0;
    law_session_send(a, b, base, base, plaintext, nonce);
    let a2 = spec_encrypt(a, plaintext, nonce).0;
    let m = spec_encrypt(a, plaintext, nonce).1->Ok_0;
    if m.ciphertext.len() >= 28 {
        assert(sent_on_chain(base, sending_public(a), m, nonce, plaintext));
        assert(deliverable(b, m));
        law_session_receive(a2, b, base, base, m, nonce, plaintext, responder_keypair);
    }
}

/// The reply to the first message: once the responder has opened the initiator's first
/// message (taking a ratchet step with `responder_keypair`), its reply, sealed with a
/// 12-byte nonce, opens at the initiator to its plaintext, provided the two ratchet key
/// pairs agree under X25519 from either side.
pub proof fn law_reply_opens(
    shared_secret: Seq<u8>,
    initiator_keypair: KeyPairModel,
    responder_keypair: KeyPairModel,
    first: Seq<u8>,
    first_nonce: Seq<u8>,
    reply: Seq<u8>,
    reply_nonce: Seq<u8>,
    initiator_step_keypair: KeyPairModel,
)
    requires
        shared_secret.len() == 32,
        is_x25519_keypair(initiator_keypair),
        is_x25519_keypair(responder_keypair),
        is_x25519_keypair(initiator_step_keypair),
        first_nonce.len() == 12,
        reply_nonce.len() == 12,
        first.len() <= aes_gcm_max_len(),
        reply.len() <= aes_gcm_max_len(),
        x25519_agree(responder_keypair.private_key, initiator_keypair.public_key) == x25519_agree(
            initiator_keypair.private_key,
            responder_keypair.public_key,
        ),
    ensures
        ({
            let a = spec_initialize(shared_secret, true, initiator_keypair)->Ok_0;
            let b = spec_initialize(shared_secret, false, responder_keypair)->Ok_0;
            let sent = spec_encrypt(a, first, first_nonce);
            let m = sent.1->Ok_0;
            let b2 = spec_decrypt_key(b, m, responder_keypair).0;
            let answered = spec_encrypt(b2, reply, reply_nonce);
            let m2 = answered.1->Ok_0;
            m.ciphertext.len() >= 28 ==> {
                &&& answered.1 is Ok
                &&& m2.ciphertext.len() >= 28 ==> opens_to(
                    spec_decrypt_key(sent.0, m2, initiator_step_keypair).1,
                    m2,
                    reply_nonce,
                    reply,
                )
            }
        }),
{
    let base = spec_initial_chain_key(shared_secret);
    law_session_starts(shared_secret, initiator_keypair, responder_keypair, base);
    let a = spec_initialize(shared_secret, true, initiator_keypair)->Ok_0;
    let b = spec_initialize(shared_secret, false, responder_keypair)->Ok_0;
    law_session_send(a, b, base, base, first, first_nonce);
    let a2 = spec_encrypt(a, first, first_nonce).0;
    let m = spec_encrypt(a, first, first_nonce).1->Ok_0;
    if m.ciphertext.len() >= 28 {
        assert(sent_on_chain(base, sending_public(a), m, first_nonce, first));
        assert(deliverable(b, m));
        assert(needs_ratchet_step(b, m));
        assert(a2.skipped =~= Seq::<Entry>::empty());
        assert(fresh_ratchet_key(a2, responder_keypair));
        law_session_receive(a2, b, base, base, m, first_nonce, first, responder_keypair);
        let b2 = spec_decrypt_key(b, m, responder_keypair).0;
        let nb = next_base(b, m, responder_keypair, base);
        law_session_symmetric(a2, b2, base, nb);
        law_session_send(b2, a2, nb, base, reply, reply_nonce);
        let b3 = spec_encrypt(b2, reply, reply_nonce).0;
        let m2 = spec_encrypt(b2, reply, reply_nonce).1->Ok_0;
        if m2.ciphertext.len() >= 28 {
            assert(sent_on_chain(nb, sending_public(b2), m2, reply_nonce, reply));
            assert(deliverable(a2, m2));
            law_session_receive(b3, a2, nb, base, m2, reply_nonce, reply, initiator_step_keypair);
        }
    }
}

/// Decrypting a message on the current receiving chain takes no ratchet step: whatever
/// the outcome, the root key, the sending side and the remote ratchet key stay as they
/// were; only the receiving chain, its counter and the kept keys may change.
pub proof fn law_current_chain_keeps_sending_side(s: RatchetModel, m: MessageModel, kp: KeyPairModel)
    requires
        !needs_ratchet_step(s, m),
    ensures
        keeps_sending_side(s, spec_decrypt(s, m, kp).0),
{
}

/// Message `m` with its last 16 bytes, the tag, replaced by `tag`.
pub open spec fn with_tag(m: MessageModel, tag: Seq<u8>) -> MessageModel {
    MessageModel { ciphertext: m.ciphertext.subrange(0, m.ciphertext.len() - 16) + tag, ..m }
}

/// A message sealed under the message key the receiver selects for it, with its tag
/// replaced by any other 16 bytes, is refused with a decryption error wherever the
/// decryption's outcome is authenticated as AES-GCM's is (which the decryption
/// functions state of theirs): the receiver selects the same key for the altered
/// message, and such a frame opens only when it is the sealed one.
pub proof fn law_forged_tag_refused(r: RatchetModel, m: MessageModel, kp: KeyPairModel, nonce: Seq<u8>, plaintext: Seq<u8>, tag: Seq<u8>)
    requires
        opens_to(spec_decrypt_key(r, m, kp).1, m, nonce, plaintext),
        tag.len() == 16,
        tag != m.ciphertext.subrange(m.ciphertext.len() - 16, m.ciphertext.len() as int),
        authenticated(spec_decrypt_key(r, with_tag(m, tag), kp).1, with_tag(m, tag), spec_decrypt(r, with_tag(m, tag), kp).1),
    ensures
        spec_decrypt(r, with_tag(m, tag), kp).1 matches Err(e) && e.0 == ErrorKind::Decryption,
{
    let f = with_tag(m, tag);
    assert(spec_decrypt_key(r, f, kp) == spec_decrypt_key(r, m, kp));
    let key = spec_decrypt_key(r, m, kp).1->Ok_0;
    let aad = message_aad(m.dh_public_key, m.message_number, m.previous_chain_length);
    let sealed = crate::primitives::aes256gcm_seal(key, nonce, aad, plaintext);
    let n = m.ciphertext.len();
    assert(m.ciphertext == nonce + sealed);
    assert(f.ciphertext.len() == n);
    assert(f.ciphertext.subrange(0, 12) =~= nonce);
    let rest = f.ciphertext.subrange(12, n as int);
    assert(sealed.subrange(0, rest.len() - 16) =~= rest.subrange(0, rest.len() - 16));
    assert(same_body(key, nonce, aad, rest, plaintext));
    assert(carries_body(key, f, nonce, plaintext));
    assert(f.ciphertext.subrange(n - 16, n as int) =~= tag);
    assert(f.ciphertext != m.ciphertext);
}

/// Dropping skipped keys keeps a session: every key still kept is one that was kept.
pub proof fn law_session_cleanup(a: RatchetModel, b: RatchetModel, base_a: Seq<u8>, base_b: Seq<u8>, max_keys: usize)
    requires
        session(a, b, base_a, base_b),
    ensures
        session(spec_cleanup(a, max_keys).0, b, base_a, base_b),
{
    let a2 = spec_cleanup(a, max_keys).0;
    if a.skipped.len() > max_keys {
        let k = a.skipped.len() - max_keys;
        assert forall|x: Seq<u8>| #[trigger] entries_get(a2.skipped, x) is Some implies entries_get(a.skipped, x)
            == entries_get(a2.skipped, x) by {
            lemma_skip_get(a.skipped, k, x);
        }
        lemma_skip_get(a.skipped, k, Seq::empty());
        if b.sending_dh_keypair is Some {
            let db = sending_public(b);
            if on_chain(a, b, base_b) {
                assert forall|j: u32| (#[trigger] entries_get(a2.skipped, message_id(db, j))) is Some implies j
                    < a2.receiving_message_number && entries_get(a2.skipped, message_id(db, j))->Some_0
                    == message_key_at(base_b, j as nat) by {
                    lemma_skip_get(a.skipped, k, message_id(db, j));
                }
                assert(on_chain(a2, b, base_b));
            } else {
                assert forall|j: u32| #[trigger] entries_get(a2.skipped, message_id(db, j)) is None by {
                    lemma_skip_get(a.skipped, k, message_id(db, j));
                }
                assert(awaits_chain(a2, b, base_b));
            }
        }
    }
}

} // verus!
