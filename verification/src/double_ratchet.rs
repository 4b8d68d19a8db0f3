//! The Double Ratchet: per-message keys from symmetric chains, renewed by a
//! Diffie-Hellman ratchet step whenever the peer's ratchet key changes, with message
//! keys for skipped messages kept for out-of-order delivery.
use vstd::prelude::*;
use crate::crypto::{hkdf_derive, simple_ecdh, spec_x25519_ecdh};
use crate::encoding::{
    append_bytes, be_bytes, bytes_equal, bytes_to_vec, copy_range, decimal_chars, hex_encode,
    hex_encode_bytes, key_id, push_decimal_str, push_key_id, u32_to_be_bytes,
};
use crate::error::{result_view, ErrorKind, ErrorModel, SignalError};
use crate::keys::{generate_x25519_keypair_internal, is_x25519_keypair};
use crate::labels::{
    chain_key_info, chain_key_salt, dh_ratchet_salt, initial_chain_salt, message_key_info,
    message_key_salt, none_label, spec_chain_key_info, spec_chain_key_salt,
    spec_dh_ratchet_salt, spec_initial_chain_salt, spec_message_key_info,
    spec_message_key_salt, spec_none_label,
};
use crate::primitives::{
    aes256gcm_decrypt, aes256gcm_encrypt, aes256gcm_open, aes256gcm_seal, aes_gcm_max_len,
    hkdf_sha256, os_random_bytes,
};
use crate::skipped_keys::{entries_get, entries_insert, entries_remove, store_wf, Entry, SkippedKeys};
use crate::types::{KeyPair, KeyPairModel};

verus! {

/// The most message keys one message may make the receiver skip.
pub const MAX_SKIPPED_MESSAGE_KEYS: u32 = 1000;

/// The state of one party of a Double Ratchet session.
#[derive(Clone, Debug)]
pub struct DoubleRatchetState {
    pub root_key: Vec<u8>,
    pub sending_chain_key: Option<Vec<u8>>,
    pub receiving_chain_key: Option<Vec<u8>>,
    pub sending_dh_keypair: Option<KeyPair>,
    pub receiving_dh_public_key: Option<Vec<u8>>,
    pub sending_message_number: u32,
    pub receiving_message_number: u32,
    pub previous_chain_length: u32,
    pub skipped_message_keys: SkippedKeys,
}

/// What a contract says of a session state.
pub struct RatchetModel {
    pub root_key: Seq<u8>,
    pub sending_chain_key: Option<Seq<u8>>,
    pub receiving_chain_key: Option<Seq<u8>>,
    pub sending_dh_keypair: Option<KeyPairModel>,
    pub receiving_dh_public_key: Option<Seq<u8>>,
    pub sending_message_number: u32,
    pub receiving_message_number: u32,
    pub previous_chain_length: u32,
    pub skipped: Seq<Entry>,
}

/// The bytes of an optional byte vector.
pub open spec fn opt_bytes(o: Option<Vec<u8>>) -> Option<Seq<u8>> {
    match o {
        Some(v) => Some(v@),
        None => None,
    }
}

/// The model of an optional key pair.
pub open spec fn opt_keypair(o: Option<KeyPair>) -> Option<KeyPairModel> {
    match o {
        Some(k) => Some(k@),
        None => None,
    }
}

impl View for DoubleRatchetState {
    type V = RatchetModel;

    open spec fn view(&self) -> RatchetModel {
        RatchetModel {
            root_key: self.root_key@,
            sending_chain_key: opt_bytes(self.sending_chain_key),
            receiving_chain_key: opt_bytes(self.receiving_chain_key),
            sending_dh_keypair: opt_keypair(self.sending_dh_keypair),
            receiving_dh_public_key: opt_bytes(self.receiving_dh_public_key),
            sending_message_number: self.sending_message_number,
            receiving_message_number: self.receiving_message_number,
            previous_chain_length: self.previous_chain_length,
            skipped: self.skipped_message_keys@,
        }
    }
}

/// A message of a Double Ratchet session: the nonce and ciphertext, the sender's
/// current ratchet public key, the message's number in its chain and the length of the
/// sender's previous chain.
#[derive(Clone, Debug)]
pub struct DoubleRatchetMessage {
    pub ciphertext: Vec<u8>,
    pub dh_public_key: Vec<u8>,
    pub message_number: u32,
    pub previous_chain_length: u32,
}

/// What a contract says of a message.
pub struct MessageModel {
    pub ciphertext: Seq<u8>,
    pub dh_public_key: Seq<u8>,
    pub message_number: u32,
    pub previous_chain_length: u32,
}

impl View for DoubleRatchetMessage {
    type V = MessageModel;

    open spec fn view(&self) -> MessageModel {
        MessageModel {
            ciphertext: self.ciphertext@,
            dh_public_key: self.dh_public_key@,
            message_number: self.message_number,
            previous_chain_length: self.previous_chain_length,
        }
    }
}

/// A copy of an optional byte vector.
fn duplicate_bytes(o: &Option<Vec<u8>>) -> (c: Option<Vec<u8>>)
    ensures
        opt_bytes(c) == opt_bytes(*o),
{
    match o {
        Some(v) => Some(bytes_to_vec(v.as_slice())),
        None => None,
    }
}

impl DoubleRatchetState {
    /// A copy of this state.
    pub fn duplicate(&self) -> (c: DoubleRatchetState)
        ensures
            c@ == self@,
    {
        DoubleRatchetState {
            root_key: bytes_to_vec(self.root_key.as_slice()),
            sending_chain_key: duplicate_bytes(&self.sending_chain_key),
            receiving_chain_key: duplicate_bytes(&self.receiving_chain_key),
            sending_dh_keypair: match &self.sending_dh_keypair {
                Some(k) => Some(k.duplicate()),
                None => None,
            },
            receiving_dh_public_key: duplicate_bytes(&self.receiving_dh_public_key),
            sending_message_number: self.sending_message_number,
            receiving_message_number: self.receiving_message_number,
            previous_chain_length: self.previous_chain_length,
            skipped_message_keys: self.skipped_message_keys.copy(),
        }
    }
}

impl DoubleRatchetMessage {
    /// A copy of this message.
    pub fn duplicate(&self) -> (c: DoubleRatchetMessage)
        ensures
            c@ == self@,
    {
        DoubleRatchetMessage {
            ciphertext: bytes_to_vec(self.ciphertext.as_slice()),
            dh_public_key: bytes_to_vec(self.dh_public_key.as_slice()),
            message_number: self.message_number,
            previous_chain_length: self.previous_chain_length,
        }
    }

    /// The nonce followed by the ciphertext.
    pub fn ciphertext(&self) -> (s: &[u8])
        ensures
            s@ == self.ciphertext@,
    {
        self.ciphertext.as_slice()
    }

    /// The sender's ratchet public key.
    pub fn dh_public_key(&self) -> (s: &[u8])
        ensures
            s@ == self.dh_public_key@,
    {
        self.dh_public_key.as_slice()
    }

    /// The message's number in its sending chain.
    pub fn message_number(&self) -> (n: u32)
        ensures
            n == self.message_number,
    {
        self.message_number
    }

    /// The length of the sender's previous sending chain.
    pub fn previous_chain_length(&self) -> (n: u32)
        ensures
            n == self.previous_chain_length,
    {
        self.previous_chain_length
    }
}

// ---------------------------------------------------------------------------------
// Key derivations
// ---------------------------------------------------------------------------------

/// The message key of a chain key.
pub open spec fn spec_derive_message_key(chain_key: Seq<u8>) -> Seq<u8> {
    hkdf_sha256(spec_message_key_salt(), chain_key, spec_message_key_info(), 32)
}

/// The chain key that follows a chain key.
pub open spec fn spec_derive_next_chain_key(chain_key: Seq<u8>) -> Seq<u8> {
    hkdf_sha256(spec_chain_key_salt(), chain_key, spec_chain_key_info(), 32)
}

/// The first chain key of a session, derived from its root key.
pub open spec fn spec_initial_chain_key(root_key: Seq<u8>) -> Seq<u8> {
    hkdf_sha256(spec_initial_chain_salt(), root_key, spec_chain_key_info(), 32)
}

/// The 64 bytes a ratchet step derives from a root key and a Diffie-Hellman output:
/// the next root key, then a chain key.
pub open spec fn spec_ratchet_kdf(root_key: Seq<u8>, dh_output: Seq<u8>) -> Seq<u8> {
    hkdf_sha256(spec_dh_ratchet_salt(), root_key, dh_output, 64)
}

/// The chain key `n` steps after `chain_key`.
pub open spec fn chain_after(chain_key: Seq<u8>, n: nat) -> Seq<u8>
    decreases n,
{
    if n == 0 {
        chain_key
    } else {
        spec_derive_next_chain_key(chain_after(chain_key, (n - 1) as nat))
    }
}

/// HKDF-SHA-256 to an output length that cannot be refused.
fn hkdf_derive_short(salt: &[u8], input_key_material: &[u8], info: &[u8], output_len: usize) -> (v: Vec<u8>)
    requires
        output_len <= 8160,
    ensures
        v@ == hkdf_sha256(salt@, input_key_material@, info@, output_len as nat),
        v@.len() == output_len,
{
    match hkdf_derive(salt, input_key_material, info, output_len) {
        Ok(v) => v,
        Err(_) => {
            proof {
                assert(false);
            }
            Vec::new()
        },
    }
}

/// The message key of a chain key (32 bytes).
pub fn derive_message_key(chain_key: &[u8]) -> (r: Result<Vec<u8>, SignalError>)
    ensures
        r matches Ok(k) && k@ == spec_derive_message_key(chain_key@) && k@.len() == 32,
{
    let salt = message_key_salt();
    let info = message_key_info();
    Ok(hkdf_derive_short(salt.as_slice(), chain_key, info.as_slice(), 32))
}

/// The chain key that follows a chain key (32 bytes).
pub fn derive_next_chain_key(chain_key: &[u8]) -> (r: Result<Vec<u8>, SignalError>)
    ensures
        r matches Ok(k) && k@ == spec_derive_next_chain_key(chain_key@) && k@.len() == 32,
{
    let salt = chain_key_salt();
    let info = chain_key_info();
    Ok(hkdf_derive_short(salt.as_slice(), chain_key, info.as_slice(), 32))
}

/// The message key of a chain key.
fn message_key_of(chain_key: &[u8]) -> (k: Vec<u8>)
    ensures
        k@ == spec_derive_message_key(chain_key@),
        k@.len() == 32,
{
    match derive_message_key(chain_key) {
        Ok(k) => k,
        Err(_) => {
            proof {
                assert(false);
            }
            Vec::new()
        },
    }
}

/// The chain key that follows a chain key.
fn next_chain_key_of(chain_key: &[u8]) -> (k: Vec<u8>)
    ensures
        k@ == spec_derive_next_chain_key(chain_key@),
        k@.len() == 32,
{
    match derive_next_chain_key(chain_key) {
        Ok(k) => k,
        Err(_) => {
            proof {
                assert(false);
            }
            Vec::new()
        },
    }
}

// ---------------------------------------------------------------------------------
// Session state
// ---------------------------------------------------------------------------------

/// The state before any key is set: a zero root key, no chains, no ratchet keys, all
/// counters at zero and no skipped keys.
pub open spec fn spec_new_state() -> RatchetModel {
    RatchetModel {
        root_key: Seq::new(32, |i: int| 0u8),
        sending_chain_key: None,
        receiving_chain_key: None,
        sending_dh_keypair: None,
        receiving_dh_public_key: None,
        sending_message_number: 0,
        receiving_message_number: 0,
        previous_chain_length: 0,
        skipped: Seq::empty(),
    }
}

/// A vector of `n` zero bytes.
fn zeros(n: usize) -> (v: Vec<u8>)
    ensures
        v@ == Seq::new(n as nat, |i: int| 0u8),
{
    let mut v: Vec<u8> = Vec::new();
    let mut i: usize = 0;
    while i < n
        invariant
            i <= n,
            v@ == Seq::new(i as nat, |j: int| 0u8),
        decreases n - i,
    {
        v.push(0u8);
        i = i + 1;
        assert(v@ =~= Seq::new(i as nat, |j: int| 0u8));
    }
    v
}

impl DoubleRatchetState {
    /// The state before any key is set.
    pub fn new() -> (s: DoubleRatchetState)
        ensures
            s@ == spec_new_state(),
    {
        DoubleRatchetState {
            root_key: zeros(32),
            sending_chain_key: None,
            receiving_chain_key: None,
            sending_dh_keypair: None,
            receiving_dh_public_key: None,
            sending_message_number: 0,
            receiving_message_number: 0,
            previous_chain_length: 0,
            skipped_message_keys: SkippedKeys::new(),
        }
    }

    /// The current root key.
    pub fn root_key(&self) -> (k: &[u8])
        ensures
            k@ == self.root_key@,
    {
        self.root_key.as_slice()
    }

    /// The number of the next message to send.
    pub fn sending_message_number(&self) -> (n: u32)
        ensures
            n == self.sending_message_number,
    {
        self.sending_message_number
    }

    /// The number of the next message expected on the receiving chain.
    pub fn receiving_message_number(&self) -> (n: u32)
        ensures
            n == self.receiving_message_number,
    {
        self.receiving_message_number
    }

    /// The number of message keys kept for skipped messages.
    pub fn skipped_keys_count(&self) -> (n: usize)
        ensures
            n == self.skipped_message_keys@.len(),
    {
        self.skipped_message_keys.len()
    }
}

/// A session state started from a shared secret: refused unless the secret has 32
/// bytes; the root key is the secret; the initiator also holds the given ratchet key
/// pair and a sending chain whose first key is derived from the root key.
pub open spec fn spec_initialize(shared_secret: Seq<u8>, is_initiator: bool, keypair: KeyPairModel) -> Result<RatchetModel, ErrorModel> {
    if shared_secret.len() != 32 {
        Err((ErrorKind::InvalidInput, "Shared secret must be 32 bytes"@))
    } else if is_initiator {
        Ok(RatchetModel {
            root_key: shared_secret,
            sending_chain_key: Some(spec_initial_chain_key(shared_secret)),
            sending_dh_keypair: Some(keypair),
            ..spec_new_state()
        })
    } else {
        Ok(RatchetModel { root_key: shared_secret, ..spec_new_state() })
    }
}

/// Starts a session state from a shared secret, with the given key pair as the
/// initiator's first ratchet key pair (a responder does not use it).
pub fn initialize_double_ratchet_with_keypair(shared_secret: &[u8], is_initiator: bool, keypair: KeyPair) -> (r: Result<DoubleRatchetState, SignalError>)
    ensures
        result_view(r) == spec_initialize(shared_secret@, is_initiator, keypair@),
{
    if shared_secret.len() != 32 {
        return Err(SignalError::InvalidInput(String::from_str("Shared secret must be 32 bytes")));
    }
    let mut state = DoubleRatchetState::new();
    state.root_key = bytes_to_vec(shared_secret);
    if is_initiator {
        state.sending_dh_keypair = Some(keypair);
        let salt = initial_chain_salt();
        let info = chain_key_info();
        let initial_chain_key = hkdf_derive_short(salt.as_slice(), state.root_key.as_slice(), info.as_slice(), 32);
        state.sending_chain_key = Some(initial_chain_key);
        state.sending_message_number = 0;
    } else {
        state.receiving_message_number = 0;
    }
    state.previous_chain_length = 0;
    Ok(state)
}

/// Starts a session state from a 32-byte shared secret; the initiator draws a fresh
/// ratchet key pair.
pub fn initialize_double_ratchet_internal(shared_secret: &[u8], is_initiator: bool) -> (r: Result<DoubleRatchetState, SignalError>)
    ensures
        exists|kp: KeyPairModel|
            (is_initiator ==> is_x25519_keypair(kp)) && #[trigger] spec_initialize(shared_secret@, is_initiator, kp)
                == result_view(r),
{
    let keypair = if is_initiator {
        generate_x25519_keypair_internal()
    } else {
        KeyPair { public_key: Vec::new(), private_key: Vec::new() }
    };
    let ghost kp = keypair@;
    let r = initialize_double_ratchet_with_keypair(shared_secret, is_initiator, keypair);
    assert(spec_initialize(shared_secret@, is_initiator, kp) == result_view(r));
    r
}

// ---------------------------------------------------------------------------------
// Diffie-Hellman ratchet step
// ---------------------------------------------------------------------------------

/// The root key and receiving chain key that a ratchet step derives for a new remote
/// ratchet key: from the Diffie-Hellman output of the current sending key pair when
/// there is one, else the first chain key of the root key (which stays).
pub open spec fn spec_receiving_keys(s: RatchetModel, remote: Seq<u8>) -> Result<(Seq<u8>, Seq<u8>), ErrorModel> {
    match s.sending_dh_keypair {
        Some(current) => match spec_x25519_ecdh(current.private_key, remote) {
            Err(e) => Err(e),
            Ok(dh) => Ok((spec_ratchet_kdf(s.root_key, dh).subrange(0, 32), spec_ratchet_kdf(s.root_key, dh).subrange(32, 64))),
        },
        None => Ok((s.root_key, spec_initial_chain_key(s.root_key))),
    }
}

/// A Diffie-Hellman ratchet step to a new remote ratchet key, with `keypair` as the
/// new sending ratchet key pair. First the receiving side moves to the remote key
/// (new root key, receiving chain, remote key, receiving counter at zero); then the
/// sending side derives a new root key and sending chain from the new key pair, keeps
/// the old sending count as the previous chain length and restarts its counter. A
/// malformed key stops the step with its error, with the state as far as it got.
pub open spec fn spec_dh_ratchet_step(s: RatchetModel, remote: Seq<u8>, keypair: KeyPairModel) -> (RatchetModel, Result<(), ErrorModel>) {
    match spec_receiving_keys(s, remote) {
        Err(e) => (s, Err(e)),
        Ok(keys) => {
            let s1 = RatchetModel {
                root_key: keys.0,
                receiving_chain_key: Some(keys.1),
                receiving_dh_public_key: Some(remote),
                receiving_message_number: 0,
                ..s
            };
            match spec_x25519_ecdh(keypair.private_key, remote) {
                Err(e) => (s1, Err(e)),
                Ok(dh) => (
                    RatchetModel {
                        root_key: spec_ratchet_kdf(keys.0, dh).subrange(0, 32),
                        sending_chain_key: Some(spec_ratchet_kdf(keys.0, dh).subrange(32, 64)),
                        sending_dh_keypair: Some(keypair),
                        previous_chain_length: s.sending_message_number,
                        sending_message_number: 0,
                        ..s1
                    },
                    Ok(()),
                ),
            }
        },
    }
}

/// Performs a Diffie-Hellman ratchet step to a new remote ratchet key, with the given
/// key pair as the new sending ratchet key pair.
pub fn perform_dh_ratchet_step_with_keypair(state: &mut DoubleRatchetState, new_remote_public_key: &[u8], new_dh_keypair: KeyPair) -> (r: Result<(), SignalError>)
    ensures
        (final(state)@, result_view(r)) == spec_dh_ratchet_step(old(state)@, new_remote_public_key@, new_dh_keypair@),
{
    let original_root_key = bytes_to_vec(state.root_key.as_slice());
    let had_sending_keypair = state.sending_dh_keypair.is_some();
    let (new_root_key, receiving_chain_key) = match &state.sending_dh_keypair {
        Some(current_dh_keypair) => {
            let dh_output = match simple_ecdh(current_dh_keypair.private_key.as_slice(), new_remote_public_key) {
                Ok(d) => d,
                Err(e) => return Err(e),
            };
            let salt = dh_ratchet_salt();
            let combined = hkdf_derive_short(salt.as_slice(), original_root_key.as_slice(), dh_output.as_slice(), 64);
            (copy_range(combined.as_slice(), 0, 32), copy_range(combined.as_slice(), 32, 64))
        },
        None => {
            let salt = initial_chain_salt();
            let info = chain_key_info();
            let recv_chain_key = hkdf_derive_short(salt.as_slice(), state.root_key.as_slice(), info.as_slice(), 32);
            (bytes_to_vec(state.root_key.as_slice()), recv_chain_key)
        },
    };
    state.root_key = new_root_key;
    state.receiving_chain_key = Some(receiving_chain_key);
    state.receiving_dh_public_key = Some(bytes_to_vec(new_remote_public_key));
    state.receiving_message_number = 0;
    let root_key_for_sending = if had_sending_keypair {
        bytes_to_vec(state.root_key.as_slice())
    } else {
        original_root_key
    };
    let sending_dh_output = match simple_ecdh(new_dh_keypair.private_key.as_slice(), new_remote_public_key) {
        Ok(d) => d,
        Err(e) => return Err(e),
    };
    let salt = dh_ratchet_salt();
    let combined = hkdf_derive_short(salt.as_slice(), root_key_for_sending.as_slice(), sending_dh_output.as_slice(), 64);
    state.root_key = copy_range(combined.as_slice(), 0, 32);
    state.sending_chain_key = Some(copy_range(combined.as_slice(), 32, 64));
    state.sending_dh_keypair = Some(new_dh_keypair);
    state.previous_chain_length = state.sending_message_number;
    state.sending_message_number = 0;
    Ok(())
}

/// Performs a Diffie-Hellman ratchet step to a new remote ratchet key, with a fresh
/// sending ratchet key pair.
pub fn perform_dh_ratchet_step(state: &mut DoubleRatchetState, new_remote_public_key: &[u8]) -> (r: Result<(), SignalError>)
    ensures
        exists|kp: KeyPairModel|
            is_x25519_keypair(kp) && #[trigger] spec_dh_ratchet_step(old(state)@, new_remote_public_key@, kp)
                == (final(state)@, result_view(r)),
{
    let keypair = generate_x25519_keypair_internal();
    let ghost kp = keypair@;
    let r = perform_dh_ratchet_step_with_keypair(state, new_remote_public_key, keypair);
    assert(spec_dh_ratchet_step(old(state)@, new_remote_public_key@, kp) == (state@, result_view(r)));
    r
}

// ---------------------------------------------------------------------------------
// Skipped message keys
// ---------------------------------------------------------------------------------

/// The identifier prefix of the current receiving chain: the hexadecimal encoding of
/// the remote ratchet key, or `none` when there is none.
pub open spec fn receiving_prefix(s: RatchetModel) -> Seq<u8> {
    match s.receiving_dh_public_key {
        Some(k) => hex_encode(k),
        None => spec_none_label(),
    }
}

/// The store after keeping the message keys of `count` messages from number `start`
/// on, the first derived from `chain_key`, under the identifiers with `prefix`.
pub open spec fn skipped_after(e: Seq<Entry>, prefix: Seq<u8>, start: nat, chain_key: Seq<u8>, count: nat) -> Seq<Entry>
    decreases count,
{
    if count == 0 {
        e
    } else {
        entries_insert(
            skipped_after(e, prefix, start, chain_key, (count - 1) as nat),
            key_id(prefix, (start + count - 1) as u32),
            spec_derive_message_key(chain_after(chain_key, (count - 1) as nat)),
        )
    }
}

/// Skipping the receiving chain forward to message number `until`: nothing to do when
/// the chain is already there or there is no receiving chain; refused when more than
/// the allowed number of keys would be skipped; otherwise the message keys of the
/// skipped messages are kept and the chain and its counter move to `until`.
pub open spec fn spec_skip_message_keys(s: RatchetModel, until: u32) -> (RatchetModel, Result<(), ErrorModel>) {
    if s.receiving_message_number >= until {
        (s, Ok(()))
    } else {
        match s.receiving_chain_key {
            None => (s, Ok(())),
            Some(chain_key) => {
                let count = (until - s.receiving_message_number) as nat;
                if count > MAX_SKIPPED_MESSAGE_KEYS {
                    (s, Err((ErrorKind::InvalidInput, "Too many skipped message keys: "@ + decimal_chars(count))))
                } else {
                    (
                        RatchetModel {
                            skipped: skipped_after(s.skipped, receiving_prefix(s), s.receiving_message_number as nat, chain_key, count),
                            receiving_message_number: until,
                            receiving_chain_key: Some(chain_after(chain_key, count)),
                            ..s
                        },
                        Ok(()),
                    )
                }
            },
        }
    }
}

/// Skips the receiving chain forward to message number `until`, keeping the message
/// keys of the skipped messages.
pub fn skip_message_keys(state: &mut DoubleRatchetState, until_message_number: u32) -> (r: Result<(), SignalError>)
    ensures
        (final(state)@, result_view(r)) == spec_skip_message_keys(old(state)@, until_message_number),
{
    if state.receiving_message_number >= until_message_number {
        return Ok(());
    }
    let receiving_chain_key = match &state.receiving_chain_key {
        Some(key) => bytes_to_vec(key.as_slice()),
        None => return Ok(()),
    };
    let skip_count = until_message_number - state.receiving_message_number;
    if skip_count > MAX_SKIPPED_MESSAGE_KEYS {
        let mut message = String::from_str("Too many skipped message keys: ");
        push_decimal_str(&mut message, skip_count as u64);
        return Err(SignalError::InvalidInput(message));
    }
    let prefix = match &state.receiving_dh_public_key {
        Some(dh_key) => hex_encode_bytes(dh_key.as_slice()),
        None => none_label(),
    };
    let ghost s0 = state@;
    let ghost ck0 = receiving_chain_key@;
    let start = state.receiving_message_number;
    let mut current_chain_key = receiving_chain_key;
    let mut i: u32 = 0;
    while i < skip_count
        invariant
            i <= skip_count,
            skip_count == until_message_number - start,
            start == s0.receiving_message_number,
            prefix@ == receiving_prefix(s0),
            current_chain_key@ == chain_after(ck0, i as nat),
            state@ == (RatchetModel { skipped: skipped_after(s0.skipped, prefix@, start as nat, ck0, i as nat), ..s0 }),
        decreases skip_count - i,
    {
        let message_key = message_key_of(current_chain_key.as_slice());
        let message_number = start + i;
        let mut id = bytes_to_vec(prefix.as_slice());
        push_key_id(&mut id, message_number);
        assert(id@ == key_id(prefix@, message_number));
        state.skipped_message_keys.insert(id, message_key);
        current_chain_key = next_chain_key_of(current_chain_key.as_slice());
        i = i + 1;
    }
    state.receiving_message_number = until_message_number;
    state.receiving_chain_key = Some(current_chain_key);
    Ok(())
}

// ---------------------------------------------------------------------------------
// Message encryption
// ---------------------------------------------------------------------------------

/// The associated data authenticated with a message: the sender's ratchet public key,
/// the message number and the previous chain length, the numbers in big-endian order.
pub open spec fn message_aad(dh_public_key: Seq<u8>, message_number: u32, previous_chain_length: u32) -> Seq<u8> {
    dh_public_key + be_bytes(message_number) + be_bytes(previous_chain_length)
}

/// The ciphertext field of a message sealed under `key` with `nonce`: the nonce, the
/// AES-256-GCM ciphertext body and its tag.
pub open spec fn sealed_frame(key: Seq<u8>, nonce: Seq<u8>, aad: Seq<u8>, plaintext: Seq<u8>) -> Seq<u8> {
    nonce + aes256gcm_seal(key, nonce, aad, plaintext)
}

/// Encrypting a plaintext with the 12-byte nonce `nonce`: refused without a sending
/// chain key or a sending ratchet key pair; otherwise the message is sealed under the
/// message key of the sending chain key, the sending chain moves one step and its
/// counter grows by one. The root key does not change.
pub open spec fn spec_encrypt(s: RatchetModel, plaintext: Seq<u8>, nonce: Seq<u8>) -> (RatchetModel, Result<MessageModel, ErrorModel>) {
    match s.sending_chain_key {
        None => (s, Err((ErrorKind::InvalidInput, "No sending chain key available"@))),
        Some(chain_key) => match s.sending_dh_keypair {
            None => (s, Err((ErrorKind::InvalidInput, "No sending DH keypair available"@))),
            Some(kp) => {
                let aad = message_aad(kp.public_key, s.sending_message_number, s.previous_chain_length);
                (
                    RatchetModel {
                        sending_chain_key: Some(spec_derive_next_chain_key(chain_key)),
                        sending_message_number: (s.sending_message_number + 1) as u32,
                        ..s
                    },
                    Ok(MessageModel {
                        ciphertext: sealed_frame(spec_derive_message_key(chain_key), nonce, aad, plaintext),
                        dh_public_key: kp.public_key,
                        message_number: s.sending_message_number,
                        previous_chain_length: s.previous_chain_length,
                    }),
                )
            },
        },
    }
}

/// Whether an encryption from state `s` stays within what the counters and AES-GCM
/// accept: the message counter must have room to grow and the plaintext and
/// associated data must not exceed the AES-GCM limits.
pub open spec fn encrypt_within_limits(s: RatchetModel, plaintext: Seq<u8>) -> bool {
    s.sending_chain_key is Some && s.sending_dh_keypair is Some ==> {
        &&& s.sending_message_number < u32::MAX
        &&& plaintext.len() <= aes_gcm_max_len()
        &&& s.sending_dh_keypair->Some_0.public_key.len() + 8 <= aes_gcm_max_len()
    }
}

/// Seals a plaintext with AES-256-GCM under a 32-byte key and a 12-byte nonce, giving
/// the ciphertext body followed by the tag, which opens to the plaintext again.
fn aead_seal(key: &[u8], plaintext: &[u8], aad: &[u8], nonce: &[u8]) -> (c: Vec<u8>)
    requires
        key@.len() == 32,
        nonce@.len() == 12,
        aad@.len() <= aes_gcm_max_len(),
        plaintext@.len() <= aes_gcm_max_len(),
    ensures
        nonce@ + c@ == sealed_frame(key@, nonce@, aad@, plaintext@),
        c@.len() == plaintext@.len() + 16,
        spec_aead_decrypt(key@, c@, nonce@, aad@) == Ok::<Seq<u8>, ErrorModel>(plaintext@),
{
    let (mut body, tag) = aes256gcm_encrypt(key, nonce, aad, plaintext);
    let ghost b0 = body@;
    append_bytes(&mut body, tag.as_slice());
    assert(nonce@ + body@ == sealed_frame(key@, nonce@, aad@, plaintext@));
    assert(body@.subrange(0, body@.len() - 16) =~= b0);
    assert(body@.subrange(body@.len() - 16, body@.len() as int) =~= tag@);
    body
}

/// Seals a plaintext with AES-256-GCM under a 32-byte key and a fresh random 12-byte
/// nonce, giving the ciphertext (body followed by the tag) and the nonce; the ciphertext
/// opens with [`aead_decrypt`] under the same key, nonce and associated data to the
/// plaintext.
pub fn aead_encrypt(key: &[u8], plaintext: &[u8], aad: &[u8]) -> (r: Result<(Vec<u8>, Vec<u8>), SignalError>)
    requires
        key@.len() == 32,
        aad@.len() <= aes_gcm_max_len(),
        plaintext@.len() <= aes_gcm_max_len(),
    ensures
        r matches Ok((c, nonce)) && {
            &&& nonce@.len() == 12
            &&& nonce@ + c@ == sealed_frame(key@, nonce@, aad@, plaintext@)
            &&& c@.len() == plaintext@.len() + 16
            &&& spec_aead_decrypt(key@, c@, nonce@, aad@) == Ok::<Seq<u8>, ErrorModel>(plaintext@)
        },
{
    let nonce = os_random_bytes(12);
    let c = aead_seal(key, plaintext, aad, nonce.as_slice());
    Ok((c, nonce))
}

/// The associated data of a message.
fn build_aad(dh_public_key: &[u8], message_number: u32, previous_chain_length: u32) -> (aad: Vec<u8>)
    ensures
        aad@ == message_aad(dh_public_key@, message_number, previous_chain_length),
{
    let mut aad: Vec<u8> = Vec::new();
    append_bytes(&mut aad, dh_public_key);
    let n = u32_to_be_bytes(message_number);
    append_bytes(&mut aad, n.as_slice());
    let p = u32_to_be_bytes(previous_chain_length);
    append_bytes(&mut aad, p.as_slice());
    assert(aad@ =~= message_aad(dh_public_key@, message_number, previous_chain_length));
    aad
}

/// Encrypts a plaintext with the given 12-byte nonce.
pub fn double_ratchet_encrypt_with_nonce(state: &mut DoubleRatchetState, plaintext: &[u8], nonce: &[u8]) -> (r: Result<DoubleRatchetMessage, SignalError>)
    requires
        nonce@.len() == 12,
        encrypt_within_limits(old(state)@, plaintext@),
    ensures
        (final(state)@, result_view(r)) == spec_encrypt(old(state)@, plaintext@, nonce@),
        r matches Ok(m) ==> m.ciphertext@.len() == 28 + plaintext@.len(),
{
    let sending_chain_key = match &state.sending_chain_key {
        Some(k) => bytes_to_vec(k.as_slice()),
        None => return Err(SignalError::InvalidInput(String::from_str("No sending chain key available"))),
    };
    let dh_public_key = match &state.sending_dh_keypair {
        Some(kp) => bytes_to_vec(kp.public_key.as_slice()),
        None => return Err(SignalError::InvalidInput(String::from_str("No sending DH keypair available"))),
    };
    let message_key = message_key_of(sending_chain_key.as_slice());
    let aad = build_aad(dh_public_key.as_slice(), state.sending_message_number, state.previous_chain_length);
    let sealed = aead_seal(message_key.as_slice(), plaintext, aad.as_slice(), nonce);
    let mut result_ciphertext = bytes_to_vec(nonce);
    append_bytes(&mut result_ciphertext, sealed.as_slice());
    let message = DoubleRatchetMessage {
        ciphertext: result_ciphertext,
        dh_public_key,
        message_number: state.sending_message_number,
        previous_chain_length: state.previous_chain_length,
    };
    let next_chain_key = next_chain_key_of(sending_chain_key.as_slice());
    state.sending_chain_key = Some(next_chain_key);
    state.sending_message_number = state.sending_message_number + 1;
    Ok(message)
}

/// Encrypts a plaintext with a fresh random nonce.
pub fn double_ratchet_encrypt_internal(state: &mut DoubleRatchetState, plaintext: &[u8]) -> (r: Result<DoubleRatchetMessage, SignalError>)
    requires
        encrypt_within_limits(old(state)@, plaintext@),
    ensures
        exists|nonce: Seq<u8>|
            nonce.len() == 12 && #[trigger] spec_encrypt(old(state)@, plaintext@, nonce) == (final(state)@, result_view(r)),
        r matches Ok(m) ==> m.ciphertext@.len() == 28 + plaintext@.len(),
{
    let nonce = os_random_bytes(12);
    let r = double_ratchet_encrypt_with_nonce(state, plaintext, nonce.as_slice());
    assert(spec_encrypt(old(state)@, plaintext@, nonce@) == (state@, result_view(r)));
    r
}

// ---------------------------------------------------------------------------------
// Message decryption
// ---------------------------------------------------------------------------------

/// Opening a nonce-less ciphertext (body and 16-byte tag) with AES-256-GCM: refused
/// when shorter than a tag or when the tag does not authenticate it.
pub open spec fn spec_aead_decrypt(key: Seq<u8>, ciphertext: Seq<u8>, nonce: Seq<u8>, aad: Seq<u8>) -> Result<Seq<u8>, ErrorModel> {
    if ciphertext.len() < 16 {
        Err((ErrorKind::Decryption, "Ciphertext too short for tag"@))
    } else {
        match aes256gcm_open(
            key,
            nonce,
            aad,
            ciphertext.subrange(0, ciphertext.len() - 16),
            ciphertext.subrange(ciphertext.len() - 16, ciphertext.len() as int),
        ) {
            None => Err((ErrorKind::Decryption, "AES-GCM decryption failed: "@ + "aead::Error"@)),
            Some(p) => Ok(p),
        }
    }
}

/// Opening a message with a message key: refused when it has no room for the 12-byte
/// nonce; otherwise the rest is opened with that nonce and the message's associated data.
pub open spec fn spec_open_message(key: Seq<u8>, m: MessageModel) -> Result<Seq<u8>, ErrorModel> {
    if m.ciphertext.len() < 12 {
        Err((ErrorKind::Decryption, "Ciphertext too short for nonce"@))
    } else {
        spec_aead_decrypt(
            key,
            m.ciphertext.subrange(12, m.ciphertext.len() as int),
            m.ciphertext.subrange(0, 12),
            message_aad(m.dh_public_key, m.message_number, m.previous_chain_length),
        )
    }
}

/// Whether a message was sealed with `key`, `nonce` and its own associated data from
/// `plaintext`, within the AES-GCM limits.
pub open spec fn sealed_with(key: Seq<u8>, m: MessageModel, nonce: Seq<u8>, plaintext: Seq<u8>) -> bool {
    let aad = message_aad(m.dh_public_key, m.message_number, m.previous_chain_length);
    &&& nonce.len() == 12
    &&& plaintext.len() <= aes_gcm_max_len()
    &&& aad.len() <= aes_gcm_max_len()
    &&& m.ciphertext.len() >= 28
    &&& m.ciphertext == sealed_frame(key, nonce, aad, plaintext)
}

/// Whether `ciphertext` (a body and a 16-byte tag) is as long as the AES-256-GCM
/// encryption of `plaintext` under `key`, `nonce` and `aad`, within the AES-GCM limits,
/// and has the same body: the two differ at most in the tag.
pub open spec fn same_body(key: Seq<u8>, nonce: Seq<u8>, aad: Seq<u8>, ciphertext: Seq<u8>, plaintext: Seq<u8>) -> bool {
    let sealed = aes256gcm_seal(key, nonce, aad, plaintext);
    &&& aad.len() <= aes_gcm_max_len()
    &&& plaintext.len() <= aes_gcm_max_len()
    &&& ciphertext.len() >= 16
    &&& sealed.len() == ciphertext.len()
    &&& sealed.subrange(0, ciphertext.len() - 16) == ciphertext.subrange(0, ciphertext.len() - 16)
}

/// Opens a nonce-less ciphertext with AES-256-GCM under a 32-byte key. What opens
/// encrypts back to exactly the ciphertext; a ciphertext with the body of the encryption
/// of some plaintext opens exactly when its tag is that encryption's tag.
pub fn aead_decrypt(key: &[u8], ciphertext: &[u8], nonce: &[u8], aad: &[u8]) -> (r: Result<Vec<u8>, SignalError>)
    requires
        key@.len() == 32,
        nonce@.len() == 12,
    ensures
        result_view(r) == spec_aead_decrypt(key@, ciphertext@, nonce@, aad@),
        forall|p: Seq<u8>|
            aad@.len() <= aes_gcm_max_len() && p.len() <= aes_gcm_max_len() && ciphertext@.len() >= 16
                && #[trigger] aes256gcm_seal(key@, nonce@, aad@, p) == ciphertext@ ==> result_view(r) == Ok::<Seq<u8>, ErrorModel>(p),
        result_view(r) matches Ok(p) ==> (aad@.len() <= aes_gcm_max_len() && p.len() <= aes_gcm_max_len()
            ==> aes256gcm_seal(key@, nonce@, aad@, p) == ciphertext@),
        forall|q: Seq<u8>|
            #[trigger] same_body(key@, nonce@, aad@, ciphertext@, q) ==> (result_view(r) is Ok
                <==> aes256gcm_seal(key@, nonce@, aad@, q) == ciphertext@),
{
    if ciphertext.len() < 16 {
        return Err(SignalError::Decryption(String::from_str("Ciphertext too short for tag")));
    }
    let encrypted_data = copy_range(ciphertext, 0, ciphertext.len() - 16);
    let tag = copy_range(ciphertext, ciphertext.len() - 16, ciphertext.len());
    assert(encrypted_data@ + tag@ =~= ciphertext@);
    let opened = aes256gcm_decrypt(key, nonce, aad, encrypted_data.as_slice(), tag.as_slice());
    assert forall|q: Seq<u8>| #[trigger] same_body(key@, nonce@, aad@, ciphertext@, q) implies (opened is Ok
        <==> aes256gcm_seal(key@, nonce@, aad@, q) == ciphertext@) by {
        let sealed = aes256gcm_seal(key@, nonce@, aad@, q);
        assert(sealed.subrange(0, encrypted_data@.len() as int) == encrypted_data@);
        if opened is Ok {
            assert(opened->Ok_0@ == q);
        }
    }
    match opened {
        Ok(p) => Ok(p),
        Err(m) => {
            let mut message = String::from_str("AES-GCM decryption failed: ");
            message.append(m.as_str());
            Err(SignalError::Decryption(message))
        },
    }
}

/// Whether message `m` starts with `nonce` and differs from the frame of `plaintext`
/// sealed under `key` with that nonce and the message's associated data at most in the
/// tag.
pub open spec fn carries_body(key: Seq<u8>, m: MessageModel, nonce: Seq<u8>, plaintext: Seq<u8>) -> bool {
    &&& nonce.len() == 12
    &&& m.ciphertext.len() >= 12
    &&& m.ciphertext.subrange(0, 12) == nonce
    &&& same_body(
        key,
        nonce,
        message_aad(m.dh_public_key, m.message_number, m.previous_chain_length),
        m.ciphertext.subrange(12, m.ciphertext.len() as int),
        plaintext,
    )
}

/// What AES-GCM's authentication gives the opening of message `m` with the message key
/// `prepared` selected for it: a message that differs from a frame sealed under that key
/// at most in the tag opens exactly when it is that frame, and what opens was sealed under
/// that key, with the message's own nonce, to exactly the message's frame.
pub open spec fn authenticated(prepared: Result<Seq<u8>, ErrorModel>, m: MessageModel, outcome: Result<Seq<u8>, ErrorModel>) -> bool {
    prepared matches Ok(key) ==> {
        &&& forall|nonce: Seq<u8>, p: Seq<u8>|
            #[trigger] carries_body(key, m, nonce, p) ==> (outcome is Ok <==> sealed_with(key, m, nonce, p))
        &&& outcome matches Ok(p) ==> (p.len() <= aes_gcm_max_len() && message_aad(
            m.dh_public_key,
            m.message_number,
            m.previous_chain_length,
        ).len() <= aes_gcm_max_len() ==> sealed_with(key, m, m.ciphertext.subrange(0, 12), p))
    }
}

/// Opens a message with a 32-byte message key.
fn open_message(key: &[u8], message: &DoubleRatchetMessage) -> (r: Result<Vec<u8>, SignalError>)
    requires
        key@.len() == 32,
    ensures
        result_view(r) == spec_open_message(key@, message@),
        forall|nonce: Seq<u8>, p: Seq<u8>|
            #[trigger] sealed_with(key@, message@, nonce, p) ==> result_view(r) == Ok::<Seq<u8>, ErrorModel>(p),
        authenticated(Ok::<Seq<u8>, ErrorModel>(key@), message@, result_view(r)),
{
    let ciphertext_bytes = message.ciphertext.as_slice();
    if ciphertext_bytes.len() < 12 {
        return Err(SignalError::Decryption(String::from_str("Ciphertext too short for nonce")));
    }
    let nonce_bytes = copy_range(ciphertext_bytes, 0, 12);
    let encrypted_data = copy_range(ciphertext_bytes, 12, ciphertext_bytes.len());
    let aad = build_aad(message.dh_public_key.as_slice(), message.message_number, message.previous_chain_length);
    let r = aead_decrypt(key, encrypted_data.as_slice(), nonce_bytes.as_slice(), aad.as_slice());
    assert forall|nonce: Seq<u8>, p: Seq<u8>| #[trigger] sealed_with(key@, message@, nonce, p) implies result_view(r)
        == Ok::<Seq<u8>, ErrorModel>(p) by {
        let sealed = aes256gcm_seal(key@, nonce, aad@, p);
        assert(message@.ciphertext == nonce + sealed);
        assert(nonce_bytes@ =~= nonce);
        assert(encrypted_data@ =~= sealed);
    }
    assert(message@.ciphertext =~= nonce_bytes@ + encrypted_data@);
    assert forall|nonce: Seq<u8>, p: Seq<u8>| #[trigger] carries_body(key@, message@, nonce, p) implies (result_view(r) is Ok
        <==> sealed_with(key@, message@, nonce, p)) by {
        assert(nonce_bytes@ =~= nonce);
        assert(encrypted_data@ =~= message@.ciphertext.subrange(12, message@.ciphertext.len() as int));
        assert(same_body(key@, nonce_bytes@, aad@, encrypted_data@, p));
        if result_view(r) is Ok {
            assert(aes256gcm_seal(key@, nonce, aad@, p) == encrypted_data@);
        }
    }
    r
}

/// Whether a message needs a ratchet step: its ratchet key is not the current remote one.
pub open spec fn needs_ratchet_step(s: RatchetModel, m: MessageModel) -> bool {
    match s.receiving_dh_public_key {
        Some(k) => k != m.dh_public_key,
        None => true,
    }
}

/// The message key for a message once the ratchet is on its chain: a kept skipped key
/// for it, which is then removed; otherwise the receiving chain is skipped forward to
/// the message's number and its key is derived there, moving the chain and its counter
/// one step. Refused without a receiving chain, when too many keys would be skipped,
/// and when the message's number is behind the chain.
pub open spec fn spec_select_key(s: RatchetModel, m: MessageModel) -> (RatchetModel, Result<Seq<u8>, ErrorModel>) {
    let id = key_id(hex_encode(m.dh_public_key), m.message_number);
    match entries_get(s.skipped, id) {
        Some(k) => (RatchetModel { skipped: entries_remove(s.skipped, id), ..s }, Ok(k)),
        None => {
            let skipped = if m.message_number > s.receiving_message_number {
                spec_skip_message_keys(s, m.message_number)
            } else {
                (s, Ok(()))
            };
            let s2 = skipped.0;
            match skipped.1 {
                Err(e) => (s2, Err(e)),
                Ok(_) => match s2.receiving_chain_key {
                    None => (s2, Err((ErrorKind::InvalidInput, "No receiving chain key available"@))),
                    Some(chain_key) => if m.message_number != s2.receiving_message_number {
                        (
                            s2,
                            Err(
                                (
                                    ErrorKind::InvalidInput,
                                    "Message number mismatch: expected "@ + decimal_chars(s2.receiving_message_number as nat)
                                        + ", got "@ + decimal_chars(m.message_number as nat),
                                ),
                            ),
                        )
                    } else {
                        (
                            RatchetModel {
                                receiving_chain_key: Some(spec_derive_next_chain_key(chain_key)),
                                receiving_message_number: (s2.receiving_message_number + 1) as u32,
                                ..s2
                            },
                            Ok(spec_derive_message_key(chain_key)),
                        )
                    },
                },
            }
        },
    }
}

/// The state and message key with which a message is opened, `keypair` being the new
/// sending ratchet key pair should the message need a ratchet step.
pub open spec fn spec_decrypt_key(s: RatchetModel, m: MessageModel, keypair: KeyPairModel) -> (RatchetModel, Result<Seq<u8>, ErrorModel>) {
    if needs_ratchet_step(s, m) {
        let stepped = spec_dh_ratchet_step(s, m.dh_public_key, keypair);
        match stepped.1 {
            Err(e) => (stepped.0, Err(e)),
            Ok(_) => spec_select_key(stepped.0, m),
        }
    } else {
        spec_select_key(s, m)
    }
}

/// Decrypting a message: the state and message key of [`spec_decrypt_key`], then the
/// message opened with that key.
pub open spec fn spec_decrypt(s: RatchetModel, m: MessageModel, keypair: KeyPairModel) -> (RatchetModel, Result<Seq<u8>, ErrorModel>) {
    let prepared = spec_decrypt_key(s, m, keypair);
    match prepared.1 {
        Err(e) => (prepared.0, Err(e)),
        Ok(key) => (prepared.0, spec_open_message(key, m)),
    }
}

/// Whether a message was sealed, from `plaintext` with `nonce`, under the message key
/// that the receiver selects for it.
pub open spec fn opens_to(prepared: Result<Seq<u8>, ErrorModel>, m: MessageModel, nonce: Seq<u8>, plaintext: Seq<u8>) -> bool {
    match prepared {
        Ok(key) => sealed_with(key, m, nonce, plaintext),
        Err(_) => false,
    }
}

/// Whether decrypting message `m` would take the receiving counter past `u32::MAX`: the
/// message is numbered `u32::MAX` on the current receiving chain, no key is kept for it,
/// and the chain reaches its number within the skipping limit.
pub open spec fn decrypt_overflows(s: RatchetModel, m: MessageModel) -> bool {
    &&& m.message_number == u32::MAX
    &&& !needs_ratchet_step(s, m)
    &&& entries_get(s.skipped, key_id(hex_encode(m.dh_public_key), m.message_number)) is None
    &&& s.receiving_chain_key is Some
    &&& u32::MAX - s.receiving_message_number <= MAX_SKIPPED_MESSAGE_KEYS
}

/// Whether decrypting `message` would take the receiving counter of `state` past
/// `u32::MAX`.
pub fn decrypt_would_overflow(state: &DoubleRatchetState, message: &DoubleRatchetMessage) -> (b: bool)
    ensures
        b == decrypt_overflows(state@, message@),
{
    if message.message_number != u32::MAX {
        return false;
    }
    let on_chain = match &state.receiving_dh_public_key {
        Some(current_dh_key) => bytes_equal(current_dh_key.as_slice(), message.dh_public_key.as_slice()),
        None => false,
    };
    if !on_chain || state.receiving_chain_key.is_none() {
        return false;
    }
    let mut id = hex_encode_bytes(message.dh_public_key.as_slice());
    push_key_id(&mut id, message.message_number);
    !state.skipped_message_keys.contains_key(id.as_slice()) && u32::MAX - state.receiving_message_number
        <= MAX_SKIPPED_MESSAGE_KEYS
}

/// Decrypts a message, with the given key pair as the new sending ratchet key pair
/// should the message need a ratchet step. A message sealed under the message key the
/// receiver selects for it opens to its plaintext; one that differs from such a frame in
/// its tag alone is refused.
pub fn double_ratchet_decrypt_with_keypair(state: &mut DoubleRatchetState, message: &DoubleRatchetMessage, new_dh_keypair: KeyPair) -> (r: Result<Vec<u8>, SignalError>)
    requires
        !decrypt_overflows(old(state)@, message@),
    ensures
        (final(state)@, result_view(r)) == spec_decrypt(old(state)@, message@, new_dh_keypair@),
        forall|nonce: Seq<u8>, p: Seq<u8>|
            #[trigger] opens_to(spec_decrypt_key(old(state)@, message@, new_dh_keypair@).1, message@, nonce, p)
                ==> result_view(r) == Ok::<Seq<u8>, ErrorModel>(p),
        authenticated(spec_decrypt_key(old(state)@, message@, new_dh_keypair@).1, message@, result_view(r)),
{
    let ghost s0 = state@;
    let ghost kp = new_dh_keypair@;
    let is_dh_ratchet_step = match &state.receiving_dh_public_key {
        Some(current_dh_key) => !bytes_equal(current_dh_key.as_slice(), message.dh_public_key.as_slice()),
        None => true,
    };
    if is_dh_ratchet_step {
        match perform_dh_ratchet_step_with_keypair(state, message.dh_public_key.as_slice(), new_dh_keypair) {
            Ok(()) => {},
            Err(e) => return Err(e),
        }
    }
    let ghost s1 = state@;
    let mut id = hex_encode_bytes(message.dh_public_key.as_slice());
    push_key_id(&mut id, message.message_number);
    assert(id@ == key_id(hex_encode(message@.dh_public_key), message.message_number));
    let message_key = match state.skipped_message_keys.remove(id.as_slice()) {
        Some(skipped_key) => skipped_key,
        None => {
            assert(entries_remove(s1.skipped, id@) == s1.skipped);
            assert(state@ == s1);
            if message.message_number > state.receiving_message_number {
                match skip_message_keys(state, message.message_number) {
                    Ok(()) => {},
                    Err(e) => return Err(e),
                }
            }
            let receiving_chain_key = match &state.receiving_chain_key {
                Some(k) => bytes_to_vec(k.as_slice()),
                None => return Err(SignalError::InvalidInput(String::from_str("No receiving chain key available"))),
            };
            if message.message_number != state.receiving_message_number {
                let mut text = String::from_str("Message number mismatch: expected ");
                push_decimal_str(&mut text, state.receiving_message_number as u64);
                text.append(", got ");
                push_decimal_str(&mut text, message.message_number as u64);
                return Err(SignalError::InvalidInput(text));
            }
            let message_key = message_key_of(receiving_chain_key.as_slice());
            let next_chain_key = next_chain_key_of(receiving_chain_key.as_slice());
            state.receiving_chain_key = Some(next_chain_key);
            state.receiving_message_number = state.receiving_message_number + 1;
            message_key
        },
    };
    assert(spec_decrypt_key(s0, message@, kp).0 == state@);
    assert(spec_decrypt_key(s0, message@, kp).1 == Ok::<Seq<u8>, ErrorModel>(message_key@));
    open_message(message_key.as_slice(), message)
}

/// Decrypts a message, drawing a fresh sending ratchet key pair should the message
/// need a ratchet step. A message sealed under the message key the receiver selects
/// for it opens to its plaintext; one that differs from such a frame in its tag alone is
/// refused.
pub fn double_ratchet_decrypt_internal(state: &mut DoubleRatchetState, message: &DoubleRatchetMessage) -> (r: Result<Vec<u8>, SignalError>)
    requires
        !decrypt_overflows(old(state)@, message@),
    ensures
        exists|kp: KeyPairModel|
            is_x25519_keypair(kp) && #[trigger] spec_decrypt(old(state)@, message@, kp) == (final(state)@, result_view(r))
                && (forall|nonce: Seq<u8>, p: Seq<u8>|
                #[trigger] opens_to(spec_decrypt_key(old(state)@, message@, kp).1, message@, nonce, p) ==> result_view(r)
                    == Ok::<Seq<u8>, ErrorModel>(p)) && authenticated(spec_decrypt_key(old(state)@, message@, kp).1, message@, result_view(r)),
{
    let keypair = generate_x25519_keypair_internal();
    let ghost kp = keypair@;
    let r = double_ratchet_decrypt_with_keypair(state, message, keypair);
    assert(spec_decrypt(old(state)@, message@, kp) == (state@, result_view(r)));
    r
}

/// Removes the skipped message keys beyond the `max_keys` with the greatest
/// identifiers, and gives the number removed.
pub open spec fn spec_cleanup(s: RatchetModel, max_keys: usize) -> (RatchetModel, usize) {
    if s.skipped.len() > max_keys {
        (RatchetModel { skipped: s.skipped.skip(s.skipped.len() - max_keys), ..s }, (s.skipped.len() - max_keys) as usize)
    } else {
        (s, 0)
    }
}

/// Keeps at most `max_keys` skipped message keys, dropping those whose identifiers come
/// first in order, and gives the number dropped.
pub fn cleanup_skipped_message_keys_internal(state: &mut DoubleRatchetState, max_keys: usize) -> (removed: usize)
    ensures
        (final(state)@, removed) == spec_cleanup(old(state)@, max_keys),
        store_wf(old(state)@.skipped),
        store_wf(final(state)@.skipped),
{
    state.skipped_message_keys.well_formed();
    let count = state.skipped_message_keys.len();
    if count > max_keys {
        let keys_to_remove = count - max_keys;
        state.skipped_message_keys.remove_first(keys_to_remove);
        state.skipped_message_keys.well_formed();
        keys_to_remove
    } else {
        0
    }
}

} // verus!
