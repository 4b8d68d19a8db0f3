//! The full session walkthrough: X3DH gives Alice and Bob one shared secret, which
//! starts their Double Ratchet sessions; then Alice and Bob exchange messages.
use vstd::prelude::*;
use crate::double_ratchet::{
    double_ratchet_decrypt_internal, double_ratchet_encrypt_internal,
    initialize_double_ratchet_internal, spec_decrypt, spec_encrypt, spec_initialize,
    DoubleRatchetState, RatchetModel,
};
use crate::encoding::{hex_preview, hex_preview_spec, utf8_lossy, utf8_lossy_text};
use crate::error::{display_text, result_view, ErrorModel, SignalError};
use crate::gallery::edu::{
    back_message, lines, push_line, step_titles, step_whys, text, StatusKind, StatusModel,
    StatusMsg, StepDef, STEP_COUNT,
};
use crate::gallery::ratchet_walkthrough::opt_state;
use crate::gallery::x3dh_walkthrough::opt_outcome;
use crate::keys::{
    generate_ephemeral_keypair, generate_identity_keypair, generate_one_time_prekey,
    generate_signed_prekey, is_x25519_keypair,
};
use crate::primitives::aes_gcm_max_len;
use crate::types::{KeyPairModel, X3DHResult};
use crate::x3dh::{spec_x3dh_initiate, spec_x3dh_respond, x3dh_initiate_internal, x3dh_respond_internal};
use vstd::utf8::encode_utf8;

verus! {

/// The titles of the full session steps.
pub open spec fn session_titles() -> Seq<Seq<char>> {
    seq!["X3DH"@, "Init DR"@, "Alice \u{2192} Bob"@, "Bob \u{2192} Alice"@, "Send again"@]
}

/// Why each full session step matters.
pub open spec fn session_whys() -> Seq<Seq<char>> {
    seq![
        "Alice and Bob derive one shared secret from the prekey bundle + Alice\u{2019}s ephemeral."@,
        "That shared secret becomes the Double Ratchet root. Alice initiates; Bob responds."@,
        "First sealed message. Bob\u{2019}s decrypt installs his receiving chain (DH ratchet)."@,
        "Reply in the other direction. Alice ratchets to receive Bob\u{2019}s sending chain."@,
        "Messaging phase: another Alice\u{2192}Bob then Bob\u{2192}Alice round using the Controls texts."@,
    ]
}

/// The steps of the full session walkthrough.
pub fn session_steps() -> (steps: Vec<StepDef>)
    ensures
        steps@.len() == STEP_COUNT,
        step_titles(steps@) == session_titles(),
        step_whys(steps@) == session_whys(),
{
    let steps = vec![
        StepDef {
            title: "X3DH",
            why: "Alice and Bob derive one shared secret from the prekey bundle + Alice\u{2019}s ephemeral.",
        },
        StepDef {
            title: "Init DR",
            why: "That shared secret becomes the Double Ratchet root. Alice initiates; Bob responds.",
        },
        StepDef {
            title: "Alice \u{2192} Bob",
            why: "First sealed message. Bob\u{2019}s decrypt installs his receiving chain (DH ratchet).",
        },
        StepDef {
            title: "Bob \u{2192} Alice",
            why: "Reply in the other direction. Alice ratchets to receive Bob\u{2019}s sending chain.",
        },
        StepDef {
            title: "Send again",
            why: "Messaging phase: another Alice\u{2192}Bob then Bob\u{2192}Alice round using the Controls texts.",
        },
    ];
    assert(step_titles(steps@) =~= session_titles());
    assert(step_whys(steps@) =~= session_whys());
    steps
}

/// A line of the conversation transcript: who speaks (`Alice`, `Bob` or `system`) and
/// what.
#[derive(Clone, Debug)]
pub struct TranscriptLine {
    pub from: &'static str,
    pub text: String,
}

/// The state of the full session walkthrough; `alice_msg` and `bob_msg` are what each
/// sends.
pub struct SessionWalkthrough {
    pub alice_msg: String,
    pub bob_msg: String,
    pub step: usize,
    pub alice: Option<DoubleRatchetState>,
    pub bob: Option<DoubleRatchetState>,
    pub x3dh: Option<X3DHResult>,
    pub transcript: Vec<TranscriptLine>,
    pub teach: Vec<String>,
    pub status: StatusMsg,
}

/// What a contract says of the full session walkthrough.
pub struct SessionWalkModel {
    pub alice_msg: Seq<char>,
    pub bob_msg: Seq<char>,
    pub step: usize,
    pub alice: Option<RatchetModel>,
    pub bob: Option<RatchetModel>,
    pub x3dh: Option<(Seq<u8>, Seq<u8>)>,
    pub transcript: Seq<(Seq<char>, Seq<char>)>,
    pub teach: Seq<Seq<char>>,
    pub status: StatusModel,
}

/// The models of transcript lines.
pub open spec fn transcript_lines(v: Seq<TranscriptLine>) -> Seq<(Seq<char>, Seq<char>)> {
    v.map_values(|l: TranscriptLine| (l.from@, l.text@))
}

impl View for SessionWalkthrough {
    type V = SessionWalkModel;

    open spec fn view(&self) -> SessionWalkModel {
        SessionWalkModel {
            alice_msg: self.alice_msg@,
            bob_msg: self.bob_msg@,
            step: self.step,
            alice: opt_state(self.alice),
            bob: opt_state(self.bob),
            x3dh: opt_outcome(self.x3dh),
            transcript: transcript_lines(self.transcript@),
            teach: lines(self.teach@),
            status: self.status@,
        }
    }
}

/// The walkthrough before its first step.
pub open spec fn session_start(alice_msg: Seq<char>, bob_msg: Seq<char>) -> SessionWalkModel {
    SessionWalkModel {
        alice_msg,
        bob_msg,
        step: 0,
        alice: None,
        bob: None,
        x3dh: None,
        transcript: Seq::empty(),
        teach: Seq::empty(),
        status: (StatusKind::Info, "Press Next to run X3DH."@),
    }
}

/// Whether a party can send `plaintext`: its counter has room and its ratchet key and
/// the plaintext are within the AES-GCM limits.
pub open spec fn party_can_send(s: RatchetModel, plaintext: Seq<u8>) -> bool {
    &&& s.sending_message_number < u32::MAX
    &&& s.sending_dh_keypair matches Some(k) ==> k.public_key.len() + 8 <= aes_gcm_max_len()
    &&& plaintext.len() <= aes_gcm_max_len()
}

/// Decrypting with an X25519 key pair for a ratchet step keeps a party able to send.
proof fn lemma_decrypt_keeps_room(s: RatchetModel, m: crate::double_ratchet::MessageModel, kp: KeyPairModel, t: Seq<u8>)
    requires
        party_can_send(s, t),
        is_x25519_keypair(kp),
    ensures
        party_can_send(spec_decrypt(s, m, kp).0, t),
{
}

/// Encrypting `plaintext` with the sender's session and decrypting the message with the
/// receiver's session: both sessions move on and the receiver's text is given when both
/// succeed; otherwise neither session changes and the error is given.
pub open spec fn delivered(
    sender: RatchetModel,
    receiver: RatchetModel,
    plaintext: Seq<u8>,
    new_sender: RatchetModel,
    new_receiver: RatchetModel,
    r: Result<Seq<char>, ErrorModel>,
) -> bool {
    exists|nonce: Seq<u8>|
        nonce.len() == 12 && match #[trigger] spec_encrypt(sender, plaintext, nonce) {
            (s2, Ok(m)) => exists|kp: KeyPairModel|
                is_x25519_keypair(kp) && match #[trigger] spec_decrypt(receiver, m, kp) {
                    (r2, Ok(p)) => new_sender == s2 && new_receiver == r2 && r == Ok::<Seq<char>, ErrorModel>(utf8_lossy(p)),
                    (_, Err(e)) => new_sender == sender && new_receiver == receiver && r == Err::<Seq<char>, ErrorModel>(e),
                },
            (_, Err(e)) => new_sender == sender && new_receiver == receiver && r == Err::<Seq<char>, ErrorModel>(e),
        }
}

/// Encrypts `plaintext` with `sender` and decrypts it with `receiver`, keeping both
/// sessions as they were unless both succeed.
fn deliver_between(sender: &mut DoubleRatchetState, receiver: &mut DoubleRatchetState, plaintext: &[u8]) -> (r: Result<String, SignalError>)
    requires
        party_can_send(old(sender)@, plaintext@),
    ensures
        delivered(old(sender)@, old(receiver)@, plaintext@, final(sender)@, final(receiver)@, result_view(r)),
        forall|t: Seq<u8>| party_can_send(old(receiver)@, t) ==> party_can_send(final(receiver)@, t),
{
    let ghost s0 = sender@;
    let ghost r0 = receiver@;
    let sender_saved = sender.duplicate();
    let receiver_saved = receiver.duplicate();
    let sealed = double_ratchet_encrypt_internal(sender, plaintext);
    let ghost nonce = choose|n: Seq<u8>| n.len() == 12 && #[trigger] spec_encrypt(s0, plaintext@, n) == (sender@, result_view(sealed));
    match sealed {
        Err(e) => {
            *sender = sender_saved;
            assert(spec_encrypt(s0, plaintext@, nonce).1 == Err::<crate::double_ratchet::MessageModel, ErrorModel>(e@));
            Err(e)
        },
        Ok(m) => {
            let opened = double_ratchet_decrypt_internal(receiver, &m);
            let ghost kp = choose|kp: KeyPairModel|
                is_x25519_keypair(kp) && #[trigger] spec_decrypt(r0, m@, kp) == (receiver@, result_view(opened));
            assert forall|t: Seq<u8>| party_can_send(r0, t) implies party_can_send(spec_decrypt(r0, m@, kp).0, t) by {
                lemma_decrypt_keeps_room(r0, m@, kp, t);
            }
            match opened {
                Ok(p) => {
                    let shown = utf8_lossy_text(p.as_slice());
                    assert(spec_encrypt(s0, plaintext@, nonce) matches (s2, Ok(mm)) && spec_decrypt(r0, mm, kp) matches (
                        r2,
                        Ok(pp),
                    ) && sender@ == s2 && receiver@ == r2 && result_view(Ok::<String, SignalError>(shown))
                        == Ok::<Seq<char>, ErrorModel>(utf8_lossy(pp)));
                    Ok(shown)
                },
                Err(e) => {
                    *sender = sender_saved;
                    *receiver = receiver_saved;
                    Err(e)
                },
            }
        },
    }
}

/// A delivery reported in the walkthrough: with the text, the parties' new sessions,
/// the transcript line of the speaker and the log line with its heading; a failure keeps
/// everything but the status, which reports the error.
pub open spec fn after_delivery(
    old: SessionWalkModel,
    alice_speaks: bool,
    new_alice: RatchetModel,
    new_bob: RatchetModel,
    r: Result<Seq<char>, ErrorModel>,
    heading: Seq<char>,
    done: Seq<char>,
) -> SessionWalkModel {
    match r {
        Ok(t) => SessionWalkModel {
            alice: Some(new_alice),
            bob: Some(new_bob),
            transcript: old.transcript.push(
                (
                    if alice_speaks {
                        "Alice"@
                    } else {
                        "Bob"@
                    },
                    t,
                ),
            ),
            teach: old.teach.push(heading + t),
            status: (StatusKind::Success, done),
            ..old
        },
        Err(e) => SessionWalkModel { status: (StatusKind::Failure, display_text(e)), ..old },
    }
}

/// The outcome of the X3DH step with the given key pairs of Alice (identity, ephemeral)
/// and Bob (identity, signed prekey, one-time prekey).
pub open spec fn x3dh_outcome_of(
    old: SessionWalkModel,
    aid: KeyPairModel,
    aeph: KeyPairModel,
    bid: KeyPairModel,
    bspk: KeyPairModel,
    botpk: KeyPairModel,
) -> SessionWalkModel {
    match spec_x3dh_initiate(aid.private_key, aeph.private_key, bid.public_key, bspk.public_key, Some(botpk.public_key)) {
        Err(e) => SessionWalkModel { status: (StatusKind::Failure, "x3dh initiate: "@ + display_text(e)), ..old },
        Ok(ra) => match spec_x3dh_respond(bid.private_key, bspk.private_key, Some(botpk.private_key), aid.public_key, aeph.public_key) {
            Err(e) => SessionWalkModel { status: (StatusKind::Failure, "x3dh respond: "@ + display_text(e)), ..old },
            Ok(rb) => if ra.0 != rb.0 {
                SessionWalkModel { status: (StatusKind::Failure, "X3DH shared secret mismatch"@), ..old }
            } else {
                SessionWalkModel {
                    step: 1,
                    x3dh: Some(ra),
                    transcript: old.transcript.push(("system"@, "X3DH complete ("@ + hex_preview_spec(ra.0, 16) + ")"@)),
                    teach: old.teach.push("X3DH OK shared="@ + hex_preview_spec(ra.0, 16)),
                    status: (StatusKind::Success, "X3DH secrets match."@),
                    ..old
                }
            },
        },
    }
}

/// The outcome of starting the two sessions from the agreed secret, `kp` being Alice's
/// first ratchet key pair.
pub open spec fn ratchet_start_of(old: SessionWalkModel, kp: KeyPairModel) -> SessionWalkModel {
    let secret = old.x3dh->Some_0.0;
    match spec_initialize(secret, true, kp) {
        Err(e) => SessionWalkModel { status: (StatusKind::Failure, display_text(e)), ..old },
        Ok(a) => match spec_initialize(secret, false, kp) {
            Err(e) => SessionWalkModel { status: (StatusKind::Failure, display_text(e)), ..old },
            Ok(b) => SessionWalkModel {
                step: 2,
                alice: Some(a),
                bob: Some(b),
                transcript: old.transcript.push(("system"@, "Double Ratchet ready \u{2014} messaging can begin"@)),
                teach: old.teach.push("DR init (Alice initiator, Bob responder)"@),
                status: (StatusKind::Success, "Ratchet initialized."@),
                ..old
            },
        },
    }
}

/// What Next does on each step: run X3DH; start the sessions; Alice sends to Bob; Bob
/// replies; Alice sends again and Bob answers once more (his answer is dropped silently
/// if it fails). A step that finds what it needs missing, or whose operation fails,
/// reports it and stays; past the last step nothing changes.
pub open spec fn session_next(old: SessionWalkModel, new: SessionWalkModel) -> bool {
    if old.step >= STEP_COUNT {
        new == old
    } else if old.step == 0 {
        exists|aid: KeyPairModel, aeph: KeyPairModel, bid: KeyPairModel, bspk: KeyPairModel, botpk: KeyPairModel|
            is_x25519_keypair(aid) && is_x25519_keypair(aeph) && is_x25519_keypair(bid) && is_x25519_keypair(bspk)
                && is_x25519_keypair(botpk) && new == #[trigger] x3dh_outcome_of(old, aid, aeph, bid, bspk, botpk)
    } else if old.step == 1 {
        match old.x3dh {
            None => new == SessionWalkModel { status: (StatusKind::Failure, "Run X3DH first."@), ..old },
            Some(_) => exists|kp: KeyPairModel| is_x25519_keypair(kp) && new == #[trigger] ratchet_start_of(old, kp),
        }
    } else if old.alice is None || old.bob is None {
        new == SessionWalkModel { status: (StatusKind::Failure, "Init DR first."@), ..old }
    } else if old.step == 3 {
        exists|a2: RatchetModel, b2: RatchetModel, r: Result<Seq<char>, ErrorModel>|
            #[trigger] delivered(old.bob->Some_0, old.alice->Some_0, encode_utf8(old.bob_msg), b2, a2, r) && new == (
            SessionWalkModel {
                step: if r is Ok {
                    4
                } else {
                    3
                },
                ..after_delivery(old, false, a2, b2, r, "Bob \u{2192} Alice: "@, "Bob reply delivered."@)
            })
    } else {
        exists|a2: RatchetModel, b2: RatchetModel, r: Result<Seq<char>, ErrorModel>|
            #[trigger] delivered(old.alice->Some_0, old.bob->Some_0, encode_utf8(old.alice_msg), a2, b2, r) && {
                let mid = after_delivery(old, true, a2, b2, r, "Alice \u{2192} Bob: "@, "Alice message delivered."@);
                if r is Err || old.step == 2 {
                    new == (SessionWalkModel {
                        step: if r is Ok {
                            (old.step + 1) as usize
                        } else {
                            old.step
                        },
                        ..mid
                    })
                } else {
                    exists|a3: RatchetModel, b3: RatchetModel, r2: Result<Seq<char>, ErrorModel>|
                        #[trigger] delivered(b2, a2, encode_utf8(old.bob_msg), b3, a3, r2) && new == (SessionWalkModel {
                            step: 5,
                            ..match r2 {
                                Ok(t) => SessionWalkModel {
                                    alice: Some(a3),
                                    bob: Some(b3),
                                    transcript: mid.transcript.push(("Bob"@, t)),
                                    teach: mid.teach.push("Bob \u{2192} Alice (again): "@ + t),
                                    ..mid
                                },
                                Err(_) => mid,
                            }
                        })
                }
            }
    }
}

/// What the session operations of the walkthrough need: each party able to send its
/// text.
pub open spec fn session_ready(w: SessionWalkModel) -> bool {
    &&& w.alice matches Some(a) ==> party_can_send(a, encode_utf8(w.alice_msg))
    &&& w.bob matches Some(b) ==> party_can_send(b, encode_utf8(w.bob_msg))
}

/// Appends a line to a transcript.
fn push_transcript(v: &mut Vec<TranscriptLine>, from: &'static str, line: String)
    ensures
        transcript_lines(final(v)@) == transcript_lines(old(v)@).push((from@, line@)),
{
    let ghost before = v@;
    let item = TranscriptLine { from, text: line };
    let ghost model = (item.from@, item.text@);
    v.push(item);
    assert(transcript_lines(v@) =~= transcript_lines(before).push(model));
}

impl SessionWalkthrough {
    /// The walkthrough before its first step.
    pub fn new(alice_msg: String, bob_msg: String) -> (w: SessionWalkthrough)
        ensures
            w@ == session_start(alice_msg@, bob_msg@),
    {
        let w = SessionWalkthrough {
            alice_msg,
            bob_msg,
            step: 0,
            alice: None,
            bob: None,
            x3dh: None,
            transcript: Vec::new(),
            teach: Vec::new(),
            status: StatusMsg::info(text("Press Next to run X3DH.")),
        };
        assert(lines(w.teach@) =~= Seq::<Seq<char>>::empty());
        assert(transcript_lines(w.transcript@) =~= Seq::<(Seq<char>, Seq<char>)>::empty());
        w
    }

    /// Starts the walkthrough over, keeping the two texts.
    pub fn reset(&mut self)
        ensures
            final(self)@ == session_start(old(self).alice_msg@, old(self).bob_msg@),
    {
        let alice_msg = self.alice_msg.clone();
        let bob_msg = self.bob_msg.clone();
        *self = SessionWalkthrough::new(alice_msg, bob_msg);
    }

    /// The phase shown: the handshake for the first two steps, then messaging.
    pub fn phase(&self) -> (s: &'static str)
        ensures
            s@ == (if self.step <= 1 {
                "Handshake"@
            } else {
                "Messaging"@
            }),
    {
        if self.step <= 1 {
            "Handshake"
        } else {
            "Messaging"
        }
    }

    /// Whether X3DH has completed.
    pub fn x3dh_ready(&self) -> (b: bool)
        ensures
            b == self.x3dh is Some,
    {
        self.x3dh.is_some()
    }

    /// Goes back one step, naming the step it goes back to; nothing happens on the first
    /// step.
    pub fn back(&mut self)
        requires
            old(self).step <= STEP_COUNT,
        ensures
            old(self).step == 0 ==> final(self)@ == old(self)@,
            old(self).step > 0 ==> final(self)@ == (SessionWalkModel {
                step: (old(self).step - 1) as usize,
                status: (StatusKind::Info, "Back to: "@ + session_titles()[old(self).step - 1]),
                ..old(self)@
            }),
    {
        if self.step == 0 {
            return;
        }
        let prev = self.step - 1;
        let steps = session_steps();
        assert(steps@[prev as int].title@ == step_titles(steps@)[prev as int]);
        self.step = prev;
        self.status = back_message(steps[prev].title);
    }

    /// Runs X3DH between fresh key pairs of Alice and Bob.
    fn run_x3dh(&mut self)
        requires
            old(self).step == 0,
        ensures
            session_next(old(self)@, final(self)@),
    {
        let ghost old_model = self@;
        let alice_id = generate_identity_keypair();
        let alice_eph = generate_ephemeral_keypair();
        let bob_id = generate_identity_keypair();
        let bob_spk = generate_signed_prekey();
        let bob_otpk = generate_one_time_prekey();
        let alice_x3dh = match x3dh_initiate_internal(
            alice_id.private_key.as_slice(),
            alice_eph.private_key.as_slice(),
            bob_id.public_key.as_slice(),
            bob_spk.public_key.as_slice(),
            Some(bob_otpk.public_key.as_slice()),
        ) {
            Ok(r) => r,
            Err(e) => {
                let mut message = text("x3dh initiate: ");
                message.append(e.to_string().as_str());
                self.status = StatusMsg::err(message);
                assert(self@ == x3dh_outcome_of(old_model, alice_id@, alice_eph@, bob_id@, bob_spk@, bob_otpk@));
                return;
            },
        };
        let bob_x3dh = match x3dh_respond_internal(
            bob_id.private_key.as_slice(),
            bob_spk.private_key.as_slice(),
            Some(bob_otpk.private_key.as_slice()),
            alice_id.public_key.as_slice(),
            alice_eph.public_key.as_slice(),
        ) {
            Ok(r) => r,
            Err(e) => {
                let mut message = text("x3dh respond: ");
                message.append(e.to_string().as_str());
                self.status = StatusMsg::err(message);
                assert(self@ == x3dh_outcome_of(old_model, alice_id@, alice_eph@, bob_id@, bob_spk@, bob_otpk@));
                return;
            },
        };
        if !crate::encoding::bytes_equal(alice_x3dh.shared_secret.as_slice(), bob_x3dh.shared_secret.as_slice()) {
            self.status = StatusMsg::err(text("X3DH shared secret mismatch"));
            assert(self@ == x3dh_outcome_of(old_model, alice_id@, alice_eph@, bob_id@, bob_spk@, bob_otpk@));
            return;
        }
        let preview = hex_preview(alice_x3dh.shared_secret.as_slice(), 16);
        let mut line = text("X3DH OK shared=");
        line.append(preview.as_str());
        push_line(&mut self.teach, line);
        let mut entry = text("X3DH complete (");
        entry.append(preview.as_str());
        entry.append(")");
        push_transcript(&mut self.transcript, "system", entry);
        self.x3dh = Some(alice_x3dh);
        self.status = StatusMsg::ok(text("X3DH secrets match."));
        self.step = 1;
        assert(self@ == x3dh_outcome_of(old_model, alice_id@, alice_eph@, bob_id@, bob_spk@, bob_otpk@));
    }

    /// Starts both sessions from the agreed secret.
    fn start_ratchets(&mut self)
        requires
            old(self).step == 1,
            old(self).x3dh is Some,
        ensures
            session_next(old(self)@, final(self)@),
    {
        let ghost old_model = self@;
        let secret = match &self.x3dh {
            Some(x) => crate::encoding::bytes_to_vec(x.shared_secret.as_slice()),
            None => {
                proof {
                    assert(false);
                }
                return;
            },
        };
        let started_alice = initialize_double_ratchet_internal(secret.as_slice(), true);
        let ghost kp = choose|kp: KeyPairModel|
            (true ==> is_x25519_keypair(kp)) && #[trigger] spec_initialize(secret@, true, kp) == result_view(started_alice);
        let alice = match started_alice {
            Ok(a) => a,
            Err(e) => {
                self.status = StatusMsg::err(e.to_string());
                assert(self@ == ratchet_start_of(old_model, kp));
                return;
            },
        };
        let started_bob = initialize_double_ratchet_internal(secret.as_slice(), false);
        assert(spec_initialize(secret@, false, kp) == result_view(started_bob));
        let bob = match started_bob {
            Ok(b) => b,
            Err(e) => {
                self.status = StatusMsg::err(e.to_string());
                assert(self@ == ratchet_start_of(old_model, kp));
                return;
            },
        };
        self.alice = Some(alice);
        self.bob = Some(bob);
        push_transcript(&mut self.transcript, "system", text("Double Ratchet ready \u{2014} messaging can begin"));
        push_line(&mut self.teach, text("DR init (Alice initiator, Bob responder)"));
        self.status = StatusMsg::ok(text("Ratchet initialized."));
        self.step = 2;
        assert(self@ == ratchet_start_of(old_model, kp));
    }

    /// Delivers the messages of the messaging steps.
    fn exchange(&mut self)
        requires
            2 <= old(self).step < STEP_COUNT,
            old(self).alice is Some,
            old(self).bob is Some,
            session_ready(old(self)@),
        ensures
            session_next(old(self)@, final(self)@),
    {
        let ghost old_model = self@;
        let mut alice = match self.alice.take() {
            Some(a) => a,
            None => {
                proof {
                    assert(false);
                }
                return;
            },
        };
        let mut bob = match self.bob.take() {
            Some(b) => b,
            None => {
                proof {
                    assert(false);
                }
                return;
            },
        };
        if self.step == 3 {
            let r = deliver_between(&mut bob, &mut alice, self.bob_msg.as_str().as_bytes());
            let ghost a2 = alice@;
            let ghost b2 = bob@;
            let ghost rv = result_view(r);
            self.alice = Some(alice);
            self.bob = Some(bob);
            match r {
                Ok(t) => {
                    let mut line = text("Bob \u{2192} Alice: ");
                    line.append(t.as_str());
                    push_transcript(&mut self.transcript, "Bob", t);
                    push_line(&mut self.teach, line);
                    self.status = StatusMsg::ok(text("Bob reply delivered."));
                    self.step = 4;
                },
                Err(e) => {
                    self.status = StatusMsg::err(e.to_string());
                },
            }
            assert(self@ == (SessionWalkModel {
                step: if rv is Ok {
                    4
                } else {
                    3
                },
                ..after_delivery(old_model, false, a2, b2, rv, "Bob \u{2192} Alice: "@, "Bob reply delivered."@)
            }));
        } else {
            let r = deliver_between(&mut alice, &mut bob, self.alice_msg.as_str().as_bytes());
            let ghost a2 = alice@;
            let ghost b2 = bob@;
            let ghost rv = result_view(r);
            let ghost mid = after_delivery(old_model, true, a2, b2, rv, "Alice \u{2192} Bob: "@, "Alice message delivered."@);
            match r {
                Err(e) => {
                    self.alice = Some(alice);
                    self.bob = Some(bob);
                    self.status = StatusMsg::err(e.to_string());
                    assert(self@ == (SessionWalkModel { step: old_model.step, ..mid }));
                },
                Ok(t) => {
                    let mut line = text("Alice \u{2192} Bob: ");
                    line.append(t.as_str());
                    push_transcript(&mut self.transcript, "Alice", t);
                    push_line(&mut self.teach, line);
                    self.status = StatusMsg::ok(text("Alice message delivered."));
                    if self.step == 4 {
                        let r2 = deliver_between(&mut bob, &mut alice, self.bob_msg.as_str().as_bytes());
                        let ghost a3 = alice@;
                        let ghost b3 = bob@;
                        let ghost rv2 = result_view(r2);
                        match r2 {
                            Ok(t2) => {
                                let mut again = text("Bob \u{2192} Alice (again): ");
                                again.append(t2.as_str());
                                push_transcript(&mut self.transcript, "Bob", t2);
                                push_line(&mut self.teach, again);
                                self.alice = Some(alice);
                                self.bob = Some(bob);
                            },
                            Err(_) => {
                                self.alice = Some(alice);
                                self.bob = Some(bob);
                            },
                        }
                        self.step = 5;
                        assert(delivered(b2, a2, encode_utf8(old_model.bob_msg), b3, a3, rv2));
                        assert(self@ == (SessionWalkModel {
                            step: 5,
                            ..match rv2 {
                                Ok(t) => SessionWalkModel {
                                    alice: Some(a3),
                                    bob: Some(b3),
                                    transcript: mid.transcript.push(("Bob"@, t)),
                                    teach: mid.teach.push("Bob \u{2192} Alice (again): "@ + t),
                                    ..mid
                                },
                                Err(_) => mid,
                            }
                        }));
                    } else {
                        self.alice = Some(alice);
                        self.bob = Some(bob);
                        self.step = 3;
                        assert(self@ == (SessionWalkModel { step: 3, ..mid }));
                    }
                },
            }
        }
    }

    /// Performs the current step.
    pub fn next(&mut self)
        requires
            session_ready(old(self)@),
        ensures
            session_next(old(self)@, final(self)@),
    {
        if self.step >= STEP_COUNT {
            return;
        }
        if self.step == 0 {
            self.run_x3dh();
        } else if self.step == 1 {
            if self.x3dh.is_none() {
                self.status = StatusMsg::err(text("Run X3DH first."));
            } else {
                self.start_ratchets();
            }
        } else if self.alice.is_none() || self.bob.is_none() {
            self.status = StatusMsg::err(text("Init DR first."));
        } else {
            self.exchange();
        }
    }
}

} // verus!
