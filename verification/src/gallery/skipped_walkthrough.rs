//! The out-of-order walkthrough: Alice encrypts three messages, Bob receives the last
//! one first (keeping the keys of the two he skipped), then the delayed first one.
use vstd::prelude::*;
use crate::double_ratchet::{
    decrypt_overflows, double_ratchet_decrypt_internal, double_ratchet_encrypt_internal, encrypt_within_limits,
    initialize_double_ratchet_internal, spec_decrypt, spec_encrypt, DoubleRatchetMessage,
    DoubleRatchetState, MessageModel, RatchetModel,
};
use crate::encoding::{decimal_chars, decimal_digits, push_decimal, push_decimal_str, utf8_lossy, utf8_lossy_text};
use crate::error::{display_text, result_view, ErrorModel};
use crate::gallery::edu::{
    back_message, demo_root, demo_root_spec, lines, push_line, step_titles, step_whys, text,
    StatusKind, StatusModel, StatusMsg, StepDef, STEP_COUNT,
};
use crate::gallery::ratchet_walkthrough::{initialized_as, opt_state};
use crate::keys::is_x25519_keypair;
use crate::primitives::aes_gcm_max_len;
use crate::types::KeyPairModel;

verus! {

/// The titles of the out-of-order steps.
pub open spec fn skipped_titles() -> Seq<Seq<char>> {
    seq!["Init"@, "Encrypt 0..2"@, "Deliver msg-2 first"@, "Deliver delayed msg-0"@, "Inspect"@]
}

/// Why each out-of-order step matters.
pub open spec fn skipped_whys() -> Seq<Seq<char>> {
    seq![
        "Create Alice (initiator) and Bob (responder) ratchet states from one shared root."@,
        "Alice encrypts three messages in order. On the wire they can arrive in any order."@,
        "Bob decrypts the newest message first and stores skipped keys for msg-0 and msg-1."@,
        "The earlier ciphertext still decrypts using a skipped message key."@,
        "Review the timeline and skipped-key count \u{2014} this is how out-of-order delivery stays secure."@,
    ]
}

/// The steps of the out-of-order walkthrough.
pub fn skipped_steps() -> (steps: Vec<StepDef>)
    ensures
        steps@.len() == STEP_COUNT,
        step_titles(steps@) == skipped_titles(),
        step_whys(steps@) == skipped_whys(),
{
    let steps = vec![
        StepDef {
            title: "Init",
            why: "Create Alice (initiator) and Bob (responder) ratchet states from one shared root.",
        },
        StepDef {
            title: "Encrypt 0..2",
            why: "Alice encrypts three messages in order. On the wire they can arrive in any order.",
        },
        StepDef {
            title: "Deliver msg-2 first",
            why: "Bob decrypts the newest message first and stores skipped keys for msg-0 and msg-1.",
        },
        StepDef {
            title: "Deliver delayed msg-0",
            why: "The earlier ciphertext still decrypts using a skipped message key.",
        },
        StepDef {
            title: "Inspect",
            why: "Review the timeline and skipped-key count \u{2014} this is how out-of-order delivery stays secure.",
        },
    ];
    assert(step_titles(steps@) =~= skipped_titles());
    assert(step_whys(steps@) =~= skipped_whys());
    steps
}

/// The state of the out-of-order walkthrough.
pub struct SkippedWalkthrough {
    pub step: usize,
    pub alice: Option<DoubleRatchetState>,
    pub bob: Option<DoubleRatchetState>,
    pub msgs: Vec<DoubleRatchetMessage>,
    pub timeline: Vec<String>,
    pub teach: Vec<String>,
    pub status: StatusMsg,
}

/// What a contract says of the out-of-order walkthrough.
pub struct SkippedWalkModel {
    pub step: usize,
    pub alice: Option<RatchetModel>,
    pub bob: Option<RatchetModel>,
    pub msgs: Seq<MessageModel>,
    pub timeline: Seq<Seq<char>>,
    pub teach: Seq<Seq<char>>,
    pub status: StatusModel,
}

/// The models of a list of messages.
pub open spec fn message_models(v: Seq<DoubleRatchetMessage>) -> Seq<MessageModel> {
    v.map_values(|m: DoubleRatchetMessage| m@)
}

impl View for SkippedWalkthrough {
    type V = SkippedWalkModel;

    open spec fn view(&self) -> SkippedWalkModel {
        SkippedWalkModel {
            step: self.step,
            alice: opt_state(self.alice),
            bob: opt_state(self.bob),
            msgs: message_models(self.msgs@),
            timeline: lines(self.timeline@),
            teach: lines(self.teach@),
            status: self.status@,
        }
    }
}

/// The walkthrough before its first step.
pub open spec fn skipped_start() -> SkippedWalkModel {
    SkippedWalkModel {
        step: 0,
        alice: None,
        bob: None,
        msgs: Seq::empty(),
        timeline: Seq::empty(),
        teach: Seq::empty(),
        status: (StatusKind::Info, "Press Next to initialize the session."@),
    }
}

/// The bytes of the `i`-th message Alice sends: `msg-` and the decimal number.
pub open spec fn msg_body(i: nat) -> Seq<u8> {
    seq![109u8, 115u8, 103u8, 45u8] + decimal_digits(i)
}

/// Encrypting the first `k` messages in order, message `i` under `nonces[i]`, stopping at
/// the first refusal.
pub open spec fn encrypt_run(s: RatchetModel, nonces: Seq<Seq<u8>>, k: nat) -> (RatchetModel, Result<Seq<MessageModel>, ErrorModel>)
    decreases k,
{
    if k == 0 {
        (s, Ok(Seq::empty()))
    } else {
        let prev = encrypt_run(s, nonces, (k - 1) as nat);
        match prev.1 {
            Err(e) => prev,
            Ok(ms) => {
                let r = spec_encrypt(prev.0, msg_body((k - 1) as nat), nonces[k - 1]);
                match r.1 {
                    Ok(m) => (r.0, Ok(ms.push(m))),
                    Err(e) => (r.0, Err(e)),
                }
            },
        }
    }
}

/// A run only reads the nonces of the messages it encrypts.
proof fn lemma_encrypt_run_prefix(s: RatchetModel, nonces: Seq<Seq<u8>>, n: Seq<u8>, k: nat)
    requires
        k <= nonces.len(),
    ensures
        encrypt_run(s, nonces.push(n), k) == encrypt_run(s, nonces, k),
    decreases k,
{
    if k > 0 {
        lemma_encrypt_run_prefix(s, nonces, n, (k - 1) as nat);
        assert(nonces.push(n)[k - 1] == nonces[k - 1]);
    }
}

/// The outcome of Alice encrypting the three messages with `nonces`: on success her
/// session moves on and the three messages replace the queue, with a timeline entry and
/// a log line; a refusal is reported and changes nothing.
pub open spec fn encrypt_three_outcome(old: SkippedWalkModel, nonces: Seq<Seq<u8>>) -> SkippedWalkModel {
    let run = encrypt_run(old.alice->Some_0, nonces, nonces.len());
    match run.1 {
        Ok(ms) => SkippedWalkModel {
            step: 2,
            alice: Some(run.0),
            msgs: ms,
            timeline: old.timeline.push("Alice encrypted msg-0, msg-1, msg-2 (in order)"@),
            teach: old.teach.push("encrypt \u{00d7}3 \u{2192} ciphertext queue [0,1,2]"@),
            status: (StatusKind::Success, "Three ciphertexts queued."@),
            ..old
        },
        Err(e) => SkippedWalkModel { status: (StatusKind::Failure, display_text(e)), ..old },
    }
}

/// Nonces of a run of the three encryptions: twelve bytes each, three of them unless the
/// run stopped at a refusal.
pub open spec fn run_nonces(a: RatchetModel, nonces: Seq<Seq<u8>>) -> bool {
    &&& nonces.len() <= 3
    &&& forall|j: int| 0 <= j < nonces.len() ==> (#[trigger] nonces[j]).len() == 12
    &&& (nonces.len() == 3 || encrypt_run(a, nonces, nonces.len()).1 is Err)
}

/// The outcome of Bob decrypting message `index` of the queue with `kp` as the key pair
/// of a ratchet step: on success his session moves on and the plaintext is reported
/// with the number of skipped keys he then keeps; a failure is reported and leaves his
/// session as it was.
pub open spec fn deliver_outcome(old: SkippedWalkModel, index: int, kp: KeyPairModel) -> SkippedWalkModel {
    let r = spec_decrypt(old.bob->Some_0, old.msgs[index], kp);
    match r.1 {
        Ok(p) => {
            let shown = utf8_lossy(p);
            let n = decimal_chars(r.0.skipped.len());
            SkippedWalkModel {
                step: (old.step + 1) as usize,
                bob: Some(r.0),
                timeline: old.timeline.push(
                    if index == 2 {
                        "Delivered msg-2 first \u{2192} decrypted \""@ + shown + "\" (skipped keys="@ + n + ")"@
                    } else {
                        "Delivered delayed msg-0 \u{2192} decrypted \""@ + shown + "\" via skipped key"@
                    },
                ),
                teach: old.teach.push(
                    if index == 2 {
                        "Out-of-order decrypt stores "@ + n + " skipped message keys"@
                    } else {
                        "decrypt(msg-0) used a previously skipped message key"@
                    },
                ),
                status: (
                    StatusKind::Success,
                    if index == 2 {
                        "msg-2 ok; skipped keys = "@ + n
                    } else {
                        "Delayed msg-0 decrypted."@
                    },
                ),
                ..old
            }
        },
        Err(e) => SkippedWalkModel { status: (StatusKind::Failure, display_text(e)), ..old },
    }
}

/// The message of the queue Bob receives on a step: the third on step 2, else the first.
pub open spec fn delivered_index(step: usize) -> int {
    if step == 2 {
        2
    } else {
        0
    }
}

/// What Next does on each step: start both sessions; Alice encrypts three messages;
/// Bob receives the third; Bob receives the delayed first; the walkthrough reports the
/// skipped keys left. A step that finds what it needs missing reports it and stays; past
/// the last step nothing changes.
pub open spec fn skipped_next(old: SkippedWalkModel, new: SkippedWalkModel) -> bool {
    if old.step >= STEP_COUNT {
        new == old
    } else if old.step == 0 {
        &&& new.alice matches Some(a) && initialized_as(a, demo_root_spec(0x11, 0x22), true)
        &&& new.bob matches Some(b) && initialized_as(b, demo_root_spec(0x11, 0x22), false)
        &&& new == SkippedWalkModel {
            step: 1,
            alice: new.alice,
            bob: new.bob,
            msgs: Seq::empty(),
            timeline: seq!["Session ready (Alice initiator)"@],
            teach: old.teach.push("DR init for Alice + Bob"@),
            status: (StatusKind::Success, "Initialized."@),
        }
    } else if old.step == 1 {
        match old.alice {
            None => new == SkippedWalkModel { status: (StatusKind::Failure, "Init first."@), ..old },
            Some(a) => exists|nonces: Seq<Seq<u8>>| run_nonces(a, nonces) && new == #[trigger] encrypt_three_outcome(old, nonces),
        }
    } else if old.step == 2 || old.step == 3 {
        let index = delivered_index(old.step);
        if old.msgs.len() <= index {
            new == SkippedWalkModel { status: (StatusKind::Failure, "Encrypt first."@), ..old }
        } else if old.bob is None {
            new == SkippedWalkModel { status: (StatusKind::Failure, "Init first."@), ..old }
        } else {
            exists|kp: KeyPairModel| is_x25519_keypair(kp) && new == #[trigger] deliver_outcome(old, delivered_index(old.step), kp)
        }
    } else {
        let n: nat = match old.bob {
            Some(b) => b.skipped.len(),
            None => 0,
        };
        new == SkippedWalkModel {
            step: 5,
            teach: old.teach.push(
                "Inspect: remaining skipped keys="@ + decimal_chars(n) + "; timeline shows delivery order"@,
            ),
            status: (StatusKind::Success, "Tour complete \u{2014} out-of-order delivery handled."@),
            ..old
        }
    }
}

/// What the session operations of the walkthrough need: room in Alice's counter for
/// three messages and an associated data within the AES-GCM limit, and deliveries that
/// keep Bob's receiving counter within its range.
pub open spec fn skipped_ready(w: SkippedWalkModel) -> bool {
    &&& (w.step == 1 && w.alice is Some && w.alice->Some_0.sending_chain_key is Some
        && w.alice->Some_0.sending_dh_keypair is Some) ==> {
        &&& w.alice->Some_0.sending_message_number + 3 <= u32::MAX
        &&& w.alice->Some_0.sending_dh_keypair->Some_0.public_key.len() + 8 <= aes_gcm_max_len()
    }
    &&& (w.step == 2 && w.msgs.len() > 2 && w.bob is Some) ==> !decrypt_overflows(w.bob->Some_0, w.msgs[2])
    &&& (w.step == 3 && w.msgs.len() > 0 && w.bob is Some) ==> !decrypt_overflows(w.bob->Some_0, w.msgs[0])
}

impl SkippedWalkthrough {
    /// The walkthrough before its first step.
    pub fn new() -> (w: SkippedWalkthrough)
        ensures
            w@ == skipped_start(),
    {
        let w = SkippedWalkthrough {
            step: 0,
            alice: None,
            bob: None,
            msgs: Vec::new(),
            timeline: Vec::new(),
            teach: Vec::new(),
            status: StatusMsg::info(text("Press Next to initialize the session.")),
        };
        assert(lines(w.teach@) =~= Seq::<Seq<char>>::empty());
        assert(lines(w.timeline@) =~= Seq::<Seq<char>>::empty());
        assert(message_models(w.msgs@) =~= Seq::<MessageModel>::empty());
        w
    }

    /// Starts the walkthrough over.
    pub fn reset(&mut self)
        ensures
            final(self)@ == skipped_start(),
    {
        *self = SkippedWalkthrough::new();
    }

    /// Goes back one step, naming the step it goes back to; nothing happens on the first
    /// step.
    pub fn back(&mut self)
        requires
            old(self).step <= STEP_COUNT,
        ensures
            old(self).step == 0 ==> final(self)@ == old(self)@,
            old(self).step > 0 ==> final(self)@ == (SkippedWalkModel {
                step: (old(self).step - 1) as usize,
                status: (StatusKind::Info, "Back to: "@ + skipped_titles()[old(self).step - 1]),
                ..old(self)@
            }),
    {
        if self.step == 0 {
            return;
        }
        let prev = self.step - 1;
        let steps = skipped_steps();
        assert(steps@[prev as int].title@ == step_titles(steps@)[prev as int]);
        self.step = prev;
        self.status = back_message(steps[prev].title);
    }

    /// Alice encrypts `msg-0`, `msg-1` and `msg-2`; the first refusal is reported and
    /// leaves everything as it was.
    fn encrypt_three(&mut self)
        requires
            old(self).step == 1,
            old(self).alice is Some,
            skipped_ready(old(self)@),
        ensures
            exists|nonces: Seq<Seq<u8>>|
                run_nonces(old(self)@.alice->Some_0, nonces) && final(self)@ == #[trigger] encrypt_three_outcome(old(self)@, nonces),
    {
        let ghost old_model = self@;
        let mut alice = match self.alice.take() {
            Some(a) => a,
            None => {
                proof {
                    assert(false);
                }
                return;
            },
        };
        let saved = alice.duplicate();
        let ghost start = alice@;
        let mut msgs: Vec<DoubleRatchetMessage> = Vec::new();
        let ghost mut nonces: Seq<Seq<u8>> = Seq::empty();
        assert(message_models(msgs@) =~= Seq::<MessageModel>::empty());
        let mut i: u64 = 0;
        while i < 3
            invariant
                i <= 3,
                nonces.len() == i,
                forall|j: int| 0 <= j < nonces.len() ==> (#[trigger] nonces[j]).len() == 12,
                encrypt_run(start, nonces, i as nat) == (alice@, Ok::<Seq<MessageModel>, ErrorModel>(message_models(msgs@))),
                saved@ == start,
                old_model.alice == Some(start),
                old_model == old(self)@,
                self@ == (SkippedWalkModel { alice: None, ..old_model }),
                skipped_ready(old_model),
                old_model.step == 1,
                i == 0 ==> alice@ == start,
                i > 0 ==> {
                    &&& alice@.sending_dh_keypair == start.sending_dh_keypair
                    &&& alice@.sending_chain_key is Some
                    &&& start.sending_chain_key is Some
                    &&& start.sending_dh_keypair is Some
                    &&& alice@.sending_message_number == start.sending_message_number + i
                },
            decreases 3 - i,
        {
            let mut body: Vec<u8> = Vec::new();
            body.push(109u8);
            body.push(115u8);
            body.push(103u8);
            body.push(45u8);
            push_decimal(&mut body, i);
            assert(body@ =~= msg_body(i as nat));
            assert(decimal_digits(i as nat).len() == 1);
            let ghost before = alice@;
            proof {
                if start.sending_chain_key is Some && start.sending_dh_keypair is Some {
                    assert(start.sending_message_number + 3 <= u32::MAX);
                    assert(start.sending_dh_keypair->Some_0.public_key.len() + 8 <= aes_gcm_max_len());
                }
            }
            assert(encrypt_within_limits(before, body@));
            let r = double_ratchet_encrypt_internal(&mut alice, body.as_slice());
            let ghost nonce = choose|n: Seq<u8>|
                n.len() == 12 && #[trigger] spec_encrypt(before, body@, n) == (alice@, result_view(r));
            proof {
                lemma_encrypt_run_prefix(start, nonces, nonce, i as nat);
                nonces = nonces.push(nonce);
            }
            match r {
                Ok(m) => {
                    assert(before.sending_chain_key is Some && before.sending_dh_keypair is Some);
                    assert(alice@.sending_message_number == before.sending_message_number + 1);
                    let ghost ms = message_models(msgs@);
                    let ghost mm = m@;
                    msgs.push(m);
                    assert(message_models(msgs@) =~= ms.push(mm));
                },
                Err(e) => {
                    self.alice = Some(saved);
                    self.status = StatusMsg::err(e.to_string());
                    assert(encrypt_run(start, nonces, nonces.len()).1 is Err);
                    assert(run_nonces(start, nonces));
                    assert(self@ == encrypt_three_outcome(old_model, nonces));
                    return;
                },
            }
            i = i + 1;
        }
        self.alice = Some(alice);
        self.msgs = msgs;
        push_line(&mut self.timeline, text("Alice encrypted msg-0, msg-1, msg-2 (in order)"));
        push_line(&mut self.teach, text("encrypt \u{00d7}3 \u{2192} ciphertext queue [0,1,2]"));
        self.status = StatusMsg::ok(text("Three ciphertexts queued."));
        self.step = 2;
        assert(self@ == encrypt_three_outcome(old_model, nonces));
    }

    /// Bob decrypts message `index` of the queue (the third on step 2, the first on step
    /// 3), keeping his session as it was when that fails.
    fn deliver(&mut self, index: usize)
        requires
            index == 2 || index == 0,
            old(self).step == (if index == 2 {
                2usize
            } else {
                3usize
            }),
            old(self).msgs@.len() > index,
            old(self).bob is Some,
            !decrypt_overflows(old(self)@.bob->Some_0, old(self)@.msgs[index as int]),
        ensures
            exists|kp: KeyPairModel|
                is_x25519_keypair(kp) && final(self)@ == #[trigger] deliver_outcome(old(self)@, delivered_index(old(self).step), kp),
    {
        let ghost old_model = self@;
        let msg = self.msgs[index].duplicate();
        assert(msg@ == old_model.msgs[index as int]);
        let mut bob = match self.bob.take() {
            Some(b) => b,
            None => {
                proof {
                    assert(false);
                }
                return;
            },
        };
        let saved = bob.duplicate();
        let r = double_ratchet_decrypt_internal(&mut bob, &msg);
        let ghost kp = choose|kp: KeyPairModel|
            is_x25519_keypair(kp) && #[trigger] spec_decrypt(saved@, msg@, kp) == (bob@, result_view(r));
        match r {
            Ok(p) => {
                let shown = utf8_lossy_text(p.as_slice());
                let n = bob.skipped_keys_count();
                self.bob = Some(bob);
                let mut entry = if index == 2 {
                    text("Delivered msg-2 first \u{2192} decrypted \"")
                } else {
                    text("Delivered delayed msg-0 \u{2192} decrypted \"")
                };
                entry.append(shown.as_str());
                if index == 2 {
                    entry.append("\" (skipped keys=");
                    push_decimal_str(&mut entry, n as u64);
                    entry.append(")");
                } else {
                    entry.append("\" via skipped key");
                }
                push_line(&mut self.timeline, entry);
                if index == 2 {
                    let mut line = text("Out-of-order decrypt stores ");
                    push_decimal_str(&mut line, n as u64);
                    line.append(" skipped message keys");
                    push_line(&mut self.teach, line);
                    let mut message = text("msg-2 ok; skipped keys = ");
                    push_decimal_str(&mut message, n as u64);
                    self.status = StatusMsg::ok(message);
                } else {
                    push_line(&mut self.teach, text("decrypt(msg-0) used a previously skipped message key"));
                    self.status = StatusMsg::ok(text("Delayed msg-0 decrypted."));
                }
                self.step = self.step + 1;
            },
            Err(e) => {
                self.bob = Some(saved);
                self.status = StatusMsg::err(e.to_string());
            },
        }
        assert(self@ == deliver_outcome(old_model, delivered_index(old_model.step), kp));
    }

    /// Performs the current step.
    pub fn next(&mut self)
        requires
            skipped_ready(old(self)@),
        ensures
            skipped_next(old(self)@, final(self)@),
    {
        if self.step >= STEP_COUNT {
            return;
        }
        if self.step == 0 {
            let root = demo_root(0x11, 0x22);
            let started_alice = initialize_double_ratchet_internal(root.as_slice(), true);
            let started_bob = initialize_double_ratchet_internal(root.as_slice(), false);
            match started_alice {
                Ok(alice) => match started_bob {
                    Ok(bob) => {
                        self.alice = Some(alice);
                        self.bob = Some(bob);
                        self.msgs = Vec::new();
                        let mut timeline: Vec<String> = Vec::new();
                        push_line(&mut timeline, text("Session ready (Alice initiator)"));
                        self.timeline = timeline;
                        push_line(&mut self.teach, text("DR init for Alice + Bob"));
                        self.status = StatusMsg::ok(text("Initialized."));
                        self.step = 1;
                        assert(message_models(self.msgs@) =~= Seq::<MessageModel>::empty());
                        assert(lines(self.timeline@) =~= seq!["Session ready (Alice initiator)"@]);
                    },
                    Err(e) => {
                        self.status = StatusMsg::err(e.to_string());
                    },
                },
                Err(e) => {
                    self.status = StatusMsg::err(e.to_string());
                },
            }
        } else if self.step == 1 {
            if self.alice.is_none() {
                self.status = StatusMsg::err(text("Init first."));
            } else {
                self.encrypt_three();
            }
        } else if self.step == 2 || self.step == 3 {
            let index: usize = if self.step == 2 {
                2
            } else {
                0
            };
            if self.msgs.len() <= index {
                self.status = StatusMsg::err(text("Encrypt first."));
            } else if self.bob.is_none() {
                self.status = StatusMsg::err(text("Init first."));
            } else {
                self.deliver(index);
            }
        } else {
            let n: usize = match &self.bob {
                Some(b) => b.skipped_keys_count(),
                None => 0,
            };
            let mut line = text("Inspect: remaining skipped keys=");
            push_decimal_str(&mut line, n as u64);
            line.append("; timeline shows delivery order");
            push_line(&mut self.teach, line);
            self.status = StatusMsg::ok(text("Tour complete \u{2014} out-of-order delivery handled."));
            self.step = 5;
        }
    }
}

} // verus!
