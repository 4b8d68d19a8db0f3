//! The Double Ratchet walkthrough: two sessions start from one root secret, Alice
//! encrypts, Bob decrypts (taking his first ratchet step), Bob replies and Alice
//! decrypts the reply.
use vstd::prelude::*;
use crate::double_ratchet::{
    decrypt_overflows, double_ratchet_decrypt_internal, double_ratchet_encrypt_internal, encrypt_within_limits,
    initialize_double_ratchet_internal, spec_decrypt, spec_encrypt, spec_initialize,
    DoubleRatchetMessage, DoubleRatchetState, MessageModel, RatchetModel,
};
use crate::encoding::{
    decimal_chars, hex_preview, hex_preview_spec, push_decimal_str, utf8_lossy, utf8_lossy_text,
};
use crate::error::{display_text, ErrorModel};
use crate::gallery::edu::{
    back_message, demo_root, demo_root_spec, lines, push_line, step_titles, step_whys, text,
    StatusKind, StatusModel, StatusMsg, StepDef, STEP_COUNT,
};
use crate::keys::is_x25519_keypair;
use crate::types::KeyPairModel;
use vstd::utf8::encode_utf8;

verus! {

/// The titles of the Double Ratchet steps.
pub open spec fn ratchet_titles() -> Seq<Seq<char>> {
    seq!["Init session"@, "Alice encrypt"@, "Bob decrypt"@, "Bob encrypt reply"@, "Alice decrypt"@]
}

/// Why each Double Ratchet step matters.
pub open spec fn ratchet_whys() -> Seq<Seq<char>> {
    seq![
        "Both sides load the same 32-byte root secret. Alice (initiator) starts with a sending chain; Bob waits for the first message."@,
        "Alice derives a message key from her sending chain, AEAD-encrypts the plaintext, and advances the chain."@,
        "Bob\u{2019}s first decrypt performs a DH ratchet, installs a receiving chain, then decrypts message 0."@,
        "After ratcheting, Bob has a sending chain and can encrypt in the reverse direction."@,
        "Alice DH-ratchets to Bob\u{2019}s new public key and decrypts the reply \u{2014} forward secrecy across turns."@,
    ]
}

/// The steps of the Double Ratchet walkthrough.
pub fn ratchet_steps() -> (steps: Vec<StepDef>)
    ensures
        steps@.len() == STEP_COUNT,
        step_titles(steps@) == ratchet_titles(),
        step_whys(steps@) == ratchet_whys(),
{
    let steps = vec![
        StepDef {
            title: "Init session",
            why: "Both sides load the same 32-byte root secret. Alice (initiator) starts with a sending chain; Bob waits for the first message.",
        },
        StepDef {
            title: "Alice encrypt",
            why: "Alice derives a message key from her sending chain, AEAD-encrypts the plaintext, and advances the chain.",
        },
        StepDef {
            title: "Bob decrypt",
            why: "Bob\u{2019}s first decrypt performs a DH ratchet, installs a receiving chain, then decrypts message 0.",
        },
        StepDef {
            title: "Bob encrypt reply",
            why: "After ratcheting, Bob has a sending chain and can encrypt in the reverse direction.",
        },
        StepDef {
            title: "Alice decrypt",
            why: "Alice DH-ratchets to Bob\u{2019}s new public key and decrypts the reply \u{2014} forward secrecy across turns.",
        },
    ];
    assert(step_titles(steps@) =~= ratchet_titles());
    assert(step_whys(steps@) =~= ratchet_whys());
    steps
}

/// How the counter card shows whether a chain is there.
pub fn chain_flag(v: bool) -> (s: String)
    ensures
        s@ == (if v {
            "yes"@
        } else {
            "no"@
        }),
{
    if v {
        text("yes")
    } else {
        text("no")
    }
}

/// The five values a counter card shows of a party: its sending and receiving counters,
/// its number of skipped keys and whether it has each chain; dashes before the session
/// exists.
pub fn counter_props(st: &Option<DoubleRatchetState>) -> (r: (String, String, String, String, String))
    ensures
        match st {
            Some(s) => {
                &&& r.0@ == decimal_chars(s.sending_message_number as nat)
                &&& r.1@ == decimal_chars(s.receiving_message_number as nat)
                &&& r.2@ == decimal_chars(s@.skipped.len())
                &&& r.3@ == (if s.sending_chain_key is Some {
                    "yes"@
                } else {
                    "no"@
                })
                &&& r.4@ == (if s.receiving_chain_key is Some {
                    "yes"@
                } else {
                    "no"@
                })
            },
            None => r.0@ == "\u{2014}"@ && r.1@ == "\u{2014}"@ && r.2@ == "\u{2014}"@ && r.3@ == "\u{2014}"@
                && r.4@ == "\u{2014}"@,
        },
{
    match st {
        Some(s) => {
            let mut send = String::new();
            push_decimal_str(&mut send, s.sending_message_number as u64);
            let mut recv = String::new();
            push_decimal_str(&mut recv, s.receiving_message_number as u64);
            let mut skipped = String::new();
            push_decimal_str(&mut skipped, s.skipped_keys_count() as u64);
            (send, recv, skipped, chain_flag(s.sending_chain_key.is_some()), chain_flag(s.receiving_chain_key.is_some()))
        },
        None => (text("\u{2014}"), text("\u{2014}"), text("\u{2014}"), text("\u{2014}"), text("\u{2014}")),
    }
}

/// The state of the Double Ratchet walkthrough; `plaintext` is what Alice sends.
pub struct RatchetWalkthrough {
    pub plaintext: String,
    pub step: usize,
    pub alice: Option<DoubleRatchetState>,
    pub bob: Option<DoubleRatchetState>,
    pub last_ciphertext: Option<DoubleRatchetMessage>,
    pub last_plaintext: Option<String>,
    pub teach: Vec<String>,
    pub status: StatusMsg,
}

/// What a contract says of the Double Ratchet walkthrough.
pub struct RatchetWalkModel {
    pub plaintext: Seq<char>,
    pub step: usize,
    pub alice: Option<RatchetModel>,
    pub bob: Option<RatchetModel>,
    pub last_ciphertext: Option<MessageModel>,
    pub last_plaintext: Option<Seq<char>>,
    pub teach: Seq<Seq<char>>,
    pub status: StatusModel,
}

/// The model of an optional session state.
pub open spec fn opt_state(o: Option<DoubleRatchetState>) -> Option<RatchetModel> {
    match o {
        Some(s) => Some(s@),
        None => None,
    }
}

/// The model of an optional message.
pub open spec fn opt_message(o: Option<DoubleRatchetMessage>) -> Option<MessageModel> {
    match o {
        Some(m) => Some(m@),
        None => None,
    }
}

/// The model of an optional text.
pub open spec fn opt_text(o: Option<String>) -> Option<Seq<char>> {
    match o {
        Some(s) => Some(s@),
        None => None,
    }
}

impl View for RatchetWalkthrough {
    type V = RatchetWalkModel;

    open spec fn view(&self) -> RatchetWalkModel {
        RatchetWalkModel {
            plaintext: self.plaintext@,
            step: self.step,
            alice: opt_state(self.alice),
            bob: opt_state(self.bob),
            last_ciphertext: opt_message(self.last_ciphertext),
            last_plaintext: opt_text(self.last_plaintext),
            teach: lines(self.teach@),
            status: self.status@,
        }
    }
}

/// Whether `s` is a session state started from `secret`, as initiator or not, with an
/// X25519 ratchet key pair for an initiator.
pub open spec fn initialized_as(s: RatchetModel, secret: Seq<u8>, initiator: bool) -> bool {
    exists|kp: KeyPairModel|
        (initiator ==> is_x25519_keypair(kp)) && #[trigger] spec_initialize(secret, initiator, kp) == Ok::<
            RatchetModel,
            ErrorModel,
        >(s)
}

/// The walkthrough before its first step.
pub open spec fn ratchet_start(plaintext: Seq<char>) -> RatchetWalkModel {
    RatchetWalkModel {
        plaintext,
        step: 0,
        alice: None,
        bob: None,
        last_ciphertext: None,
        last_plaintext: None,
        teach: Seq::empty(),
        status: (StatusKind::Info, "Press Next to initialize Alice and Bob\u{2019}s ratchet states."@),
    }
}

/// What Bob sends back.
pub open spec fn bob_reply() -> Seq<char> {
    "reply from Bob"@
}

/// Encrypting with the sending party's session under `nonce`: on success the session
/// moves on, the message becomes the last ciphertext with its log line and the last
/// plaintext is cleared; a refusal is reported and changes nothing.
pub open spec fn encrypt_outcome(old: RatchetWalkModel, alice_sends: bool, nonce: Seq<u8>) -> RatchetWalkModel {
    let s = if alice_sends {
        old.alice->Some_0
    } else {
        old.bob->Some_0
    };
    let plaintext = if alice_sends {
        encode_utf8(old.plaintext)
    } else {
        encode_utf8(bob_reply())
    };
    let r = spec_encrypt(s, plaintext, nonce);
    match r.1 {
        Ok(m) => RatchetWalkModel {
            step: (old.step + 1) as usize,
            alice: if alice_sends {
                Some(r.0)
            } else {
                old.alice
            },
            bob: if alice_sends {
                old.bob
            } else {
                Some(r.0)
            },
            last_ciphertext: Some(m),
            last_plaintext: None,
            teach: old.teach.push(
                if alice_sends {
                    "Alice encrypt n="@ + decimal_chars(m.message_number as nat) + " ct="@ + hex_preview_spec(
                        m.ciphertext,
                        20,
                    )
                } else {
                    "Bob encrypt reply n="@ + decimal_chars(m.message_number as nat)
                },
            ),
            status: (
                StatusKind::Success,
                if alice_sends {
                    "Alice produced ciphertext."@
                } else {
                    "Bob encrypted a reply."@
                },
            ),
            ..old
        },
        Err(e) => RatchetWalkModel { status: (StatusKind::Failure, display_text(e)), ..old },
    }
}

/// Decrypting the last ciphertext with the receiving party's session, `kp` being the
/// key pair of its ratchet step: on success the session moves on and the plaintext is
/// shown as text; a failure is reported and leaves the session as it was.
pub open spec fn decrypt_outcome(old: RatchetWalkModel, bob_receives: bool, kp: KeyPairModel) -> RatchetWalkModel {
    let s = if bob_receives {
        old.bob->Some_0
    } else {
        old.alice->Some_0
    };
    let r = spec_decrypt(s, old.last_ciphertext->Some_0, kp);
    match r.1 {
        Ok(p) => RatchetWalkModel {
            step: (old.step + 1) as usize,
            alice: if bob_receives {
                old.alice
            } else {
                Some(r.0)
            },
            bob: if bob_receives {
                Some(r.0)
            } else {
                old.bob
            },
            last_plaintext: Some(utf8_lossy(p)),
            teach: old.teach.push(
                if bob_receives {
                    "Bob: DH ratchet + decrypt message 0"@
                } else {
                    "Alice: DH ratchet + decrypt Bob\u{2019}s reply"@
                },
            ),
            status: (
                StatusKind::Success,
                (if bob_receives {
                    "Bob decrypted: "@
                } else {
                    "Alice decrypted: "@
                }) + utf8_lossy(p),
            ),
            ..old
        },
        Err(e) => RatchetWalkModel { status: (StatusKind::Failure, display_text(e)), ..old },
    }
}

/// What Next does on each step: start both sessions from the walkthrough's root secret;
/// Alice encrypts; Bob decrypts; Bob replies; Alice decrypts the reply. A step that
/// finds what it needs missing reports it and stays; past the last step nothing
/// changes.
pub open spec fn ratchet_next(old: RatchetWalkModel, new: RatchetWalkModel) -> bool {
    if old.step >= STEP_COUNT {
        new == old
    } else if old.step == 0 {
        &&& new.alice matches Some(a) && initialized_as(a, demo_root_spec(0x42, 0x24), true)
        &&& new.bob matches Some(b) && initialized_as(b, demo_root_spec(0x42, 0x24), false)
        &&& new == RatchetWalkModel {
            step: 1,
            alice: new.alice,
            bob: new.bob,
            last_ciphertext: None,
            last_plaintext: None,
            teach: old.teach.push("initialize_double_ratchet(shared, initiator=true) \u{2192} Alice"@).push(
                "initialize_double_ratchet(shared, initiator=false) \u{2192} Bob"@,
            ),
            status: (StatusKind::Success, "Session initialized."@),
            ..old
        }
    } else if old.step == 1 {
        match old.alice {
            None => new == RatchetWalkModel { status: (StatusKind::Failure, "Init first."@), ..old },
            Some(_) => exists|nonce: Seq<u8>| nonce.len() == 12 && new == #[trigger] encrypt_outcome(old, true, nonce),
        }
    } else if old.step == 2 {
        if old.bob is None || old.last_ciphertext is None {
            new == RatchetWalkModel { status: (StatusKind::Failure, "Need Alice ciphertext."@), ..old }
        } else {
            exists|kp: KeyPairModel| is_x25519_keypair(kp) && new == #[trigger] decrypt_outcome(old, true, kp)
        }
    } else if old.step == 3 {
        match old.bob {
            None => new == RatchetWalkModel { status: (StatusKind::Failure, "Init first."@), ..old },
            Some(_) => exists|nonce: Seq<u8>| nonce.len() == 12 && new == #[trigger] encrypt_outcome(old, false, nonce),
        }
    } else {
        if old.alice is None || old.last_ciphertext is None {
            new == RatchetWalkModel { status: (StatusKind::Failure, "Need Bob ciphertext."@), ..old }
        } else {
            exists|kp: KeyPairModel| is_x25519_keypair(kp) && new == #[trigger] decrypt_outcome(old, false, kp)
        }
    }
}

/// What the session operations of the walkthrough need: encryption within the counter
/// and AES-GCM limits, and a decryption that keeps the receiving counter within its range.
pub open spec fn ratchet_ready(w: RatchetWalkModel) -> bool {
    &&& (w.step == 1 && w.alice is Some) ==> encrypt_within_limits(w.alice->Some_0, encode_utf8(w.plaintext))
    &&& (w.step == 3 && w.bob is Some) ==> encrypt_within_limits(w.bob->Some_0, encode_utf8(bob_reply()))
    &&& (w.step == 2 && w.bob is Some && w.last_ciphertext is Some) ==> !decrypt_overflows(
        w.bob->Some_0,
        w.last_ciphertext->Some_0,
    )
    &&& (w.step == 4 && w.alice is Some && w.last_ciphertext is Some) ==> !decrypt_overflows(
        w.alice->Some_0,
        w.last_ciphertext->Some_0,
    )
}

impl RatchetWalkthrough {
    /// The walkthrough before its first step.
    pub fn new(plaintext: String) -> (w: RatchetWalkthrough)
        ensures
            w@ == ratchet_start(plaintext@),
    {
        let w = RatchetWalkthrough {
            plaintext,
            step: 0,
            alice: None,
            bob: None,
            last_ciphertext: None,
            last_plaintext: None,
            teach: Vec::new(),
            status: StatusMsg::info(text("Press Next to initialize Alice and Bob\u{2019}s ratchet states.")),
        };
        assert(lines(w.teach@) =~= Seq::<Seq<char>>::empty());
        w
    }

    /// Starts the walkthrough over, keeping Alice's plaintext.
    pub fn reset(&mut self)
        ensures
            final(self)@ == ratchet_start(old(self).plaintext@),
    {
        let plaintext = self.plaintext.clone();
        *self = RatchetWalkthrough::new(plaintext);
    }

    /// Goes back one step, naming the step it goes back to; nothing happens on the first
    /// step.
    pub fn back(&mut self)
        requires
            old(self).step <= STEP_COUNT,
        ensures
            old(self).step == 0 ==> final(self)@ == old(self)@,
            old(self).step > 0 ==> final(self)@ == (RatchetWalkModel {
                step: (old(self).step - 1) as usize,
                status: (StatusKind::Info, "Back to: "@ + ratchet_titles()[old(self).step - 1]),
                ..old(self)@
            }),
    {
        if self.step == 0 {
            return;
        }
        let prev = self.step - 1;
        let steps = ratchet_steps();
        assert(steps@[prev as int].title@ == step_titles(steps@)[prev as int]);
        self.step = prev;
        self.status = back_message(steps[prev].title);
    }

    /// Encrypts with Alice's session (Bob's when `alice_sends` is false).
    fn send(&mut self, alice_sends: bool)
        requires
            old(self).step < STEP_COUNT,
            if alice_sends {
                old(self).alice is Some
            } else {
                old(self).bob is Some
            },
            encrypt_within_limits(
                if alice_sends {
                    old(self)@.alice->Some_0
                } else {
                    old(self)@.bob->Some_0
                },
                if alice_sends {
                    encode_utf8(old(self)@.plaintext)
                } else {
                    encode_utf8(bob_reply())
                },
            ),
        ensures
            exists|nonce: Seq<u8>| nonce.len() == 12 && final(self)@ == #[trigger] encrypt_outcome(old(self)@, alice_sends, nonce),
    {
        let ghost old_model = self@;
        let mut session = if alice_sends {
            match self.alice.take() {
                Some(s) => s,
                None => {
                    proof {
                        assert(false);
                    }
                    return;
                },
            }
        } else {
            match self.bob.take() {
                Some(s) => s,
                None => {
                    proof {
                        assert(false);
                    }
                    return;
                },
            }
        };
        let ghost before = session@;
        let reply = text("reply from Bob");
        let plaintext: &str = if alice_sends {
            self.plaintext.as_str()
        } else {
            reply.as_str()
        };
        let r = double_ratchet_encrypt_internal(&mut session, plaintext.as_bytes());
        let ghost nonce = choose|n: Seq<u8>|
            n.len() == 12 && #[trigger] spec_encrypt(before, encode_utf8(plaintext@), n) == (session@, crate::error::result_view(r));
        if alice_sends {
            self.alice = Some(session);
        } else {
            self.bob = Some(session);
        }
        match r {
            Ok(msg) => {
                let mut line = if alice_sends {
                    text("Alice encrypt n=")
                } else {
                    text("Bob encrypt reply n=")
                };
                push_decimal_str(&mut line, msg.message_number as u64);
                if alice_sends {
                    line.append(" ct=");
                    let preview = hex_preview(msg.ciphertext.as_slice(), 20);
                    line.append(preview.as_str());
                }
                push_line(&mut self.teach, line);
                self.last_ciphertext = Some(msg);
                self.last_plaintext = None;
                self.status = if alice_sends {
                    StatusMsg::ok(text("Alice produced ciphertext."))
                } else {
                    StatusMsg::ok(text("Bob encrypted a reply."))
                };
                self.step = self.step + 1;
            },
            Err(e) => {
                self.status = StatusMsg::err(e.to_string());
            },
        }
        assert(self@ == encrypt_outcome(old_model, alice_sends, nonce));
    }

    /// Decrypts the last ciphertext with Bob's session (Alice's when `bob_receives` is
    /// false), keeping the session as it was when that fails.
    fn receive(&mut self, bob_receives: bool)
        requires
            old(self).step < STEP_COUNT,
            if bob_receives {
                old(self).bob is Some
            } else {
                old(self).alice is Some
            },
            old(self)@.last_ciphertext matches Some(m) && !decrypt_overflows(
                if bob_receives {
                    old(self)@.bob->Some_0
                } else {
                    old(self)@.alice->Some_0
                },
                m,
            ),
        ensures
            exists|kp: KeyPairModel| is_x25519_keypair(kp) && final(self)@ == #[trigger] decrypt_outcome(old(self)@, bob_receives, kp),
    {
        let ghost old_model = self@;
        let msg = match &self.last_ciphertext {
            Some(m) => m.duplicate(),
            None => {
                proof {
                    assert(false);
                }
                return;
            },
        };
        let mut session = if bob_receives {
            match self.bob.take() {
                Some(s) => s,
                None => {
                    proof {
                        assert(false);
                    }
                    return;
                },
            }
        } else {
            match self.alice.take() {
                Some(s) => s,
                None => {
                    proof {
                        assert(false);
                    }
                    return;
                },
            }
        };
        let saved = session.duplicate();
        let r = double_ratchet_decrypt_internal(&mut session, &msg);
        let ghost kp = choose|kp: KeyPairModel|
            is_x25519_keypair(kp) && #[trigger] spec_decrypt(saved@, msg@, kp) == (session@, crate::error::result_view(r));
        match r {
            Ok(p) => {
                let shown = utf8_lossy_text(p.as_slice());
                if bob_receives {
                    self.bob = Some(session);
                    push_line(&mut self.teach, text("Bob: DH ratchet + decrypt message 0"));
                } else {
                    self.alice = Some(session);
                    push_line(&mut self.teach, text("Alice: DH ratchet + decrypt Bob\u{2019}s reply"));
                }
                let mut message = if bob_receives {
                    text("Bob decrypted: ")
                } else {
                    text("Alice decrypted: ")
                };
                message.append(shown.as_str());
                self.last_plaintext = Some(shown);
                self.status = StatusMsg::ok(message);
                self.step = self.step + 1;
            },
            Err(e) => {
                if bob_receives {
                    self.bob = Some(saved);
                } else {
                    self.alice = Some(saved);
                }
                self.status = StatusMsg::err(e.to_string());
            },
        }
        assert(self@ == decrypt_outcome(old_model, bob_receives, kp));
    }

    /// Performs the current step.
    pub fn next(&mut self)
        requires
            ratchet_ready(old(self)@),
        ensures
            ratchet_next(old(self)@, final(self)@),
    {
        if self.step >= STEP_COUNT {
            return;
        }
        if self.step == 0 {
            let root = demo_root(0x42, 0x24);
            let started_alice = initialize_double_ratchet_internal(root.as_slice(), true);
            let started_bob = initialize_double_ratchet_internal(root.as_slice(), false);
            match started_alice {
                Ok(alice) => match started_bob {
                    Ok(bob) => {
                        self.alice = Some(alice);
                        self.bob = Some(bob);
                        self.last_ciphertext = None;
                        self.last_plaintext = None;
                        push_line(&mut self.teach, text("initialize_double_ratchet(shared, initiator=true) \u{2192} Alice"));
                        push_line(&mut self.teach, text("initialize_double_ratchet(shared, initiator=false) \u{2192} Bob"));
                        self.status = StatusMsg::ok(text("Session initialized."));
                        self.step = 1;
                    },
                    Err(e) => {
                        self.status = StatusMsg::err(e.to_string());
                    },
                },
                Err(e) => {
                    self.status = StatusMsg::err(e.to_string());
                },
            }
        } else if self.step == 1 {
            if self.alice.is_none() {
                self.status = StatusMsg::err(text("Init first."));
            } else {
                self.send(true);
            }
        } else if self.step == 2 {
            if self.bob.is_none() || self.last_ciphertext.is_none() {
                self.status = StatusMsg::err(text("Need Alice ciphertext."));
            } else {
                self.receive(true);
            }
        } else if self.step == 3 {
            if self.bob.is_none() {
                self.status = StatusMsg::err(text("Init first."));
            } else {
                self.send(false);
            }
        } else {
            if self.alice.is_none() || self.last_ciphertext.is_none() {
                self.status = StatusMsg::err(text("Need Bob ciphertext."));
            } else {
                self.receive(false);
            }
        }
    }
}

} // verus!
