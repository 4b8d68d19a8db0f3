//! The key generation walkthrough: an identity key, a signed prekey, a one-time prekey
//! and an ephemeral key are generated one per step, then the identity key is validated.
use vstd::prelude::*;
use crate::crypto::{spec_validate_x25519_public_key, validate_x25519_public_key};
use crate::double_ratchet::opt_keypair;
use crate::encoding::{decimal_chars, push_decimal_str};
use crate::error::display_text;
use crate::gallery::edu::{
    lines, push_line, step_titles, step_whys, text, StatusKind, StatusModel, StatusMsg, StepDef,
    STEP_COUNT,
};
use crate::keys::{
    generate_ephemeral_keypair, generate_identity_keypair, generate_one_time_prekey,
    generate_signed_prekey, is_x25519_keypair,
};
use crate::types::{KeyPair, KeyPairModel};

verus! {

/// The titles of the key generation steps.
pub open spec fn key_generation_titles() -> Seq<Seq<char>> {
    seq!["Identity"@, "Signed prekey"@, "One-time prekey"@, "Ephemeral"@, "Validate"@]
}

/// Why each key generation step matters.
pub open spec fn key_generation_whys() -> Seq<Seq<char>> {
    seq![
        "Long-term identity key. The public half goes in directories; the private half never leaves the device."@,
        "Medium-term prekey Bob publishes and rotates. Alice uses it in X3DH even when Bob is offline."@,
        "Single-use prekey. Consuming one adds an extra DH for stronger forward secrecy."@,
        "Alice\u{2019}s one-handshake key. Fresh every session; never reused."@,
        "Sanity-check that the identity public key is a valid X25519 point before using it in a protocol."@,
    ]
}

/// The steps of the key generation walkthrough.
pub fn key_generation_steps() -> (steps: Vec<StepDef>)
    ensures
        steps@.len() == STEP_COUNT,
        step_titles(steps@) == key_generation_titles(),
        step_whys(steps@) == key_generation_whys(),
{
    let steps = vec![
        StepDef {
            title: "Identity",
            why: "Long-term identity key. The public half goes in directories; the private half never leaves the device.",
        },
        StepDef {
            title: "Signed prekey",
            why: "Medium-term prekey Bob publishes and rotates. Alice uses it in X3DH even when Bob is offline.",
        },
        StepDef {
            title: "One-time prekey",
            why: "Single-use prekey. Consuming one adds an extra DH for stronger forward secrecy.",
        },
        StepDef { title: "Ephemeral", why: "Alice\u{2019}s one-handshake key. Fresh every session; never reused." },
        StepDef {
            title: "Validate",
            why: "Sanity-check that the identity public key is a valid X25519 point before using it in a protocol.",
        },
    ];
    assert(step_titles(steps@) =~= key_generation_titles());
    assert(step_whys(steps@) =~= key_generation_whys());
    steps
}

/// The state of the key generation walkthrough.
pub struct KeyGenerationWalkthrough {
    pub step: usize,
    pub identity: Option<KeyPair>,
    pub signed_prekey: Option<KeyPair>,
    pub one_time: Option<KeyPair>,
    pub ephemeral: Option<KeyPair>,
    pub teach: Vec<String>,
    pub status: StatusMsg,
}

/// What a contract says of the key generation walkthrough.
pub struct KeyGenerationModel {
    pub step: usize,
    pub identity: Option<KeyPairModel>,
    pub signed_prekey: Option<KeyPairModel>,
    pub one_time: Option<KeyPairModel>,
    pub ephemeral: Option<KeyPairModel>,
    pub teach: Seq<Seq<char>>,
    pub status: StatusModel,
}

impl View for KeyGenerationWalkthrough {
    type V = KeyGenerationModel;

    open spec fn view(&self) -> KeyGenerationModel {
        KeyGenerationModel {
            step: self.step,
            identity: opt_keypair(self.identity),
            signed_prekey: opt_keypair(self.signed_prekey),
            one_time: opt_keypair(self.one_time),
            ephemeral: opt_keypair(self.ephemeral),
            teach: lines(self.teach@),
            status: self.status@,
        }
    }
}

/// The walkthrough before its first step.
pub open spec fn key_generation_start() -> KeyGenerationModel {
    KeyGenerationModel {
        step: 0,
        identity: None,
        signed_prekey: None,
        one_time: None,
        ephemeral: None,
        teach: Seq::empty(),
        status: (StatusKind::Info, "Press Next to generate the identity key."@),
    }
}

/// Whether `k` holds a fresh X25519 key pair.
pub open spec fn fresh_pair(k: Option<KeyPairModel>) -> bool {
    k matches Some(kp) && is_x25519_keypair(kp)
}

/// What Next does: each of the first four steps stores a fresh key pair of its kind,
/// logs the call and reports success; the last validates the identity public key,
/// reporting a missing identity key or the validation error and staying on the step
/// when that fails. Past the last step nothing changes.
pub open spec fn key_generation_next(old: KeyGenerationModel, new: KeyGenerationModel) -> bool {
    if old.step >= STEP_COUNT {
        new == old
    } else if old.step == 0 {
        &&& fresh_pair(new.identity)
        &&& new == KeyGenerationModel {
            step: 1,
            identity: new.identity,
            teach: old.teach.push("generate_identity_keypair() \u{2192} long-term X25519 identity"@),
            status: (StatusKind::Success, "Identity key created."@),
            ..old
        }
    } else if old.step == 1 {
        &&& fresh_pair(new.signed_prekey)
        &&& new == KeyGenerationModel {
            step: 2,
            signed_prekey: new.signed_prekey,
            teach: old.teach.push("generate_signed_prekey() \u{2192} medium-term SPK for Bob\u{2019}s bundle"@),
            status: (StatusKind::Success, "Signed prekey created."@),
            ..old
        }
    } else if old.step == 2 {
        &&& fresh_pair(new.one_time)
        &&& new == KeyGenerationModel {
            step: 3,
            one_time: new.one_time,
            teach: old.teach.push("generate_one_time_prekey() \u{2192} disposable OTPK (optional in X3DH)"@),
            status: (StatusKind::Success, "One-time prekey created."@),
            ..old
        }
    } else if old.step == 3 {
        &&& fresh_pair(new.ephemeral)
        &&& new == KeyGenerationModel {
            step: 4,
            ephemeral: new.ephemeral,
            teach: old.teach.push("generate_ephemeral_keypair() \u{2192} Alice\u{2019}s per-handshake ephemeral"@),
            status: (StatusKind::Success, "Ephemeral key created."@),
            ..old
        }
    } else {
        match old.identity {
            None => new == KeyGenerationModel { status: (StatusKind::Failure, "Missing identity key."@), ..old },
            Some(id) => match spec_validate_x25519_public_key(id.public_key) {
                Ok(_) => new == KeyGenerationModel {
                    step: 5,
                    teach: old.teach.push("validate_x25519_public_key(identity.pub) \u{2192} Ok"@),
                    status: (StatusKind::Success, "Identity public key is a valid X25519 key."@),
                    ..old
                },
                Err(e) => new == KeyGenerationModel { status: (StatusKind::Failure, display_text(e)), ..old },
            },
        }
    }
}

impl KeyGenerationWalkthrough {
    /// The walkthrough before its first step.
    pub fn new() -> (w: KeyGenerationWalkthrough)
        ensures
            w@ == key_generation_start(),
    {
        let w = KeyGenerationWalkthrough {
            step: 0,
            identity: None,
            signed_prekey: None,
            one_time: None,
            ephemeral: None,
            teach: Vec::new(),
            status: StatusMsg::info(text("Press Next to generate the identity key.")),
        };
        assert(lines(w.teach@) =~= Seq::<Seq<char>>::empty());
        w
    }

    /// Starts the walkthrough over.
    pub fn reset(&mut self)
        ensures
            final(self)@ == key_generation_start(),
    {
        *self = KeyGenerationWalkthrough::new();
    }

    /// Goes back one step, naming the step (counting from one) it goes back to; nothing
    /// happens on the first step.
    pub fn back(&mut self)
        requires
            old(self).step <= STEP_COUNT,
        ensures
            old(self).step == 0 ==> final(self)@ == old(self)@,
            old(self).step > 0 ==> final(self)@ == (KeyGenerationModel {
                step: (old(self).step - 1) as usize,
                status: (
                    StatusKind::Info,
                    "Back to step "@ + decimal_chars(old(self).step as nat) + ": "@
                        + key_generation_titles()[old(self).step - 1],
                ),
                ..old(self)@
            }),
    {
        if self.step == 0 {
            return;
        }
        let prev = self.step - 1;
        let steps = key_generation_steps();
        assert(steps@[prev as int].title@ == step_titles(steps@)[prev as int]);
        let mut message = String::from_str("Back to step ");
        push_decimal_str(&mut message, (prev + 1) as u64);
        message.append(": ");
        message.append(steps[prev].title);
        self.step = prev;
        self.status = StatusMsg::info(message);
    }

    /// Performs the current step.
    pub fn next(&mut self)
        ensures
            key_generation_next(old(self)@, final(self)@),
    {
        if self.step >= STEP_COUNT {
            return;
        }
        if self.step == 0 {
            self.identity = Some(generate_identity_keypair());
            push_line(&mut self.teach, text("generate_identity_keypair() \u{2192} long-term X25519 identity"));
            self.status = StatusMsg::ok(text("Identity key created."));
        } else if self.step == 1 {
            self.signed_prekey = Some(generate_signed_prekey());
            push_line(&mut self.teach, text("generate_signed_prekey() \u{2192} medium-term SPK for Bob\u{2019}s bundle"));
            self.status = StatusMsg::ok(text("Signed prekey created."));
        } else if self.step == 2 {
            self.one_time = Some(generate_one_time_prekey());
            push_line(&mut self.teach, text("generate_one_time_prekey() \u{2192} disposable OTPK (optional in X3DH)"));
            self.status = StatusMsg::ok(text("One-time prekey created."));
        } else if self.step == 3 {
            self.ephemeral = Some(generate_ephemeral_keypair());
            push_line(&mut self.teach, text("generate_ephemeral_keypair() \u{2192} Alice\u{2019}s per-handshake ephemeral"));
            self.status = StatusMsg::ok(text("Ephemeral key created."));
        } else {
            let checked = match &self.identity {
                None => None,
                Some(id) => Some(validate_x25519_public_key(id.public_key.as_slice())),
            };
            match checked {
                None => {
                    self.status = StatusMsg::err(text("Missing identity key."));
                    return;
                },
                Some(Ok(())) => {
                    push_line(&mut self.teach, text("validate_x25519_public_key(identity.pub) \u{2192} Ok"));
                    self.status = StatusMsg::ok(text("Identity public key is a valid X25519 key."));
                },
                Some(Err(e)) => {
                    self.status = StatusMsg::err(e.to_string());
                    return;
                },
            }
        }
        self.step = self.step + 1;
    }
}

} // verus!
