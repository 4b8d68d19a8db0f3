//! The X3DH walkthrough: Alice's keys, Bob's prekey bundle (with or without a one-time
//! prekey), Alice's side of the agreement, Bob's side, and the comparison of the two.
use vstd::prelude::*;
use crate::double_ratchet::opt_keypair;
use crate::encoding::{hex_preview, hex_preview_spec};
use crate::error::display_text;
use crate::gallery::edu::{
    back_message, lines, push_line, step_titles, step_whys, text, StatusKind,
    StatusModel, StatusMsg, StepDef, STEP_COUNT,
};
use crate::gallery::key_generation::fresh_pair;
use crate::keys::{
    generate_ephemeral_keypair, generate_identity_keypair, generate_one_time_prekey,
    generate_signed_prekey,
};
use crate::types::{KeyPair, KeyPairModel, X3DHResult};
use crate::primitives::x25519_public;
use crate::x3dh::{
    optional_public, spec_x3dh_initiate, spec_x3dh_respond, x3dh_initiate_internal, x3dh_respond_internal,
};

verus! {

/// The titles of the X3DH steps.
pub open spec fn x3dh_titles() -> Seq<Seq<char>> {
    seq!["Alice keys"@, "Bob bundle"@, "Alice initiate"@, "Bob respond"@, "Compare"@]
}

/// Why each X3DH step matters.
pub open spec fn x3dh_whys() -> Seq<Seq<char>> {
    seq![
        "Alice needs a long-term identity and a fresh ephemeral key that will never be reused."@,
        "Bob publishes identity + signed prekey (+ optional one-time prekey) so Alice can start a session offline."@,
        "Alice runs ECDH combinations (DH1\u{2013}DH3/DH4) and HKDF to derive the shared secret."@,
        "Bob runs the mirror ECDHs with his private keys and Alice\u{2019}s public ephemeral/identity."@,
        "Both sides must obtain identical shared_secret and associated_data \u{2014} that is the handshake success."@,
    ]
}

/// The steps of the X3DH walkthrough.
pub fn x3dh_steps() -> (steps: Vec<StepDef>)
    ensures
        steps@.len() == STEP_COUNT,
        step_titles(steps@) == x3dh_titles(),
        step_whys(steps@) == x3dh_whys(),
{
    let steps = vec![
        StepDef {
            title: "Alice keys",
            why: "Alice needs a long-term identity and a fresh ephemeral key that will never be reused.",
        },
        StepDef {
            title: "Bob bundle",
            why: "Bob publishes identity + signed prekey (+ optional one-time prekey) so Alice can start a session offline.",
        },
        StepDef {
            title: "Alice initiate",
            why: "Alice runs ECDH combinations (DH1\u{2013}DH3/DH4) and HKDF to derive the shared secret.",
        },
        StepDef {
            title: "Bob respond",
            why: "Bob runs the mirror ECDHs with his private keys and Alice\u{2019}s public ephemeral/identity.",
        },
        StepDef {
            title: "Compare",
            why: "Both sides must obtain identical shared_secret and associated_data \u{2014} that is the handshake success.",
        },
    ];
    assert(step_titles(steps@) =~= x3dh_titles());
    assert(step_whys(steps@) =~= x3dh_whys());
    steps
}

/// The state of the X3DH walkthrough; `use_otpk` says whether Bob's bundle carries a
/// one-time prekey.
pub struct X3dhWalkthrough {
    pub use_otpk: bool,
    pub step: usize,
    pub alice_id: Option<KeyPair>,
    pub alice_eph: Option<KeyPair>,
    pub bob_id: Option<KeyPair>,
    pub bob_spk: Option<KeyPair>,
    pub bob_otpk: Option<KeyPair>,
    pub alice_result: Option<X3DHResult>,
    pub bob_result: Option<X3DHResult>,
    pub teach: Vec<String>,
    pub status: StatusMsg,
}

/// What a contract says of the X3DH walkthrough.
pub struct X3dhWalkModel {
    pub use_otpk: bool,
    pub step: usize,
    pub alice_id: Option<KeyPairModel>,
    pub alice_eph: Option<KeyPairModel>,
    pub bob_id: Option<KeyPairModel>,
    pub bob_spk: Option<KeyPairModel>,
    pub bob_otpk: Option<KeyPairModel>,
    pub alice_result: Option<(Seq<u8>, Seq<u8>)>,
    pub bob_result: Option<(Seq<u8>, Seq<u8>)>,
    pub teach: Seq<Seq<char>>,
    pub status: StatusModel,
}

/// The model of an optional agreement outcome.
pub open spec fn opt_outcome(o: Option<X3DHResult>) -> Option<(Seq<u8>, Seq<u8>)> {
    match o {
        Some(r) => Some(r@),
        None => None,
    }
}

impl View for X3dhWalkthrough {
    type V = X3dhWalkModel;

    open spec fn view(&self) -> X3dhWalkModel {
        X3dhWalkModel {
            use_otpk: self.use_otpk,
            step: self.step,
            alice_id: opt_keypair(self.alice_id),
            alice_eph: opt_keypair(self.alice_eph),
            bob_id: opt_keypair(self.bob_id),
            bob_spk: opt_keypair(self.bob_spk),
            bob_otpk: opt_keypair(self.bob_otpk),
            alice_result: opt_outcome(self.alice_result),
            bob_result: opt_outcome(self.bob_result),
            teach: lines(self.teach@),
            status: self.status@,
        }
    }
}

/// The first status message: whether the one-time prekey is used, and what Next does.
pub open spec fn x3dh_greeting(use_otpk: bool) -> Seq<char> {
    "OTPK "@ + (if use_otpk {
        "enabled"@
    } else {
        "disabled"@
    }) + ": press Next to generate Alice\u{2019}s keys."@
}

/// The walkthrough before its first step.
pub open spec fn x3dh_start(use_otpk: bool) -> X3dhWalkModel {
    X3dhWalkModel {
        use_otpk,
        step: 0,
        alice_id: None,
        alice_eph: None,
        bob_id: None,
        bob_spk: None,
        bob_otpk: None,
        alice_result: None,
        bob_result: None,
        teach: Seq::empty(),
        status: (StatusKind::Info, x3dh_greeting(use_otpk)),
    }
}

/// The public key of an optional key pair.
pub open spec fn opt_public(k: Option<KeyPairModel>) -> Option<Seq<u8>> {
    match k {
        Some(kp) => Some(kp.public_key),
        None => None,
    }
}

/// The private key of an optional key pair.
pub open spec fn opt_private(k: Option<KeyPairModel>) -> Option<Seq<u8>> {
    match k {
        Some(kp) => Some(kp.private_key),
        None => None,
    }
}

/// Whether both outcomes are there and agree, when both are there.
pub open spec fn secrets_match_spec(a: Option<(Seq<u8>, Seq<u8>)>, b: Option<(Seq<u8>, Seq<u8>)>) -> Option<bool> {
    match (a, b) {
        (Some(x), Some(y)) => Some(x.0 == y.0 && x.1 == y.1),
        _ => None,
    }
}

/// Alice's outcome is the agreement on the current keys, all of them X25519 key pairs
/// (the one-time prekey, when there is one, too).
pub open spec fn alice_agreed(w: X3dhWalkModel) -> bool {
    &&& fresh_pair(w.alice_id)
    &&& fresh_pair(w.alice_eph)
    &&& fresh_pair(w.bob_id)
    &&& fresh_pair(w.bob_spk)
    &&& (w.bob_otpk is None || fresh_pair(w.bob_otpk))
    &&& spec_x3dh_initiate(
        w.alice_id->Some_0.private_key,
        w.alice_eph->Some_0.private_key,
        w.bob_id->Some_0.public_key,
        w.bob_spk->Some_0.public_key,
        opt_public(w.bob_otpk),
    ) matches Ok(r) && w.alice_result == Some(r)
}

/// The log lines of Alice's side of the agreement.
pub open spec fn initiate_lines(use_otpk: bool, shared_secret: Seq<u8>) -> Seq<Seq<char>> {
    seq![
        "DH1=ECDH(AliceIK_priv, BobSPK_pub)"@,
        "DH2=ECDH(AliceEK_priv, BobIK_pub)"@,
        "DH3=ECDH(AliceEK_priv, BobSPK_pub)"@,
    ] + (if use_otpk {
        seq!["DH4=ECDH(AliceEK_priv, BobOTPK_pub)"@]
    } else {
        Seq::empty()
    }) + seq!["HKDF \u{2192} Alice shared_secret="@ + hex_preview_spec(shared_secret, 24)]
}

/// What Next does on each step: generate Alice's keys; generate Bob's bundle; run
/// Alice's side; run Bob's side; compare. A step that finds what it needs missing, or
/// whose agreement fails, reports it and stays; past the last step nothing changes.
pub open spec fn x3dh_next(old: X3dhWalkModel, new: X3dhWalkModel) -> bool {
    if old.step >= STEP_COUNT {
        new == old
    } else if old.step == 0 {
        &&& fresh_pair(new.alice_id)
        &&& fresh_pair(new.alice_eph)
        &&& new == X3dhWalkModel {
            step: 1,
            alice_id: new.alice_id,
            alice_eph: new.alice_eph,
            teach: old.teach.push("Alice: identity + ephemeral generated"@),
            status: (StatusKind::Success, "Alice\u{2019}s keys ready."@),
            ..old
        }
    } else if old.step == 1 {
        &&& fresh_pair(new.bob_id)
        &&& fresh_pair(new.bob_spk)
        &&& (if old.use_otpk {
            fresh_pair(new.bob_otpk)
        } else {
            new.bob_otpk is None
        })
        &&& new == X3dhWalkModel {
            step: 2,
            bob_id: new.bob_id,
            bob_spk: new.bob_spk,
            bob_otpk: new.bob_otpk,
            teach: old.teach.push(
                if old.use_otpk {
                    "Bob bundle: identity + SPK + OTPK published"@
                } else {
                    "Bob bundle: identity + SPK (no OTPK) published"@
                },
            ),
            status: (StatusKind::Success, "Bob\u{2019}s prekey bundle ready."@),
            ..old
        }
    } else if old.step == 2 || old.step == 3 {
        if old.alice_id is None || old.alice_eph is None || old.bob_id is None || old.bob_spk is None {
            new == X3dhWalkModel { status: (StatusKind::Failure, "Generate keys first."@), ..old }
        } else if old.step == 2 {
            match spec_x3dh_initiate(
                old.alice_id->Some_0.private_key,
                old.alice_eph->Some_0.private_key,
                old.bob_id->Some_0.public_key,
                old.bob_spk->Some_0.public_key,
                opt_public(old.bob_otpk),
            ) {
                Ok(r) => new == X3dhWalkModel {
                    step: 3,
                    alice_result: Some(r),
                    teach: old.teach + initiate_lines(old.use_otpk, r.0),
                    status: (StatusKind::Success, "Alice derived the shared secret."@),
                    ..old
                },
                Err(e) => new == X3dhWalkModel {
                    status: (StatusKind::Failure, "initiate: "@ + display_text(e)),
                    ..old
                },
            }
        } else {
            match spec_x3dh_respond(
                old.bob_id->Some_0.private_key,
                old.bob_spk->Some_0.private_key,
                opt_private(old.bob_otpk),
                old.alice_id->Some_0.public_key,
                old.alice_eph->Some_0.public_key,
            ) {
                Ok(r) => new == X3dhWalkModel {
                    step: 4,
                    bob_result: Some(r),
                    teach: old.teach.push("Bob mirror ECDHs + HKDF \u{2192} Bob shared_secret"@).push(
                        "Bob shared_secret="@ + hex_preview_spec(r.0, 24),
                    ),
                    status: (StatusKind::Success, "Bob derived the shared secret."@),
                    ..old
                },
                Err(e) => new == X3dhWalkModel {
                    status: (StatusKind::Failure, "respond: "@ + display_text(e)),
                    ..old
                },
            }
        }
    } else {
        match secrets_match_spec(old.alice_result, old.bob_result) {
            Some(true) => new == X3dhWalkModel {
                step: 5,
                teach: old.teach.push("Compare: shared_secret and AD match on both sides"@),
                status: (StatusKind::Success, "Handshake success \u{2014} identical secrets."@),
                ..old
            },
            Some(false) => new == X3dhWalkModel { status: (StatusKind::Failure, "Secrets did not match."@), ..old },
            None => new == X3dhWalkModel {
                status: (StatusKind::Failure, "Run initiate and respond first."@),
                ..old
            },
        }
    }
}

/// A byte string followed by the preview of another's hexadecimal encoding.
fn with_preview(prefix: &str, bytes: &[u8], max: usize) -> (s: String)
    ensures
        s@ == prefix@ + hex_preview_spec(bytes@, max as nat),
{
    let mut s = text(prefix);
    let preview = hex_preview(bytes, max);
    s.append(preview.as_str());
    s
}

impl X3dhWalkthrough {
    /// The walkthrough before its first step.
    pub fn new(use_otpk: bool) -> (w: X3dhWalkthrough)
        ensures
            w@ == x3dh_start(use_otpk),
    {
        let mut greeting = text("OTPK ");
        if use_otpk {
            greeting.append("enabled");
        } else {
            greeting.append("disabled");
        }
        greeting.append(": press Next to generate Alice\u{2019}s keys.");
        let w = X3dhWalkthrough {
            use_otpk,
            step: 0,
            alice_id: None,
            alice_eph: None,
            bob_id: None,
            bob_spk: None,
            bob_otpk: None,
            alice_result: None,
            bob_result: None,
            teach: Vec::new(),
            status: StatusMsg::info(greeting),
        };
        assert(lines(w.teach@) =~= Seq::<Seq<char>>::empty());
        w
    }

    /// Starts the walkthrough over, keeping the choice of one-time prekey.
    pub fn reset(&mut self)
        ensures
            final(self)@ == x3dh_start(old(self).use_otpk),
    {
        *self = X3dhWalkthrough::new(self.use_otpk);
    }

    /// Whether the two shared secrets and associated data match, once both are there.
    pub fn secrets_match(&self) -> (m: Option<bool>)
        ensures
            m == secrets_match_spec(self@.alice_result, self@.bob_result),
    {
        match (&self.alice_result, &self.bob_result) {
            (Some(a), Some(b)) => Some(
                crate::encoding::bytes_equal(a.shared_secret.as_slice(), b.shared_secret.as_slice())
                    && crate::encoding::bytes_equal(a.associated_data.as_slice(), b.associated_data.as_slice()),
            ),
            _ => None,
        }
    }

    /// Goes back one step, naming the step it goes back to; nothing happens on the first
    /// step.
    pub fn back(&mut self)
        requires
            old(self).step <= STEP_COUNT,
        ensures
            old(self).step == 0 ==> final(self)@ == old(self)@,
            old(self).step > 0 ==> final(self)@ == (X3dhWalkModel {
                step: (old(self).step - 1) as usize,
                status: (StatusKind::Info, "Back to: "@ + x3dh_titles()[old(self).step - 1]),
                ..old(self)@
            }),
    {
        if self.step == 0 {
            return;
        }
        let prev = self.step - 1;
        let steps = x3dh_steps();
        assert(steps@[prev as int].title@ == step_titles(steps@)[prev as int]);
        self.step = prev;
        self.status = back_message(steps[prev].title);
    }

    /// Performs the current step.
    pub fn next(&mut self)
        ensures
            x3dh_next(old(self)@, final(self)@),
            old(self)@.step == 2 && final(self)@.step == 3 && fresh_pair(old(self)@.alice_id) && fresh_pair(
                old(self)@.alice_eph,
            ) && fresh_pair(old(self)@.bob_id) && fresh_pair(old(self)@.bob_spk) && (old(self)@.bob_otpk is None
                || fresh_pair(old(self)@.bob_otpk)) ==> alice_agreed(final(self)@),
            old(self)@.step == 3 && final(self)@.step == 4 && alice_agreed(old(self)@) ==> secrets_match_spec(
                final(self)@.alice_result,
                final(self)@.bob_result,
            ) == Some(true),
    {
        let ghost start = self@;
        if self.step >= STEP_COUNT {
            return;
        }
        if self.step == 0 {
            self.alice_id = Some(generate_identity_keypair());
            self.alice_eph = Some(generate_ephemeral_keypair());
            push_line(&mut self.teach, text("Alice: identity + ephemeral generated"));
            self.status = StatusMsg::ok(text("Alice\u{2019}s keys ready."));
        } else if self.step == 1 {
            self.bob_id = Some(generate_identity_keypair());
            self.bob_spk = Some(generate_signed_prekey());
            self.bob_otpk = if self.use_otpk {
                Some(generate_one_time_prekey())
            } else {
                None
            };
            if self.use_otpk {
                push_line(&mut self.teach, text("Bob bundle: identity + SPK + OTPK published"));
            } else {
                push_line(&mut self.teach, text("Bob bundle: identity + SPK (no OTPK) published"));
            }
            self.status = StatusMsg::ok(text("Bob\u{2019}s prekey bundle ready."));
        } else if self.step == 2 || self.step == 3 {
            let outcome = match (&self.alice_id, &self.alice_eph, &self.bob_id, &self.bob_spk) {
                (Some(alice_id), Some(alice_eph), Some(bob_id), Some(bob_spk)) => {
                    if self.step == 2 {
                        let otpk: Option<&[u8]> = match &self.bob_otpk {
                            Some(k) => Some(k.public_key.as_slice()),
                            None => None,
                        };
                        Some(x3dh_initiate_internal(
                            alice_id.private_key.as_slice(),
                            alice_eph.private_key.as_slice(),
                            bob_id.public_key.as_slice(),
                            bob_spk.public_key.as_slice(),
                            otpk,
                        ))
                    } else {
                        let otpk: Option<&[u8]> = match &self.bob_otpk {
                            Some(k) => Some(k.private_key.as_slice()),
                            None => None,
                        };
                        Some(x3dh_respond_internal(
                            bob_id.private_key.as_slice(),
                            bob_spk.private_key.as_slice(),
                            otpk,
                            alice_id.public_key.as_slice(),
                            alice_eph.public_key.as_slice(),
                        ))
                    }
                },
                _ => None,
            };
            match outcome {
                None => {
                    self.status = StatusMsg::err(text("Generate keys first."));
                    return;
                },
                Some(Err(e)) => {
                    let side = if self.step == 2 {
                        "initiate: "
                    } else {
                        "respond: "
                    };
                    let mut message = text(side);
                    message.append(e.to_string().as_str());
                    self.status = StatusMsg::err(message);
                    return;
                },
                Some(Ok(r)) => {
                    if self.step == 2 {
                        let ghost before = self@.teach;
                        push_line(&mut self.teach, text("DH1=ECDH(AliceIK_priv, BobSPK_pub)"));
                        push_line(&mut self.teach, text("DH2=ECDH(AliceEK_priv, BobIK_pub)"));
                        push_line(&mut self.teach, text("DH3=ECDH(AliceEK_priv, BobSPK_pub)"));
                        if self.use_otpk {
                            push_line(&mut self.teach, text("DH4=ECDH(AliceEK_priv, BobOTPK_pub)"));
                        }
                        push_line(
                            &mut self.teach,
                            with_preview("HKDF \u{2192} Alice shared_secret=", r.shared_secret.as_slice(), 24),
                        );
                        assert(self@.teach =~= before + initiate_lines(self.use_otpk, r@.0));
                        self.alice_result = Some(r);
                        self.status = StatusMsg::ok(text("Alice derived the shared secret."));
                    } else {
                        proof {
                            if alice_agreed(start) {
                                let a = start.alice_id->Some_0;
                                let e = start.alice_eph->Some_0;
                                let b = start.bob_id->Some_0;
                                let spk = start.bob_spk->Some_0;
                                assert(x25519_public(a.private_key) == a.public_key);
                                assert(x25519_public(e.private_key) == e.public_key);
                                assert(x25519_public(b.private_key) == b.public_key);
                                assert(x25519_public(spk.private_key) == spk.public_key);
                                assert(optional_public(opt_private(start.bob_otpk)) == opt_public(start.bob_otpk));
                            }
                        }
                        push_line(&mut self.teach, text("Bob mirror ECDHs + HKDF \u{2192} Bob shared_secret"));
                        push_line(&mut self.teach, with_preview("Bob shared_secret=", r.shared_secret.as_slice(), 24));
                        self.bob_result = Some(r);
                        self.status = StatusMsg::ok(text("Bob derived the shared secret."));
                    }
                },
            }
        } else {
            match self.secrets_match() {
                Some(true) => {
                    push_line(&mut self.teach, text("Compare: shared_secret and AD match on both sides"));
                    self.status = StatusMsg::ok(text("Handshake success \u{2014} identical secrets."));
                },
                Some(false) => {
                    self.status = StatusMsg::err(text("Secrets did not match."));
                    return;
                },
                None => {
                    self.status = StatusMsg::err(text("Run initiate and respond first."));
                    return;
                },
            }
        }
        self.step = self.step + 1;
    }
}

} // verus!
