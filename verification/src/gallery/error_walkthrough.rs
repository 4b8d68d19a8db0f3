//! The error walkthrough: five intentional failures, each reported with the error the
//! library gives (a short public key, X3DH with a truncated prekey, a short root secret,
//! a tampered ciphertext, a signature checked under the wrong key).
use vstd::prelude::*;
use crate::crypto::{
    sign_data_internal, spec_validate_x25519_public_key, spec_verify_signature,
    validate_x25519_public_key, verify_signature_internal,
};
use crate::double_ratchet::{
    authenticated, double_ratchet_decrypt_internal, double_ratchet_encrypt_internal, opens_to,
    spec_decrypt, spec_decrypt_key, spec_encrypt, spec_initialize, MessageModel,
};
use crate::error::{display_text, result_view, ErrorKind, ErrorModel};
use crate::gallery::edu::{
    back_message, filled_bytes, lines, push_line, step_titles, step_whys, text, StatusKind,
    StatusModel, StatusMsg, StepDef, STEP_COUNT,
};
use crate::keys::{generate_identity_keypair, is_x25519_keypair};
use crate::primitives::ed25519_signature;
use crate::session_laws::{law_first_message_opens, law_forged_tag_refused, with_tag};
use crate::types::KeyPairModel;
use crate::x3dh::{spec_x3dh_initiate, x3dh_initiate_internal};

verus! {

/// The titles of the error steps.
pub open spec fn error_titles() -> Seq<Seq<char>> {
    seq!["Bad pubkey"@, "X3DH bad prekey"@, "DR bad secret"@, "Tampered CT"@, "Wrong verify key"@]
}

/// Why each error step matters.
pub open spec fn error_whys() -> Seq<Seq<char>> {
    seq![
        "X25519 public keys must be 32 bytes. Shorter material is rejected before any ECDH."@,
        "Feeding a truncated signed-prekey public key into X3DH should fail key agreement."@,
        "Double Ratchet root secrets must be exactly 32 bytes (the X3DH output length)."@,
        "AEAD authentication detects ciphertext flips \u{2014} decrypt must fail."@,
        "A signature created with one key must not verify under a different public key."@,
    ]
}

/// The steps of the error walkthrough.
pub fn error_steps() -> (steps: Vec<StepDef>)
    ensures
        steps@.len() == STEP_COUNT,
        step_titles(steps@) == error_titles(),
        step_whys(steps@) == error_whys(),
{
    let steps = vec![
        StepDef {
            title: "Bad pubkey",
            why: "X25519 public keys must be 32 bytes. Shorter material is rejected before any ECDH.",
        },
        StepDef {
            title: "X3DH bad prekey",
            why: "Feeding a truncated signed-prekey public key into X3DH should fail key agreement.",
        },
        StepDef {
            title: "DR bad secret",
            why: "Double Ratchet root secrets must be exactly 32 bytes (the X3DH output length).",
        },
        StepDef { title: "Tampered CT", why: "AEAD authentication detects ciphertext flips \u{2014} decrypt must fail." },
        StepDef {
            title: "Wrong verify key",
            why: "A signature created with one key must not verify under a different public key.",
        },
    ];
    assert(step_titles(steps@) =~= error_titles());
    assert(step_whys(steps@) =~= error_whys());
    steps
}

/// The state of the error walkthrough: the step, the log of operations, the errors
/// observed so far and the status.
pub struct ErrorWalkthrough {
    pub step: usize,
    pub teach: Vec<String>,
    pub results: Vec<String>,
    pub status: StatusMsg,
}

/// What a contract says of the error walkthrough.
pub struct ErrorWalkModel {
    pub step: usize,
    pub teach: Seq<Seq<char>>,
    pub results: Seq<Seq<char>>,
    pub status: StatusModel,
}

impl View for ErrorWalkthrough {
    type V = ErrorWalkModel;

    open spec fn view(&self) -> ErrorWalkModel {
        ErrorWalkModel { step: self.step, teach: lines(self.teach@), results: lines(self.results@), status: self.status@ }
    }
}

/// The walkthrough before its first step.
pub open spec fn error_start() -> ErrorWalkModel {
    ErrorWalkModel {
        step: 0,
        teach: Seq::empty(),
        results: Seq::empty(),
        status: (StatusKind::Info, "Press Next to trigger the first intentional failure."@),
    }
}

/// The line reporting an operation that was meant to fail: `unexpected Ok` when it
/// succeeded, else the prefix and the error.
pub open spec fn failure_line<T>(r: Result<T, ErrorModel>, prefix: Seq<char>) -> Seq<char> {
    match r {
        Ok(_) => "unexpected Ok"@,
        Err(e) => prefix + display_text(e),
    }
}

/// The plaintext that gets tampered with: the ASCII bytes of `tamper me`.
pub open spec fn tamper_me() -> Seq<u8> {
    seq![116u8, 97u8, 109u8, 112u8, 101u8, 114u8, 32u8, 109u8, 101u8]
}

/// The data that gets signed: the ASCII bytes of `bundle-signature`.
pub open spec fn bundle_signature() -> Seq<u8> {
    seq![98u8, 117u8, 110u8, 100u8, 108u8, 101u8, 45u8, 115u8, 105u8, 103u8, 110u8, 97u8, 116u8, 117u8, 114u8, 101u8]
}

/// The truncated prekey of the X3DH step: eight zero bytes.
pub open spec fn short_prekey() -> Seq<u8> {
    Seq::new(8, |i: int| 0u8)
}

/// A ciphertext with its last byte flipped.
pub open spec fn tampered(c: Seq<u8>) -> Seq<u8> {
    if c.len() > 0 {
        c.update(c.len() - 1, c[c.len() - 1] ^ 0xffu8)
    } else {
        c
    }
}

/// The outcome of the tampering step: two sessions start from thirty-two bytes of 7,
/// Alice (with ratchet key pair `alice_kp`) encrypts `tamper me` with `nonce`, the last
/// ciphertext byte is flipped, and Bob decrypts with `bob_kp` for his ratchet step.
pub open spec fn tamper_outcome(alice_kp: KeyPairModel, nonce: Seq<u8>, bob_kp: KeyPairModel) -> Result<Seq<u8>, ErrorModel> {
    let root = Seq::new(32, |i: int| 7u8);
    let alice = spec_initialize(root, true, alice_kp)->Ok_0;
    let bob = spec_initialize(root, false, alice_kp)->Ok_0;
    let m = spec_encrypt(alice, tamper_me(), nonce).1->Ok_0;
    let flipped = MessageModel { ciphertext: tampered(m.ciphertext), ..m };
    spec_decrypt(bob, flipped, bob_kp).1
}

/// The report of the tampering step.
pub open spec fn tamper_line(alice_kp: KeyPairModel, nonce: Seq<u8>, bob_kp: KeyPairModel) -> Seq<char> {
    failure_line(tamper_outcome(alice_kp, nonce, bob_kp), "decrypt tampered \u{2192} "@)
}

/// The report of verifying a signature made with one key under another key's public key.
pub open spec fn wrong_key_line(verified: Result<bool, ErrorModel>) -> Seq<char> {
    match verified {
        Ok(true) => "unexpected verify true"@,
        Ok(false) => "verify returned false (wrong key) \u{2014} expected"@,
        Err(e) => "verify_signature \u{2192} "@ + display_text(e),
    }
}

/// A step's report: the line goes to the observed errors and to the status, and the
/// explanation to the log; the walkthrough moves on.
pub open spec fn reported(old: ErrorWalkModel, explanation: Seq<char>, line: Seq<char>) -> ErrorWalkModel {
    ErrorWalkModel {
        step: (old.step + 1) as usize,
        teach: old.teach.push(explanation),
        results: old.results.push(line),
        status: (StatusKind::Success, line),
    }
}

/// What Next does on each step: trigger the step's failure and report it; past the
/// last step nothing changes.
pub open spec fn error_next(old: ErrorWalkModel, new: ErrorWalkModel) -> bool {
    if old.step >= STEP_COUNT {
        new == old
    } else if old.step == 0 {
        new == reported(
            old,
            "Reject non-32-byte public key before ECDH"@,
            failure_line(spec_validate_x25519_public_key(seq![1u8, 2u8, 3u8]), "validate_x25519_public_key \u{2192} "@),
        )
    } else if old.step == 1 {
        exists|alice: KeyPairModel, eph: KeyPairModel, bob: KeyPairModel|
            is_x25519_keypair(alice) && is_x25519_keypair(eph) && is_x25519_keypair(bob) && new == #[trigger] reported(
                old,
                "X3DH cannot ECDH with a truncated SPK public key"@,
                failure_line(
                    spec_x3dh_initiate(alice.private_key, eph.private_key, bob.public_key, short_prekey(), None),
                    "x3dh_initiate (short SPK) \u{2192} "@,
                ),
            )
    } else if old.step == 2 {
        new == reported(
            old,
            "DR root must be 32 bytes (X3DH shared secret length)"@,
            failure_line(
                spec_initialize(Seq::new(16, |i: int| 0u8), true, KeyPairModel { public_key: Seq::empty(), private_key: Seq::empty() }),
                "DR init short secret \u{2192} "@,
            ),
        )
    } else if old.step == 3 {
        exists|alice_kp: KeyPairModel, nonce: Seq<u8>, bob_kp: KeyPairModel|
            is_x25519_keypair(alice_kp) && nonce.len() == 12 && is_x25519_keypair(bob_kp) && new == #[trigger] reported(
                old,
                "Flip one ciphertext byte \u{2192} AEAD auth failure"@,
                tamper_line(alice_kp, nonce, bob_kp),
            ) && (tamper_outcome(alice_kp, nonce, bob_kp) matches Err(e) && e.0 == ErrorKind::Decryption)
    } else {
        exists|signer: KeyPairModel, other: KeyPairModel|
            is_x25519_keypair(signer) && is_x25519_keypair(other) && new == #[trigger] reported(
                old,
                "Signature over data must bind to the signer\u{2019}s public key"@,
                wrong_key_line(
                    spec_verify_signature(
                        other.public_key,
                        ed25519_signature(signer.private_key, bundle_signature()),
                        bundle_signature(),
                    ),
                ),
            )
    }
}

/// The report line of a result meant to be an error.
fn report_failure<T>(r: &Result<T, crate::error::SignalError>, prefix: &str) -> (s: String)
    ensures
        s@ == failure_line(
            match r {
                Ok(_) => Ok::<(), ErrorModel>(()),
                Err(e) => Err(e@),
            },
            prefix@,
        ),
{
    match r {
        Ok(_) => text("unexpected Ok"),
        Err(e) => {
            let mut s = text(prefix);
            s.append(e.to_string().as_str());
            s
        },
    }
}

impl ErrorWalkthrough {
    /// The walkthrough before its first step.
    pub fn new() -> (w: ErrorWalkthrough)
        ensures
            w@ == error_start(),
    {
        let w = ErrorWalkthrough {
            step: 0,
            teach: Vec::new(),
            results: Vec::new(),
            status: StatusMsg::info(text("Press Next to trigger the first intentional failure.")),
        };
        assert(lines(w.teach@) =~= Seq::<Seq<char>>::empty());
        assert(lines(w.results@) =~= Seq::<Seq<char>>::empty());
        w
    }

    /// Starts the walkthrough over.
    pub fn reset(&mut self)
        ensures
            final(self)@ == error_start(),
    {
        *self = ErrorWalkthrough::new();
    }

    /// Goes back one step, naming the step it goes back to; nothing happens on the first
    /// step.
    pub fn back(&mut self)
        requires
            old(self).step <= STEP_COUNT,
        ensures
            old(self).step == 0 ==> final(self)@ == old(self)@,
            old(self).step > 0 ==> final(self)@ == (ErrorWalkModel {
                step: (old(self).step - 1) as usize,
                status: (StatusKind::Info, "Back to: "@ + error_titles()[old(self).step - 1]),
                ..old(self)@
            }),
    {
        if self.step == 0 {
            return;
        }
        let prev = self.step - 1;
        let steps = error_steps();
        assert(steps@[prev as int].title@ == step_titles(steps@)[prev as int]);
        self.step = prev;
        self.status = back_message(steps[prev].title);
    }

    /// Reports the step's failure and moves on.
    fn report(&mut self, explanation: String, line: String)
        requires
            old(self).step < STEP_COUNT,
        ensures
            final(self)@ == reported(old(self)@, explanation@, line@),
    {
        push_line(&mut self.teach, explanation);
        push_line(&mut self.results, line.clone());
        self.status = StatusMsg::ok(line);
        self.step = self.step + 1;
    }

    /// Performs the current step.
    pub fn next(&mut self)
        ensures
            error_next(old(self)@, final(self)@),
    {
        if self.step >= STEP_COUNT {
            return;
        }
        if self.step == 0 {
            let bad: Vec<u8> = vec![1u8, 2u8, 3u8];
            assert(bad@ =~= seq![1u8, 2u8, 3u8]);
            let r = validate_x25519_public_key(bad.as_slice());
            let line = report_failure(&r, "validate_x25519_public_key \u{2192} ");
            self.report(text("Reject non-32-byte public key before ECDH"), line);
        } else if self.step == 1 {
            let alice = generate_identity_keypair();
            let eph = generate_identity_keypair();
            let bob = generate_identity_keypair();
            let short = filled_bytes(0u8, 8);
            assert(short@ =~= short_prekey());
            let r = x3dh_initiate_internal(
                alice.private_key.as_slice(),
                eph.private_key.as_slice(),
                bob.public_key.as_slice(),
                short.as_slice(),
                None,
            );
            let line = report_failure(&r, "x3dh_initiate (short SPK) \u{2192} ");
            let ghost old_model = self@;
            self.report(text("X3DH cannot ECDH with a truncated SPK public key"), line);
            assert(self@ == reported(
                old_model,
                "X3DH cannot ECDH with a truncated SPK public key"@,
                failure_line(
                    spec_x3dh_initiate(alice@.private_key, eph@.private_key, bob@.public_key, short_prekey(), None),
                    "x3dh_initiate (short SPK) \u{2192} "@,
                ),
            ));
        } else if self.step == 2 {
            let short = filled_bytes(0u8, 16);
            let r = crate::double_ratchet::initialize_double_ratchet_internal(short.as_slice(), true);
            let line = report_failure(&r, "DR init short secret \u{2192} ");
            self.report(text("DR root must be 32 bytes (X3DH shared secret length)"), line);
        } else if self.step == 3 {
            let root = filled_bytes(7u8, 32);
            let started_alice = crate::double_ratchet::initialize_double_ratchet_internal(root.as_slice(), true);
            let started_bob = crate::double_ratchet::initialize_double_ratchet_internal(root.as_slice(), false);
            let mut alice = match started_alice {
                Ok(s) => s,
                Err(e) => {
                    let mut message = text("setup failed: ");
                    message.append(e.to_string().as_str());
                    self.status = StatusMsg::err(message);
                    return;
                },
            };
            let mut bob = match started_bob {
                Ok(s) => s,
                Err(e) => {
                    let mut message = text("setup failed: ");
                    message.append(e.to_string().as_str());
                    self.status = StatusMsg::err(message);
                    return;
                },
            };
            let ghost alice_start = alice@;
            let ghost bob_start = bob@;
            let ghost alice_kp = choose|kp: KeyPairModel|
                is_x25519_keypair(kp) && #[trigger] spec_initialize(root@, true, kp) == Ok::<
                    crate::double_ratchet::RatchetModel,
                    ErrorModel,
                >(alice_start);
            let body: Vec<u8> = vec![116u8, 97u8, 109u8, 112u8, 101u8, 114u8, 32u8, 109u8, 101u8];
            assert(body@ =~= tamper_me());
            let sealed = double_ratchet_encrypt_internal(&mut alice, body.as_slice());
            let ghost nonce = choose|n: Seq<u8>|
                n.len() == 12 && #[trigger] spec_encrypt(alice_start, body@, n) == (alice@, result_view(sealed));
            let mut msg = match sealed {
                Ok(m) => m,
                Err(e) => {
                    let mut message = text("encrypt failed: ");
                    message.append(e.to_string().as_str());
                    self.status = StatusMsg::err(message);
                    return;
                },
            };
            let ghost original = msg@;
            if msg.ciphertext.len() > 0 {
                let last = msg.ciphertext.len() - 1;
                let b = msg.ciphertext[last];
                msg.ciphertext.set(last, b ^ 0xffu8);
            }
            assert(msg@ == (MessageModel { ciphertext: tampered(original.ciphertext), ..original }));
            let opened = double_ratchet_decrypt_internal(&mut bob, &msg);
            let ghost bob_kp = choose|kp: KeyPairModel|
                is_x25519_keypair(kp) && #[trigger] spec_decrypt(bob_start, msg@, kp) == (bob@, result_view(opened))
                    && (forall|n: Seq<u8>, p: Seq<u8>|
                    #[trigger] opens_to(spec_decrypt_key(bob_start, msg@, kp).1, msg@, n, p) ==> result_view(opened)
                        == Ok::<Seq<u8>, ErrorModel>(p)) && authenticated(spec_decrypt_key(bob_start, msg@, kp).1, msg@, result_view(opened));
            proof {
                let c = original.ciphertext;
                let last = c[c.len() - 1];
                let tag = c.subrange(c.len() - 16, c.len() as int);
                let forged = tag.update(15, last ^ 0xffu8);
                assert((last ^ 0xffu8) != last) by (bit_vector);
                assert(forged[15] != tag[15]);
                assert(msg@ == with_tag(original, forged)) by {
                    assert(msg@.ciphertext =~= with_tag(original, forged).ciphertext);
                }
                assert(spec_initialize(root@, false, alice_kp) == spec_initialize(root@, false, bob_kp));
                law_first_message_opens(root@, alice_kp, bob_kp, tamper_me(), nonce);
                law_forged_tag_refused(bob_start, original, bob_kp, nonce, tamper_me(), forged);
            }
            let line = report_failure(&opened, "decrypt tampered \u{2192} ");
            let ghost old_model = self@;
            self.report(text("Flip one ciphertext byte \u{2192} AEAD auth failure"), line);
            assert(spec_initialize(root@, false, alice_kp) == Ok::<crate::double_ratchet::RatchetModel, ErrorModel>(bob_start));
            assert(root@ =~= Seq::new(32, |i: int| 7u8));
            assert(self@ == reported(
                old_model,
                "Flip one ciphertext byte \u{2192} AEAD auth failure"@,
                tamper_line(alice_kp, nonce, bob_kp),
            ));
        } else {
            let signer = generate_identity_keypair();
            let other = generate_identity_keypair();
            let data: Vec<u8> = vec![98u8, 117u8, 110u8, 100u8, 108u8, 101u8, 45u8, 115u8, 105u8, 103u8, 110u8, 97u8, 116u8, 117u8, 114u8, 101u8];
            assert(data@ =~= bundle_signature());
            let sig = match sign_data_internal(signer.private_key.as_slice(), data.as_slice()) {
                Ok(s) => s,
                Err(e) => {
                    let mut message = text("sign failed: ");
                    message.append(e.to_string().as_str());
                    self.status = StatusMsg::err(message);
                    return;
                },
            };
            let line = match verify_signature_internal(other.public_key.as_slice(), sig.as_slice(), data.as_slice()) {
                Ok(true) => text("unexpected verify true"),
                Ok(false) => text("verify returned false (wrong key) \u{2014} expected"),
                Err(e) => {
                    let mut s = text("verify_signature \u{2192} ");
                    s.append(e.to_string().as_str());
                    s
                },
            };
            let ghost old_model = self@;
            self.report(text("Signature over data must bind to the signer\u{2019}s public key"), line);
            assert(self@ == reported(
                old_model,
                "Signature over data must bind to the signer\u{2019}s public key"@,
                wrong_key_line(
                    spec_verify_signature(
                        other@.public_key,
                        ed25519_signature(signer@.private_key, bundle_signature()),
                        bundle_signature(),
                    ),
                ),
            ));
        }
    }
}

} // verus!
