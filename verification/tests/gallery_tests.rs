use signal_protocol::double_ratchet::{initialize_double_ratchet_internal, DoubleRatchetState};
use signal_protocol::gallery::edu::{
    counter_card_lines, demo_root, filled_bytes, hex_field_value, labeled_value, match_chip_text, LabeledBytes,
    private_toggle_label, step_controls, step_header, step_list_entry, StatusKind, StatusMsg, StepProgress,
};
use signal_protocol::gallery::error_walkthrough::{error_steps, ErrorWalkthrough};
use signal_protocol::gallery::key_generation::{key_generation_steps, KeyGenerationWalkthrough};
use signal_protocol::gallery::ratchet_walkthrough::{chain_flag, counter_props, RatchetWalkthrough};
use signal_protocol::gallery::session_walkthrough::SessionWalkthrough;
use signal_protocol::gallery::skipped_walkthrough::SkippedWalkthrough;
use signal_protocol::gallery::x3dh_walkthrough::X3dhWalkthrough;

fn assert_status(status: &StatusMsg, kind: StatusKind, text: &str) {
    assert_eq!(status.kind, kind);
    assert_eq!(status.text, text);
}

#[test]
fn status_messages_and_panel_texts() {
    assert_status(&StatusMsg::info("a".to_string()), StatusKind::Info, "a");
    assert_status(&StatusMsg::ok("b".to_string()), StatusKind::Success, "b");
    assert_status(&StatusMsg::err("c".to_string()), StatusKind::Failure, "c");
    assert_eq!(hex_field_value(&None, false, false), "\u{2014}");
    assert_eq!(
        hex_field_value(&Some(vec![0xab; 2]), false, true),
        "\u{2022}\u{2022}\u{2022}\u{2022} (hidden \u{2014} toggle Show private keys)"
    );
    assert_eq!(hex_field_value(&Some(vec![0xab; 2]), true, true), "abab");
    assert_eq!(hex_field_value(&Some(vec![0x01; 30]), false, false), format!("{}\u{2026}", "01".repeat(20)));
    let field = LabeledBytes { label: "Identity (private)".to_string(), bytes: Some(vec![1, 2]), is_private: true };
    assert_eq!(labeled_value(&field, true), "0102");
    assert!(labeled_value(&field, false).starts_with("\u{2022}"));
    assert_eq!(match_chip_text("Secrets match", None), "Secrets match: \u{2014}");
    assert_eq!(match_chip_text("OTPK used", Some(true)), "OTPK used: YES");
    assert_eq!(match_chip_text("OTPK used", Some(false)), "OTPK used: NO");
    assert_eq!(private_toggle_label(true), "Hide private keys");
    assert_eq!(private_toggle_label(false), "Show private keys");
    let (a, b) = counter_card_lines("1", "2", "3", "yes", "no");
    assert_eq!(a, "send_n=1  recv_n=2  skipped=3");
    assert_eq!(b, "sending_chain=yes  receiving_chain=no");
    assert_eq!(chain_flag(true), "yes");
    assert_eq!(chain_flag(false), "no");
    assert_eq!(demo_root(0x42, 0x24).len(), 32);
    assert_eq!(demo_root(0x42, 0x24)[0], 0x42);
    assert_eq!(demo_root(0x42, 0x24)[31], 0x24);
    assert_eq!(filled_bytes(7, 3), vec![7, 7, 7]);
}

#[test]
fn step_list_and_header() {
    let steps = key_generation_steps();
    assert_eq!(steps.len(), 5);
    assert_eq!(step_controls(0, "Next"), (false, true, "Next".to_string()));
    assert_eq!(step_controls(3, "Next failure"), (true, true, "Next failure".to_string()));
    assert_eq!(step_controls(5, "Next"), (true, false, "Done".to_string()));
    let (label, progress) = step_list_entry(0, steps[0].title, 1);
    assert_eq!(label, "1. Identity");
    assert_eq!(progress, StepProgress::Done);
    assert_eq!(step_list_entry(1, steps[1].title, 1).1, StepProgress::Active);
    assert_eq!(step_list_entry(2, steps[2].title, 1).1, StepProgress::Pending);
    let (heading, why) = step_header(&steps, 4);
    assert_eq!(heading, "Step 5 of 5: Validate");
    assert!(why.starts_with("Sanity-check"));
    let (heading, why) = step_header(&steps, 5);
    assert_eq!(heading, "Step 6 of 5: Done");
    assert_eq!(why, "Walk through is complete. Reset to try again.");
    assert_eq!(error_steps()[3].title, "Tampered CT");
}

#[test]
fn counter_props_before_and_after_start() {
    let none = counter_props(&None);
    assert_eq!(none.0, "\u{2014}");
    assert_eq!(none.4, "\u{2014}");
    let alice = initialize_double_ratchet_internal(&[1u8; 32], true).unwrap();
    let p = counter_props(&Some(alice));
    assert_eq!((p.0.as_str(), p.1.as_str(), p.2.as_str()), ("0", "0", "0"));
    assert_eq!((p.3.as_str(), p.4.as_str()), ("yes", "no"));
    let empty = counter_props(&Some(DoubleRatchetState::new()));
    assert_eq!((empty.3.as_str(), empty.4.as_str()), ("no", "no"));
}

#[test]
fn key_generation_walkthrough_runs_through() {
    let mut w = KeyGenerationWalkthrough::new();
    assert_status(&w.status, StatusKind::Info, "Press Next to generate the identity key.");
    w.back();
    assert_eq!(w.step, 0);
    for _ in 0..5 {
        w.next();
    }
    assert_eq!(w.step, 5);
    assert_eq!(w.identity.as_ref().unwrap().public_key.len(), 32);
    assert!(w.signed_prekey.is_some() && w.one_time.is_some() && w.ephemeral.is_some());
    assert_eq!(w.teach.len(), 5);
    assert_eq!(w.teach[4], "validate_x25519_public_key(identity.pub) \u{2192} Ok");
    assert_status(&w.status, StatusKind::Success, "Identity public key is a valid X25519 key.");
    w.next();
    assert_eq!(w.step, 5);
    w.back();
    assert_eq!(w.step, 4);
    assert_status(&w.status, StatusKind::Info, "Back to step 5: Validate");
    w.identity = None;
    w.next();
    assert_eq!(w.step, 4);
    assert_status(&w.status, StatusKind::Failure, "Missing identity key.");
    w.reset();
    assert_eq!(w.step, 0);
    assert!(w.teach.is_empty() && w.identity.is_none());
}

#[test]
fn x3dh_walkthrough_agrees_with_and_without_one_time_prekey() {
    for use_otpk in [true, false] {
        let mut w = X3dhWalkthrough::new(use_otpk);
        assert_eq!(
            w.status.text,
            if use_otpk {
                "OTPK enabled: press Next to generate Alice\u{2019}s keys."
            } else {
                "OTPK disabled: press Next to generate Alice\u{2019}s keys."
            }
        );
        assert_eq!(w.secrets_match(), None);
        for _ in 0..5 {
            w.next();
        }
        assert_eq!(w.step, 5);
        assert_eq!(w.bob_otpk.is_some(), use_otpk);
        assert_eq!(w.secrets_match(), Some(true));
        assert_status(&w.status, StatusKind::Success, "Handshake success \u{2014} identical secrets.");
        assert_eq!(w.teach.len(), if use_otpk { 10 } else { 9 });
        let preview = signal_protocol::encoding::hex_preview(&w.alice_result.as_ref().unwrap().shared_secret, 24);
        assert!(w.teach.contains(&format!("HKDF \u{2192} Alice shared_secret={preview}")));
        w.back();
        assert_status(&w.status, StatusKind::Info, "Back to: Compare");
    }
}

#[test]
fn x3dh_walkthrough_reports_missing_keys_and_mismatch() {
    let mut w = X3dhWalkthrough::new(false);
    w.step = 2;
    w.next();
    assert_eq!(w.step, 2);
    assert_status(&w.status, StatusKind::Failure, "Generate keys first.");
    w.step = 4;
    w.next();
    assert_status(&w.status, StatusKind::Failure, "Run initiate and respond first.");
    w.alice_result = Some(signal_protocol::types::X3DHResult { shared_secret: vec![1], associated_data: vec![2] });
    w.bob_result = Some(signal_protocol::types::X3DHResult { shared_secret: vec![3], associated_data: vec![2] });
    w.next();
    assert_eq!(w.step, 4);
    assert_status(&w.status, StatusKind::Failure, "Secrets did not match.");
}

#[test]
fn ratchet_walkthrough_runs_through() {
    let mut w = RatchetWalkthrough::new("hello from Alice".to_string());
    for _ in 0..5 {
        w.next();
    }
    assert_eq!(w.step, 5);
    assert_eq!(w.last_plaintext.as_deref(), Some("reply from Bob"));
    assert_status(&w.status, StatusKind::Success, "Alice decrypted: reply from Bob");
    assert_eq!(w.teach[0], "initialize_double_ratchet(shared, initiator=true) \u{2192} Alice");
    assert!(w.teach[2].starts_with("Alice encrypt n=0 ct="));
    assert_eq!(w.teach[3], "Bob: DH ratchet + decrypt message 0");
    assert_eq!(w.teach[4], "Bob encrypt reply n=0");
    let alice = w.alice.as_ref().unwrap();
    let mut root = vec![0u8; 32];
    root[0] = 0x42;
    root[31] = 0x24;
    assert_ne!(alice.root_key, root);
    w.reset();
    assert_eq!(w.plaintext, "hello from Alice");
    assert_eq!(w.step, 0);
}

#[test]
fn ratchet_walkthrough_keeps_session_on_failed_decrypt() {
    let mut w = RatchetWalkthrough::new("hi".to_string());
    w.next();
    w.next();
    let mut tampered = w.last_ciphertext.clone().unwrap();
    tampered.ciphertext[12] ^= 1;
    w.last_ciphertext = Some(tampered);
    let before = w.bob.as_ref().unwrap().root_key.clone();
    w.next();
    assert_eq!(w.step, 2);
    assert_status(&w.status, StatusKind::Failure, "Decryption failed: AES-GCM decryption failed: aead::Error");
    assert_eq!(w.bob.as_ref().unwrap().root_key, before);
    assert!(w.bob.as_ref().unwrap().receiving_chain_key.is_none());
    w.bob = None;
    w.next();
    assert_status(&w.status, StatusKind::Failure, "Need Alice ciphertext.");
}

#[test]
fn skipped_walkthrough_runs_through() {
    let mut w = SkippedWalkthrough::new();
    for _ in 0..5 {
        w.next();
    }
    assert_eq!(w.step, 5);
    assert_eq!(
        w.timeline,
        vec![
            "Session ready (Alice initiator)".to_string(),
            "Alice encrypted msg-0, msg-1, msg-2 (in order)".to_string(),
            "Delivered msg-2 first \u{2192} decrypted \"msg-2\" (skipped keys=2)".to_string(),
            "Delivered delayed msg-0 \u{2192} decrypted \"msg-0\" via skipped key".to_string(),
        ]
    );
    assert_eq!(w.teach[2], "Out-of-order decrypt stores 2 skipped message keys");
    assert_eq!(w.teach[4], "Inspect: remaining skipped keys=1; timeline shows delivery order");
    assert_status(&w.status, StatusKind::Success, "Tour complete \u{2014} out-of-order delivery handled.");
    assert_eq!(w.msgs.len(), 3);
}

#[test]
fn skipped_walkthrough_needs_messages() {
    let mut w = SkippedWalkthrough::new();
    w.next();
    w.step = 2;
    w.next();
    assert_eq!(w.step, 2);
    assert_status(&w.status, StatusKind::Failure, "Encrypt first.");
    w.back();
    assert_status(&w.status, StatusKind::Info, "Back to: Encrypt 0..2");
}

#[test]
fn error_walkthrough_reports_each_failure() {
    let mut w = ErrorWalkthrough::new();
    for _ in 0..5 {
        w.next();
    }
    assert_eq!(w.step, 5);
    assert_eq!(
        w.results[0],
        "validate_x25519_public_key \u{2192} Invalid input: X25519 public key must be 32 bytes, got 3"
    );
    assert_eq!(
        w.results[1],
        "x3dh_initiate (short SPK) \u{2192} Invalid input: X25519 public key must be 32 bytes, got 8"
    );
    assert_eq!(w.results[2], "DR init short secret \u{2192} Invalid input: Shared secret must be 32 bytes");
    assert_eq!(
        w.results[3],
        "decrypt tampered \u{2192} Decryption failed: AES-GCM decryption failed: aead::Error"
    );
    assert!(
        w.results[4] == "verify returned false (wrong key) \u{2014} expected"
            || w.results[4].starts_with("verify_signature \u{2192} Signature verification failed: ")
    );
    assert_eq!(w.teach.len(), 5);
    assert_eq!(w.status.text, w.results[4]);
}

#[test]
fn session_walkthrough_runs_through() {
    let mut w = SessionWalkthrough::new(
        "Hi Bob \u{2014} sealed with Signal.".to_string(),
        "Hey Alice \u{2014} ratchet works.".to_string(),
    );
    assert_eq!(w.phase(), "Handshake");
    assert!(!w.x3dh_ready());
    for _ in 0..5 {
        w.next();
    }
    assert_eq!(w.step, 5);
    assert!(w.x3dh_ready());
    assert_eq!(w.phase(), "Messaging");
    let speakers: Vec<&str> = w.transcript.iter().map(|l| l.from).collect();
    assert_eq!(speakers, vec!["system", "system", "Alice", "Bob", "Alice", "Bob"]);
    assert_eq!(w.transcript[2].text, "Hi Bob \u{2014} sealed with Signal.");
    assert_eq!(w.transcript[5].text, "Hey Alice \u{2014} ratchet works.");
    assert_eq!(w.transcript[1].text, "Double Ratchet ready \u{2014} messaging can begin");
    assert!(w.transcript[0].text.starts_with("X3DH complete ("));
    assert_eq!(w.teach.last().unwrap(), "Bob \u{2192} Alice (again): Hey Alice \u{2014} ratchet works.");
    assert_status(&w.status, StatusKind::Success, "Alice message delivered.");
}

#[test]
fn session_walkthrough_reports_missing_state() {
    let mut w = SessionWalkthrough::new("a".to_string(), "b".to_string());
    w.step = 1;
    w.next();
    assert_status(&w.status, StatusKind::Failure, "Run X3DH first.");
    w.step = 3;
    w.next();
    assert_eq!(w.step, 3);
    assert_status(&w.status, StatusKind::Failure, "Init DR first.");
    w.x3dh = Some(signal_protocol::types::X3DHResult { shared_secret: vec![1; 5], associated_data: vec![] });
    w.step = 1;
    w.next();
    assert_eq!(w.step, 1);
    assert_status(&w.status, StatusKind::Failure, "Invalid input: Shared secret must be 32 bytes");
}
