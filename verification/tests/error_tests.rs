use signal_protocol::error::{ErrorKind, SignalError};

fn all_kinds(message: &str) -> Vec<SignalError> {
    vec![
        SignalError::KeyGeneration(message.to_string()),
        SignalError::SignatureVerification(message.to_string()),
        SignalError::KeyExchange(message.to_string()),
        SignalError::Encryption(message.to_string()),
        SignalError::Decryption(message.to_string()),
        SignalError::KeyDerivation(message.to_string()),
        SignalError::Serialization(message.to_string()),
        SignalError::InvalidInput(message.to_string()),
    ]
}

#[test]
fn test_signal_error_into_jsvalue() {
    let error = SignalError::KeyGeneration("test error".to_string());
    let error_string = error.to_string();
    assert!(error_string.contains("Key generation failed"));
    assert!(error_string.contains("test error"));
}

#[test]
fn test_signal_error_creation() {
    let error = SignalError::KeyGeneration("test error".to_string());
    assert!(error.to_string().contains("Key generation failed"));

    let error2 = SignalError::Decryption("test decryption error".to_string());
    assert!(error2.to_string().contains("Decryption failed"));

    let error3 = SignalError::InvalidInput("test input error".to_string());
    assert!(error3.to_string().contains("Invalid input"));
}

#[test]
fn test_signal_error_into_string() {
    let error = SignalError::KeyGeneration("test error".to_string());
    let error_string = error.to_string();
    assert!(error_string.contains("Key generation failed"));
    assert!(error_string.contains("test error"));

    for error in all_kinds("test") {
        let string_repr = error.to_string();
        assert!(string_repr.len() > 0);
        assert!(string_repr.contains("test"));
    }
}

#[test]
fn test_error_message_formatting() {
    let error = SignalError::Encryption("invalid key size".to_string());
    let formatted = error.to_string();
    assert_eq!(formatted, "Encryption failed: invalid key size");

    let error2 = SignalError::InvalidInput("missing parameter".to_string());
    let formatted2 = error2.to_string();
    assert_eq!(formatted2, "Invalid input: missing parameter");
}

#[test]
fn test_signal_error_into_jsvalue_native() {
    let error = SignalError::InvalidInput("test error".to_string());
    let error_string = error.to_string();
    assert!(error_string.contains("test error"));
    assert!(error_string.contains("Invalid input"));
}

#[test]
fn test_signal_error_display() {
    let errors = vec![
        SignalError::KeyGeneration("key gen error".to_string()),
        SignalError::SignatureVerification("sig error".to_string()),
        SignalError::KeyExchange("exchange error".to_string()),
        SignalError::Encryption("enc error".to_string()),
        SignalError::Decryption("dec error".to_string()),
        SignalError::KeyDerivation("deriv error".to_string()),
        SignalError::Serialization("ser error".to_string()),
        SignalError::InvalidInput("input error".to_string()),
    ];

    for error in errors {
        let display = error.to_string();
        assert!(display.len() > 0);
        assert!(!display.is_empty());
    }
}

#[test]
fn every_kind_has_its_heading() {
    let expected = [
        "Key generation failed: m",
        "Signature verification failed: m",
        "Key exchange failed: m",
        "Encryption failed: m",
        "Decryption failed: m",
        "Key derivation failed: m",
        "Serialization failed: m",
        "Invalid input: m",
    ];
    for (error, text) in all_kinds("m").iter().zip(expected.iter()) {
        assert_eq!(error.to_string(), *text);
        assert_eq!(error.message(), "m");
        let debug = format!("{:?}", error);
        assert!(debug.contains("\"m\""));
    }
}

#[test]
fn new_builds_the_variant_of_its_kind() {
    let kinds = [
        ErrorKind::KeyGeneration,
        ErrorKind::SignatureVerification,
        ErrorKind::KeyExchange,
        ErrorKind::Encryption,
        ErrorKind::Decryption,
        ErrorKind::KeyDerivation,
        ErrorKind::Serialization,
        ErrorKind::InvalidInput,
    ];
    for (kind, expected) in kinds.iter().zip(all_kinds("why").iter()) {
        let e = SignalError::new(*kind, "why".to_string());
        assert_eq!(e.kind(), *kind);
        assert_eq!(expected.kind(), *kind);
        assert_eq!(e.to_string(), expected.to_string());
    }
}

#[test]
fn test_all_signal_error_variants() {
    let errors = all_kinds("test");
    assert_eq!(errors.len(), 8);
    for error in errors {
        let display_string = error.to_string();
        assert!(display_string.len() > 0);

        let debug_string = format!("{:?}", error);
        assert!(debug_string.len() > 0);

        assert!(error.clone().to_string().len() > 0);
    }
}
