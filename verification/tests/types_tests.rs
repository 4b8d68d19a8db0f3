use signal_protocol::types::{EncryptionResult, KeyPair, X3DHResult};

#[test]
fn keypair_accessors() {
    let kp = KeyPair {
        public_key: vec![1, 2, 3],
        private_key: vec![4, 5, 6],
    };
    assert_eq!(kp.public_key(), &[1, 2, 3]);
    assert_eq!(kp.private_key(), &[4, 5, 6]);
    let _ = format!("{:?}", kp.clone());
}

#[test]
fn x3dh_result_accessors() {
    let r = X3DHResult {
        shared_secret: vec![9],
        associated_data: vec![8],
    };
    assert_eq!(r.shared_secret(), &[9]);
    assert_eq!(r.associated_data(), &[8]);
    let _ = format!("{:?}", r.clone());
}

#[test]
fn encryption_result_accessors() {
    let r = EncryptionResult {
        ciphertext: vec![7],
        message_key: vec![6],
    };
    assert_eq!(r.ciphertext(), &[7]);
    assert_eq!(r.message_key(), &[6]);
    let _ = format!("{:?}", r.clone());
}

#[test]
fn test_keypair_creation() {
    let public_key = vec![1u8; 32];
    let private_key = vec![2u8; 32];

    let keypair = KeyPair {
        public_key: public_key.clone(),
        private_key: private_key.clone(),
    };

    assert_eq!(keypair.public_key, public_key);
    assert_eq!(keypair.private_key, private_key);
}

#[test]
fn test_keypair_clone() {
    let keypair1 = KeyPair {
        public_key: vec![42u8; 32],
        private_key: vec![84u8; 32],
    };

    let keypair2 = keypair1.clone();
    assert_eq!(keypair1.public_key, keypair2.public_key);
    assert_eq!(keypair1.private_key, keypair2.private_key);
}

#[test]
fn test_x3dh_result_creation() {
    let shared_secret = vec![1u8; 32];
    let associated_data = vec![2u8; 16];

    let result = X3DHResult {
        shared_secret: shared_secret.clone(),
        associated_data: associated_data.clone(),
    };

    assert_eq!(result.shared_secret, shared_secret);
    assert_eq!(result.associated_data, associated_data);
}

#[test]
fn test_encryption_result_creation() {
    let ciphertext = vec![1u8; 64];
    let message_key = vec![2u8; 32];

    let result = EncryptionResult {
        ciphertext: ciphertext.clone(),
        message_key: message_key.clone(),
    };

    assert_eq!(result.ciphertext, ciphertext);
    assert_eq!(result.message_key, message_key);
}

#[test]
fn test_keypair_internal_data() {
    let keypair = KeyPair {
        public_key: vec![1u8; 32],
        private_key: vec![2u8; 32],
    };

    assert_eq!(keypair.public_key, vec![1u8; 32]);
    assert_eq!(keypair.private_key, vec![2u8; 32]);
    assert_eq!(keypair.public_key.len(), 32);
    assert_eq!(keypair.private_key.len(), 32);

    let cloned = keypair.clone();
    assert_eq!(cloned.public_key, keypair.public_key);
    assert_eq!(cloned.private_key, keypair.private_key);

    let debug_str = format!("{:?}", keypair);
    assert!(debug_str.contains("KeyPair"));
}

#[test]
fn test_x3dh_result_internal_data() {
    let result = X3DHResult {
        shared_secret: vec![3u8; 32],
        associated_data: vec![4u8; 16],
    };

    assert_eq!(result.shared_secret, vec![3u8; 32]);
    assert_eq!(result.associated_data, vec![4u8; 16]);
    assert_eq!(result.shared_secret.len(), 32);
    assert_eq!(result.associated_data.len(), 16);

    let cloned = result.clone();
    assert_eq!(cloned.shared_secret, result.shared_secret);
    assert_eq!(cloned.associated_data, result.associated_data);

    let debug_str = format!("{:?}", result);
    assert!(debug_str.contains("X3DHResult"));
}

#[test]
fn test_encryption_result_internal_data() {
    let result = EncryptionResult {
        ciphertext: vec![5u8; 64],
        message_key: vec![6u8; 32],
    };

    assert_eq!(result.ciphertext, vec![5u8; 64]);
    assert_eq!(result.message_key, vec![6u8; 32]);
    assert_eq!(result.ciphertext.len(), 64);
    assert_eq!(result.message_key.len(), 32);

    let cloned = result.clone();
    assert_eq!(cloned.ciphertext, result.ciphertext);
    assert_eq!(cloned.message_key, result.message_key);

    let debug_str = format!("{:?}", result);
    assert!(debug_str.contains("EncryptionResult"));
}

#[test]
fn test_keypair_has_serialization_traits() {
    let keypair = KeyPair {
        public_key: vec![7u8; 32],
        private_key: vec![8u8; 32],
    };

    let cloned = keypair.clone();
    assert_eq!(cloned.public_key, keypair.public_key);
    assert_eq!(cloned.private_key, keypair.private_key);

    let debug_str = format!("{:?}", keypair);
    assert!(debug_str.contains("public_key"));
    assert!(debug_str.contains("private_key"));
}

#[test]
fn test_empty_data_structures() {
    let empty_keypair = KeyPair {
        public_key: vec![],
        private_key: vec![],
    };
    assert_eq!(empty_keypair.public_key.len(), 0);
    assert_eq!(empty_keypair.private_key.len(), 0);

    let empty_x3dh = X3DHResult {
        shared_secret: vec![],
        associated_data: vec![],
    };
    assert_eq!(empty_x3dh.shared_secret.len(), 0);
    assert_eq!(empty_x3dh.associated_data.len(), 0);

    let empty_encryption = EncryptionResult {
        ciphertext: vec![],
        message_key: vec![],
    };
    assert_eq!(empty_encryption.ciphertext.len(), 0);
    assert_eq!(empty_encryption.message_key.len(), 0);
}

#[test]
fn test_large_data_structures() {
    let large_keypair = KeyPair {
        public_key: vec![42u8; 1024],
        private_key: vec![84u8; 1024],
    };
    assert_eq!(large_keypair.public_key.len(), 1024);
    assert_eq!(large_keypair.private_key.len(), 1024);
    assert!(large_keypair.public_key.iter().all(|&x| x == 42));
    assert!(large_keypair.private_key.iter().all(|&x| x == 84));
}

#[test]
fn test_keypair_struct() {
    let keypair = KeyPair {
        public_key: vec![1u8; 32],
        private_key: vec![2u8; 32],
    };

    assert_eq!(keypair.public_key.len(), 32);
    assert_eq!(keypair.private_key.len(), 32);

    let cloned = keypair.clone();
    assert_eq!(cloned.public_key, keypair.public_key);
    assert_eq!(cloned.private_key, keypair.private_key);

    let debug_str = format!("{:?}", keypair);
    assert!(debug_str.contains("KeyPair"));
}

#[test]
fn test_x3dh_result_struct() {
    let result = X3DHResult {
        shared_secret: vec![1u8; 32],
        associated_data: vec![2u8; 16],
    };

    assert_eq!(result.shared_secret.len(), 32);
    assert_eq!(result.associated_data.len(), 16);

    let cloned = result.clone();
    assert_eq!(cloned.shared_secret, result.shared_secret);
    assert_eq!(cloned.associated_data, result.associated_data);

    let debug_str = format!("{:?}", result);
    assert!(debug_str.contains("X3DHResult"));
}

#[test]
fn test_encryption_result_struct() {
    let result = EncryptionResult {
        ciphertext: vec![1u8; 64],
        message_key: vec![2u8; 32],
    };

    assert_eq!(result.ciphertext.len(), 64);
    assert_eq!(result.message_key.len(), 32);

    let cloned = result.clone();
    assert_eq!(cloned.ciphertext, result.ciphertext);
    assert_eq!(cloned.message_key, result.message_key);

    let debug_str = format!("{:?}", result);
    assert!(debug_str.contains("EncryptionResult"));
}

#[test]
fn test_traits_on_types() {
    let keypair = KeyPair {
        public_key: vec![1u8; 32],
        private_key: vec![2u8; 32],
    };

    let cloned_keypair = keypair.clone();
    assert_eq!(keypair.public_key, cloned_keypair.public_key);
    assert_eq!(keypair.private_key, cloned_keypair.private_key);

    let debug_string = format!("{:?}", keypair);
    assert!(debug_string.contains("KeyPair"));

    let error = signal_protocol::error::SignalError::KeyGeneration("test".to_string());
    let error_string = format!("{:?}", error);
    assert!(error_string.contains("KeyGeneration"));
}
