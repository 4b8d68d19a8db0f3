//! Data types exchanged by the protocol operations.
use vstd::prelude::*;

verus! {

/// A public/private key pair, each key as raw bytes.
#[derive(Clone, Debug)]
pub struct KeyPair {
    pub public_key: Vec<u8>,
    pub private_key: Vec<u8>,
}

/// What a contract says of a key pair: the bytes of both keys.
pub struct KeyPairModel {
    pub public_key: Seq<u8>,
    pub private_key: Seq<u8>,
}

impl View for KeyPair {
    type V = KeyPairModel;

    open spec fn view(&self) -> KeyPairModel {
        KeyPairModel { public_key: self.public_key@, private_key: self.private_key@ }
    }
}

impl KeyPair {
    /// A copy of this key pair.
    pub fn duplicate(&self) -> (k: KeyPair)
        ensures
            k@ == self@,
    {
        KeyPair {
            public_key: crate::encoding::bytes_to_vec(self.public_key.as_slice()),
            private_key: crate::encoding::bytes_to_vec(self.private_key.as_slice()),
        }
    }

    /// The public key.
    pub fn public_key(&self) -> (k: &[u8])
        ensures
            k@ == self.public_key@,
    {
        self.public_key.as_slice()
    }

    /// The private key.
    pub fn private_key(&self) -> (k: &[u8])
        ensures
            k@ == self.private_key@,
    {
        self.private_key.as_slice()
    }
}

/// The outcome of an X3DH key agreement: the shared secret and the associated data.
#[derive(Clone, Debug)]
pub struct X3DHResult {
    pub shared_secret: Vec<u8>,
    pub associated_data: Vec<u8>,
}

impl View for X3DHResult {
    type V = (Seq<u8>, Seq<u8>);

    open spec fn view(&self) -> (Seq<u8>, Seq<u8>) {
        (self.shared_secret@, self.associated_data@)
    }
}

impl X3DHResult {
    /// The shared secret.
    pub fn shared_secret(&self) -> (s: &[u8])
        ensures
            s@ == self.shared_secret@,
    {
        self.shared_secret.as_slice()
    }

    /// The associated data.
    pub fn associated_data(&self) -> (s: &[u8])
        ensures
            s@ == self.associated_data@,
    {
        self.associated_data.as_slice()
    }
}

/// An encrypted message together with the key it was encrypted under.
#[derive(Clone, Debug)]
pub struct EncryptionResult {
    pub ciphertext: Vec<u8>,
    pub message_key: Vec<u8>,
}

impl View for EncryptionResult {
    type V = (Seq<u8>, Seq<u8>);

    open spec fn view(&self) -> (Seq<u8>, Seq<u8>) {
        (self.ciphertext@, self.message_key@)
    }
}

impl EncryptionResult {
    /// The ciphertext.
    pub fn ciphertext(&self) -> (s: &[u8])
        ensures
            s@ == self.ciphertext@,
    {
        self.ciphertext.as_slice()
    }

    /// The message key.
    pub fn message_key(&self) -> (s: &[u8])
        ensures
            s@ == self.message_key@,
    {
        self.message_key.as_slice()
    }
}

} // verus!
