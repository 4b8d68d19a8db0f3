//! Errors of the Signal Protocol operations.
use vstd::prelude::*;

verus! {

/// The category of a [`SignalError`], without its message.
#[derive(Clone, Copy, Debug, PartialEq, Eq, Structural)]
pub enum ErrorKind {
    KeyGeneration,
    SignatureVerification,
    KeyExchange,
    Encryption,
    Decryption,
    KeyDerivation,
    Serialization,
    InvalidInput,
}

/// An error of a Signal Protocol operation: its category and a message.
#[derive(Clone, Debug)]
pub enum SignalError {
    KeyGeneration(String),
    SignatureVerification(String),
    KeyExchange(String),
    Encryption(String),
    Decryption(String),
    KeyDerivation(String),
    Serialization(String),
    InvalidInput(String),
}

/// What a contract says of an error: its category and the characters of its message.
pub type ErrorModel = (ErrorKind, Seq<char>);

impl View for SignalError {
    type V = ErrorModel;

    open spec fn view(&self) -> ErrorModel {
        match self {
            SignalError::KeyGeneration(s) => (ErrorKind::KeyGeneration, s@),
            SignalError::SignatureVerification(s) => (ErrorKind::SignatureVerification, s@),
            SignalError::KeyExchange(s) => (ErrorKind::KeyExchange, s@),
            SignalError::Encryption(s) => (ErrorKind::Encryption, s@),
            SignalError::Decryption(s) => (ErrorKind::Decryption, s@),
            SignalError::KeyDerivation(s) => (ErrorKind::KeyDerivation, s@),
            SignalError::Serialization(s) => (ErrorKind::Serialization, s@),
            SignalError::InvalidInput(s) => (ErrorKind::InvalidInput, s@),
        }
    }
}

/// The heading that the display form puts before the message of each category.
pub open spec fn kind_heading(kind: ErrorKind) -> Seq<char> {
    match kind {
        ErrorKind::KeyGeneration => "Key generation failed: "@,
        ErrorKind::SignatureVerification => "Signature verification failed: "@,
        ErrorKind::KeyExchange => "Key exchange failed: "@,
        ErrorKind::Encryption => "Encryption failed: "@,
        ErrorKind::Decryption => "Decryption failed: "@,
        ErrorKind::KeyDerivation => "Key derivation failed: "@,
        ErrorKind::Serialization => "Serialization failed: "@,
        ErrorKind::InvalidInput => "Invalid input: "@,
    }
}

/// The display form of an error: the heading of its category, then its message.
pub open spec fn display_text(e: ErrorModel) -> Seq<char> {
    kind_heading(e.0) + e.1
}

/// The view of a result whose error is a [`SignalError`].
pub open spec fn result_view<T: View>(r: Result<T, SignalError>) -> Result<T::V, ErrorModel> {
    match r {
        Ok(v) => Ok(v@),
        Err(e) => Err(e@),
    }
}

impl SignalError {
    /// Builds the error of the given category with the given message.
    pub fn new(kind: ErrorKind, message: String) -> (e: SignalError)
        ensures
            e@ == (kind, message@),
    {
        match kind {
            ErrorKind::KeyGeneration => SignalError::KeyGeneration(message),
            ErrorKind::SignatureVerification => SignalError::SignatureVerification(message),
            ErrorKind::KeyExchange => SignalError::KeyExchange(message),
            ErrorKind::Encryption => SignalError::Encryption(message),
            ErrorKind::Decryption => SignalError::Decryption(message),
            ErrorKind::KeyDerivation => SignalError::KeyDerivation(message),
            ErrorKind::Serialization => SignalError::Serialization(message),
            ErrorKind::InvalidInput => SignalError::InvalidInput(message),
        }
    }

    /// The category of this error.
    pub fn kind(&self) -> (k: ErrorKind)
        ensures
            k == self@.0,
    {
        match self {
            SignalError::KeyGeneration(_) => ErrorKind::KeyGeneration,
            SignalError::SignatureVerification(_) => ErrorKind::SignatureVerification,
            SignalError::KeyExchange(_) => ErrorKind::KeyExchange,
            SignalError::Encryption(_) => ErrorKind::Encryption,
            SignalError::Decryption(_) => ErrorKind::Decryption,
            SignalError::KeyDerivation(_) => ErrorKind::KeyDerivation,
            SignalError::Serialization(_) => ErrorKind::Serialization,
            SignalError::InvalidInput(_) => ErrorKind::InvalidInput,
        }
    }

    /// The message of this error, without its heading.
    pub fn message(&self) -> (m: &String)
        ensures
            m@ == self@.1,
    {
        match self {
            SignalError::KeyGeneration(s) => s,
            SignalError::SignatureVerification(s) => s,
            SignalError::KeyExchange(s) => s,
            SignalError::Encryption(s) => s,
            SignalError::Decryption(s) => s,
            SignalError::KeyDerivation(s) => s,
            SignalError::Serialization(s) => s,
            SignalError::InvalidInput(s) => s,
        }
    }

    /// The display form of this error: the heading of its category, then its message
    /// (for example `Invalid input: missing parameter`).
    pub fn to_string(&self) -> (s: String)
        ensures
            s@ == display_text(self@),
    {
        let heading = match self {
            SignalError::KeyGeneration(_) => "Key generation failed: ",
            SignalError::SignatureVerification(_) => "Signature verification failed: ",
            SignalError::KeyExchange(_) => "Key exchange failed: ",
            SignalError::Encryption(_) => "Encryption failed: ",
            SignalError::Decryption(_) => "Decryption failed: ",
            SignalError::KeyDerivation(_) => "Key derivation failed: ",
            SignalError::Serialization(_) => "Serialization failed: ",
            SignalError::InvalidInput(_) => "Invalid input: ",
        };
        let mut s = String::from_str(heading);
        s.append(self.message().as_str());
        s
    }
}

} // verus!
