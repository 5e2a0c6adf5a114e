//! The failures that text protection reports.
use vstd::prelude::*;

verus! {

/// Why a text operation did not give a result.
#[derive(Debug, Clone, Copy, PartialEq, Eq, Structural)]
pub enum TextError {
    /// The key material or the nonce is shorter than the algorithm needs, or
    /// is no key of the algorithm.
    KeyFormat,
    /// The signature does not have the length of the algorithm's signatures.
    SignatureFormat,
    /// The payload is too long for the cipher.
    EncryptFailed,
    /// The input is not text of the chosen Base64 flavour.
    InputDecode,
    /// The ciphertext does not belong to this key and nonce, or was altered.
    Authentication,
    /// The bytes obtained are not valid UTF-8.
    NotText,
}

impl TextError {
    pub open spec fn message_spec(self) -> Seq<char> {
        match self {
            TextError::KeyFormat => "invalid key length or format"@,
            TextError::SignatureFormat => "invalid signature length"@,
            TextError::EncryptFailed => "encryptor failed"@,
            TextError::InputDecode => "input decode failed"@,
            TextError::Authentication => "decrypt failed"@,
            TextError::NotText => "result is not valid UTF-8 text"@,
        }
    }

    /// The text shown for this error.
    pub fn message(self) -> (r: &'static str)
        ensures
            r@ == self.message_spec(),
    {
        match self {
            TextError::KeyFormat => "invalid key length or format",
            TextError::SignatureFormat => "invalid signature length",
            TextError::EncryptFailed => "encryptor failed",
            TextError::InputDecode => "input decode failed",
            TextError::Authentication => "decrypt failed",
            TextError::NotText => "result is not valid UTF-8 text",
        }
    }
}

/// A result of text, seen through the view of the text.
pub open spec fn text_outcome(r: Result<String, TextError>) -> Result<Seq<char>, TextError> {
    match r {
        Ok(s) => Ok(s@),
        Err(e) => Err(e),
    }
}

/// A result of bytes, seen through the view of the bytes.
pub open spec fn bytes_outcome(r: Result<Vec<u8>, TextError>) -> Result<Seq<u8>, TextError> {
    match r {
        Ok(b) => Ok(b@),
        Err(e) => Err(e),
    }
}

} // verus!
