//! Authenticated encryption of a payload with ChaCha20-Poly1305, handed out
//! as Base64 text.
//!
//! A nonce must not be used twice under one key. Nothing here can notice a
//! second use: keeping nonces apart is the caller's part.
use vstd::prelude::*;
use vstd::utf8::*;
use chacha20poly1305::{ChaCha20Poly1305, Key, Nonce};
use chacha20poly1305::aead::{Aead, KeyInit};
use crate::b64::{base64_bytes, base64_text, decode_bytes, process_encode};
use crate::bytes::{fixed_prefix, load_fixed};
use crate::error::{bytes_outcome, text_outcome, TextError};
use crate::format::Base64Format;

verus! {

/// The ciphertext with its tag that ChaCha20-Poly1305 gives to `plain` under
/// a 32-byte key and a 12-byte nonce; `None` when the cipher refuses.
pub uninterp spec fn chacha20poly1305_sealed(key: Seq<u8>, nonce: Seq<u8>, plain: Seq<u8>) -> Option<
    Seq<u8>,
>;

/// The plaintext that ChaCha20-Poly1305 recovers from `sealed` under a
/// 32-byte key and a 12-byte nonce; `None` when the tag does not match.
pub uninterp spec fn chacha20poly1305_opened(key: Seq<u8>, nonce: Seq<u8>, sealed: Seq<u8>) -> Option<
    Seq<u8>,
>;

/// Whether a payload of `len` bytes is short enough for the cipher, whose
/// block counter has 32 bits and whose blocks have 64 bytes.
pub open spec fn fits_cipher(len: int) -> bool {
    len / 64 < 0xFFFF_FFFF
}

/// `Aead::encrypt` on the `ChaCha20Poly1305` made of the key, without
/// associated data. The cipher refuses exactly the payloads whose block
/// count does not fit. Otherwise the result is the payload's length and 16
/// bytes of tag, depends on key, nonce and payload alone, and opens under
/// the same key and nonce to the payload.
#[verifier::external_body]
fn seal_bytes(key: &[u8; 32], nonce: &[u8; 12], plain: &[u8]) -> (r: Option<Vec<u8>>)
    ensures
        match r {
            Some(c) => chacha20poly1305_sealed(key@, nonce@, plain@) == Some(c@),
            None => chacha20poly1305_sealed(key@, nonce@, plain@) is None,
        },
        r is Some <==> fits_cipher(plain@.len() as int),
        r matches Some(c) ==> c@.len() == plain@.len() + 16 && chacha20poly1305_opened(
            key@,
            nonce@,
            c@,
        ) == Some(plain@),
{
    ChaCha20Poly1305::new(Key::from_slice(key)).encrypt(Nonce::from_slice(nonce), plain).ok()
}

/// `Aead::decrypt` on the `ChaCha20Poly1305` made of the key, without
/// associated data: the plaintext, or `None` where the crate reports an
/// error.
#[verifier::external_body]
fn open_sealed(key: &[u8; 32], nonce: &[u8; 12], sealed: &[u8]) -> (r: Option<Vec<u8>>)
    ensures
        match r {
            Some(p) => chacha20poly1305_opened(key@, nonce@, sealed@) == Some(p@),
            None => chacha20poly1305_opened(key@, nonce@, sealed@) is None,
        },
{
    ChaCha20Poly1305::new(Key::from_slice(key)).decrypt(Nonce::from_slice(nonce), sealed).ok()
}

/// The text that encryption hands out: the Base64 text of the sealed bytes.
pub open spec fn sealed_text(
    key: Seq<u8>,
    nonce: Seq<u8>,
    format: Base64Format,
    plain: Seq<u8>,
) -> Result<Seq<char>, TextError> {
    match chacha20poly1305_sealed(key, nonce, plain) {
        Some(c) => Ok(base64_text(format.url_safe(), c)),
        None => Err(TextError::EncryptFailed),
    }
}

/// The bytes that decryption recovers from text given as bytes: text that
/// is no Base64 is `InputDecode`, sealed bytes that do not open are
/// `Authentication`.
pub open spec fn opened_text(
    key: Seq<u8>,
    nonce: Seq<u8>,
    format: Base64Format,
    text: Seq<u8>,
) -> Result<Seq<u8>, TextError> {
    match base64_bytes(format.url_safe(), text) {
        None => Err(TextError::InputDecode),
        Some(c) => match chacha20poly1305_opened(key, nonce, c) {
            Some(p) => Ok(p),
            None => Err(TextError::Authentication),
        },
    }
}

/// Encrypts a complete payload to text.
pub trait TextEncrypt {
    /// The text this cipher gives to `payload` in the chosen flavour.
    spec fn encrypt_spec(&self, format: Base64Format, payload: Seq<u8>) -> Result<
        Seq<char>,
        TextError,
    >;

    fn encrypt(&self, format: Base64Format, payload: &[u8]) -> (r: Result<String, TextError>)
        ensures
            text_outcome(r) == self.encrypt_spec(format, payload@),
    ;
}

/// Decrypts text to the payload it was made from.
pub trait TextDecrypt {
    /// The bytes this cipher recovers from `text` in the chosen flavour.
    spec fn decrypt_spec(&self, format: Base64Format, text: Seq<u8>) -> Result<Seq<u8>, TextError>;

    fn decrypt(&self, format: Base64Format, text: &[u8]) -> (r: Result<Vec<u8>, TextError>)
        ensures
            bytes_outcome(r) == self.decrypt_spec(format, text@),
    ;
}

/// The outcome of sealing, as the result that encryption reports.
pub fn text_of_sealed(sealed: Option<Vec<u8>>, format: Base64Format) -> (r: Result<
    String,
    TextError,
>)
    ensures
        match sealed {
            Some(c) => r matches Ok(t) && t@ == base64_text(format.url_safe(), c@) && base64_bytes(
                format.url_safe(),
                encode_utf8(t@),
            ) == Some(c@),
            None => r == Err::<String, TextError>(TextError::EncryptFailed),
        },
{
    match sealed {
        Some(c) => Ok(process_encode(c.as_slice(), format)),
        None => Err(TextError::EncryptFailed),
    }
}

/// The outcome of opening, as the result that decryption reports.
pub fn bytes_of_opened(opened: Option<Vec<u8>>) -> (r: Result<Vec<u8>, TextError>)
    ensures
        match opened {
            Some(p) => r == Ok::<Vec<u8>, TextError>(p),
            None => r == Err::<Vec<u8>, TextError>(TextError::Authentication),
        },
{
    match opened {
        Some(p) => Ok(p),
        None => Err(TextError::Authentication),
    }
}

/// ChaCha20-Poly1305 under a 32-byte key and a 12-byte nonce.
pub struct ChaCha20 {
    key: [u8; 32],
    nonce: [u8; 12],
}

impl ChaCha20 {
    pub closed spec fn key(&self) -> Seq<u8> {
        self.key@
    }

    pub closed spec fn nonce(&self) -> Seq<u8> {
        self.nonce@
    }

    pub fn new(key: [u8; 32], nonce: [u8; 12]) -> (r: Self)
        ensures
            r.key() == key@,
            r.nonce() == nonce@,
    {
        Self { key, nonce }
    }

    /// Takes the first 32 bytes of `key` and the first 12 bytes of `nonce`;
    /// shorter ones are refused.
    pub fn try_new(key: &[u8], nonce: &[u8]) -> (r: Result<Self, TextError>)
        ensures
            match r {
                Ok(c) => fixed_prefix(key@, 32) == Some(c.key()) && fixed_prefix(nonce@, 12)
                    == Some(c.nonce()),
                Err(e) => e == TextError::KeyFormat && (fixed_prefix(key@, 32) is None
                    || fixed_prefix(nonce@, 12) is None),
            },
    {
        match load_fixed::<32>(key) {
            Ok(k) => match load_fixed::<12>(nonce) {
                Ok(n) => Ok(Self::new(k, n)),
                Err(e) => Err(e),
            },
            Err(e) => Err(e),
        }
    }
}

impl TextEncrypt for ChaCha20 {
    open spec fn encrypt_spec(&self, format: Base64Format, payload: Seq<u8>) -> Result<
        Seq<char>,
        TextError,
    > {
        sealed_text(self.key(), self.nonce(), format, payload)
    }

    /// Succeeds exactly on payloads that fit the cipher, and the text handed
    /// out decrypts under the same key, nonce and flavour to the payload.
    fn encrypt(&self, format: Base64Format, payload: &[u8]) -> (r: Result<String, TextError>)
        ensures
            r is Ok <==> fits_cipher(payload@.len() as int),
            r matches Ok(t) ==> opened_text(self.key(), self.nonce(), format, encode_utf8(t@))
                == Ok::<Seq<u8>, TextError>(payload@),
    {
        let sealed = seal_bytes(&self.key, &self.nonce, payload);
        text_of_sealed(sealed, format)
    }
}

impl TextDecrypt for ChaCha20 {
    open spec fn decrypt_spec(&self, format: Base64Format, text: Seq<u8>) -> Result<
        Seq<u8>,
        TextError,
    > {
        opened_text(self.key(), self.nonce(), format, text)
    }

    fn decrypt(&self, format: Base64Format, text: &[u8]) -> (r: Result<Vec<u8>, TextError>) {
        match decode_bytes(text, format) {
            Some(c) => bytes_of_opened(open_sealed(&self.key, &self.nonce, c.as_slice())),
            None => Err(TextError::InputDecode),
        }
    }
}

} // verus!
