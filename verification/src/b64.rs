//! Base64 in its two flavours, and the text form of decoded bytes.
use vstd::prelude::*;
use vstd::utf8::*;
use base64::Engine;
use base64::engine::general_purpose::{STANDARD, URL_SAFE_NO_PAD};
use crate::bytes::text_of_bytes;
use crate::error::{text_outcome, TextError};
use crate::format::Base64Format;

verus! {

/// The Base64 text of `data`: with the URL-safe alphabet and no padding when
/// `url_safe` holds, with the conventional alphabet and padding otherwise.
pub uninterp spec fn base64_text(url_safe: bool, data: Seq<u8>) -> Seq<char>;

/// The bytes that the Base64 text `text`, given as bytes, stands for in the
/// flavour chosen by `url_safe`; `None` when it is no such text.
pub uninterp spec fn base64_bytes(url_safe: bool, text: Seq<u8>) -> Option<Seq<u8>>;

/// A string without its leading and trailing white space.
pub uninterp spec fn trimmed(text: Seq<char>) -> Seq<char>;

/// `Engine::encode` of base64 on `STANDARD`: the result is the padded Base64
/// text of `data`, and decoding that text in the same flavour gives `data`
/// back.
#[verifier::external_body]
fn encode_standard(data: &[u8]) -> (r: String)
    ensures
        r@ == base64_text(false, data@),
        base64_bytes(false, encode_utf8(r@)) == Some(data@),
{
    STANDARD.encode(data)
}

/// `Engine::encode` of base64 on `URL_SAFE_NO_PAD`: the result is the
/// unpadded URL-safe Base64 text of `data`, and decoding that text in the
/// same flavour gives `data` back.
#[verifier::external_body]
fn encode_url_safe(data: &[u8]) -> (r: String)
    ensures
        r@ == base64_text(true, data@),
        base64_bytes(true, encode_utf8(r@)) == Some(data@),
{
    URL_SAFE_NO_PAD.encode(data)
}

/// `Engine::decode` of base64 on `STANDARD`: the decoded bytes, or `None`
/// where the crate reports a decoding error.
#[verifier::external_body]
fn decode_standard(text: &[u8]) -> (r: Option<Vec<u8>>)
    ensures
        match r {
            Some(b) => base64_bytes(false, text@) == Some(b@),
            None => base64_bytes(false, text@) is None,
        },
{
    STANDARD.decode(text).ok()
}

/// `Engine::decode` of base64 on `URL_SAFE_NO_PAD`: the decoded bytes, or
/// `None` where the crate reports a decoding error.
#[verifier::external_body]
fn decode_url_safe(text: &[u8]) -> (r: Option<Vec<u8>>)
    ensures
        match r {
            Some(b) => base64_bytes(true, text@) == Some(b@),
            None => base64_bytes(true, text@) is None,
        },
{
    URL_SAFE_NO_PAD.decode(text).ok()
}

/// `str::trim` of std: the slice without leading and trailing white space.
#[verifier::external_body]
fn trim_text(text: &str) -> (r: &str)
    ensures
        r@ == trimmed(text@),
{
    text.trim()
}

/// Decodes Base64 text, given as bytes, in the chosen flavour.
pub fn decode_bytes(text: &[u8], format: Base64Format) -> (r: Option<Vec<u8>>)
    ensures
        match r {
            Some(b) => base64_bytes(format.url_safe(), text@) == Some(b@),
            None => base64_bytes(format.url_safe(), text@) is None,
        },
{
    match format {
        Base64Format::Standard => decode_standard(text),
        Base64Format::UrlSafe => decode_url_safe(text),
    }
}

/// The text that decoded bytes stand for: an input that did not decode is
/// `InputDecode`, bytes that are not UTF-8 are `NotText`.
pub open spec fn decoded_text(decoded: Option<Seq<u8>>) -> Result<Seq<char>, TextError> {
    match decoded {
        None => Err(TextError::InputDecode),
        Some(b) => if valid_utf8(b) {
            Ok(decode_utf8(b))
        } else {
            Err(TextError::NotText)
        },
    }
}

/// Turns the outcome of a decoding into text.
pub fn text_of_decoded(decoded: Option<Vec<u8>>) -> (r: Result<String, TextError>)
    ensures
        text_outcome(r) == decoded_text(
            match decoded {
                Some(b) => Some(b@),
                None => None,
            },
        ),
{
    match decoded {
        None => Err(TextError::InputDecode),
        Some(bytes) => match text_of_bytes(bytes) {
            Some(s) => Ok(s),
            None => Err(TextError::NotText),
        },
    }
}

/// Encodes a payload as Base64 text in the chosen flavour.
///
/// Decoding the result in the same flavour gives `data` back.
pub fn process_encode(data: &[u8], format: Base64Format) -> (r: String)
    ensures
        r@ == base64_text(format.url_safe(), data@),
        base64_bytes(format.url_safe(), encode_utf8(r@)) == Some(data@),
{
    match format {
        Base64Format::Standard => encode_standard(data),
        Base64Format::UrlSafe => encode_url_safe(data),
    }
}

/// Decodes Base64 text to the text it stands for.
///
/// White space around the input is ignored. The input must be Base64 of the
/// chosen flavour, and the bytes it stands for must be UTF-8.
pub fn process_decode(text: &str, format: Base64Format) -> (r: Result<String, TextError>)
    ensures
        text_outcome(r) == decoded_text(
            base64_bytes(format.url_safe(), encode_utf8(trimmed(text@))),
        ),
{
    let inner = trim_text(text);
    let decoded = decode_bytes(inner.as_bytes(), format);
    text_of_decoded(decoded)
}

} // verus!
