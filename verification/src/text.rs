//! The operations on text by algorithm: sign, verify, generate keys,
//! encrypt and decrypt, each on a complete payload held in memory.
use vstd::prelude::*;
use vstd::utf8::*;
use crate::bytes::{fixed_prefix, text_of_bytes};
use crate::cipher::{fits_cipher, opened_text, sealed_text, ChaCha20, TextDecrypt, TextEncrypt};
use crate::error::{bytes_outcome, text_outcome, TextError};
use crate::format::{Base64Format, TextSignFormat};
use crate::gen_pass::{generate_password_with, is_password, RandomSource, ThreadRandom};
use crate::sign::{
    blake3_keyed_hash, ed25519_accepts, ed25519_fresh_seed, ed25519_key_valid, ed25519_public_key,
    ed25519_signature, verifying_key_of, Blake3, Ed25519Signer, Ed25519Verifier,
    TextSigner, TextVerifier,
};

verus! {

/// The signature of `payload` under `key` by the chosen algorithm. Both
/// algorithms use the first 32 bytes of the key and refuse a shorter one.
pub open spec fn text_signature(format: TextSignFormat, key: Seq<u8>, payload: Seq<u8>) -> Result<
    Seq<u8>,
    TextError,
> {
    match fixed_prefix(key, 32) {
        None => Err(TextError::KeyFormat),
        Some(k) => match format {
            TextSignFormat::Blake3 => Ok(blake3_keyed_hash(k, payload)),
            TextSignFormat::Ed25519 => Ok(ed25519_signature(k, payload)),
        },
    }
}

/// Whether `sig` is found to be the signature of `payload` under `key`.
///
/// The keyed hash is computed again and compared byte by byte. For Ed25519
/// the key must decode to a public key and the signature have exactly 64
/// bytes, else the outcome is an error; a signature that does not match is
/// `false`, not an error.
pub open spec fn text_verdict(
    format: TextSignFormat,
    key: Seq<u8>,
    payload: Seq<u8>,
    sig: Seq<u8>,
) -> Result<bool, TextError> {
    match format {
        TextSignFormat::Blake3 => match fixed_prefix(key, 32) {
            None => Err(TextError::KeyFormat),
            Some(k) => Ok(blake3_keyed_hash(k, payload) == sig),
        },
        TextSignFormat::Ed25519 => match verifying_key_of(key) {
            None => Err(TextError::KeyFormat),
            Some(k) => if sig.len() != 64 {
                Err(TextError::SignatureFormat)
            } else {
                Ok(ed25519_accepts(k, payload, sig))
            },
        },
    }
}

/// The key that verifies what `key` signs: the key itself for the keyed
/// hash, the public key of the seed for Ed25519.
pub open spec fn verifying_key_for(format: TextSignFormat, key: Seq<u8>) -> Seq<u8> {
    match format {
        TextSignFormat::Blake3 => key,
        TextSignFormat::Ed25519 => ed25519_public_key(key.subrange(0, 32)),
    }
}

/// Signs `payload` with the first 32 bytes of `key`.
///
/// Fails only on a key shorter than 32 bytes. The signature handed out
/// verifies: by the same key for the keyed hash, by the public key of the
/// seed for Ed25519.
pub fn process_text_sign(payload: &[u8], key: &[u8], format: TextSignFormat) -> (r: Result<
    Vec<u8>,
    TextError,
>)
    ensures
        bytes_outcome(r) == text_signature(format, key@, payload@),
        r matches Ok(sig) ==> text_verdict(
            format,
            verifying_key_for(format, key@),
            payload@,
            sig@,
        ) == Ok::<bool, TextError>(true),
{
    match format {
        TextSignFormat::Blake3 => match Blake3::try_new(key) {
            Ok(signer) => Ok(signer.sign(payload)),
            Err(e) => Err(e),
        },
        TextSignFormat::Ed25519 => match Ed25519Signer::try_new(key) {
            Ok(signer) => {
                let sig = signer.sign(payload);
                proof {
                    let pk = ed25519_public_key(key@.subrange(0, 32));
                    assert(pk.subrange(0, 32) =~= pk);
                }
                Ok(sig)
            },
            Err(e) => Err(e),
        },
    }
}

/// Checks `sig` against `payload` under `key`.
pub fn process_text_verify(payload: &[u8], key: &[u8], sig: &[u8], format: TextSignFormat) -> (r:
    Result<bool, TextError>)
    ensures
        r == text_verdict(format, key@, payload@, sig@),
{
    match format {
        TextSignFormat::Blake3 => match Blake3::try_new(key) {
            Ok(verifier) => verifier.verify(payload, sig),
            Err(e) => Err(e),
        },
        TextSignFormat::Ed25519 => match Ed25519Verifier::try_new(key) {
            Ok(verifier) => verifier.verify(payload, sig),
            Err(e) => Err(e),
        },
    }
}

/// A keyed-hash signature verifies under the key that made it.
pub proof fn lemma_keyed_hash_round_trip(payload: Seq<u8>, key: Seq<u8>)
    requires
        key.len() >= 32,
    ensures
        text_signature(TextSignFormat::Blake3, key, payload) is Ok,
        text_verdict(
            TextSignFormat::Blake3,
            key,
            payload,
            text_signature(TextSignFormat::Blake3, key, payload)->Ok_0,
        ) == Ok::<bool, TextError>(true),
{
}

/// Under the keyed hash, any signature but the payload's own is found not
/// to match: so is one in which a byte was changed.
pub proof fn lemma_keyed_hash_rejects_other_signature(
    payload: Seq<u8>,
    key: Seq<u8>,
    sig: Seq<u8>,
)
    requires
        key.len() >= 32,
        Ok::<Seq<u8>, TextError>(sig) != text_signature(TextSignFormat::Blake3, key, payload),
    ensures
        text_verdict(TextSignFormat::Blake3, key, payload, sig) == Ok::<bool, TextError>(false),
{
}

/// Under the keyed hash, a signature in which one byte was changed is found
/// not to match.
pub proof fn lemma_keyed_hash_rejects_changed_signature(
    payload: Seq<u8>,
    key: Seq<u8>,
    i: int,
    b: u8,
)
    requires
        key.len() >= 32,
        0 <= i < text_signature(TextSignFormat::Blake3, key, payload)->Ok_0.len(),
        b != text_signature(TextSignFormat::Blake3, key, payload)->Ok_0[i],
    ensures
        text_verdict(
            TextSignFormat::Blake3,
            key,
            payload,
            text_signature(TextSignFormat::Blake3, key, payload)->Ok_0.update(i, b),
        ) == Ok::<bool, TextError>(false),
{
}

/// Under the keyed hash, the signature of one payload is found to match
/// another payload exactly when the two have the same keyed hash.
pub proof fn lemma_keyed_hash_accepts_only_equal_digests(
    payload: Seq<u8>,
    other: Seq<u8>,
    key: Seq<u8>,
)
    requires
        key.len() >= 32,
    ensures
        text_verdict(
            TextSignFormat::Blake3,
            key,
            other,
            text_signature(TextSignFormat::Blake3, key, payload)->Ok_0,
        ) == Ok::<bool, TextError>(
            blake3_keyed_hash(key.subrange(0, 32), other) == blake3_keyed_hash(
                key.subrange(0, 32),
                payload,
            ),
        ),
{
}

/// A key shorter than 32 bytes is refused by signing and by verifying,
/// whatever the algorithm: no key is padded.
pub proof fn lemma_short_key_is_refused(
    format: TextSignFormat,
    key: Seq<u8>,
    payload: Seq<u8>,
    sig: Seq<u8>,
)
    requires
        key.len() < 32,
    ensures
        text_signature(format, key, payload) == Err::<Seq<u8>, TextError>(TextError::KeyFormat),
        text_verdict(format, key, payload, sig) == Err::<bool, TextError>(TextError::KeyFormat),
{
}

/// One generated key: the name of the file it is meant for, and its bytes.
pub struct NamedKey {
    pub name: &'static str,
    pub bytes: Vec<u8>,
}

/// The key file of the keyed hash: one file, `blake3.txt`, holding the
/// generated password.
pub fn blake3_key_files(password: Vec<u8>) -> (r: Vec<NamedKey>)
    ensures
        r@.len() == 1,
        r@[0].name@ == "blake3.txt"@,
        r@[0].bytes@ == password@,
{
    let mut files: Vec<NamedKey> = Vec::new();
    files.push(NamedKey { name: "blake3.txt", bytes: password });
    files
}

/// The key files of an Ed25519 key pair made from `seed`: the seed as
/// `ed25519.sk`, then its public key as `ed25519.pk`.
pub fn ed25519_key_files(seed: [u8; 32]) -> (r: Vec<NamedKey>)
    ensures
        r@.len() == 2,
        r@[0].name@ == "ed25519.sk"@,
        r@[0].bytes@ == seed@,
        r@[1].name@ == "ed25519.pk"@,
        r@[1].bytes@ == ed25519_public_key(seed@),
        r@[1].bytes@.len() == 32,
        ed25519_key_valid(r@[1].bytes@),
{
    let signer = Ed25519Signer::new(&seed);
    let public = signer.public_key();
    let mut files: Vec<NamedKey> = Vec::new();
    files.push(NamedKey { name: "ed25519.sk", bytes: vstd::slice::slice_to_vec(seed.as_slice()) });
    files.push(
        NamedKey { name: "ed25519.pk", bytes: vstd::slice::slice_to_vec(public.as_slice()) },
    );
    files
}

impl Blake3 {
    /// Generates a key for the keyed hash: a password of 32 characters over
    /// all four classes of the password alphabet. The key is text that can
    /// be read and typed, not 32 uniformly random bytes.
    pub fn generate() -> (r: Vec<NamedKey>)
        ensures
            r@.len() == 1,
            r@[0].name@ == "blake3.txt"@,
            is_password(r@[0].bytes@, 32, true, true, true, true),
    {
        let mut rng = ThreadRandom;
        Self::generate_with(&mut rng)
    }

    /// Generates a key for the keyed hash with the random source given.
    pub fn generate_with<R: RandomSource>(rng: &mut R) -> (r: Vec<NamedKey>)
        ensures
            r@.len() == 1,
            r@[0].name@ == "blake3.txt"@,
            is_password(r@[0].bytes@, 32, true, true, true, true),
    {
        blake3_key_files(generate_password_with(rng, 32, true, true, true, true))
    }
}

impl Ed25519Signer {
    /// Generates an Ed25519 key pair from a fresh random seed. The two keys
    /// come together: the public key is the one that belongs to the seed.
    pub fn generate() -> (r: Vec<NamedKey>)
        ensures
            r@.len() == 2,
            r@[0].name@ == "ed25519.sk"@,
            r@[0].bytes@.len() == 32,
            r@[1].name@ == "ed25519.pk"@,
            r@[1].bytes@ == ed25519_public_key(r@[0].bytes@),
            r@[1].bytes@.len() == 32,
            ed25519_key_valid(r@[1].bytes@),
    {
        ed25519_key_files(ed25519_fresh_seed())
    }
}

/// Generates the key material of a signature algorithm, each key under the
/// name of the file it is meant for.
pub fn process_text_key_generate(format: TextSignFormat) -> (r: Vec<NamedKey>)
    ensures
        match format {
            TextSignFormat::Blake3 => {
                &&& r@.len() == 1
                &&& r@[0].name@ == "blake3.txt"@
                &&& is_password(r@[0].bytes@, 32, true, true, true, true)
            },
            TextSignFormat::Ed25519 => {
                &&& r@.len() == 2
                &&& r@[0].name@ == "ed25519.sk"@
                &&& r@[0].bytes@.len() == 32
                &&& r@[1].name@ == "ed25519.pk"@
                &&& r@[1].bytes@ == ed25519_public_key(r@[0].bytes@)
                &&& r@[1].bytes@.len() == 32
                &&& ed25519_key_valid(r@[1].bytes@)
            },
        },
{
    match format {
        TextSignFormat::Blake3 => Blake3::generate(),
        TextSignFormat::Ed25519 => Ed25519Signer::generate(),
    }
}

/// The text that encrypting `payload` gives: a key under 32 bytes or a
/// nonce under 12 is refused, of longer ones the first bytes are used.
pub open spec fn encrypted_text(
    key: Seq<u8>,
    nonce: Seq<u8>,
    format: Base64Format,
    payload: Seq<u8>,
) -> Result<Seq<char>, TextError> {
    match (fixed_prefix(key, 32), fixed_prefix(nonce, 12)) {
        (Some(k), Some(n)) => sealed_text(k, n, format, payload),
        _ => Err(TextError::KeyFormat),
    }
}

/// The bytes that decrypting `text` gives.
pub open spec fn decrypted_bytes(
    key: Seq<u8>,
    nonce: Seq<u8>,
    format: Base64Format,
    text: Seq<u8>,
) -> Result<Seq<u8>, TextError> {
    match (fixed_prefix(key, 32), fixed_prefix(nonce, 12)) {
        (Some(k), Some(n)) => opened_text(k, n, format, text),
        _ => Err(TextError::KeyFormat),
    }
}

/// The text that decrypting `text` gives: the decrypted bytes where they
/// are UTF-8, `NotText` where they are not.
pub open spec fn decrypted_text(
    key: Seq<u8>,
    nonce: Seq<u8>,
    format: Base64Format,
    text: Seq<u8>,
) -> Result<Seq<char>, TextError> {
    match decrypted_bytes(key, nonce, format, text) {
        Err(e) => Err(e),
        Ok(p) => if valid_utf8(p) {
            Ok(decode_utf8(p))
        } else {
            Err(TextError::NotText)
        },
    }
}

/// Encrypts `payload` under the first 32 bytes of `key` and the first 12
/// bytes of `nonce`, to Base64 text of the chosen flavour.
///
/// Succeeds exactly when key and nonce are long enough and the payload fits
/// the cipher. The text handed out decrypts, under the same key, nonce and
/// flavour, to the payload.
pub fn process_text_encrypt(payload: &[u8], key: &[u8], nonce: &[u8], format: Base64Format) -> (r:
    Result<String, TextError>)
    ensures
        text_outcome(r) == encrypted_text(key@, nonce@, format, payload@),
        r is Ok <==> key@.len() >= 32 && nonce@.len() >= 12 && fits_cipher(payload@.len() as int),
        r matches Ok(t) ==> decrypted_bytes(key@, nonce@, format, encode_utf8(t@)) == Ok::<
            Seq<u8>,
            TextError,
        >(payload@),
{
    match ChaCha20::try_new(key, nonce) {
        Ok(cipher) => cipher.encrypt(format, payload),
        Err(e) => Err(e),
    }
}

/// Decrypts Base64 text, given as bytes, to the bytes it was made from.
pub fn process_text_decrypt_bytes(text: &[u8], key: &[u8], nonce: &[u8], format: Base64Format) -> (r:
    Result<Vec<u8>, TextError>)
    ensures
        bytes_outcome(r) == decrypted_bytes(key@, nonce@, format, text@),
{
    match ChaCha20::try_new(key, nonce) {
        Ok(cipher) => cipher.decrypt(format, text),
        Err(e) => Err(e),
    }
}

/// The decrypted bytes as the text that decryption reports.
pub fn text_of_decrypted(decrypted: Result<Vec<u8>, TextError>) -> (r: Result<String, TextError>)
    ensures
        text_outcome(r) == match decrypted {
            Err(e) => Err::<Seq<char>, TextError>(e),
            Ok(p) => if valid_utf8(p@) {
                Ok(decode_utf8(p@))
            } else {
                Err(TextError::NotText)
            },
        },
{
    match decrypted {
        Err(e) => Err(e),
        Ok(p) => match text_of_bytes(p) {
            Some(s) => Ok(s),
            None => Err(TextError::NotText),
        },
    }
}

/// Decrypts Base64 text, given as bytes, to the text it was made from.
///
/// Bytes that are not UTF-8 are reported as `NotText`; nothing is replaced.
pub fn process_text_decrypt(text: &[u8], key: &[u8], nonce: &[u8], format: Base64Format) -> (r:
    Result<String, TextError>)
    ensures
        text_outcome(r) == decrypted_text(key@, nonce@, format, text@),
{
    text_of_decrypted(process_text_decrypt_bytes(text, key, nonce, format))
}

/// A key shorter than 32 bytes or a nonce shorter than 12 is refused by
/// encryption and by decryption: neither is padded.
pub proof fn lemma_short_cipher_key_is_refused(
    key: Seq<u8>,
    nonce: Seq<u8>,
    format: Base64Format,
    data: Seq<u8>,
)
    requires
        key.len() < 32 || nonce.len() < 12,
    ensures
        encrypted_text(key, nonce, format, data) == Err::<Seq<char>, TextError>(
            TextError::KeyFormat,
        ),
        decrypted_bytes(key, nonce, format, data) == Err::<Seq<u8>, TextError>(
            TextError::KeyFormat,
        ),
        decrypted_text(key, nonce, format, data) == Err::<Seq<char>, TextError>(
            TextError::KeyFormat,
        ),
{
}

/// Text that decrypts to the UTF-8 bytes of a string decrypts to that
/// string.
pub proof fn lemma_decrypted_text_of_utf8(
    key: Seq<u8>,
    nonce: Seq<u8>,
    format: Base64Format,
    text: Seq<u8>,
    plain: Seq<char>,
)
    requires
        decrypted_bytes(key, nonce, format, text) == Ok::<Seq<u8>, TextError>(encode_utf8(plain)),
    ensures
        decrypted_text(key, nonce, format, text) == Ok::<Seq<char>, TextError>(plain),
{
    encode_utf8_valid_utf8(plain);
    encode_utf8_decode_utf8(plain);
}

} // verus!
