//! Signing and verifying a payload, by a keyed BLAKE3 hash or by Ed25519.
//!
//! The Ed25519 types hold their key as bytes: a signer its 32-byte seed, a
//! verifier the 32 bytes of a public key that was found to decode. The
//! curve arithmetic is done by `ed25519_dalek` at each call.
use vstd::prelude::*;
use ed25519_dalek::{Signature, Signer, SigningKey, Verifier, VerifyingKey};
use crate::bytes::{bytes_equal, fixed_prefix, load_fixed};
use crate::error::TextError;

verus! {

/// The keyed BLAKE3 hash of `input` under the 32-byte `key`.
pub uninterp spec fn blake3_keyed_hash(key: Seq<u8>, input: Seq<u8>) -> Seq<u8>;

/// The Ed25519 signature that the key made from `seed` gives to `msg`.
pub uninterp spec fn ed25519_signature(seed: Seq<u8>, msg: Seq<u8>) -> Seq<u8>;

/// The bytes of the public key that belongs to the key made from `seed`.
pub uninterp spec fn ed25519_public_key(seed: Seq<u8>) -> Seq<u8>;

/// Whether 32 bytes decode to an Ed25519 public key.
pub uninterp spec fn ed25519_key_valid(key: Seq<u8>) -> bool;

/// Whether the public key `key` accepts `sig` as a signature of `msg`.
pub uninterp spec fn ed25519_accepts(key: Seq<u8>, msg: Seq<u8>, sig: Seq<u8>) -> bool;

/// A well-formed public key and a well-formed signature that the key
/// accepts for `msg`.
pub open spec fn ed25519_verifies(key: Seq<u8>, msg: Seq<u8>, sig: Seq<u8>) -> bool {
    &&& key.len() == 32
    &&& ed25519_key_valid(key)
    &&& sig.len() == 64
    &&& ed25519_accepts(key, msg, sig)
}

/// `blake3::keyed_hash`, with the bytes of the `Hash` it returns: 32 bytes
/// that depend on the key and the input alone.
#[verifier::external_body]
fn keyed_hash(key: &[u8; 32], input: &[u8]) -> (r: Vec<u8>)
    ensures
        r@ == blake3_keyed_hash(key@, input@),
        r@.len() == 32,
{
    blake3::keyed_hash(key, input).as_bytes().to_vec()
}

/// `Signer::sign` on the `SigningKey` that `SigningKey::from_bytes` makes of
/// the seed: a signature of 64 bytes that depends on the seed and the
/// message alone, and that the signing key's own public key accepts.
#[verifier::external_body]
fn ed25519_sign(seed: &[u8; 32], msg: &[u8]) -> (r: Vec<u8>)
    ensures
        r@ == ed25519_signature(seed@, msg@),
        ed25519_verifies(ed25519_public_key(seed@), msg@, r@),
{
    SigningKey::from_bytes(seed).sign(msg).to_bytes().to_vec()
}

/// `SigningKey::verifying_key` on the key made of the seed: the bytes of the
/// public key, which decode to a public key again.
#[verifier::external_body]
fn ed25519_derive_public(seed: &[u8; 32]) -> (r: [u8; 32])
    ensures
        r@ == ed25519_public_key(seed@),
        ed25519_key_valid(r@),
{
    SigningKey::from_bytes(seed).verifying_key().to_bytes()
}

/// `VerifyingKey::from_bytes`: whether the bytes decode to a public key.
#[verifier::external_body]
fn ed25519_key_decodes(key: &[u8; 32]) -> (r: bool)
    ensures
        r == ed25519_key_valid(key@),
{
    VerifyingKey::from_bytes(key).is_ok()
}

/// `Verifier::verify` on the `VerifyingKey` decoded from `key`, with the
/// signature that `Signature::from_bytes` makes of `sig`: whether the key
/// accepts the signature for the message.
#[verifier::external_body]
fn ed25519_verify(key: &[u8; 32], msg: &[u8], sig: &[u8; 64]) -> (r: bool)
    requires
        ed25519_key_valid(key@),
    ensures
        r == ed25519_accepts(key@, msg@, sig@),
{
    match VerifyingKey::from_bytes(key) {
        Ok(k) => k.verify(msg, &Signature::from_bytes(sig)).is_ok(),
        Err(_) => false,
    }
}

/// `SigningKey::generate` with the operating system's generator: the seed of
/// a fresh key. Nothing is known of its value.
#[verifier::external_body]
pub(crate) fn ed25519_fresh_seed() -> (r: [u8; 32]) {
    SigningKey::generate(&mut rand::rngs::OsRng).to_bytes()
}

/// Produces a signature for a complete payload.
pub trait TextSigner {
    /// The signature this signer gives to `payload`.
    spec fn signature_spec(&self, payload: Seq<u8>) -> Seq<u8>;

    fn sign(&self, payload: &[u8]) -> (r: Vec<u8>)
        ensures
            r@ == self.signature_spec(payload@),
    ;
}

/// Checks a signature against a complete payload.
pub trait TextVerifier {
    /// What this verifier finds for `sig` on `payload`: a malformed
    /// signature is an error, a signature that does not match is `false`.
    spec fn verdict_spec(&self, payload: Seq<u8>, sig: Seq<u8>) -> Result<bool, TextError>;

    fn verify(&self, payload: &[u8], sig: &[u8]) -> (r: Result<bool, TextError>)
        ensures
            r == self.verdict_spec(payload@, sig@),
    ;
}

/// Whether a computed digest and a supplied signature are the same bytes.
pub fn digest_matches(digest: &[u8], sig: &[u8]) -> (r: bool)
    ensures
        r == (digest@ == sig@),
{
    bytes_equal(digest, sig)
}

/// Signs and verifies by a keyed BLAKE3 hash under a 32-byte key.
pub struct Blake3 {
    key: [u8; 32],
}

impl View for Blake3 {
    type V = Seq<u8>;

    closed spec fn view(&self) -> Seq<u8> {
        self.key@
    }
}

impl Blake3 {
    pub fn new(key: [u8; 32]) -> (r: Self)
        ensures
            r@ == key@,
    {
        Self { key }
    }

    /// Takes the first 32 bytes of `key`; a shorter key is refused.
    pub fn try_new(key: &[u8]) -> (r: Result<Self, TextError>)
        ensures
            match r {
                Ok(s) => fixed_prefix(key@, 32) == Some(s@),
                Err(e) => e == TextError::KeyFormat && fixed_prefix(key@, 32) is None,
            },
    {
        match load_fixed::<32>(key) {
            Ok(k) => Ok(Self::new(k)),
            Err(e) => Err(e),
        }
    }
}

impl TextSigner for Blake3 {
    open spec fn signature_spec(&self, payload: Seq<u8>) -> Seq<u8> {
        blake3_keyed_hash(self@, payload)
    }

    fn sign(&self, payload: &[u8]) -> (r: Vec<u8>)
        ensures
            r@.len() == 32,
    {
        keyed_hash(&self.key, payload)
    }
}

impl TextVerifier for Blake3 {
    open spec fn verdict_spec(&self, payload: Seq<u8>, sig: Seq<u8>) -> Result<bool, TextError> {
        Ok(blake3_keyed_hash(self@, payload) == sig)
    }

    fn verify(&self, payload: &[u8], sig: &[u8]) -> (r: Result<bool, TextError>) {
        let digest = keyed_hash(&self.key, payload);
        Ok(digest_matches(digest.as_slice(), sig))
    }
}

/// Signs with the Ed25519 key made from a 32-byte seed.
pub struct Ed25519Signer {
    key: [u8; 32],
}

impl View for Ed25519Signer {
    type V = Seq<u8>;

    closed spec fn view(&self) -> Seq<u8> {
        self.key@
    }
}

impl Ed25519Signer {
    pub fn new(key: &[u8; 32]) -> (r: Self)
        ensures
            r@ == key@,
    {
        Self { key: *key }
    }

    /// Takes the first 32 bytes of `key` as the seed; a shorter key is
    /// refused.
    pub fn try_new(key: &[u8]) -> (r: Result<Self, TextError>)
        ensures
            match r {
                Ok(s) => fixed_prefix(key@, 32) == Some(s@),
                Err(e) => e == TextError::KeyFormat && fixed_prefix(key@, 32) is None,
            },
    {
        match load_fixed::<32>(key) {
            Ok(k) => Ok(Self::new(&k)),
            Err(e) => Err(e),
        }
    }

    /// The bytes of the public key that verifies this signer's signatures.
    pub fn public_key(&self) -> (r: [u8; 32])
        ensures
            r@ == ed25519_public_key(self@),
            ed25519_key_valid(r@),
    {
        ed25519_derive_public(&self.key)
    }
}

impl TextSigner for Ed25519Signer {
    open spec fn signature_spec(&self, payload: Seq<u8>) -> Seq<u8> {
        ed25519_signature(self@, payload)
    }

    /// The signature is accepted by the signer's own public key.
    fn sign(&self, payload: &[u8]) -> (r: Vec<u8>)
        ensures
            ed25519_verifies(ed25519_public_key(self@), payload@, r@),
    {
        ed25519_sign(&self.key, payload)
    }
}

/// Verifies with an Ed25519 public key.
pub struct Ed25519Verifier {
    key: [u8; 32],
}

impl View for Ed25519Verifier {
    type V = Seq<u8>;

    closed spec fn view(&self) -> Seq<u8> {
        self.key@
    }
}

/// What making a verifier of `key` gives: the first 32 bytes, where there
/// are as many and they decode to a public key.
pub open spec fn verifying_key_of(key: Seq<u8>) -> Option<Seq<u8>> {
    match fixed_prefix(key, 32) {
        Some(k) => if ed25519_key_valid(k) {
            Some(k)
        } else {
            None
        },
        None => None,
    }
}

impl Ed25519Verifier {
    /// The key of a verifier decodes to a public key.
    #[verifier::type_invariant]
    pub closed spec fn wf(&self) -> bool {
        ed25519_key_valid(self.key@)
    }

    /// Takes the first 32 bytes of `key` as the public key; a shorter key,
    /// or bytes that are no public key, are refused.
    pub fn try_new(key: &[u8]) -> (r: Result<Self, TextError>)
        ensures
            match r {
                Ok(v) => verifying_key_of(key@) == Some(v@),
                Err(e) => e == TextError::KeyFormat && verifying_key_of(key@) is None,
            },
    {
        match load_fixed::<32>(key) {
            Ok(k) => {
                if ed25519_key_decodes(&k) {
                    Ok(Self { key: k })
                } else {
                    Err(TextError::KeyFormat)
                }
            },
            Err(e) => Err(e),
        }
    }
}

impl Ed25519Signer {
    /// The verifier that belongs to this signer: the one of its public key.
    pub fn paired_verifier(&self) -> (v: Ed25519Verifier)
        ensures
            v@ == ed25519_public_key(self@),
    {
        Ed25519Verifier { key: self.public_key() }
    }
}

impl TextVerifier for Ed25519Verifier {
    open spec fn verdict_spec(&self, payload: Seq<u8>, sig: Seq<u8>) -> Result<bool, TextError> {
        if sig.len() != 64 {
            Err(TextError::SignatureFormat)
        } else {
            Ok(ed25519_accepts(self@, payload, sig))
        }
    }

    /// A signature of any other length than 64 bytes is refused before
    /// anything is compared.
    fn verify(&self, payload: &[u8], sig: &[u8]) -> (r: Result<bool, TextError>) {
        if sig.len() != 64 {
            return Err(TextError::SignatureFormat);
        }
        proof {
            use_type_invariant(self);
        }
        match load_fixed::<64>(sig) {
            Ok(s) => {
                assert(s@ =~= sig@);
                Ok(ed25519_verify(&self.key, payload, &s))
            },
            Err(_) => Err(TextError::SignatureFormat),
        }
    }
}

} // verus!
