//! A toolbox for the command line, as a library.
//!
//! Its core protects text: it signs and verifies a payload by a keyed
//! BLAKE3 hash or by Ed25519 (`sign`), encrypts and decrypts it with
//! ChaCha20-Poly1305 and hands the ciphertext out as Base64 (`cipher`,
//! `b64`), and generates the keys (`text`, `gen_pass`). Each operation
//! takes a complete payload and the raw key material, and is a function of
//! its arguments; only key generation draws random numbers.
//!
//! Around the core stand the smaller rules of the toolbox: the names of the
//! formats (`format`), the checks on file names (`files`), the claims of a
//! token (`jwt`), the records of a table (`table`) and the decisions of a
//! file server (`serve`).
pub mod b64;
pub mod bytes;
pub mod cipher;
pub mod error;
pub mod files;
pub mod format;
pub mod gen_pass;
pub mod jwt;
pub mod serve;
pub mod sign;
pub mod table;
pub mod text;

pub use b64::{decode_bytes, process_decode, process_encode, text_of_decoded};
pub use bytes::{bytes_equal, load_fixed, text_equal, text_of_bytes};
pub use cipher::{bytes_of_opened, text_of_sealed, ChaCha20, TextDecrypt, TextEncrypt};
pub use error::TextError;
pub use files::{
    accept_file, accept_input_file, accept_path, verify_file, verify_input_file, verify_path,
};
pub use format::{
    parse_base64_format, parse_format, parse_text_sign_format, Base64Format, FormatError,
    OutputFormat, TextSignFormat,
};
pub use gen_pass::{
    generate_password_bytes, generate_password_with, is_enabled, process_genpass, RandomSource,
    ThreadRandom,
};
pub use jwt::{expiry, jwt_verdict, Claims, JwtError, JwtFailure, MAX_TIMESTAMP};
pub use serve::{
    classify, split_entries, status_for, Entry, Found, STATUS_INTERNAL_SERVER_ERROR,
    STATUS_NOT_FOUND, STATUS_OK,
};
pub use sign::{digest_matches, Blake3, Ed25519Signer, Ed25519Verifier, TextSigner, TextVerifier};
pub use table::pair_fields;
pub use text::{
    blake3_key_files, ed25519_key_files, process_text_decrypt, process_text_decrypt_bytes,
    process_text_encrypt, process_text_key_generate, process_text_sign, process_text_verify,
    text_of_decrypted, NamedKey,
};
