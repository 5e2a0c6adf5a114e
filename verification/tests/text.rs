use base64::{engine::general_purpose::URL_SAFE_NO_PAD, Engine};
use rcli::{
    process_decode, process_encode, process_text_decrypt, process_text_decrypt_bytes,
    process_text_encrypt, process_text_key_generate, process_text_sign, process_text_verify,
    Base64Format, Blake3, ChaCha20, Ed25519Signer, Ed25519Verifier, TextDecrypt, TextEncrypt,
    TextError, TextSignFormat, TextSigner, TextVerifier,
};

const KEY: &[u8] = b"Hx6Tq#9mWz@4Kp2VbR7n!cYd3Ge8uJfA\n";
const CHACHA_KEY: &[u8] = b"an example very very secret key.\n";
const CHACHA_NONCE: &[u8] = b"unique nonce\n";

fn unhex(text: &str) -> Vec<u8> {
    let digits: Vec<u8> = text
        .bytes()
        .map(|b| match b {
            b'0'..=b'9' => b - b'0',
            b'a'..=b'f' => b - b'a' + 10,
            _ => panic!("not a hex digit"),
        })
        .collect();
    digits.chunks(2).map(|pair| pair[0] * 16 + pair[1]).collect()
}

const RFC8032_SEED: &str = "9d61b19deffd5a60ba844af492ec2cc44449c5697b326919703bac031cae7f60";
const RFC8032_PUBLIC: &str = "d75a980182b10ab7d54bfed3c964073a0ee172f3daa62325af021a68f707511a";
const RFC8032_SIGNATURE: &str = "e5564300c360ac729086e2cc806e828a84877f1eb8e5d974d873e06522490155\
5fb8821590a33bacc61e39701cf9b46bd25bf5f0595bbe24655141438e7a100b";

#[test]
fn test_process_text_sign() {
    let format = TextSignFormat::Blake3;
    let sig = process_text_sign("hello".as_bytes(), KEY, format).unwrap();
    let ret = process_text_verify("hello".as_bytes(), KEY, &sig, format).unwrap();
    assert!(ret);
}

#[test]
fn test_process_text_verify() {
    let format = TextSignFormat::Blake3;
    let sig = "wM204UdYE-_PojIIs5ckA9LF6jMakdIKPqwpN8QX8_Y";
    let sig = URL_SAFE_NO_PAD.decode(sig).unwrap();
    let ret = process_text_verify("hello".as_bytes(), KEY, &sig, format).unwrap();
    assert!(ret);
}

#[test]
fn test_process_text_chacha20() {
    let format = Base64Format::Standard;
    let encrypt_str =
        process_text_encrypt("hello world!".as_bytes(), CHACHA_KEY, CHACHA_NONCE, format).unwrap();
    let decrypt_str =
        process_text_decrypt(encrypt_str.as_bytes(), CHACHA_KEY, CHACHA_NONCE, format).unwrap();
    assert_eq!(decrypt_str, "hello world!");
}

#[test]
fn test_chacha20() {
    let cipher = ChaCha20::try_new(&KEY[0..32], &KEY[0..12]).unwrap();

    let ciphertext_base64 = cipher.encrypt(Base64Format::Standard, b"hello world!").unwrap();
    println!("ciphertext_base64: {}", ciphertext_base64);

    let ciphertext_decode: Vec<u8> =
        rcli::decode_bytes(ciphertext_base64.as_bytes(), Base64Format::Standard).unwrap();
    println!("ciphertext_decode: {}", String::from_utf8_lossy(&ciphertext_decode));

    let plaintext = cipher.decrypt(Base64Format::Standard, ciphertext_base64.as_bytes()).unwrap();
    println!("plaintext: {:?}", String::from_utf8_lossy(&plaintext));
    assert_eq!(&plaintext, b"hello world!");
}

#[test]
fn keyed_hash_of_hello_is_the_known_digest() {
    let sig = process_text_sign("hello".as_bytes(), KEY, TextSignFormat::Blake3).unwrap();
    assert_eq!(sig.len(), 32);
    assert_eq!(process_encode(&sig, Base64Format::UrlSafe), "wM204UdYE-_PojIIs5ckA9LF6jMakdIKPqwpN8QX8_Y");
}

#[test]
fn keyed_hash_matches_the_published_vector() {
    let key = b"whats the Elvish word for friend";
    let sig = process_text_sign(&[], key, TextSignFormat::Blake3).unwrap();
    assert_eq!(
        sig,
        unhex("92b2b75604ed3c761f9d6f62392c8a9227ad0ea3f09573e783f1498a4ed60d26")
    );
}

#[test]
fn keyed_hash_rejects_an_altered_digest() {
    let format = TextSignFormat::Blake3;
    let sig = process_text_sign("hello".as_bytes(), KEY, format).unwrap();
    for i in 0..sig.len() {
        let mut altered = sig.clone();
        altered[i] ^= 1;
        assert_eq!(process_text_verify("hello".as_bytes(), KEY, &altered, format), Ok(false));
    }
    assert_eq!(process_text_verify("hello".as_bytes(), KEY, &sig[..31], format), Ok(false));
    assert_eq!(process_text_verify("hello".as_bytes(), KEY, &[], format), Ok(false));
}

#[test]
fn keyed_hash_rejects_an_altered_payload() {
    let format = TextSignFormat::Blake3;
    let sig = process_text_sign("hello".as_bytes(), KEY, format).unwrap();
    assert_eq!(process_text_verify("hellp".as_bytes(), KEY, &sig, format), Ok(false));
    assert_eq!(process_text_verify("hello!".as_bytes(), KEY, &sig, format), Ok(false));
    assert_eq!(process_text_verify("".as_bytes(), KEY, &sig, format), Ok(false));
}

#[test]
fn keyed_hash_depends_on_the_key() {
    let format = TextSignFormat::Blake3;
    let sig = process_text_sign("hello".as_bytes(), KEY, format).unwrap();
    let other = process_text_sign("hello".as_bytes(), CHACHA_KEY, format).unwrap();
    assert_ne!(sig, other);
    assert_eq!(process_text_verify("hello".as_bytes(), CHACHA_KEY, &sig, format), Ok(false));
}

#[test]
fn keyed_hash_is_deterministic_and_uses_the_key_prefix() {
    let format = TextSignFormat::Blake3;
    let first = process_text_sign("hello".as_bytes(), KEY, format).unwrap();
    let second = process_text_sign("hello".as_bytes(), KEY, format).unwrap();
    let prefix = process_text_sign("hello".as_bytes(), &KEY[..32], format).unwrap();
    assert_eq!(first, second);
    assert_eq!(first, prefix);
}

#[test]
fn short_keys_are_refused() {
    let short = &KEY[..31];
    for format in [TextSignFormat::Blake3, TextSignFormat::Ed25519] {
        assert_eq!(process_text_sign(b"hello", short, format), Err(TextError::KeyFormat));
        assert_eq!(process_text_sign(b"hello", &[], format), Err(TextError::KeyFormat));
        assert_eq!(
            process_text_verify(b"hello", short, &[0u8; 64], format),
            Err(TextError::KeyFormat)
        );
    }
    assert!(matches!(Blake3::try_new(short), Err(TextError::KeyFormat)));
    assert!(matches!(Ed25519Signer::try_new(short), Err(TextError::KeyFormat)));
    assert!(matches!(Ed25519Verifier::try_new(short), Err(TextError::KeyFormat)));
    assert!(matches!(ChaCha20::try_new(short, CHACHA_NONCE), Err(TextError::KeyFormat)));
    assert!(matches!(ChaCha20::try_new(CHACHA_KEY, &CHACHA_NONCE[..11]), Err(TextError::KeyFormat)));
    for format in [Base64Format::Standard, Base64Format::UrlSafe] {
        assert_eq!(
            process_text_encrypt(b"hello", short, CHACHA_NONCE, format),
            Err(TextError::KeyFormat)
        );
        assert_eq!(
            process_text_encrypt(b"hello", CHACHA_KEY, &CHACHA_NONCE[..11], format),
            Err(TextError::KeyFormat)
        );
        assert_eq!(
            process_text_decrypt(b"aGVsbG8", short, CHACHA_NONCE, format),
            Err(TextError::KeyFormat)
        );
        assert_eq!(
            process_text_decrypt(b"aGVsbG8", CHACHA_KEY, &[], format),
            Err(TextError::KeyFormat)
        );
    }
}

#[test]
fn ed25519_matches_the_published_vector() {
    let seed = unhex(RFC8032_SEED);
    let public = unhex(RFC8032_PUBLIC);
    let sig = process_text_sign(&[], &seed, TextSignFormat::Ed25519).unwrap();
    assert_eq!(sig, unhex(RFC8032_SIGNATURE));
    assert_eq!(process_text_verify(&[], &public, &sig, TextSignFormat::Ed25519), Ok(true));
    let signer = Ed25519Signer::try_new(&seed).unwrap();
    assert_eq!(signer.public_key().to_vec(), public);
}

#[test]
fn ed25519_round_trip() {
    let seed = &KEY[..32];
    let signer = Ed25519Signer::try_new(seed).unwrap();
    let public = signer.public_key();
    let sig = signer.sign(b"hello");
    assert_eq!(sig.len(), 64);
    assert_eq!(sig, process_text_sign(b"hello", KEY, TextSignFormat::Ed25519).unwrap());
    let verifier = Ed25519Verifier::try_new(&public).unwrap();
    assert_eq!(verifier.verify(b"hello", &sig), Ok(true));
    assert_eq!(signer.paired_verifier().verify(b"hello", &sig), Ok(true));
    assert_eq!(signer.paired_verifier().verify(b"hullo", &sig), Ok(false));
    assert_eq!(process_text_verify(b"hello", &public, &sig, TextSignFormat::Ed25519), Ok(true));
}

#[test]
fn ed25519_rejects_altered_input() {
    let format = TextSignFormat::Ed25519;
    let signer = Ed25519Signer::try_new(KEY).unwrap();
    let public = signer.public_key();
    let sig = signer.sign(b"hello");
    for i in 0..sig.len() {
        let mut altered = sig.clone();
        altered[i] ^= 1;
        assert_eq!(process_text_verify(b"hello", &public, &altered, format), Ok(false));
    }
    assert_eq!(process_text_verify(b"hellp", &public, &sig, format), Ok(false));
    assert_eq!(process_text_verify(b"", &public, &sig, format), Ok(false));
}

#[test]
fn ed25519_refuses_a_signature_of_another_length() {
    let format = TextSignFormat::Ed25519;
    let public = unhex(RFC8032_PUBLIC);
    let mut sig = unhex(RFC8032_SIGNATURE);
    assert_eq!(process_text_verify(&[], &public, &sig[..63], format), Err(TextError::SignatureFormat));
    assert_eq!(process_text_verify(&[], &public, &[], format), Err(TextError::SignatureFormat));
    sig.push(0);
    assert_eq!(process_text_verify(&[], &public, &sig, format), Err(TextError::SignatureFormat));
}

#[test]
fn ed25519_refuses_bytes_that_are_no_public_key() {
    let mut found = false;
    for first in 0..=255u8 {
        let mut bytes = [0u8; 32];
        bytes[0] = first;
        bytes[1] = 1;
        if Ed25519Verifier::try_new(&bytes).is_err() {
            found = true;
            assert_eq!(
                process_text_verify(b"hello", &bytes, &[0u8; 64], TextSignFormat::Ed25519),
                Err(TextError::KeyFormat)
            );
        }
    }
    assert!(found);
}

#[test]
fn generated_blake3_key_is_a_password_of_32_characters() {
    let files = process_text_key_generate(TextSignFormat::Blake3);
    assert_eq!(files.len(), 1);
    assert_eq!(files[0].name, "blake3.txt");
    let key = &files[0].bytes;
    assert_eq!(key.len(), 32);
    assert!(key.iter().any(|b| b.is_ascii_uppercase()));
    assert!(key.iter().any(|b| b.is_ascii_lowercase()));
    assert!(key.iter().any(|b| b.is_ascii_digit()));
    assert!(key.iter().any(|b| b"!@#$%^&*_".contains(b)));
    assert!(key.iter().all(|b| !b"IOl0".contains(b)));
    let sig = process_text_sign(b"hello", key, TextSignFormat::Blake3).unwrap();
    assert_eq!(process_text_verify(b"hello", key, &sig, TextSignFormat::Blake3), Ok(true));
}

#[test]
fn generated_ed25519_keys_belong_together() {
    let files = process_text_key_generate(TextSignFormat::Ed25519);
    assert_eq!(files.len(), 2);
    assert_eq!(files[0].name, "ed25519.sk");
    assert_eq!(files[1].name, "ed25519.pk");
    assert_eq!(files[0].bytes.len(), 32);
    assert_eq!(files[1].bytes.len(), 32);
    let signer = Ed25519Signer::try_new(&files[0].bytes).unwrap();
    assert_eq!(signer.public_key().to_vec(), files[1].bytes);
    let sig = process_text_sign(b"hello", &files[0].bytes, TextSignFormat::Ed25519).unwrap();
    assert_eq!(
        process_text_verify(b"hello", &files[1].bytes, &sig, TextSignFormat::Ed25519),
        Ok(true)
    );
    let again = process_text_key_generate(TextSignFormat::Ed25519);
    assert_ne!(files[0].bytes, again[0].bytes);
}

#[test]
fn encryption_round_trip_in_both_flavours() {
    let payloads: [&[u8]; 4] = [b"", b"hello world!", &[0u8, 255, 128, 7], &[42u8; 1000]];
    for format in [Base64Format::Standard, Base64Format::UrlSafe] {
        for payload in payloads {
            let text = process_text_encrypt(payload, CHACHA_KEY, CHACHA_NONCE, format).unwrap();
            let plain =
                process_text_decrypt_bytes(text.as_bytes(), CHACHA_KEY, CHACHA_NONCE, format);
            assert_eq!(plain, Ok(payload.to_vec()));
        }
    }
}

#[test]
fn ciphertext_is_the_payload_and_a_tag() {
    let cipher = ChaCha20::try_new(CHACHA_KEY, CHACHA_NONCE).unwrap();
    let text = cipher.encrypt(Base64Format::Standard, b"hello world!").unwrap();
    let sealed = rcli::decode_bytes(text.as_bytes(), Base64Format::Standard).unwrap();
    assert_eq!(sealed.len(), 12 + 16);
    assert_ne!(&sealed[..12], b"hello world!");
    assert_eq!(cipher.decrypt(Base64Format::Standard, text.as_bytes()), Ok(b"hello world!".to_vec()));
    let again = cipher.encrypt(Base64Format::Standard, b"hello world!").unwrap();
    assert_eq!(text, again);
}

#[test]
fn decryption_with_another_key_or_nonce_fails() {
    let format = Base64Format::Standard;
    let text = process_text_encrypt(b"hello world!", CHACHA_KEY, CHACHA_NONCE, format).unwrap();
    assert_eq!(
        process_text_decrypt(text.as_bytes(), KEY, CHACHA_NONCE, format),
        Err(TextError::Authentication)
    );
    assert_eq!(
        process_text_decrypt(text.as_bytes(), CHACHA_KEY, b"another nonce", format),
        Err(TextError::Authentication)
    );
}

#[test]
fn decryption_of_altered_text_fails() {
    let format = Base64Format::Standard;
    let text = process_text_encrypt(b"hello world!", CHACHA_KEY, CHACHA_NONCE, format).unwrap();
    let mut sealed = rcli::decode_bytes(text.as_bytes(), format).unwrap();
    sealed[0] ^= 1;
    let altered = process_encode(&sealed, format);
    assert_eq!(
        process_text_decrypt(altered.as_bytes(), CHACHA_KEY, CHACHA_NONCE, format),
        Err(TextError::Authentication)
    );
    let short = process_encode(&sealed[..10], format);
    assert_eq!(
        process_text_decrypt(short.as_bytes(), CHACHA_KEY, CHACHA_NONCE, format),
        Err(TextError::Authentication)
    );
}

#[test]
fn decryption_of_text_that_is_no_base64_fails() {
    assert_eq!(
        process_text_decrypt(b"not base64!", CHACHA_KEY, CHACHA_NONCE, Base64Format::Standard),
        Err(TextError::InputDecode)
    );
    let text =
        process_text_encrypt(b"hello world!!", CHACHA_KEY, CHACHA_NONCE, Base64Format::Standard)
            .unwrap();
    assert!(text.ends_with('='));
    assert_eq!(
        process_text_decrypt(text.as_bytes(), CHACHA_KEY, CHACHA_NONCE, Base64Format::UrlSafe),
        Err(TextError::InputDecode)
    );
}

#[test]
fn decrypted_bytes_that_are_no_text_are_reported() {
    let format = Base64Format::UrlSafe;
    let text = process_text_encrypt(&[0xff, 0xfe], CHACHA_KEY, CHACHA_NONCE, format).unwrap();
    assert_eq!(
        process_text_decrypt(text.as_bytes(), CHACHA_KEY, CHACHA_NONCE, format),
        Err(TextError::NotText)
    );
    assert_eq!(
        process_text_decrypt_bytes(text.as_bytes(), CHACHA_KEY, CHACHA_NONCE, format),
        Ok(vec![0xff, 0xfe])
    );
}

#[test]
fn error_messages() {
    assert_eq!(TextError::KeyFormat.message(), "invalid key length or format");
    assert_eq!(TextError::SignatureFormat.message(), "invalid signature length");
    assert_eq!(TextError::EncryptFailed.message(), "encryptor failed");
    assert_eq!(TextError::InputDecode.message(), "input decode failed");
    assert_eq!(TextError::Authentication.message(), "decrypt failed");
    assert_eq!(TextError::NotText.message(), "result is not valid UTF-8 text");
}

#[test]
fn decode_after_encode_is_the_identity() {
    assert_eq!(
        process_decode(&process_encode(b"hello", Base64Format::UrlSafe), Base64Format::UrlSafe),
        Ok("hello".to_string())
    );
}
