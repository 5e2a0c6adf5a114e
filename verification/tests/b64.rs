use rcli::{decode_bytes, process_decode, process_encode, text_of_decoded, Base64Format, TextError};

#[test]
fn test_process_encode() {
    let format = Base64Format::Standard;
    let encoded = process_encode(b"hello world\n", format);
    assert_eq!(encoded, "aGVsbG8gd29ybGQK");
}

#[test]
fn test_process_encode1() {
    let format = Base64Format::Standard;
    let input = b"[package]\nname = \"rcli\"\nversion = \"0.1.0\"\n";
    let encoded = process_encode(input, format);
    assert_eq!(decode_bytes(encoded.as_bytes(), format), Some(input.to_vec()));
}

#[test]
fn test_process_decode() {
    let format = Base64Format::Standard;
    let decoded = process_decode("aGVsbG8gd29ybGQ=\n", format).unwrap();
    assert_eq!(decoded, "hello world");
}

#[test]
fn the_two_flavours_differ_in_alphabet_and_padding() {
    let data = [0xfbu8, 0xff];
    assert_eq!(process_encode(&data, Base64Format::Standard), "+/8=");
    assert_eq!(process_encode(&data, Base64Format::UrlSafe), "-_8");
    assert_eq!(decode_bytes(b"+/8=", Base64Format::Standard), Some(data.to_vec()));
    assert_eq!(decode_bytes(b"-_8", Base64Format::UrlSafe), Some(data.to_vec()));
    assert_eq!(decode_bytes(b"-_8", Base64Format::Standard), None);
    assert_eq!(decode_bytes(b"+/8=", Base64Format::UrlSafe), None);
    assert_eq!(process_encode(&[], Base64Format::Standard), "");
}

#[test]
fn decoding_ignores_surrounding_white_space() {
    assert_eq!(process_decode("  aGVsbG8 \r\n", Base64Format::UrlSafe), Ok("hello".to_string()));
    assert_eq!(process_decode("aGV sbG8", Base64Format::UrlSafe), Err(TextError::InputDecode));
}

#[test]
fn decoding_reports_what_is_wrong() {
    assert_eq!(process_decode("@@@@", Base64Format::Standard), Err(TextError::InputDecode));
    assert_eq!(process_decode("//8=", Base64Format::Standard), Err(TextError::NotText));
    assert_eq!(text_of_decoded(None), Err(TextError::InputDecode));
    assert_eq!(text_of_decoded(Some(vec![0xff])), Err(TextError::NotText));
    assert_eq!(text_of_decoded(Some(vec![0xc3, 0xa9])), Ok("\u{e9}".to_string()));
    assert_eq!(text_of_decoded(Some(vec![])), Ok(String::new()));
}
