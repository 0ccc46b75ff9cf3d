use rcli::{decode_signature, encode_signature, process_decode, process_encode};
use rcli::{Base64Format, Error};

#[test]
fn test_encode_signature_exact() {
    assert_eq!(encode_signature(&b"hi".to_vec()), b"aGk".to_vec());
    assert_eq!(encode_signature(&Vec::new()), Vec::<u8>::new());
    // 0xfb 0xff: exercises the two URL-safe symbols `-` and `_`.
    assert_eq!(encode_signature(&vec![0xfb, 0xff]), b"-_8".to_vec());
}

#[test]
fn test_decode_signature_exact() {
    assert_eq!(decode_signature(&b"aGk".to_vec()), Ok(b"hi".to_vec()));
    assert_eq!(decode_signature(&b"AQ".to_vec()), Ok(vec![1u8]));
    assert_eq!(decode_signature(&Vec::new()), Ok(Vec::new()));
}

#[test]
fn test_decode_signature_rejects_malformed() {
    // A byte outside the alphabet.
    assert_eq!(
        decode_signature(&b"not-base64!!".to_vec()),
        Err(Error::InvalidSignatureEncoding)
    );
    // Length 1 modulo 4.
    assert_eq!(decode_signature(&b"A".to_vec()), Err(Error::InvalidSignatureEncoding));
    // Non-zero trailing bits: `B` is 1, whose low 4 bits are not zero.
    assert_eq!(decode_signature(&b"AB".to_vec()), Err(Error::InvalidSignatureEncoding));
    // Padding is not part of the URL-safe unpadded form.
    assert_eq!(decode_signature(&b"AQ==".to_vec()), Err(Error::InvalidSignatureEncoding));
}

#[test]
fn test_signature_codec_round_trip() {
    // The two signature lengths the schemes produce.
    let sig32: Vec<u8> = (0u8..32).collect();
    let sig64: Vec<u8> = (100u8..164).collect();
    for sig in [sig32, sig64] {
        let text = encode_signature(&sig);
        assert!(text.iter().all(|b| b.is_ascii_alphanumeric() || *b == b'-' || *b == b'_'));
        assert_eq!(decode_signature(&text), Ok(sig));
    }
}

#[test]
fn test_process_encode() {
    let input = "Cargo.toml";
    let encoded = process_encode(&input.as_bytes().to_vec(), Base64Format::Standard);
    assert_eq!(encoded, b"Q2FyZ28udG9tbA==".to_vec());
    let encoded = process_encode(&input.as_bytes().to_vec(), Base64Format::UrlSafe);
    assert_eq!(encoded, b"Q2FyZ28udG9tbA".to_vec());
}

#[test]
fn test_process_decode() {
    let decoded = process_decode(&b"Q2FyZ28udG9tbA==\n".to_vec(), Base64Format::Standard);
    assert_eq!(decoded, Ok(b"Cargo.toml".to_vec()));
    let decoded = process_decode(&b"  Q2FyZ28udG9tbA ".to_vec(), Base64Format::UrlSafe);
    assert_eq!(decoded, Ok(b"Cargo.toml".to_vec()));
    // The standard alphabet requires canonical padding.
    assert_eq!(
        process_decode(&b"Q2FyZ28udG9tbA".to_vec(), Base64Format::Standard),
        Err(Error::InvalidSignatureEncoding)
    );
    // Padding is refused under the unpadded URL-safe form.
    assert_eq!(
        process_decode(&b"Q2FyZ28udG9tbA==".to_vec(), Base64Format::UrlSafe),
        Err(Error::InvalidSignatureEncoding)
    );
}

#[test]
fn test_standard_codec_round_trip() {
    // Tails of 0, 1 and 2 bytes exercise every padding shape.
    for n in 0..8u8 {
        let data: Vec<u8> = (0..n).map(|b| b.wrapping_mul(97) ^ 0x5a).collect();
        for format in [Base64Format::Standard, Base64Format::UrlSafe] {
            let text = process_encode(&data, format);
            assert_eq!(process_decode(&text, format), Ok(data.clone()));
        }
    }
}
