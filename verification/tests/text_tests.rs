use rcli::{
    process_text_generate, process_text_sign, process_text_verify, Blake3, Ed25519Signer,
    Ed25519Verifier, Error, TextKeyGenerator, TextSign, TextSignFormat, TextVerify,
};

#[test]
fn test_blake3_sign_verify() {
    let obj = Blake3::try_new(&[1u8; 32]).unwrap();
    let data = b"hello world!".to_vec();
    let sig = obj.sign(&data).unwrap();
    assert!(obj.verify(&data, &sig).unwrap());
}

#[test]
fn text_ed25519_sign_verify() {
    let ks = process_text_generate(TextSignFormat::Ed25519).unwrap();
    let sk = Ed25519Signer::try_new(&ks.entries[0].data).unwrap();
    let pk = Ed25519Verifier::try_new(&ks.entries[1].data).unwrap();
    let data = b"hello world!".to_vec();
    let sig = sk.sign(&data).unwrap();
    assert!(pk.verify(&data, &sig).unwrap());
}

#[test]
fn test_blake3_deterministic_digest() {
    // A fixed all-0x01 key must reproduce the same 32-byte digest on every
    // run, that digest verifies, and flipping one input byte fails it.
    let key = vec![1u8; 32];
    let data = b"hello world!".to_vec();
    let obj = Blake3::try_new(&key).unwrap();
    let sig1 = obj.sign(&data).unwrap();
    let sig2 = obj.sign(&data).unwrap();
    assert_eq!(sig1, sig2);
    assert_eq!(sig1.len(), 32);
    let again = Blake3::try_new(&key).unwrap();
    assert_eq!(again.sign(&data).unwrap(), sig1);
    assert!(obj.verify(&data, &sig1).unwrap());
    let mut flipped = data.clone();
    flipped[0] ^= 0x80;
    assert!(!obj.verify(&flipped, &sig1).unwrap());
}

#[test]
fn test_blake3_wrong_key_rejects() {
    let data = b"a message".to_vec();
    let k1 = Blake3::try_new(&[1u8; 32]).unwrap();
    let k2 = Blake3::try_new(&[2u8; 32]).unwrap();
    let sig = k1.sign(&data).unwrap();
    assert!(k1.verify(&data, &sig).unwrap());
    assert!(!k2.verify(&data, &sig).unwrap());
}

#[test]
fn test_blake3_key_length_rules() {
    // 16 bytes of key material are too short; 32 succeed; only the first
    // 32 of a longer file are used.
    assert_eq!(Blake3::try_new(&[7u8; 16]).err(), Some(Error::InvalidKeyLength));
    assert!(Blake3::try_new(&[7u8; 32]).is_ok());
    let data = b"msg".to_vec();
    let short = process_text_sign(&data, &vec![7u8; 16], TextSignFormat::Blake3);
    assert_eq!(short.err(), Some(Error::InvalidKeyLength));
    let exact = process_text_sign(&data, &vec![7u8; 32], TextSignFormat::Blake3).unwrap();
    let longer = process_text_sign(&data, &vec![7u8; 40], TextSignFormat::Blake3).unwrap();
    assert_eq!(exact, longer);
}

#[test]
fn test_ed25519_key_length_rules() {
    assert_eq!(Ed25519Signer::try_new(&[7u8; 16]).err(), Some(Error::InvalidKeyLength));
    assert!(Ed25519Signer::try_new(&[7u8; 32]).is_ok());
    assert_eq!(Ed25519Verifier::try_new(&[7u8; 31]).err(), Some(Error::InvalidKeyLength));
    assert_eq!(Ed25519Verifier::try_new(&[7u8; 33]).err(), Some(Error::InvalidKeyLength));
}

#[test]
fn test_ed25519_rejects_invalid_public_key() {
    // Roughly half of all 32-byte strings are no point encoding; find one
    // and check it fails with the encoding error, not the length error.
    let mut found = false;
    for b in 0u8..=255 {
        let candidate = vec![b; 32];
        match Ed25519Verifier::try_new(&candidate) {
            Err(Error::InvalidKeyEncoding) => {
                found = true;
                break;
            }
            Err(e) => panic!("unexpected error {:?}", e),
            Ok(_) => {}
        }
    }
    assert!(found);
}

#[test]
fn test_ed25519_unrelated_key_rejects() {
    let ks1 = process_text_generate(TextSignFormat::Ed25519).unwrap();
    let ks2 = process_text_generate(TextSignFormat::Ed25519).unwrap();
    let data = b"a message".to_vec();
    let sk1 = Ed25519Signer::try_new(&ks1.entries[0].data).unwrap();
    let pk1 = Ed25519Verifier::try_new(&ks1.entries[1].data).unwrap();
    let pk2 = Ed25519Verifier::try_new(&ks2.entries[1].data).unwrap();
    let sig = sk1.sign(&data).unwrap();
    assert!(pk1.verify(&data, &sig).unwrap());
    assert!(!pk2.verify(&data, &sig).unwrap());
}

#[test]
fn test_ed25519_signature_length_gate() {
    let ks = process_text_generate(TextSignFormat::Ed25519).unwrap();
    let pk = Ed25519Verifier::try_new(&ks.entries[1].data).unwrap();
    let data = b"msg".to_vec();
    assert_eq!(
        pk.verify(&data, &vec![0u8; 32]).err(),
        Some(Error::InvalidSignatureEncoding)
    );
}

#[test]
fn test_process_sign_verify_round_trip() {
    let data = b"hello world!".to_vec();
    let key = vec![9u8; 32];
    let text = process_text_sign(&data, &key, TextSignFormat::Blake3).unwrap();
    assert_eq!(process_text_verify(&data, &key, &text, TextSignFormat::Blake3), Ok(true));
    let mut other = data.clone();
    other[0] ^= 1;
    assert_eq!(process_text_verify(&other, &key, &text, TextSignFormat::Blake3), Ok(false));

    let ks = process_text_generate(TextSignFormat::Ed25519).unwrap();
    let text = process_text_sign(&data, &ks.entries[0].data, TextSignFormat::Ed25519).unwrap();
    assert_eq!(
        process_text_verify(&data, &ks.entries[1].data, &text, TextSignFormat::Ed25519),
        Ok(true)
    );
    assert_eq!(
        process_text_verify(&other, &ks.entries[1].data, &text, TextSignFormat::Ed25519),
        Ok(false)
    );
}

#[test]
fn test_verify_rejects_malformed_signature_text() {
    // Malformed text is an error, not a silent false.
    let data = b"hello world!".to_vec();
    let key = vec![1u8; 32];
    let r = process_text_verify(&data, &key, &b"not-base64!!".to_vec(), TextSignFormat::Blake3);
    assert_eq!(r, Err(Error::InvalidSignatureEncoding));
    let r = process_text_verify(&data, &key, &b"not-base64!!".to_vec(), TextSignFormat::Ed25519);
    assert_eq!(r, Err(Error::InvalidSignatureEncoding));
    // The signature text decodes, but to the wrong length for the scheme.
    let r = process_text_verify(&data, &key, &b"aGk".to_vec(), TextSignFormat::Blake3);
    assert_eq!(r, Err(Error::InvalidSignatureEncoding));
}

#[test]
fn test_generate_key_sets() {
    let ks = process_text_generate(TextSignFormat::Blake3).unwrap();
    assert_eq!(ks.entries.len(), 1);
    assert_eq!(ks.entries[0].name, "keyed hash key");
    assert_eq!(ks.entries[0].data.len(), 32);

    let ks = process_text_generate(TextSignFormat::Ed25519).unwrap();
    assert_eq!(ks.entries.len(), 2);
    assert_eq!(ks.entries[0].name, "private key");
    assert_eq!(ks.entries[0].data.len(), 32);
    assert_eq!(ks.entries[1].name, "public key");
    assert_eq!(ks.entries[1].data.len(), 32);
}

#[test]
fn test_generate_twice_differs() {
    let ks1 = process_text_generate(TextSignFormat::Ed25519).unwrap();
    let ks2 = process_text_generate(TextSignFormat::Ed25519).unwrap();
    assert_ne!(ks1.entries[0].data, ks2.entries[0].data);
    let ks1 = process_text_generate(TextSignFormat::Blake3).unwrap();
    let ks2 = process_text_generate(TextSignFormat::Blake3).unwrap();
    assert_ne!(ks1.entries[0].data, ks2.entries[0].data);
}

#[test]
fn test_generate_uses_blake3_generate() {
    // The scheme type's own generator produces the same shape of key set.
    let ks = <Blake3 as TextKeyGenerator>::generate().unwrap();
    assert_eq!(ks.entries.len(), 1);
    assert_eq!(ks.entries[0].data.len(), 32);
}

#[test]
fn test_sign_verify_empty_message() {
    let key = vec![3u8; 32];
    let data = Vec::new();
    let text = process_text_sign(&data, &key, TextSignFormat::Blake3).unwrap();
    assert_eq!(process_text_verify(&data, &key, &text, TextSignFormat::Blake3), Ok(true));
}
