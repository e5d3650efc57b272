use base64::engine::general_purpose::URL_SAFE_NO_PAD;
use base64::Engine;
use rcli::{
    generate_from, process_decrypt, process_encrypt, process_generate, process_sign,
    process_verify, Blake3, ChaCha20Poly1305cryptor, Ed25519Signer, Ed25519Verifier, TextError,
    TextSignFormat,
};

const KEY: &[u8] = b"2PVnPNxWEbfdPuLMMmjbwBL5e6B1LFBD";
const CIPHER_KEY: &[u8] = b"k3yForChaCha20Poly1305Tests.0123";
const NONCE: &[u8] = b"nonce-12byte";

fn hex(s: &str) -> Vec<u8> {
    (0..s.len())
        .step_by(2)
        .map(|i| u8::from_str_radix(&s[i..i + 2], 16).unwrap())
        .collect()
}

#[test]
fn test_process_sign() {
    let sig = URL_SAFE_NO_PAD
        .decode(b"EEkM_0sUgvngYIEG7ZGvQs0dTt3HF13pfVisK1aD6lg")
        .unwrap();
    assert_eq!(
        sig,
        process_sign("hello,world!".as_bytes(), KEY, TextSignFormat::Blake3).unwrap()
    );
}

#[test]
fn test_process_verify() {
    let sig = URL_SAFE_NO_PAD
        .decode(b"EEkM_0sUgvngYIEG7ZGvQs0dTt3HF13pfVisK1aD6lg")
        .unwrap();
    let ret = process_verify("hello,world!".as_bytes(), KEY, &sig, TextSignFormat::Blake3);
    assert!(ret.is_ok());
}

#[test]
fn test_process_encrypt() {
    let encrypted = process_encrypt(
        "hello,world!".as_bytes(),
        CIPHER_KEY,
        NONCE,
        TextSignFormat::ChaCha20Poly1305,
    )
    .unwrap();
    let decrypted = process_decrypt(
        encrypted.as_slice(),
        CIPHER_KEY,
        NONCE,
        TextSignFormat::ChaCha20Poly1305,
    )
    .unwrap();
    assert_eq!("hello,world!".as_bytes(), decrypted);
}

#[test]
fn keyed_hash_golden_vector_verifies_true() {
    let sig = URL_SAFE_NO_PAD
        .decode(b"EEkM_0sUgvngYIEG7ZGvQs0dTt3HF13pfVisK1aD6lg")
        .unwrap();
    assert_eq!(sig.len(), 32);
    let ret = process_verify(b"hello,world!", KEY, &sig, TextSignFormat::Blake3);
    assert_eq!(ret, Ok(true));
}

#[test]
fn keyed_hash_sign_then_verify() {
    for data in [&b""[..], b"a", b"hello,world!", &[0u8; 1000][..]] {
        let sig = process_sign(data, KEY, TextSignFormat::Blake3).unwrap();
        assert_eq!(sig.len(), 32);
        assert_eq!(process_verify(data, KEY, &sig, TextSignFormat::Blake3), Ok(true));
    }
}

#[test]
fn keyed_hash_other_key_does_not_verify() {
    let other: &[u8] = b"2PVnPNxWEbfdPuLMMmjbwBL5e6B1LFBE";
    let sig = process_sign(b"hello,world!", KEY, TextSignFormat::Blake3).unwrap();
    assert_eq!(process_verify(b"hello,world!", other, &sig, TextSignFormat::Blake3), Ok(false));
}

#[test]
fn keyed_hash_changed_data_changes_digest() {
    let a = process_sign(b"hello,world!", KEY, TextSignFormat::Blake3).unwrap();
    let b = process_sign(b"hello,world?", KEY, TextSignFormat::Blake3).unwrap();
    assert_ne!(a, b);
    assert_eq!(process_verify(b"hello,world?", KEY, &a, TextSignFormat::Blake3), Ok(false));
}

#[test]
fn keyed_hash_signature_of_wrong_length_is_false() {
    let sig = process_sign(b"data", KEY, TextSignFormat::Blake3).unwrap();
    assert_eq!(process_verify(b"data", KEY, &sig[..31], TextSignFormat::Blake3), Ok(false));
    assert_eq!(process_verify(b"data", KEY, &[], TextSignFormat::Blake3), Ok(false));
}

#[test]
fn keyed_hash_short_key_is_rejected() {
    assert_eq!(
        process_sign(b"data", &KEY[..31], TextSignFormat::Blake3),
        Err(TextError::InvalidKeyLength)
    );
    assert_eq!(
        process_verify(b"data", &KEY[..31], &[0u8; 32], TextSignFormat::Blake3),
        Err(TextError::InvalidKeyLength)
    );
    assert!(matches!(Blake3::try_new(&[0u8; 33]), Err(TextError::InvalidKeyLength)));
}

#[test]
fn blake3_struct_signs_like_dispatcher() {
    let mut key = [0u8; 32];
    key.copy_from_slice(KEY);
    let signer = Blake3::new(key);
    let sig = signer.sign(b"hello,world!");
    assert_eq!(sig, process_sign(b"hello,world!", KEY, TextSignFormat::Blake3).unwrap());
    assert!(signer.verify(b"hello,world!", &sig));
    assert!(Blake3::try_new(KEY).is_ok());
}

#[test]
fn ed25519_rfc8032_vector() {
    let seed = hex("9d61b19deffd5a60ba844af492ec2cc44449c5697b326919703bac031cae7f60");
    let public = hex("d75a980182b10ab7d54bfed3c964073a0ee172f3daa62325af021a68f707511a");
    let expected = hex(
        "e5564300c360ac729086e2cc806e828a84877f1eb8e5d974d873e065224901555\
         fb8821590a33bacc61e39701cf9b46bd25bf5f0595bbe24655141438e7a100b",
    );
    let sig = process_sign(b"", &seed, TextSignFormat::Ed25519).unwrap();
    assert_eq!(sig, expected);
    assert_eq!(process_verify(b"", &public, &sig, TextSignFormat::Ed25519), Ok(true));
    let mut seed_array = [0u8; 32];
    seed_array.copy_from_slice(&seed);
    let set = generate_from(TextSignFormat::Ed25519, seed_array, [0u8; 12]);
    assert_eq!(set.len(), 2);
    assert_eq!(set[0].name, "ed25519.sk");
    assert_eq!(set[0].bytes, seed);
    assert_eq!(set[1].name, "ed25519.pk");
    assert_eq!(set[1].bytes, public);
}

#[test]
fn ed25519_generated_pair_round_trip() {
    let set = process_generate(TextSignFormat::Ed25519).unwrap();
    assert_eq!(set.len(), 2);
    assert_eq!(set[0].name, "ed25519.sk");
    assert_eq!(set[1].name, "ed25519.pk");
    assert_eq!(set[0].bytes.len(), 32);
    assert_eq!(set[1].bytes.len(), 32);
    for data in [&b""[..], b"hello,world!", &[7u8; 300][..]] {
        let sig = process_sign(data, &set[0].bytes, TextSignFormat::Ed25519).unwrap();
        assert_eq!(sig.len(), 64);
        assert_eq!(
            process_verify(data, &set[1].bytes, &sig, TextSignFormat::Ed25519),
            Ok(true)
        );
    }
}

#[test]
fn ed25519_tampered_signature_is_false() {
    let set = process_generate(TextSignFormat::Ed25519).unwrap();
    let mut sig = process_sign(b"message", &set[0].bytes, TextSignFormat::Ed25519).unwrap();
    sig[0] ^= 1;
    assert_eq!(
        process_verify(b"message", &set[1].bytes, &sig, TextSignFormat::Ed25519),
        Ok(false)
    );
    let sig = process_sign(b"message", &set[0].bytes, TextSignFormat::Ed25519).unwrap();
    assert_eq!(
        process_verify(b"other message", &set[1].bytes, &sig, TextSignFormat::Ed25519),
        Ok(false)
    );
}

#[test]
fn ed25519_errors() {
    assert_eq!(
        process_sign(b"m", &[1u8; 31], TextSignFormat::Ed25519),
        Err(TextError::InvalidKeyLength)
    );
    assert_eq!(
        process_verify(b"m", &[1u8; 33], &[0u8; 64], TextSignFormat::Ed25519),
        Err(TextError::InvalidKeyLength)
    );
    let mut not_a_point = [0u8; 32];
    not_a_point[0] = 2;
    assert_eq!(
        process_verify(b"m", &not_a_point, &[0u8; 64], TextSignFormat::Ed25519),
        Err(TextError::InvalidKeyEncoding)
    );
    assert!(matches!(
        Ed25519Verifier::try_new(&not_a_point),
        Err(TextError::InvalidKeyEncoding)
    ));
    let set = process_generate(TextSignFormat::Ed25519).unwrap();
    assert_eq!(
        process_verify(b"m", &set[1].bytes, &[0u8; 63], TextSignFormat::Ed25519),
        Err(TextError::InvalidSignatureEncoding)
    );
    assert!(matches!(Ed25519Signer::try_new(&[0u8; 12]), Err(TextError::InvalidKeyLength)));
}

#[test]
fn chacha_ciphertext_shape() {
    let data = b"hello,world!";
    let ct = process_encrypt(data, CIPHER_KEY, NONCE, TextSignFormat::ChaCha20Poly1305).unwrap();
    assert_eq!(ct.len(), data.len() + 16);
    assert_ne!(&ct[..data.len()], &data[..]);
    let empty = process_encrypt(b"", CIPHER_KEY, NONCE, TextSignFormat::ChaCha20Poly1305).unwrap();
    assert_eq!(empty.len(), 16);
    assert_eq!(
        process_decrypt(&empty, CIPHER_KEY, NONCE, TextSignFormat::ChaCha20Poly1305),
        Ok(vec![])
    );
}

#[test]
fn chacha_round_trip_many_lengths() {
    for n in [0usize, 1, 15, 16, 63, 64, 65, 1000] {
        let data: Vec<u8> = (0..n).map(|i| (i * 7) as u8).collect();
        let ct = process_encrypt(&data, CIPHER_KEY, NONCE, TextSignFormat::ChaCha20Poly1305)
            .unwrap();
        assert_eq!(
            process_decrypt(&ct, CIPHER_KEY, NONCE, TextSignFormat::ChaCha20Poly1305),
            Ok(data)
        );
    }
}

#[test]
fn chacha_tampering_is_detected() {
    let ct = process_encrypt(b"hello,world!", CIPHER_KEY, NONCE, TextSignFormat::ChaCha20Poly1305)
        .unwrap();
    for byte in 0..ct.len() {
        for bit in 0..8 {
            let mut bad = ct.clone();
            bad[byte] ^= 1 << bit;
            assert_eq!(
                process_decrypt(&bad, CIPHER_KEY, NONCE, TextSignFormat::ChaCha20Poly1305),
                Err(TextError::AuthenticationFailure)
            );
        }
    }
}

#[test]
fn chacha_wrong_key_or_nonce_fails() {
    let ct = process_encrypt(b"secret", CIPHER_KEY, NONCE, TextSignFormat::ChaCha20Poly1305)
        .unwrap();
    let other_key: &[u8] = b"k3yForChaCha20Poly1305Tests.0124";
    let other_nonce: &[u8] = b"nonce-12bytf";
    assert_eq!(
        process_decrypt(&ct, other_key, NONCE, TextSignFormat::ChaCha20Poly1305),
        Err(TextError::AuthenticationFailure)
    );
    assert_eq!(
        process_decrypt(&ct, CIPHER_KEY, other_nonce, TextSignFormat::ChaCha20Poly1305),
        Err(TextError::AuthenticationFailure)
    );
    assert_eq!(
        process_decrypt(&ct[..10], CIPHER_KEY, NONCE, TextSignFormat::ChaCha20Poly1305),
        Err(TextError::AuthenticationFailure)
    );
}

#[test]
fn chacha_length_errors() {
    assert_eq!(
        process_encrypt(b"d", CIPHER_KEY, &NONCE[..11], TextSignFormat::ChaCha20Poly1305),
        Err(TextError::InvalidNonceLength)
    );
    assert_eq!(
        process_encrypt(b"d", &CIPHER_KEY[..31], NONCE, TextSignFormat::ChaCha20Poly1305),
        Err(TextError::InvalidKeyLength)
    );
    assert_eq!(
        process_decrypt(b"d", CIPHER_KEY, &[0u8; 13], TextSignFormat::ChaCha20Poly1305),
        Err(TextError::InvalidNonceLength)
    );
    assert_eq!(
        process_decrypt(b"d", &[0u8; 33], NONCE, TextSignFormat::ChaCha20Poly1305),
        Err(TextError::InvalidKeyLength)
    );
    assert!(matches!(
        ChaCha20Poly1305cryptor::try_new(CIPHER_KEY, &[0u8; 11]),
        Err(TextError::InvalidNonceLength)
    ));
}

#[test]
fn unsupported_operations_are_rejected() {
    assert_eq!(
        process_encrypt(b"d", KEY, NONCE, TextSignFormat::Blake3),
        Err(TextError::UnsupportedOperation)
    );
    assert_eq!(
        process_encrypt(b"d", &[0u8; 3], &[0u8; 3], TextSignFormat::Blake3),
        Err(TextError::UnsupportedOperation)
    );
    assert_eq!(
        process_decrypt(b"d", KEY, NONCE, TextSignFormat::Ed25519),
        Err(TextError::UnsupportedOperation)
    );
    assert_eq!(
        process_sign(b"d", CIPHER_KEY, TextSignFormat::ChaCha20Poly1305),
        Err(TextError::UnsupportedOperation)
    );
    assert_eq!(
        process_verify(b"d", CIPHER_KEY, &[0u8; 32], TextSignFormat::ChaCha20Poly1305),
        Err(TextError::UnsupportedOperation)
    );
}

#[test]
fn generated_key_sets_have_their_shape() {
    let set = process_generate(TextSignFormat::Blake3).unwrap();
    assert_eq!(set.len(), 1);
    assert_eq!(set[0].name, "blake3.key");
    assert_eq!(set[0].bytes.len(), 32);
    let sig = process_sign(b"x", &set[0].bytes, TextSignFormat::Blake3).unwrap();
    assert_eq!(process_verify(b"x", &set[0].bytes, &sig, TextSignFormat::Blake3), Ok(true));

    let set = process_generate(TextSignFormat::ChaCha20Poly1305).unwrap();
    assert_eq!(set.len(), 2);
    assert_eq!(set[0].name, "chacha20poly1305.key");
    assert_eq!(set[0].bytes.len(), 32);
    assert_eq!(set[1].name, "chacha20poly1305.nonce");
    assert_eq!(set[1].bytes.len(), 12);
    let ct = process_encrypt(b"x", &set[0].bytes, &set[1].bytes, TextSignFormat::ChaCha20Poly1305)
        .unwrap();
    assert_eq!(
        process_decrypt(&ct, &set[0].bytes, &set[1].bytes, TextSignFormat::ChaCha20Poly1305),
        Ok(b"x".to_vec())
    );
}

#[test]
fn generated_secrets_differ() {
    let a = process_generate(TextSignFormat::Blake3).unwrap();
    let b = process_generate(TextSignFormat::Blake3).unwrap();
    assert_ne!(a[0].bytes, b[0].bytes);
}

#[test]
fn key_sets_from_given_material() {
    let set = generate_from(TextSignFormat::Blake3, [5u8; 32], [9u8; 12]);
    assert_eq!(set.len(), 1);
    assert_eq!(set[0].name, "blake3.key");
    assert_eq!(set[0].bytes, vec![5u8; 32]);
    let set = generate_from(TextSignFormat::ChaCha20Poly1305, [5u8; 32], [9u8; 12]);
    assert_eq!(set.len(), 2);
    assert_eq!(set[0].bytes, vec![5u8; 32]);
    assert_eq!(set[1].name, "chacha20poly1305.nonce");
    assert_eq!(set[1].bytes, vec![9u8; 12]);
}
