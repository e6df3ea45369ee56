use base64::Engine;
use fortify::secret::{encode_secret_bytes, generate_secret, SecretEncoding};

#[test]
fn test_secret_hex_length() {
    let length = 16;
    let secret = generate_secret(length, SecretEncoding::Hex);
    assert_eq!(secret.len(), length * 2);
    assert!(hex::decode(&secret).is_ok());
}

#[test]
fn test_secret_base64_length() {
    let length = 32;
    let secret = generate_secret(length, SecretEncoding::Base64);
    assert!(base64::engine::general_purpose::STANDARD.decode(&secret).is_ok());
}

#[test]
fn hex_secret_round_trips_to_the_drawn_byte_count() {
    let secret = generate_secret(10, SecretEncoding::Hex);
    assert_eq!(secret.len(), 20);
    assert!(secret.chars().all(|c| c.is_ascii_hexdigit() && !c.is_ascii_uppercase()));
    let bytes = hex::decode(&secret).unwrap();
    assert_eq!(bytes.len(), 10);
    assert_eq!(hex::encode(&bytes), secret);
}

#[test]
fn base64_secret_decodes_for_every_padding_shape() {
    for length in [0usize, 1, 2, 3, 4, 5, 6] {
        let secret = generate_secret(length, SecretEncoding::Base64);
        assert_eq!(secret.len(), 4 * ((length + 2) / 3));
        let decoded = base64::engine::general_purpose::STANDARD.decode(&secret).unwrap();
        assert_eq!(decoded.len(), length);
    }
}

#[test]
fn zero_length_secret_is_empty() {
    assert_eq!(generate_secret(0, SecretEncoding::Hex), "");
    assert_eq!(generate_secret(0, SecretEncoding::Base64), "");
}

#[test]
fn hex_encoding_of_known_bytes() {
    let bytes: Vec<u8> = vec![0xab, 0x01, 0xff, 0x00];
    assert_eq!(encode_secret_bytes(&bytes, &SecretEncoding::Hex), "ab01ff00");
}

#[test]
fn base64_encoding_of_known_bytes() {
    let man: Vec<u8> = vec![b'M', b'a', b'n'];
    assert_eq!(encode_secret_bytes(&man, &SecretEncoding::Base64), "TWFu");
    let ma: Vec<u8> = vec![b'M', b'a'];
    assert_eq!(encode_secret_bytes(&ma, &SecretEncoding::Base64), "TWE=");
    let m: Vec<u8> = vec![b'M'];
    assert_eq!(encode_secret_bytes(&m, &SecretEncoding::Base64), "TQ==");
}
