use ghdl_design::{decode_base64, decode_base64_bytes, decode_base64_digit};

/// Appends standard Base64 encoding of `bytes` to `buffer`.
fn append_base64(buffer: &mut Vec<u8>, bytes: &[u8]) {
    const TABLE: &[u8; 64] = b"ABCDEFGHIJKLMNOPQRSTUVWXYZabcdefghijklmnopqrstuvwxyz0123456789+/";
    let mut chunks = bytes.chunks_exact(3);
    for chunk in chunks.by_ref() {
        let n = (u32::from(chunk[0]) << 16) | (u32::from(chunk[1]) << 8) | u32::from(chunk[2]);
        buffer.push(TABLE[((n >> 18) & 0x3f) as usize]);
        buffer.push(TABLE[((n >> 12) & 0x3f) as usize]);
        buffer.push(TABLE[((n >> 6) & 0x3f) as usize]);
        buffer.push(TABLE[(n & 0x3f) as usize]);
    }
    let rem = chunks.remainder();
    match rem.len() {
        1 => {
            let n = u32::from(rem[0]) << 16;
            buffer.push(TABLE[((n >> 18) & 0x3f) as usize]);
            buffer.push(TABLE[((n >> 12) & 0x3f) as usize]);
            buffer.push(b'=');
            buffer.push(b'=');
        }
        2 => {
            let n = (u32::from(rem[0]) << 16) | (u32::from(rem[1]) << 8);
            buffer.push(TABLE[((n >> 18) & 0x3f) as usize]);
            buffer.push(TABLE[((n >> 12) & 0x3f) as usize]);
            buffer.push(TABLE[((n >> 6) & 0x3f) as usize]);
            buffer.push(b'=');
        }
        _ => {}
    }
}

fn encode_base64(bytes: &[u8]) -> String {
    let mut buffer = Vec::new();
    append_base64(&mut buffer, bytes);
    String::from_utf8(buffer).expect("base64 encoding should be valid UTF-8")
}

/// RFC 4648 §10 test vectors.
const RFC4648_VECTORS: &[(&[u8], &str)] = &[
    (b"", ""),
    (b"f", "Zg=="),
    (b"fo", "Zm8="),
    (b"foo", "Zm9v"),
    (b"foob", "Zm9vYg=="),
    (b"fooba", "Zm9vYmE="),
    (b"foobar", "Zm9vYmFy"),
];

#[test]
fn encode_rfc4648_vectors() {
    for &(plain, encoded) in RFC4648_VECTORS {
        assert_eq!(encode_base64(plain), encoded, "encode {plain:?}");
    }
}

#[test]
fn decode_rfc4648_vectors() {
    for &(plain, encoded) in RFC4648_VECTORS {
        assert_eq!(
            decode_base64(encoded).expect("valid Base64-encoded string"),
            plain,
            "decode {encoded}"
        );
    }
}

#[test]
fn round_trip_all_byte_lengths() {
    let mut bytes = Vec::new();
    for len in 0..=64 {
        bytes.resize(len, 0);
        for (i, byte) in bytes.iter_mut().enumerate() {
            let value = i * 37 + len;
            *byte = value.to_le_bytes()[0];
        }
        let encoded = encode_base64(&bytes);
        assert_eq!(
            decode_base64(&encoded).expect("valid Base64-encoded string"),
            bytes,
            "len={len}"
        );
    }
}

#[test]
fn round_trip_full_alphabet_payload() {
    let bytes: Vec<u8> = (0_u8..=255).collect();
    let encoded = encode_base64(&bytes);
    assert_eq!(
        decode_base64(&encoded).expect("valid Base64-encoded string"),
        bytes
    );
}

#[test]
fn decode_rejects_invalid_length() {
    assert_eq!(decode_base64("A"), Err("invalid base64 length"));
    assert_eq!(decode_base64("AB"), Err("invalid base64 length"));
    assert_eq!(decode_base64("ABC"), Err("invalid base64 length"));
}

#[test]
fn decode_rejects_invalid_character() {
    assert_eq!(decode_base64("!!!!"), Err("invalid base64 character"));
    assert_eq!(decode_base64("Zm9vYmF!"), Err("invalid base64 character"));
}

#[test]
fn decode_rejects_invalid_padding() {
    assert_eq!(decode_base64("Zg=A"), Err("invalid base64 padding"));
}

#[test]
fn decode_digit_maps_each_alphabet_class() {
    assert_eq!(decode_base64_digit(b'A'), Ok(0));
    assert_eq!(decode_base64_digit(b'Z'), Ok(25));
    assert_eq!(decode_base64_digit(b'a'), Ok(26));
    assert_eq!(decode_base64_digit(b'z'), Ok(51));
    assert_eq!(decode_base64_digit(b'0'), Ok(52));
    assert_eq!(decode_base64_digit(b'9'), Ok(61));
    assert_eq!(decode_base64_digit(b'+'), Ok(62));
    assert_eq!(decode_base64_digit(b'/'), Ok(63));
    assert_eq!(decode_base64_digit(b'='), Err("invalid base64 character"));
    assert_eq!(decode_base64_digit(b'-'), Err("invalid base64 character"));
}

#[test]
fn decode_stops_at_first_padded_group() {
    // A padded group ends the decoding; what follows it is not looked at.
    assert_eq!(decode_base64("Zg==Zm9v"), Ok(b"f".to_vec()));
    assert_eq!(decode_base64("Zm8=!!!!"), Ok(b"fo".to_vec()));
}

#[test]
fn decode_rejects_padding_in_first_two_positions() {
    assert_eq!(decode_base64("=AAA"), Err("invalid base64 character"));
    assert_eq!(decode_base64("A=AA"), Err("invalid base64 character"));
}

#[test]
fn decode_rejects_non_ascii_input() {
    // "é" is two bytes in UTF-8, so "éAA" has four bytes.
    assert_eq!(decode_base64("\u{e9}AA"), Err("invalid base64 character"));
}

#[test]
fn decode_bytes_matches_decode_of_str() {
    assert_eq!(decode_base64_bytes(b"Zm9vYmFy"), Ok(b"foobar".to_vec()));
    assert_eq!(decode_base64_bytes(b"Zm9"), Err("invalid base64 length"));
}

#[test]
fn round_trip_law_on_concrete_values() {
    for bytes in [&b""[..], b"\x00", b"\xff\xfe", b"\x01\x02\x03", b"hello world"] {
        let encoded = encode_base64(bytes);
        assert_eq!(decode_base64(&encoded), Ok(bytes.to_vec()));
    }
}
