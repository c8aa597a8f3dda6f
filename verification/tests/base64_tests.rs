use computa_use::base64::encode_base64;

#[test]
fn encodes_rfc4648_vectors() {
    assert_eq!(encode_base64(b""), "");
    assert_eq!(encode_base64(b"f"), "Zg==");
    assert_eq!(encode_base64(b"fo"), "Zm8=");
    assert_eq!(encode_base64(b"foo"), "Zm9v");
    assert_eq!(encode_base64(b"foob"), "Zm9vYg==");
    assert_eq!(encode_base64(b"fooba"), "Zm9vYmE=");
    assert_eq!(encode_base64(b"foobar"), "Zm9vYmFy");
}

#[test]
fn encodes_high_bytes_with_plus_and_slash() {
    assert_eq!(encode_base64(&[0xfb, 0xff, 0xbf]), "+/+/");
    assert_eq!(encode_base64(&[0xff]), "/w==");
    assert_eq!(encode_base64(&[0x00, 0x00, 0x00]), "AAAA");
}

#[test]
fn encoded_length_is_four_per_started_group() {
    for n in 0..20usize {
        let input: Vec<u8> = (0..n).map(|i| (i * 37 % 256) as u8).collect();
        let out = encode_base64(&input);
        assert_eq!(out.len(), 4 * ((n + 2) / 3));
        let pad = out.chars().rev().take_while(|c| *c == '=').count();
        assert_eq!(pad, (3 - n % 3) % 3);
        assert!(out.chars().all(|c| c.is_ascii_alphanumeric() || c == '+' || c == '/' || c == '='));
    }
}

#[test]
fn distinct_inputs_give_distinct_encodings() {
    assert_ne!(encode_base64(b"a"), encode_base64(b"a\0"));
    assert_ne!(encode_base64(b"ab"), encode_base64(b"ab\0"));
    assert_ne!(encode_base64(&[1, 2, 3]), encode_base64(&[1, 2, 4]));
}
