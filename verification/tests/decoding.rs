use xplane_reload::decode::{decode_identity, find_nul, is_valid_utf8};
use xplane_reload::errors::DecodeFault;

#[test]
fn ascii_text_before_nul_is_accepted() {
    let mut buf = vec![0u8; 16];
    buf[0] = b'h';
    buf[1] = b'i';
    assert_eq!(decode_identity(&buf), Ok(vec![b'h', b'i']));
}

#[test]
fn empty_text_before_nul_is_accepted() {
    let buf = [0u8; 8];
    assert_eq!(decode_identity(&buf), Ok(Vec::new()));
}

#[test]
fn buffer_without_nul_is_rejected() {
    let buf = [b'a'; 8];
    assert_eq!(decode_identity(&buf), Err(DecodeFault::MissingNul));
}

#[test]
fn junk_after_the_nul_is_ignored() {
    let buf = [b'o', b'k', 0, 0xFF, 0xC0, 0x80];
    assert_eq!(decode_identity(&buf), Ok(vec![b'o', b'k']));
}

#[test]
fn two_byte_sequences_are_accepted() {
    // "é" is 0xC3 0xA9.
    let buf = [0xC3, 0xA9, 0];
    assert_eq!(decode_identity(&buf), Ok(vec![0xC3, 0xA9]));
}

#[test]
fn three_and_four_byte_sequences_are_accepted() {
    // "€" is 0xE2 0x82 0xAC; the highest scalar is 0xF4 0x8F 0xBF 0xBF.
    let buf = [0xE2, 0x82, 0xAC, 0xF4, 0x8F, 0xBF, 0xBF, 0];
    assert_eq!(
        decode_identity(&buf),
        Ok(vec![0xE2, 0x82, 0xAC, 0xF4, 0x8F, 0xBF, 0xBF])
    );
}

#[test]
fn stray_continuation_byte_is_rejected() {
    let buf = [0x80, 0];
    assert_eq!(decode_identity(&buf), Err(DecodeFault::InvalidUtf8));
}

#[test]
fn overlong_encoding_is_rejected() {
    // 0xC0 0xAF would be an overlong "/".
    let buf = [0xC0, 0xAF, 0];
    assert_eq!(decode_identity(&buf), Err(DecodeFault::InvalidUtf8));
}

#[test]
fn surrogate_encoding_is_rejected() {
    // 0xED 0xA0 0x80 would encode a surrogate.
    let buf = [0xED, 0xA0, 0x80, 0];
    assert_eq!(decode_identity(&buf), Err(DecodeFault::InvalidUtf8));
}

#[test]
fn scalar_beyond_maximum_is_rejected() {
    // 0xF4 0x90 0x80 0x80 would be beyond the last scalar value.
    let buf = [0xF4, 0x90, 0x80, 0x80, 0];
    assert_eq!(decode_identity(&buf), Err(DecodeFault::InvalidUtf8));
}

#[test]
fn truncated_sequence_at_nul_is_rejected() {
    let buf = [0xC3, 0];
    assert_eq!(decode_identity(&buf), Err(DecodeFault::InvalidUtf8));
}

#[test]
fn find_nul_reports_first_position() {
    assert_eq!(find_nul(&[1, 2, 0, 0, 5]), Some(2));
    assert_eq!(find_nul(&[0]), Some(0));
    assert_eq!(find_nul(&[7, 8, 9]), None);
    assert_eq!(find_nul(&[]), None);
}

#[test]
fn utf8_validator_agrees_with_std() {
    let samples: [&[u8]; 8] = [
        b"plain ascii",
        "mixed é € text".as_bytes(),
        &[0xF0, 0x9D, 0x84, 0x9E],
        &[0xED, 0x9F, 0xBF],
        &[0xEE, 0x80, 0x80],
        &[0xF5, 0x80],
        &[0xE0, 0x9F, 0x80],
        &[0xF0, 0x8F, 0x80, 0x80],
    ];
    for s in samples {
        assert_eq!(is_valid_utf8(s), std::str::from_utf8(s).is_ok());
    }
}
