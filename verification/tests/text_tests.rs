use iup::text::{c_from_str, c_to_string};
use iup::xerror::XError;

#[test]
fn ascii_round_trip() {
    let c = c_from_str("hello world").unwrap();
    let bytes = c.bytes.clone();
    assert_eq!(bytes.last(), Some(&0u8));
    let payload: Vec<u8> = bytes[..bytes.len() - 1].to_vec();
    let back = c_to_string(payload).unwrap();
    assert_eq!(back, "hello world");
}

#[test]
fn unicode_round_trip() {
    let text = "héllo wörld ✓ \u{1F600}";
    let c = c_from_str(text).unwrap();
    let bytes = c.bytes;
    assert_eq!(*bytes.last().unwrap(), 0u8);
    let payload: Vec<u8> = bytes[..bytes.len() - 1].to_vec();
    assert_eq!(payload, text.as_bytes().to_vec());
    let back = c_to_string(payload).unwrap();
    assert_eq!(back, text);
}

#[test]
fn empty_round_trip() {
    let c = c_from_str("").unwrap();
    assert_eq!(c.bytes, vec![0u8]);
    let back = c_to_string(Vec::new()).unwrap();
    assert_eq!(back, "");
}

#[test]
fn embedded_nul_rejected() {
    let r = c_from_str("ab\0cd");
    match r {
        Err(XError::TextEncodingFailed(t)) => assert_eq!(t, "ab\0cd"),
        other => panic!("expected TextEncodingFailed, got {:?}", other),
    }
}

#[test]
fn nul_only_rejected() {
    assert!(c_from_str("\0").is_err());
}

#[test]
fn encoding_has_no_interior_nul() {
    let c = c_from_str("a\u{100}b").unwrap();
    let bytes = c.bytes;
    for (i, b) in bytes.iter().enumerate() {
        if i + 1 < bytes.len() {
            assert_ne!(*b, 0u8);
        } else {
            assert_eq!(*b, 0u8);
        }
    }
}

#[test]
fn invalid_utf8_rejected() {
    let r = c_to_string(vec![0xff, 0xfe, 0x41]);
    match r {
        Err(XError::TextEncodingFailed(_)) => {}
        other => panic!("expected TextEncodingFailed, got {:?}", other),
    }
}

#[test]
fn truncated_utf8_rejected() {
    // The first byte of a two-byte encoding with nothing after it.
    assert!(c_to_string(vec![0xc3]).is_err());
}

#[test]
fn valid_utf8_decoded_exactly() {
    let s = c_to_string("grün".as_bytes().to_vec()).unwrap();
    assert_eq!(s, "grün");
}
