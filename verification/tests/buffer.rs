use selection_text::buffer::{ConstructionFailure, TextBuffer};
use selection_text::sanitize::strip_nul_bytes;

#[test]
fn strip_removes_only_nul_bytes() {
    assert_eq!(strip_nul_bytes(b"hello\0world"), b"helloworld".to_vec());
    assert_eq!(strip_nul_bytes(b"plain text"), b"plain text".to_vec());
    assert_eq!(strip_nul_bytes(b"\0a\0\0b\0"), b"ab".to_vec());
}

#[test]
fn strip_of_nothing_is_nothing() {
    assert_eq!(strip_nul_bytes(b""), Vec::<u8>::new());
    assert_eq!(strip_nul_bytes(b"\0"), Vec::<u8>::new());
    assert_eq!(strip_nul_bytes(b"\0\0\0"), Vec::<u8>::new());
}

#[test]
fn strip_keeps_order_and_every_other_value() {
    let mut input: Vec<u8> = Vec::new();
    for round in 0..3 {
        for value in 0..=255u8 {
            input.push(value);
        }
        input.push(round);
    }
    let expected: Vec<u8> = input.iter().copied().filter(|b| *b != 0).collect();
    let kept = strip_nul_bytes(&input);
    assert_eq!(kept, expected);
    assert_eq!(kept.len(), input.len() - 4);
}

#[test]
fn strip_works_on_bytes_that_are_not_text() {
    assert_eq!(strip_nul_bytes(&[0xff, 0x00, 0x80, 0x00, 0xc0]), vec![0xff, 0x80, 0xc0]);
}

#[test]
fn strip_is_piecewise() {
    let left: &[u8] = b"ab\0c";
    let right: &[u8] = b"\0de\0";
    let mut joined = left.to_vec();
    joined.extend_from_slice(right);
    let mut parts = strip_nul_bytes(left);
    parts.extend(strip_nul_bytes(right));
    assert_eq!(strip_nul_bytes(&joined), parts);
}

#[test]
fn new_accepts_text_without_nul() {
    let buffer = TextBuffer::new(b"abc".to_vec()).expect("no NUL inside");
    assert_eq!(buffer.as_bytes(), b"abc");
    assert_eq!(buffer.into_bytes_with_nul(), b"abc\0".to_vec());
}

#[test]
fn new_accepts_empty_text() {
    let buffer = TextBuffer::new(Vec::new()).expect("no NUL inside");
    assert_eq!(buffer.as_bytes(), b"");
    assert_eq!(buffer.into_bytes_with_nul(), vec![0u8]);
}

#[test]
fn new_reports_the_first_nul() {
    let failure = TextBuffer::new(b"ab\0cd\0".to_vec()).unwrap_err();
    assert_eq!(failure, ConstructionFailure { position: 2 });
    assert_eq!(failure.position, 2);
}

#[test]
fn new_rejects_nul_at_either_end() {
    assert_eq!(TextBuffer::new(b"\0abc".to_vec()).unwrap_err().position, 0);
    assert_eq!(TextBuffer::new(b"abc\0".to_vec()).unwrap_err().position, 3);
    assert_eq!(TextBuffer::new(vec![0u8]).unwrap_err().position, 0);
}

#[test]
fn new_succeeds_on_sanitized_bytes() {
    let raw: &[u8] = b"\0x\0y\0";
    assert!(TextBuffer::new(raw.to_vec()).is_err());
    let buffer = TextBuffer::new(strip_nul_bytes(raw)).expect("sanitized");
    assert_eq!(buffer.as_bytes(), b"xy");
}

#[test]
fn failure_can_be_copied_and_compared() {
    let failure = ConstructionFailure { position: 7 };
    let copy = failure;
    assert_eq!(failure, copy);
    assert_ne!(failure, ConstructionFailure { position: 8 });
    assert_eq!(format!("{:?}", failure), "ConstructionFailure { position: 7 }");
}
