use farmanager::common::string::{decode_borrowed, duplicate_opt, WideString, WideStringArray};

#[test]
fn encode_ascii_appends_terminator() {
    let w = WideString::from_str("abc");
    assert_eq!(w.as_ptr().as_slice(), &[97u16, 98, 99, 0]);
}

#[test]
fn encode_empty_is_just_terminator() {
    let w = WideString::from_str("");
    assert_eq!(w.as_ptr().as_slice(), &[0u16]);
}

#[test]
fn new_is_empty_buffer() {
    let w = WideString::new();
    assert_eq!(w.as_ptr().as_slice(), &[0u16]);
}

#[test]
fn encode_supplementary_uses_surrogate_pair() {
    // U+1D11E (musical G clef) encodes as the pair 0xD834 0xDD1E.
    let w = WideString::from_str("\u{1D11E}");
    assert_eq!(w.as_ptr().as_slice(), &[0xD834u16, 0xDD1E, 0]);
}

#[test]
fn round_trip_ascii() {
    let w = WideString::from_str("C:\\Users\\test");
    assert_eq!(w.to_string_lossy(), "C:\\Users\\test");
}

#[test]
fn round_trip_mixed_plane_text() {
    let text = "na\u{EF}ve \u{1F600} \u{4E2D}\u{6587}";
    let w = WideString::from_str(text);
    assert_eq!(w.to_string_lossy(), text);
}

#[test]
fn encode_replaces_interior_nul_scalar() {
    // The zero scalar would masquerade as the terminator, so the encoder
    // writes the replacement character instead and the whole text survives
    // the read-back.
    let w = WideString::from_str("a\0b");
    assert_eq!(w.as_ptr().as_slice(), &[97u16, 0xFFFD, 98, 0]);
    assert_eq!(w.to_string_lossy(), "a\u{FFFD}b");
}

#[test]
fn encode_replaces_trailing_nul_scalar() {
    let w = WideString::from_str("a\0");
    assert_eq!(w.as_ptr().as_slice(), &[97u16, 0xFFFD, 0]);
    assert_eq!(w.to_string_lossy(), "a\u{FFFD}");
}

#[test]
fn decode_stops_at_first_zero() {
    let w = WideString::from_units(vec![104u16, 105, 0, 33, 0]);
    assert_eq!(w.to_string_lossy(), "hi");
    // The buffer keeps only the content before the first zero plus the
    // terminator.
    assert_eq!(w.as_ptr().as_slice(), &[104u16, 105, 0]);
}

#[test]
fn from_units_appends_missing_terminator() {
    let w = WideString::from_units(vec![104u16, 105]);
    assert_eq!(w.as_ptr().as_slice(), &[104u16, 105, 0]);
}

#[test]
fn decode_replaces_unpaired_high_surrogate() {
    let s = decode_borrowed(&vec![0xD834u16, 65, 0]);
    assert_eq!(s, "\u{FFFD}A");
}

#[test]
fn decode_replaces_unpaired_low_surrogate() {
    let s = decode_borrowed(&vec![0xDD1Eu16, 0]);
    assert_eq!(s, "\u{FFFD}");
}

#[test]
fn decode_accepts_valid_pair() {
    let s = decode_borrowed(&vec![0xD834u16, 0xDD1E, 0]);
    assert_eq!(s, "\u{1D11E}");
}

#[test]
fn decode_high_surrogate_at_end_is_lossy_not_stuck() {
    let s = decode_borrowed(&vec![66u16, 0xD834]);
    assert_eq!(s, "B\u{FFFD}");
}

#[test]
fn duplicate_copies_units() {
    let w = WideString::from_str("dup");
    let d = w.duplicate();
    assert_eq!(w.as_ptr(), d.as_ptr());
}

#[test]
fn duplicate_opt_preserves_shape() {
    let some = duplicate_opt(&Some(WideString::from_str("x")));
    assert!(some.is_some());
    assert_eq!(some.unwrap().as_ptr().as_slice(), &[120u16, 0]);
    let none = duplicate_opt(&None);
    assert!(none.is_none());
}

#[test]
fn wide_string_array_encodes_each_entry() {
    let arr = WideStringArray::from_strings(&vec!["a".to_string(), "bc".to_string()]);
    assert_eq!(arr.len(), 2);
    let bufs = arr.as_ptr();
    assert_eq!(bufs[0].as_ptr().as_slice(), &[97u16, 0]);
    assert_eq!(bufs[1].as_ptr().as_slice(), &[98u16, 99, 0]);
}

#[test]
fn wide_string_array_empty() {
    let arr = WideStringArray::new();
    assert_eq!(arr.len(), 0);
}
