use cef_bridge::cef_string::CefString;

fn chars_of(s: &str) -> Vec<char> {
    s.chars().collect()
}

#[test]
fn ascii_crosses_as_itself() {
    let text = chars_of("Open");
    let wide = CefString::new(&text);
    assert_eq!(wide.len(), 4);
    assert_eq!(wide.to_chars(), Some(text));
}

#[test]
fn empty_text_crosses_as_zero_units() {
    let text = chars_of("");
    let wide = CefString::new(&text);
    assert_eq!(wide.len(), 0);
    assert_eq!(wide.to_chars(), Some(Vec::new()));
}

#[test]
fn astral_code_points_round_trip_through_surrogate_pairs() {
    let text = chars_of("a\u{1F600}b\u{10FFFF}");
    let wide = CefString::new(&text);
    // One unit each for 'a' and 'b', two for each astral character.
    assert_eq!(wide.len(), 6);
    assert_eq!(wide.to_chars(), Some(text));
}

#[test]
fn bmp_boundary_characters_round_trip() {
    let text = chars_of("\u{0}\u{7F}\u{80}\u{7FF}\u{800}\u{FFFF}\u{10000}");
    let wide = CefString::new(&text);
    assert_eq!(wide.len(), 8);
    assert_eq!(wide.to_chars(), Some(text));
}

#[test]
fn ill_formed_units_decode_to_nothing() {
    // A lone high surrogate, a lone low surrogate, and a pair in the
    // wrong order are all ill formed.
    assert_eq!(CefString::from_units(vec![0xD83D]).to_chars(), None);
    assert_eq!(CefString::from_units(vec![0x41, 0xDE00]).to_chars(), None);
    assert_eq!(CefString::from_units(vec![0xDE00, 0xD83D]).to_chars(), None);
    assert_eq!(CefString::from_units(vec![0xD83D, 0x41]).to_chars(), None);
}

#[test]
fn units_received_from_the_boundary_decode_when_well_formed() {
    let wide = CefString::from_units(vec![0x41, 0xD83D, 0xDE00]);
    assert_eq!(wide.to_chars(), Some(chars_of("A\u{1F600}")));
}
