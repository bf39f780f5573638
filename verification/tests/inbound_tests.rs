use webtui::inbound::{classify, classify_members, Inbound};

fn dimensions(message: Inbound) -> Option<(u16, u16)> {
    match message {
        Inbound::Dimensions { width, height } => Some((width, height)),
        _ => None,
    }
}

fn key(message: Inbound) -> Option<String> {
    match message {
        Inbound::Key { key } => Some(key),
        _ => None,
    }
}

#[test]
fn a_width_and_a_height_negotiate_a_viewport() {
    assert_eq!(dimensions(classify("{\"width\":80,\"height\":24}")), Some((80, 24)));
    assert_eq!(dimensions(classify("{ \"height\" : 1, \"extra\": [], \"width\" : 2 }")), Some((2, 1)));
}

#[test]
fn a_viewport_keeps_the_low_sixteen_bits() {
    assert_eq!(dimensions(classify("{\"width\":65616,\"height\":65535}")), Some((80, 65535)));
    assert_eq!(dimensions(classify("{\"width\":65536,\"height\":18446744073709551615}")), Some((0, 65535)));
}

#[test]
fn a_side_that_is_no_unsigned_number_counts_as_zero() {
    assert_eq!(dimensions(classify("{\"width\":\"80\",\"height\":24}")), Some((0, 24)));
    assert_eq!(dimensions(classify("{\"width\":-1,\"height\":2.5}")), Some((0, 0)));
    assert_eq!(dimensions(classify("{\"width\":null,\"height\":7}")), Some((0, 7)));
}

#[test]
fn a_key_is_an_input_event() {
    assert_eq!(key(classify("{\"key\":\"ArrowRight\"}")), Some("ArrowRight".to_string()));
    assert_eq!(key(classify("{\"key\":\"\"}")), Some(String::new()));
    assert_eq!(key(classify("{\"key\":\"q\",\"width\":3}")), Some("q".to_string()));
}

#[test]
fn a_negotiation_wins_over_a_key() {
    assert_eq!(dimensions(classify("{\"key\":\"q\",\"width\":3,\"height\":4}")), Some((3, 4)));
}

#[test]
fn anything_else_is_malformed() {
    for text in ["", "not json", "{\"width\":80", "{\"width\":80}", "{\"height\":24}", "{\"key\":5}",
        "[1,2]", "\"key\"", "42", "{}", "{\"Key\":\"a\"}"] {
        assert!(matches!(classify(text), Inbound::Malformed));
    }
}

#[test]
fn classify_members_decides_from_the_three_members() {
    assert_eq!(dimensions(classify_members(Some(Some(5)), Some(None), None)), Some((5, 0)));
    assert_eq!(dimensions(classify_members(Some(Some(70000)), Some(Some(1)), Some(Some("k".to_string())))), Some((4464, 1)));
    assert_eq!(key(classify_members(Some(Some(5)), None, Some(Some("k".to_string())))), Some("k".to_string()));
    assert!(matches!(classify_members(None, Some(Some(1)), Some(None)), Inbound::Malformed));
    assert!(matches!(classify_members(None, None, None), Inbound::Malformed));
}
