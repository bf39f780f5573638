use webtui::parse_frame::{content_lines, Buffer, Rect};

const PRINTED: &str = "Buffer {\n    area: Rect { x: 0, y: 0, width: 5, height: 2 },\n    content: [\n        \"Hello\",\n        \"Wor\\\"d\",\n    ],\n    styles: [\n        x: 0, y: 0, fg: Reset, bg: Reset, underline: Reset, modifier: NONE,\n        x: 3, y: 1, fg: Yellow, bg: Reset, underline: Reset, modifier: BOLD,\n    ]\n}";

#[test]
fn from_string_reads_area_content_and_styles() {
    let frame = Buffer::from_string(PRINTED);
    assert_eq!(frame.area, Rect { x: 0, y: 0, width: 5, height: 2 });
    assert_eq!(frame.content, vec!["Hello".to_string(), "Wor\"d".to_string(), "".to_string()]);
    assert_eq!(frame.styles.len(), 2);
    assert_eq!((frame.styles[0].x, frame.styles[0].y, frame.styles[0].fg.as_str()), (0, 0, "Reset"));
    assert_eq!((frame.styles[1].x, frame.styles[1].y, frame.styles[1].fg.as_str()), (3, 1, "Yellow"));
}

#[test]
fn try_from_string_agrees_with_from_string() {
    let frame = Buffer::try_from_string(PRINTED).unwrap();
    assert_eq!(frame.area, Rect { x: 0, y: 0, width: 5, height: 2 });
    assert_eq!(frame.content.len(), 3);
    assert_eq!(frame.styles.len(), 2);
}

#[test]
fn text_without_a_frame_gives_defaults() {
    let frame = Buffer::try_from_string("nothing printed here").unwrap();
    assert_eq!(frame.area, Rect { x: 0, y: 0, width: 0, height: 0 });
    assert_eq!(frame.content, vec!["".to_string()]);
    assert!(frame.styles.is_empty());
}

#[test]
fn a_number_too_large_is_refused() {
    let printed = "area: Rect { x: 0, y: 0, width: 99999999999, height: 2 }";
    assert!(Buffer::try_from_string(printed).is_none());
}

#[test]
fn every_text_gives_a_frame() {
    let printed = "area: Rect { x: 99999999999, y: 0, width: 0, height: 0 }";
    let frame = Buffer::from_string(printed);
    assert_eq!(frame.area, Rect { x: 0, y: 0, width: 0, height: 0 });
    assert_eq!(frame.content, vec!["".to_string()]);
    assert!(frame.styles.is_empty());
    for text in ["", "}{][", "area: Rect {}", "content: []", "styles: [x: 1, y: 2, fg: ]", "\u{0}\u{10ffff}"] {
        let frame = Buffer::from_string(text);
        assert_eq!(frame.area, Rect { x: 0, y: 0, width: 0, height: 0 });
        assert!(frame.styles.is_empty());
    }
}

#[test]
fn an_area_that_cannot_be_read_falls_back_alone() {
    let printed = "Buffer {\n    area: Rect { x: 1, y: 5, width: 99999999999, height: 7 },\n    content: [\n        \"row\",\n    ],\n    styles: [\n        x: 2, y: 3, fg: Blue, bg: Reset,\n    ]\n}";
    assert!(Buffer::try_from_string(printed).is_none());
    let frame = Buffer::from_string(printed);
    assert_eq!(frame.area, Rect { x: 0, y: 0, width: 0, height: 0 });
    assert_eq!(frame.content, vec!["row".to_string(), "".to_string()]);
    assert_eq!(frame.styles.len(), 1);
    assert_eq!((frame.styles[0].x, frame.styles[0].y, frame.styles[0].fg.as_str()), (2, 3, "Blue"));
}

#[test]
fn styles_that_cannot_be_read_fall_back_alone() {
    let printed = "area: Rect { x: 1, y: 2, width: 3, height: 4 }, styles: [x: 1, y: 1, fg: Red, x: 99999999999, y: 1, fg: Red,]";
    assert!(Buffer::try_from_string(printed).is_none());
    let frame = Buffer::from_string(printed);
    assert_eq!(frame.area, Rect { x: 1, y: 2, width: 3, height: 4 });
    assert!(frame.styles.is_empty());
}

#[test]
fn digits_of_another_script_fall_back() {
    let printed = "area: Rect { x: \u{663}, y: 2, width: 3, height: 4 }";
    assert_eq!(Buffer::from_string(printed).area, Rect { x: 0, y: 0, width: 0, height: 0 });
}

#[test]
fn parse_area_reads_or_gives_the_zero_area() {
    assert_eq!(Buffer::parse_area(" x: 1, y: 2, width: 80, height: 24 "), Rect { x: 1, y: 2, width: 80, height: 24 });
    assert_eq!(Buffer::parse_area("x: 1, y: 2"), Rect { x: 0, y: 0, width: 0, height: 0 });
    assert_eq!(Buffer::parse_area("x: 1, y: 2, width: 2147483648, height: 24"), Rect { x: 0, y: 0, width: 0, height: 0 });
    assert_eq!(Buffer::parse_area("x: 1, y: 2, width: 2147483647, height: 24"), Rect { x: 1, y: 2, width: 2147483647, height: 24 });
}

#[test]
fn parse_styles_reads_every_style_or_none() {
    let styles = Buffer::parse_styles("x: 0, y: 0, fg: Reset, bg: Reset,\n x: 3, y: 1, fg: Rgb(1, 2, 3),");
    assert_eq!(styles.len(), 2);
    assert_eq!((styles[1].x, styles[1].y, styles[1].fg.as_str()), (3, 1, "Rgb"));
    assert!(Buffer::parse_styles("no style").is_empty());
    assert!(Buffer::parse_styles("x: 0, y: 0, fg: Reset, x: 4294967296, y: 0, fg: Reset").is_empty());
}

#[test]
fn content_rows_lose_blanks_and_quotes() {
    assert_eq!(
        content_lines("\n        \"Hello\",\n        \" a\\\"b \",\n    "),
        vec!["Hello".to_string(), " a\"b ".to_string(), "".to_string()]
    );
    assert_eq!(content_lines("\"ends in \\\"\""), vec!["ends in \\".to_string()]);
}
