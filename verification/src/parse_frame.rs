//! Reading a rendered frame back from its printed form: the screen's area, its
//! lines of text, and the foreground colour recorded for its cells.

use crate::text::{
    decimal_i32, parse_i32, replace, replaced, split, split_on, trim_by, trimmed, Trim,
};
use vstd::prelude::*;

verus! {

broadcast use vstd::string::group_string_axioms;

/// Finds the area inside a printed frame.
pub const BUFFER_PATTERN: &'static str = "area: Rect \\{([\\s\\S]+?)\\}";

/// Finds the four numbers of an area.
pub const AREA_PATTERN: &'static str = "x: (\\d+), y: (\\d+), width: (\\d+), height: (\\d+)";

/// Finds the lines of text inside a printed frame.
pub const CONTENT_PATTERN: &'static str = "content: \\[([\\s\\S]+?)]";

/// Finds the recorded styles inside a printed frame.
pub const STYLES_BUFFER_PATTERN: &'static str = "styles: \\[([\\s\\S]+?)\\]";

/// Finds one recorded style: a cell and its foreground colour.
pub const STYLES_PATTERN: &'static str = "x: (\\d+), y: (\\d+), fg: (\\w+)";

/// Whether `regex` accepts a pattern.
pub uninterp spec fn regex_accepts(pattern: Seq<char>) -> bool;

/// The leftmost match that `regex` finds for a pattern in a text: for each
/// capture group, the whole match first, the text that the group matched, or
/// `None` for a group that took no part. `None` where nothing matches.
pub uninterp spec fn regex_first_match(pattern: Seq<char>, text: Seq<char>) -> Option<
    Seq<Option<Seq<char>>>,
>;

/// All the matches that `regex` finds for a pattern in a text, left to right
/// without overlap, each as the texts of its capture groups.
pub uninterp spec fn regex_all_matches(pattern: Seq<char>, text: Seq<char>) -> Seq<
    Seq<Option<Seq<char>>>,
>;

/// Calls `Regex::new` and reports whether it accepted the pattern. The answer
/// depends on the pattern alone; the contract gives it its name.
#[verifier::external_body]
fn compiles(pattern: &str) -> (accepted: bool)
    ensures
        accepted == regex_accepts(pattern@),
{
    regex::Regex::new(pattern).is_ok()
}

/// Calls `Regex::new` and `Regex::captures`, and copies out the text of each
/// group of the match with `Captures::iter` and `Match::as_str`. The result
/// depends on the two arguments alone; the contract gives it its name and
/// claims nothing more. A pattern that `Regex::new` refuses is excluded.
#[verifier::external_body]
fn first_match(pattern: &str, text: &str) -> (found: Option<Vec<Option<String>>>)
    requires
        regex_accepts(pattern@),
    ensures
        found.deep_view() == regex_first_match(pattern@, text@),
{
    let compiled = regex::Regex::new(pattern).unwrap();
    let found = compiled.captures(text);
    found.map(|groups| groups.iter().map(|group| group.map(|m| m.as_str().to_string())).collect())
}

/// Calls `Regex::new` and `Regex::captures_iter`, and copies out the text of
/// each group of each match with `Captures::iter` and `Match::as_str`. The
/// result depends on the two arguments alone; the contract gives it its name
/// and claims nothing more. A pattern that `Regex::new` refuses is excluded.
#[verifier::external_body]
fn all_matches(pattern: &str, text: &str) -> (found: Vec<Vec<Option<String>>>)
    requires
        regex_accepts(pattern@),
    ensures
        found.deep_view() == regex_all_matches(pattern@, text@),
{
    let compiled = regex::Regex::new(pattern).unwrap();
    let found = compiled.captures_iter(text);
    found.map(|groups| groups.iter().map(|group| group.map(|m| m.as_str().to_string())).collect())
        .collect()
}

/// A rectangle of the screen.
#[derive(Clone, Copy, Debug, PartialEq, Eq, Structural)]
pub struct Rect {
    pub x: i32,
    pub y: i32,
    pub width: i32,
    pub height: i32,
}

/// The foreground colour recorded for one cell.
#[derive(Debug)]
pub struct Style {
    pub x: i32,
    pub y: i32,
    pub fg: String,
}

/// A [`Style`] with its colour as a sequence of characters.
pub ghost struct StyleView {
    pub x: i32,
    pub y: i32,
    pub fg: Seq<char>,
}

impl View for Style {
    type V = StyleView;

    open spec fn view(&self) -> StyleView {
        StyleView { x: self.x, y: self.y, fg: self.fg@ }
    }
}

/// A rendered frame: the screen's area, its lines, and its recorded styles.
#[derive(Debug)]
pub struct Buffer {
    pub area: Rect,
    pub content: Vec<String>,
    pub styles: Vec<Style>,
}

/// A [`Buffer`] with its text as sequences of characters.
pub ghost struct BufferView {
    pub area: Rect,
    pub content: Seq<Seq<char>>,
    pub styles: Seq<StyleView>,
}

/// The styles of a list, each by its view.
pub open spec fn style_views(styles: Seq<Style>) -> Seq<StyleView> {
    Seq::new(styles.len(), |i: int| styles[i]@)
}

impl View for Buffer {
    type V = BufferView;

    open spec fn view(&self) -> BufferView {
        BufferView {
            area: self.area,
            content: self.content.deep_view(),
            styles: style_views(self.styles@),
        }
    }
}

/// Whether `regex` accepts the five patterns of this module.
pub open spec fn patterns_accepted() -> bool {
    &&& regex_accepts(BUFFER_PATTERN@)
    &&& regex_accepts(AREA_PATTERN@)
    &&& regex_accepts(CONTENT_PATTERN@)
    &&& regex_accepts(STYLES_BUFFER_PATTERN@)
    &&& regex_accepts(STYLES_PATTERN@)
}

/// The text of group `index` of a match, if the group took part.
pub open spec fn group_text(groups: Seq<Option<Seq<char>>>, index: int) -> Option<Seq<char>> {
    if 0 <= index < groups.len() {
        groups[index]
    } else {
        None
    }
}

/// What the first group of a pattern's leftmost match holds; empty where
/// nothing matches.
pub open spec fn section_of(pattern: Seq<char>, text: Seq<char>) -> Seq<char> {
    match regex_first_match(pattern, text) {
        Some(groups) => match group_text(groups, 1) {
            Some(inner) => inner,
            None => Seq::empty(),
        },
        None => Seq::empty(),
    }
}

/// The number that group `index` of a match writes, if it writes one that `i32` holds.
pub open spec fn group_number(groups: Seq<Option<Seq<char>>>, index: int) -> Option<i32> {
    match group_text(groups, index) {
        Some(digits) => decimal_i32(digits),
        None => None,
    }
}

/// The area that a match of [`AREA_PATTERN`] gives: all zero where nothing
/// matched, and `None` where one of the four groups writes no `i32`.
pub open spec fn area_of(found: Option<Seq<Option<Seq<char>>>>) -> Option<Rect> {
    match found {
        None => Some(Rect { x: 0, y: 0, width: 0, height: 0 }),
        Some(groups) => {
            let x = group_number(groups, 1);
            let y = group_number(groups, 2);
            let width = group_number(groups, 3);
            let height = group_number(groups, 4);
            if x is Some && y is Some && width is Some && height is Some {
                Some(Rect { x: x->0, y: y->0, width: width->0, height: height->0 })
            } else {
                None
            }
        },
    }
}

/// The style that a match of [`STYLES_PATTERN`] gives; `None` where one of its
/// two numbers writes no `i32` or the colour is missing.
pub open spec fn style_of(groups: Seq<Option<Seq<char>>>) -> Option<StyleView> {
    let x = group_number(groups, 1);
    let y = group_number(groups, 2);
    let fg = group_text(groups, 3);
    if x is Some && y is Some && fg is Some {
        Some(StyleView { x: x->0, y: y->0, fg: fg->0 })
    } else {
        None
    }
}

/// The styles that the matches of [`STYLES_PATTERN`] give, in their order;
/// `None` where one of them gives none.
pub open spec fn styles_of(matches: Seq<Seq<Option<Seq<char>>>>) -> Option<Seq<StyleView>> {
    if forall|i: int| 0 <= i < matches.len() ==> (#[trigger] style_of(matches[i])) is Some {
        Some(Seq::new(matches.len(), |i: int| style_of(matches[i])->0))
    } else {
        None
    }
}

/// One line of content: the piece without the whitespace around it, without
/// the quotes around that, and with each escaped quote written plainly.
pub open spec fn clean_line(piece: Seq<char>) -> Seq<char> {
    replaced(
        trimmed(trimmed(piece, Trim::Whitespace), Trim::Matching('"')),
        "\\\""@,
        "\""@,
    )
}

/// The lines of a content section: its pieces between `,` followed by a line
/// break, each cleaned. An empty section is one empty line.
pub open spec fn lines_of(section: Seq<char>) -> Seq<Seq<char>> {
    let pieces = split_on(section, ",\n"@);
    Seq::new(pieces.len(), |i: int| clean_line(pieces[i]))
}

/// The frame that a printed form writes, or `None` where `regex` refuses a
/// pattern or a number of the area or of a style is no `i32`.
pub open spec fn frame_of(printed: Seq<char>) -> Option<BufferView> {
    let area = area_of(regex_first_match(AREA_PATTERN@, section_of(BUFFER_PATTERN@, printed)));
    let styles = styles_of(
        regex_all_matches(STYLES_PATTERN@, section_of(STYLES_BUFFER_PATTERN@, printed)),
    );
    if patterns_accepted() && area is Some && styles is Some {
        Some(
            BufferView {
                area: area->0,
                content: lines_of(section_of(CONTENT_PATTERN@, printed)),
                styles: styles->0,
            },
        )
    } else {
        None
    }
}

/// The area of a frame in which none can be read.
pub open spec fn zero_area() -> Rect {
    Rect { x: 0, y: 0, width: 0, height: 0 }
}

/// What the first group of a pattern's leftmost match holds; empty where
/// nothing matches or `regex` refuses the pattern.
pub open spec fn section_or_empty(pattern: Seq<char>, text: Seq<char>) -> Seq<char> {
    if regex_accepts(pattern) {
        section_of(pattern, text)
    } else {
        Seq::empty()
    }
}

/// The area that the inside of `area: Rect { .. }` writes. It is the zero area
/// where no area is found, where one of its four numbers is no `i32`, and
/// where `regex` refuses [`AREA_PATTERN`].
pub open spec fn area_or_default(data: Seq<char>) -> Rect {
    if regex_accepts(AREA_PATTERN@) {
        match area_of(regex_first_match(AREA_PATTERN@, data)) {
            Some(area) => area,
            None => zero_area(),
        }
    } else {
        zero_area()
    }
}

/// The styles that the inside of `styles: [ .. ]` writes. There are none
/// where a number of one of them is no `i32`, and where `regex` refuses
/// [`STYLES_PATTERN`].
pub open spec fn styles_or_default(data: Seq<char>) -> Seq<StyleView> {
    if regex_accepts(STYLES_PATTERN@) {
        match styles_of(regex_all_matches(STYLES_PATTERN@, data)) {
            Some(styles) => styles,
            None => Seq::empty(),
        }
    } else {
        Seq::empty()
    }
}

/// The frame that a printed form writes, whatever the text: a section that
/// cannot be read falls back on its own, the area to the zero area, the
/// styles to none, and a section whose pattern `regex` refuses to the empty
/// one.
pub open spec fn frame_or_default(printed: Seq<char>) -> BufferView {
    BufferView {
        area: area_or_default(section_or_empty(BUFFER_PATTERN@, printed)),
        content: lines_of(section_or_empty(CONTENT_PATTERN@, printed)),
        styles: styles_or_default(section_or_empty(STYLES_BUFFER_PATTERN@, printed)),
    }
}

/// Where every section of a printed form can be read, the frame with
/// fallbacks is the frame that was read.
pub proof fn law_read_frame_needs_no_fallback(printed: Seq<char>)
    requires
        frame_of(printed) is Some,
    ensures
        Some(frame_or_default(printed)) == frame_of(printed),
{
}

/// Whether `regex` accepts the five patterns of this module.
pub fn patterns_compile() -> (accepted: bool)
    ensures
        accepted == patterns_accepted(),
{
    compiles(BUFFER_PATTERN) && compiles(AREA_PATTERN) && compiles(CONTENT_PATTERN) && compiles(
        STYLES_BUFFER_PATTERN,
    ) && compiles(STYLES_PATTERN)
}

/// The number that group `index` of a match writes.
pub fn number_at(groups: &Vec<Option<String>>, index: usize) -> (number: Option<i32>)
    ensures
        number == group_number(groups.deep_view(), index as int),
{
    if index < groups.len() {
        match &groups[index] {
            Some(digits) => parse_i32(digits.as_str()),
            None => None,
        }
    } else {
        None
    }
}

/// The area that a match of [`AREA_PATTERN`] gives.
pub fn area_from_captures(found: &Option<Vec<Option<String>>>) -> (area: Option<Rect>)
    ensures
        area == area_of(found.deep_view()),
{
    match found {
        None => Some(Rect { x: 0, y: 0, width: 0, height: 0 }),
        Some(groups) => {
            let x = number_at(groups, 1);
            let y = number_at(groups, 2);
            let width = number_at(groups, 3);
            let height = number_at(groups, 4);
            match (x, y, width, height) {
                (Some(x), Some(y), Some(width), Some(height)) => Some(
                    Rect { x, y, width, height },
                ),
                _ => None,
            }
        },
    }
}

/// The style that a match of [`STYLES_PATTERN`] gives.
pub fn style_from_captures(groups: &Vec<Option<String>>) -> (style: Option<Style>)
    ensures
        style.is_some() == style_of(groups.deep_view()).is_some(),
        style matches Some(s) ==> s@ == style_of(groups.deep_view())->0,
{
    let x = number_at(groups, 1);
    let y = number_at(groups, 2);
    if groups.len() <= 3 {
        return None;
    }
    match (x, y, &groups[3]) {
        (Some(x), Some(y), Some(fg)) => Some(Style { x, y, fg: fg.clone() }),
        _ => None,
    }
}

/// The styles that the matches of [`STYLES_PATTERN`] give, in their order.
pub fn styles_from_captures(matches: &Vec<Vec<Option<String>>>) -> (styles: Option<Vec<Style>>)
    ensures
        styles.is_some() == styles_of(matches.deep_view()).is_some(),
        styles matches Some(list) ==> style_views(list@) == styles_of(matches.deep_view())->0,
{
    let mut styles: Vec<Style> = Vec::new();
    let mut i: usize = 0;
    while i < matches.len()
        invariant
            i <= matches.len(),
            styles.len() == i,
            forall|j: int|
                0 <= j < i ==> (#[trigger] style_of(matches.deep_view()[j])) == Some(styles@[j]@),
        decreases matches.len() - i,
    {
        assert(matches.deep_view()[i as int] == matches@[i as int].deep_view());
        match style_from_captures(&matches[i]) {
            Some(style) => styles.push(style),
            None => {
                return None;
            },
        }
        i += 1;
    }
    assert(style_views(styles@) =~= styles_of(matches.deep_view())->0);
    Some(styles)
}

/// The lines of a content section.
pub fn content_lines(section: &str) -> (lines: Vec<String>)
    ensures
        lines.deep_view() == lines_of(section@),
{
    proof {
        reveal_strlit(",\n");
        reveal_strlit("\\\"");
    }
    let pieces = split(section, ",\n");
    let mut lines: Vec<String> = Vec::new();
    let mut i: usize = 0;
    while i < pieces.len()
        invariant
            i <= pieces.len(),
            lines.len() == i,
            pieces.deep_view() == split_on(section@, ",\n"@),
            "\\\""@.len() > 0,
            forall|j: int| 0 <= j < i ==> (#[trigger] lines@[j])@ == clean_line(pieces@[j]@),
        decreases pieces.len() - i,
    {
        let bare = trim_by(trim_by(pieces[i], Trim::Whitespace), Trim::Matching('"'));
        lines.push(replace(bare, "\\\"", "\""));
        i += 1;
    }
    assert(lines.deep_view() =~= lines_of(section@)) by {
        assert forall|j: int| 0 <= j < pieces.len() implies pieces.deep_view()[j]
            == pieces@[j]@ by {}
    }
    lines
}

/// What the first group of a pattern's leftmost match holds.
fn section(pattern: &str, text: &str) -> (inner: String)
    ensures
        inner@ == section_or_empty(pattern@, text@),
{
    if !compiles(pattern) {
        return String::new();
    }
    match first_match(pattern, text) {
        Some(groups) => {
            if 1 < groups.len() {
                match &groups[1] {
                    Some(inner) => inner.clone(),
                    None => String::new(),
                }
            } else {
                String::new()
            }
        },
        None => String::new(),
    }
}

impl Buffer {
    /// Reads the area out of the text between the braces of `area: Rect { .. }`.
    /// A text that writes no area, or one with a number that is no `i32`, gives
    /// the zero area.
    pub fn parse_area(data: &str) -> (area: Rect)
        ensures
            area == area_or_default(data@),
    {
        if !compiles(AREA_PATTERN) {
            return Rect { x: 0, y: 0, width: 0, height: 0 };
        }
        let found = first_match(AREA_PATTERN, data);
        match area_from_captures(&found) {
            Some(area) => area,
            None => Rect { x: 0, y: 0, width: 0, height: 0 },
        }
    }

    /// Reads the styles out of the text between the brackets of `styles: [ .. ]`.
    /// A text in which a style has a number that is no `i32` gives no styles.
    pub fn parse_styles(data: &str) -> (styles: Vec<Style>)
        ensures
            style_views(styles@) == styles_or_default(data@),
    {
        if !compiles(STYLES_PATTERN) {
            let none: Vec<Style> = Vec::new();
            assert(style_views(none@) =~= Seq::<StyleView>::empty());
            return none;
        }
        let found = all_matches(STYLES_PATTERN, data);
        match styles_from_captures(&found) {
            Some(styles) => styles,
            None => {
                let none: Vec<Style> = Vec::new();
                assert(style_views(none@) =~= Seq::<StyleView>::empty());
                none
            },
        }
    }

    /// Reads a frame from its printed form. Every text gives a frame: a
    /// section that cannot be read falls back to its default, and where all
    /// of them can be read the frame is the one that was written.
    pub fn from_string(buffer_str: &str) -> (frame: Buffer)
        ensures
            frame@ == frame_or_default(buffer_str@),
            frame_of(buffer_str@) matches Some(read) ==> frame@ == read,
    {
        let area_data = section(BUFFER_PATTERN, buffer_str);
        let styles_data = section(STYLES_BUFFER_PATTERN, buffer_str);
        let content_data = section(CONTENT_PATTERN, buffer_str);
        let content = content_lines(content_data.as_str());
        let area = Buffer::parse_area(area_data.as_str());
        let styles = Buffer::parse_styles(styles_data.as_str());
        Buffer { area, content, styles }
    }

    /// Reads a frame from its printed form, and gives `None` where
    /// [`Buffer::from_string`] would fall back: `regex` refuses a pattern, or a
    /// number of the area or of a style is no `i32`.
    pub fn try_from_string(buffer_str: &str) -> (frame: Option<Buffer>)
        ensures
            frame.is_some() == frame_of(buffer_str@).is_some(),
            frame matches Some(read) ==> Some(read@) == frame_of(buffer_str@),
    {
        if !patterns_compile() {
            return None;
        }
        let area_data = section(BUFFER_PATTERN, buffer_str);
        let area_found = first_match(AREA_PATTERN, area_data.as_str());
        if area_from_captures(&area_found).is_none() {
            return None;
        }
        let styles_data = section(STYLES_BUFFER_PATTERN, buffer_str);
        let styles_found = all_matches(STYLES_PATTERN, styles_data.as_str());
        if styles_from_captures(&styles_found).is_none() {
            return None;
        }
        Some(Buffer::from_string(buffer_str))
    }
}

} // verus!
