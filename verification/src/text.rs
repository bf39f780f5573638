//! Text helpers over sequences of characters: searching, splitting, trimming,
//! replacing, and reading decimal numbers.

use vstd::prelude::*;

verus! {

broadcast use vstd::string::group_string_axioms;

/// Whether `std` counts a character as whitespace.
pub uninterp spec fn char_is_whitespace(c: char) -> bool;

/// Whether a character is whitespace. Among the ASCII characters these are
/// U+0009 to U+000D and the space; beyond them, what `std` counts as such.
pub open spec fn is_whitespace(c: char) -> bool {
    if c <= '\u{7f}' {
        ('\t' <= c && c <= '\r') || c == ' '
    } else {
        char_is_whitespace(c)
    }
}

/// `char::is_whitespace` tells whether a character has the Unicode property
/// `White_Space`. The answer depends on the character alone, and the contract
/// gives it its name. Of the name it claims the ASCII part only, as the
/// property list that the documentation points to has it: U+0009 to U+000D
/// and U+0020 are whitespace, and no other ASCII character is.
pub assume_specification[ char::is_whitespace ](c: char) -> (white: bool)
    ensures
        white == char_is_whitespace(c),
        c <= '\u{7f}' ==> white == (('\t' <= c && c <= '\r') || c == ' '),
;

/// The characters of `text`, one by one.
pub fn chars_of(text: &str) -> (chars: Vec<char>)
    ensures
        chars@ == text@,
{
    let mut chars: Vec<char> = Vec::new();
    for c in it: text.chars()
        invariant
            it.seq() == text@,
            chars@ == it.seq().subrange(0, it.index()),
    {
        chars.push(c);
    }
    chars
}

/// Whether two texts hold the same characters.
pub fn same_text(left: &str, right: &str) -> (same: bool)
    ensures
        same == (left@ == right@),
{
    let a = chars_of(left);
    let b = chars_of(right);
    if a.len() != b.len() {
        return false;
    }
    let mut i: usize = 0;
    while i < a.len()
        invariant
            a@ == left@,
            b@ == right@,
            a.len() == b.len(),
            i <= a.len(),
            forall|j: int| 0 <= j < i ==> a@[j] == b@[j],
        decreases a.len() - i,
    {
        if a[i] != b[i] {
            return false;
        }
        i += 1;
    }
    assert(a@ =~= b@);
    true
}

/// Whether `pattern` stands in `text` at position `at`.
pub open spec fn occurs_at(text: Seq<char>, pattern: Seq<char>, at: int) -> bool {
    &&& 0 <= at
    &&& at + pattern.len() <= text.len()
    &&& text.subrange(at, at + pattern.len()) == pattern
}

/// Whether `pattern` stands in `text` at position `at`.
pub fn matches_at(text: &Vec<char>, pattern: &Vec<char>, at: usize) -> (found: bool)
    ensures
        found == occurs_at(text@, pattern@, at as int),
{
    if at > text.len() || pattern.len() > text.len() - at {
        return false;
    }
    let mut k: usize = 0;
    while k < pattern.len()
        invariant
            at + pattern.len() <= text.len(),
            k <= pattern.len(),
            forall|j: int| 0 <= j < k ==> text@[at + j] == pattern@[j],
        decreases pattern.len() - k,
    {
        if text[at + k] != pattern[k] {
            proof {
                let window = text@.subrange(at as int, at + pattern.len());
                assert(window[k as int] == text@[at + k]);
            }
            return false;
        }
        k += 1;
    }
    assert(text@.subrange(at as int, at + pattern.len()) =~= pattern@);
    true
}

/// The pieces of `text` from `start` on, cut at each `separator` found at or
/// after `at`, scanning left to right without overlap.
pub open spec fn split_from(text: Seq<char>, separator: Seq<char>, start: int, at: int) -> Seq<
    Seq<char>,
>
    decreases text.len() - at,
    when separator.len() > 0
{
    if at + separator.len() > text.len() {
        seq![text.subrange(start, text.len() as int)]
    } else if occurs_at(text, separator, at) {
        seq![text.subrange(start, at)] + split_from(
            text,
            separator,
            at + separator.len(),
            at + separator.len(),
        )
    } else {
        split_from(text, separator, start, at + 1)
    }
}

/// The pieces of `text` between the occurrences of `separator`, found left to
/// right without overlap. A text without the separator is one piece, and so is
/// the empty text.
///
/// The empty separator stands before, between and after the characters: the
/// pieces are an empty one, each character by itself, and an empty one.
pub open spec fn split_on(text: Seq<char>, separator: Seq<char>) -> Seq<Seq<char>> {
    if separator.len() == 0 {
        seq![Seq::<char>::empty()] + Seq::new(text.len(), |i: int| seq![text[i]])
            + seq![Seq::<char>::empty()]
    } else {
        split_from(text, separator, 0, 0)
    }
}

/// Cuts `text` before, between and after its characters.
fn split_apart<'a>(text: &'a str) -> (pieces: Vec<&'a str>)
    ensures
        pieces.deep_view() == split_on(text@, Seq::<char>::empty()),
{
    let length = text.unicode_len();
    let mut pieces: Vec<&'a str> = Vec::new();
    let first = text.substring_char(0, 0);
    pieces.push(first);
    assert(first@ =~= Seq::<char>::empty());
    assert(pieces.deep_view() =~= seq![Seq::<char>::empty()] + Seq::new(
        0,
        |i: int| seq![text@[i]],
    ));
    let mut at: usize = 0;
    while at < length
        invariant
            length == text@.len(),
            at <= length,
            pieces.deep_view() == seq![Seq::<char>::empty()] + Seq::new(
                at as nat,
                |i: int| seq![text@[i]],
            ),
        decreases length - at,
    {
        let piece = text.substring_char(at, at + 1);
        let ghost before = pieces.deep_view();
        pieces.push(piece);
        assert(piece@ =~= seq![text@[at as int]]);
        assert(pieces.deep_view() =~= before.push(piece@));
        at += 1;
        assert(before.push(piece@) =~= seq![Seq::<char>::empty()] + Seq::new(
            at as nat,
            |i: int| seq![text@[i]],
        ));
    }
    let last = text.substring_char(length, length);
    let ghost before = pieces.deep_view();
    pieces.push(last);
    assert(last@ =~= Seq::<char>::empty());
    assert(pieces.deep_view() =~= before.push(last@));
    assert(before.push(last@) =~= before + seq![Seq::<char>::empty()]);
    pieces
}

/// Cuts `text` at each occurrence of `separator`.
pub fn split<'a>(text: &'a str, separator: &str) -> (pieces: Vec<&'a str>)
    ensures
        pieces.deep_view() == split_on(text@, separator@),
{
    let chars = chars_of(text);
    let pattern = chars_of(separator);
    if pattern.len() == 0 {
        return split_apart(text);
    }
    let mut pieces: Vec<&'a str> = Vec::new();
    let mut start: usize = 0;
    let mut at: usize = 0;
    while pattern.len() <= chars.len() - at
        invariant
            chars@ == text@,
            pattern@ == separator@,
            pattern@.len() > 0,
            start <= at <= chars.len(),
            split_from(text@, separator@, 0, 0) == pieces.deep_view() + split_from(
                text@,
                separator@,
                start as int,
                at as int,
            ),
        decreases chars.len() - at,
    {
        if matches_at(&chars, &pattern, at) {
            let piece = text.substring_char(start, at);
            let ghost before = pieces.deep_view();
            pieces.push(piece);
            assert(pieces.deep_view() =~= before.push(piece@));
            at += pattern.len();
            start = at;
            assert(before.push(piece@) + split_from(text@, separator@, start as int, at as int)
                =~= before + (seq![piece@] + split_from(
                text@,
                separator@,
                start as int,
                at as int,
            )));
        } else {
            at += 1;
        }
    }
    let piece = text.substring_char(start, chars.len());
    let ghost before = pieces.deep_view();
    pieces.push(piece);
    assert(pieces.deep_view() =~= before.push(piece@));
    assert(before.push(piece@) =~= before + seq![piece@]);
    pieces
}

/// Which characters a trim takes off the two ends of a text.
#[derive(Clone, Copy, Debug)]
pub enum Trim {
    /// Whitespace, as `std` counts it.
    Whitespace,
    /// One given character.
    Matching(char),
}

impl Trim {
    /// Whether the trim takes `c` off.
    pub open spec fn strips(self, c: char) -> bool {
        match self {
            Trim::Whitespace => is_whitespace(c),
            Trim::Matching(unwanted) => c == unwanted,
        }
    }

    /// Whether the trim takes `c` off.
    pub fn takes(&self, c: char) -> (taken: bool)
        ensures
            taken == self.strips(c),
    {
        match self {
            Trim::Whitespace => c.is_whitespace(),
            Trim::Matching(unwanted) => c == *unwanted,
        }
    }
}

/// The first position at or after `at` whose character stays, or the length of
/// `text` if every character from `at` on is taken off.
pub open spec fn skip_front(text: Seq<char>, trim: Trim, at: int) -> int
    decreases text.len() - at,
{
    if 0 <= at < text.len() && trim.strips(text[at]) {
        skip_front(text, trim, at + 1)
    } else {
        at
    }
}

/// The end of the last character before `end` that stays, looking no further
/// back than `floor`.
pub open spec fn skip_back(text: Seq<char>, trim: Trim, floor: int, end: int) -> int
    decreases end,
{
    if 0 <= floor < end <= text.len() && trim.strips(text[end - 1]) {
        skip_back(text, trim, floor, end - 1)
    } else {
        end
    }
}

/// `text` without the characters that `trim` takes off its two ends.
pub open spec fn trimmed(text: Seq<char>, trim: Trim) -> Seq<char> {
    let from = skip_front(text, trim, 0);
    text.subrange(from, skip_back(text, trim, from, text.len() as int))
}

/// Takes the characters that `trim` names off both ends of `text`.
pub fn trim_by<'a>(text: &'a str, trim: Trim) -> (kept: &'a str)
    ensures
        kept@ == trimmed(text@, trim),
{
    let chars = chars_of(text);
    let mut from: usize = 0;
    while from < chars.len() && trim.takes(chars[from])
        invariant
            from <= chars.len(),
            skip_front(chars@, trim, 0) == skip_front(chars@, trim, from as int),
        decreases chars.len() - from,
    {
        from += 1;
    }
    let mut end: usize = chars.len();
    while from < end && trim.takes(chars[end - 1])
        invariant
            from <= end <= chars.len(),
            skip_back(chars@, trim, from as int, chars.len() as int) == skip_back(
                chars@,
                trim,
                from as int,
                end as int,
            ),
        decreases end,
    {
        end -= 1;
    }
    text.substring_char(from, end)
}

/// `text` from `at` on, with each occurrence of `from`, found left to right
/// without overlap, replaced by `to`.
pub open spec fn replaced_from(text: Seq<char>, from: Seq<char>, to: Seq<char>, at: int) -> Seq<
    char,
>
    decreases text.len() - at,
    when from.len() > 0 && at >= 0
{
    if at + from.len() > text.len() {
        text.subrange(at, text.len() as int)
    } else if occurs_at(text, from, at) {
        to + replaced_from(text, from, to, at + from.len())
    } else {
        seq![text[at]] + replaced_from(text, from, to, at + 1)
    }
}

/// `text` from `at` on, with `to` before, between and after its characters.
pub open spec fn interleaved(text: Seq<char>, to: Seq<char>, at: int) -> Seq<char>
    decreases text.len() - at,
{
    if 0 <= at < text.len() {
        to + seq![text[at]] + interleaved(text, to, at + 1)
    } else {
        to
    }
}

/// `text` with each occurrence of `from`, found left to right without overlap,
/// replaced by `to`. The empty `from` stands before, between and after the
/// characters, so that `to` is put in at each of those places.
pub open spec fn replaced(text: Seq<char>, from: Seq<char>, to: Seq<char>) -> Seq<char> {
    if from.len() == 0 {
        interleaved(text, to, 0)
    } else {
        replaced_from(text, from, to, 0)
    }
}

/// Puts `to` before, between and after the characters of `text`.
fn interleave(text: &str, to: &str) -> (result: String)
    ensures
        result@ == interleaved(text@, to@, 0),
{
    let length = text.unicode_len();
    let mut result = String::new();
    let mut at: usize = 0;
    while at < length
        invariant
            length == text@.len(),
            at <= length,
            interleaved(text@, to@, 0) == result@ + interleaved(text@, to@, at as int),
        decreases length - at,
    {
        let ghost before = result@;
        let piece = text.substring_char(at, at + 1);
        assert(piece@ =~= seq![text@[at as int]]);
        result.append(to);
        result.append(piece);
        assert(before + (to@ + seq![text@[at as int]] + interleaved(text@, to@, at + 1))
            =~= (before + to@ + seq![text@[at as int]]) + interleaved(text@, to@, at + 1));
        at += 1;
    }
    result.append(to);
    result
}

/// Replaces each occurrence of `from` in `text` by `to`.
pub fn replace(text: &str, from: &str, to: &str) -> (result: String)
    ensures
        result@ == replaced(text@, from@, to@),
{
    let chars = chars_of(text);
    let pattern = chars_of(from);
    if pattern.len() == 0 {
        return interleave(text, to);
    }
    let mut result = String::new();
    let mut start: usize = 0;
    let mut at: usize = 0;
    while pattern.len() <= chars.len() - at
        invariant
            chars@ == text@,
            pattern@ == from@,
            pattern@.len() > 0,
            start <= at <= chars.len(),
            replaced_from(text@, from@, to@, 0) == result@ + text@.subrange(
                start as int,
                at as int,
            )
                + replaced_from(text@, from@, to@, at as int),
        decreases chars.len() - at,
    {
        if matches_at(&chars, &pattern, at) {
            let ghost before = result@;
            let ghost pending = text@.subrange(start as int, at as int);
            result.append(text.substring_char(start, at));
            result.append(to);
            at += pattern.len();
            start = at;
            assert(text@.subrange(start as int, at as int) =~= Seq::<char>::empty());
            assert(before + pending + (to@ + replaced_from(text@, from@, to@, at as int))
                =~= (before + pending + to@) + Seq::<char>::empty() + replaced_from(
                text@,
                from@,
                to@,
                at as int,
            ));
        } else {
            let ghost pending = text@.subrange(start as int, at as int);
            assert(pending + (seq![text@[at as int]] + replaced_from(
                text@,
                from@,
                to@,
                at + 1,
            )) =~= text@.subrange(start as int, at + 1) + replaced_from(
                text@,
                from@,
                to@,
                at + 1,
            ));
            assert(result@ + pending + (seq![text@[at as int]] + replaced_from(
                text@,
                from@,
                to@,
                at + 1,
            )) =~= result@ + (pending + (seq![text@[at as int]] + replaced_from(
                text@,
                from@,
                to@,
                at + 1,
            ))));
            at += 1;
        }
    }
    let ghost before = result@;
    result.append(text.substring_char(start, chars.len()));
    assert(text@.subrange(start as int, at as int) + text@.subrange(at as int, text@.len() as int)
        =~= text@.subrange(start as int, text@.len() as int));
    assert(before + text@.subrange(start as int, at as int) + text@.subrange(
        at as int,
        text@.len() as int,
    ) =~= before + text@.subrange(start as int, text@.len() as int));
    result
}

/// Whether `c` is one of the ten decimal digits.
pub open spec fn is_digit(c: char) -> bool {
    '0' <= c <= '9'
}

/// Whether every character of `text` is a decimal digit.
pub open spec fn all_digits(text: Seq<char>) -> bool {
    forall|i: int| 0 <= i < text.len() ==> is_digit(#[trigger] text[i])
}

/// What a decimal digit counts for; zero for any other character.
pub open spec fn digit_value(c: char) -> nat {
    if is_digit(c) {
        (c as nat - '0' as nat) as nat
    } else {
        0
    }
}

/// The number that a run of decimal digits writes.
pub open spec fn digits_value(digits: Seq<char>) -> nat
    decreases digits.len(),
{
    if digits.len() == 0 {
        0
    } else {
        digits_value(digits.drop_last()) * 10 + digit_value(digits.last())
    }
}

/// Whether `text` opens with a sign.
pub open spec fn has_sign(text: Seq<char>) -> bool {
    text.len() > 0 && (text[0] == '-' || text[0] == '+')
}

/// The number that `text` writes in decimal, if it writes one that `i32` holds:
/// an optional sign, `+` or `-`, then one digit or more, and nothing else.
pub open spec fn decimal_i32(text: Seq<char>) -> Option<i32> {
    let digits = if has_sign(text) {
        text.subrange(1, text.len() as int)
    } else {
        text
    };
    let magnitude = digits_value(digits) as int;
    let value = if has_sign(text) && text[0] == '-' {
        -magnitude
    } else {
        magnitude
    };
    if digits.len() > 0 && all_digits(digits) && i32::MIN <= value <= i32::MAX {
        Some(value as i32)
    } else {
        None
    }
}

/// A longer run of digits writes no smaller a number than its beginning.
pub proof fn lemma_digits_value_grows(digits: Seq<char>, upto: int)
    requires
        0 <= upto <= digits.len(),
    ensures
        digits_value(digits.subrange(0, upto)) <= digits_value(digits),
    decreases digits.len() - upto,
{
    if upto == digits.len() {
        assert(digits.subrange(0, upto) =~= digits);
    } else {
        let longer = digits.subrange(0, upto + 1);
        assert(longer.drop_last() =~= digits.subrange(0, upto));
        lemma_digits_value_grows(digits, upto + 1);
    }
}

/// Reads the digits of `chars` from `first` on; `None` where a character is no
/// digit or the number is above `limit`.
fn parse_digits(chars: &Vec<char>, first: usize, limit: i64) -> (number: Option<i64>)
    requires
        first <= chars.len(),
        0 <= limit <= 0x8000_0000,
    ensures
        ({
            let digits = chars@.subrange(first as int, chars.len() as int);
            number == if all_digits(digits) && digits_value(digits) <= limit {
                Some(digits_value(digits) as i64)
            } else {
                None
            }
        }),
{
    let ghost digits = chars@.subrange(first as int, chars.len() as int);
    let mut magnitude: i64 = 0;
    let mut at: usize = first;
    while at < chars.len()
        invariant
            first <= at <= chars.len(),
            digits == chars@.subrange(first as int, chars.len() as int),
            0 <= limit <= 0x8000_0000,
            0 <= magnitude <= limit,
            magnitude == digits_value(digits.subrange(0, at - first)),
            all_digits(digits.subrange(0, at - first)),
        decreases chars.len() - at,
    {
        let c = chars[at];
        let ghost longer = digits.subrange(0, at - first + 1);
        assert(longer.drop_last() =~= digits.subrange(0, at - first));
        assert(longer.last() == c);
        assert(digits[at - first] == c);
        if c < '0' || c > '9' {
            return None;
        }
        let digit: i64 = (c as u32 - '0' as u32) as i64;
        assert(digit == digit_value(c));
        if magnitude * 10 + digit > limit {
            proof {
                lemma_digits_value_grows(digits, at - first + 1);
            }
            return None;
        }
        magnitude = magnitude * 10 + digit;
        at += 1;
        assert forall|i: int| 0 <= i < longer.len() implies is_digit(#[trigger] longer[i]) by {
            if i < longer.len() - 1 {
                assert(longer[i] == digits.subrange(0, at - first - 1)[i]);
            }
        }
    }
    assert(digits.subrange(0, at - first) =~= digits);
    Some(magnitude)
}

/// Reads a decimal number as `i32::from_str` does: an optional sign, then
/// digits, and `None` for anything else or for a number out of range.
pub fn parse_i32(text: &str) -> (number: Option<i32>)
    ensures
        number == decimal_i32(text@),
{
    let chars = chars_of(text);
    let signed = chars.len() > 0 && (chars[0] == '-' || chars[0] == '+');
    let negative = signed && chars[0] == '-';
    let first: usize = if signed {
        1
    } else {
        0
    };
    assert(chars@.subrange(first as int, chars.len() as int) =~= if has_sign(text@) {
        text@.subrange(1, text@.len() as int)
    } else {
        text@
    });
    if first == chars.len() {
        return None;
    }
    let limit: i64 = if negative {
        0x8000_0000
    } else {
        0x7fff_ffff
    };
    match parse_digits(&chars, first, limit) {
        Some(magnitude) => if negative {
            Some((-magnitude) as i32)
        } else {
            Some(magnitude as i32)
        },
        None => None,
    }
}

} // verus!
