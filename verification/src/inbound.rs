//! Inbound client messages: JSON text that either negotiates a viewport or
//! carries an input event.

use vstd::prelude::*;

verus! {

/// What `serde_json` reads as an unsigned number under a member of a JSON text.
///
/// `None` where `text` is not valid JSON, is not an object, or has no member
/// `name`. Otherwise `Some(n)`, where `n` is the member's value as `u64` if the
/// member is a number that `u64` can hold, and `None` if it is anything else.
pub uninterp spec fn json_member_u64(text: Seq<char>, name: Seq<char>) -> Option<Option<u64>>;

/// What `serde_json` reads as a string under a member of a JSON text.
///
/// `None` where `text` is not valid JSON, is not an object, or has no member
/// `name`. Otherwise `Some(s)`, where `s` is the member's value if the member is
/// a string, and `None` if it is anything else.
pub uninterp spec fn json_member_str(text: Seq<char>, name: Seq<char>) -> Option<
    Option<Seq<char>>,
>;

/// Parses `text` with `serde_json::from_str`, looks `name` up with `Value::get`
/// and reads the member with `Value::as_u64`. The result depends on the two
/// arguments alone; the contract gives it its name and claims nothing more.
#[verifier::external_body]
fn member_as_u64(text: &str, name: &str) -> (found: Option<Option<u64>>)
    ensures
        found == json_member_u64(text@, name@),
{
    let parsed = serde_json::from_str::<serde_json::Value>(text).ok();
    parsed.and_then(|value| value.get(name).map(|member| member.as_u64()))
}

/// Parses `text` with `serde_json::from_str`, looks `name` up with `Value::get`
/// and reads the member with `Value::as_str`. The result depends on the two
/// arguments alone; the contract gives it its name and claims nothing more.
#[verifier::external_body]
fn member_as_str(text: &str, name: &str) -> (found: Option<Option<String>>)
    ensures
        found.deep_view() == json_member_str(text@, name@),
{
    let parsed = serde_json::from_str::<serde_json::Value>(text).ok();
    parsed.and_then(|value| value.get(name).map(|member| member.as_str().map(String::from)))
}

/// A client message, as the connection handler tells them apart.
#[derive(Debug)]
pub enum Inbound {
    /// A viewport negotiation.
    Dimensions { width: u16, height: u16 },
    /// An input event.
    Key { key: String },
    /// Anything else; it is ignored.
    Malformed,
}

/// An [`Inbound`] with its text as a sequence of characters.
pub ghost enum InboundView {
    Dimensions { width: u16, height: u16 },
    Key { key: Seq<char> },
    Malformed,
}

impl View for Inbound {
    type V = InboundView;

    open spec fn view(&self) -> InboundView {
        match self {
            Inbound::Dimensions { width, height } => InboundView::Dimensions {
                width: *width,
                height: *height,
            },
            Inbound::Key { key } => InboundView::Key { key: key@ },
            Inbound::Malformed => InboundView::Malformed,
        }
    }
}

/// One side of a viewport: the number read, cut down to its low sixteen bits;
/// zero where the member was not an unsigned number.
pub open spec fn viewport_side(member: Option<u64>) -> u16 {
    match member {
        Some(n) => (n % 65536) as u16,
        None => 0,
    }
}

/// The message that three members make.
///
/// A text with both a `width` and a `height` negotiates a viewport, whatever
/// else it holds. Without them, a `key` that is a string is an input event.
/// Everything else is malformed.
pub open spec fn classification(
    width: Option<Option<u64>>,
    height: Option<Option<u64>>,
    key: Option<Option<Seq<char>>>,
) -> InboundView {
    if width is Some && height is Some {
        InboundView::Dimensions {
            width: viewport_side(width->0),
            height: viewport_side(height->0),
        }
    } else if key is Some && key->0 is Some {
        InboundView::Key { key: key->0->0 }
    } else {
        InboundView::Malformed
    }
}

/// The message that a text is, by what `serde_json` reads under its members
/// `width`, `height` and `key`.
pub open spec fn message_of(text: Seq<char>) -> InboundView {
    classification(
        json_member_u64(text, "width"@),
        json_member_u64(text, "height"@),
        json_member_str(text, "key"@),
    )
}

fn side(member: Option<u64>) -> (cells: u16)
    ensures
        cells == viewport_side(member),
{
    match member {
        Some(n) => (n % 65536) as u16,
        None => 0,
    }
}

/// Tells a message apart from what was read under its three members.
pub fn classify_members(
    width: Option<Option<u64>>,
    height: Option<Option<u64>>,
    key: Option<Option<String>>,
) -> (message: Inbound)
    ensures
        message@ == classification(width, height, key.deep_view()),
{
    match (width, height) {
        (Some(w), Some(h)) => Inbound::Dimensions { width: side(w), height: side(h) },
        _ => match key {
            Some(Some(text)) => Inbound::Key { key: text },
            _ => Inbound::Malformed,
        },
    }
}

/// Tells a client message apart. No text is an error: what is neither a
/// negotiation nor an input event is [`Inbound::Malformed`].
pub fn classify(text: &str) -> (message: Inbound)
    ensures
        message@ == message_of(text@),
{
    let width = member_as_u64(text, "width");
    let height = member_as_u64(text, "height");
    let key = member_as_str(text, "key");
    classify_members(width, height, key)
}

} // verus!
