//! Where a session's worker, poller and handler meet: three named slots per
//! session, none of which another session's slots can coincide with.

use crate::text::{split, split_on};
use vstd::prelude::*;
use vstd::string::StringExecFns;

verus! {

broadcast use vstd::string::group_string_axioms;

/// One of the three slots that a session has.
#[derive(Clone, Copy, Debug, PartialEq, Eq, Structural)]
pub enum Slot {
    /// The latest frame that the worker has published.
    Output,
    /// The keys that the session's client pressed and the worker has yet to take.
    Key,
    /// The marker that tells the worker to stop.
    Remove,
}

/// The ending that tells a slot's kind.
pub open spec fn suffix(slot: Slot) -> Seq<char> {
    match slot {
        Slot::Output => ".output"@,
        Slot::Key => ".kl"@,
        Slot::Remove => ".remove"@,
    }
}

/// The name of a session's slot: `temp/`, the identifier's text, and the
/// ending of the slot's kind.
pub open spec fn location_of(slot: Slot, uuid: Seq<char>) -> Seq<char> {
    "temp/"@ + uuid + suffix(slot)
}

/// The name of the slot `slot` of the session whose identifier reads `uuid`.
pub fn location(slot: Slot, uuid: &str) -> (name: String)
    ensures
        name@ == location_of(slot, uuid@),
{
    let mut name = String::from_str("temp/");
    name.append(uuid);
    match slot {
        Slot::Output => name.append(".output"),
        Slot::Key => name.append(".kl"),
        Slot::Remove => name.append(".remove"),
    }
    name
}

/// The pieces of a list that are not empty, in their order.
pub open spec fn without_empty(pieces: Seq<Seq<char>>) -> Seq<Seq<char>>
    decreases pieces.len(),
{
    if pieces.len() == 0 {
        pieces
    } else if pieces.last().len() == 0 {
        without_empty(pieces.drop_last())
    } else {
        without_empty(pieces.drop_last()).push(pieces.last())
    }
}

/// The keys that the contents of a key slot hold, first queued first: the
/// lines of the contents, without the empty ones.
pub open spec fn keys_in(contents: Seq<char>) -> Seq<Seq<char>> {
    without_empty(split_on(contents, "\n"@))
}

/// What is appended to a key slot to queue `key`: the key and a line break.
pub fn key_record(key: &str) -> (record: String)
    ensures
        record@ == key@ + "\n"@,
{
    let mut record = String::from_str(key);
    record.append("\n");
    record
}

/// The keys that the contents of a key slot hold, first queued first.
pub fn pending_keys(contents: &str) -> (keys: Vec<String>)
    ensures
        keys.deep_view() == keys_in(contents@),
{
    let pieces = split(contents, "\n");
    let mut keys: Vec<String> = Vec::new();
    let mut i: usize = 0;
    assert(pieces.deep_view().subrange(0, 0) =~= Seq::<Seq<char>>::empty());
    while i < pieces.len()
        invariant
            i <= pieces.len(),
            pieces.deep_view() == split_on(contents@, "\n"@),
            keys.deep_view() == without_empty(pieces.deep_view().subrange(0, i as int)),
        decreases pieces.len() - i,
    {
        let piece = pieces[i];
        let ghost before = keys.deep_view();
        let ghost longer = pieces.deep_view().subrange(0, i + 1);
        assert(longer.drop_last() =~= pieces.deep_view().subrange(0, i as int));
        assert(longer.last() == piece@);
        if !piece.is_empty() {
            let key = String::from_str(piece);
            keys.push(key);
            assert(keys.deep_view() =~= before.push(piece@));
        }
        i += 1;
    }
    assert(pieces.deep_view().subrange(0, i as int) =~= pieces.deep_view());
    keys
}

/// Two slots have the same name only if they are the same slot of the same
/// session: no session can reach into another's slots, nor one kind of slot
/// into another.
pub proof fn law_slots_are_apart(slot: Slot, uuid: Seq<char>, other_slot: Slot, other_uuid: Seq<char>)
    requires
        location_of(slot, uuid) == location_of(other_slot, other_uuid),
    ensures
        slot == other_slot,
        uuid == other_uuid,
{
    reveal_strlit("temp/");
    reveal_strlit(".output");
    reveal_strlit(".kl");
    reveal_strlit(".remove");
    let name = location_of(slot, uuid);
    let other_name = location_of(other_slot, other_uuid);
    assert(name.last() == suffix(slot).last());
    assert(other_name.last() == suffix(other_slot).last());
    assert(slot == other_slot);
    assert(uuid.len() == other_uuid.len());
    assert forall|i: int| 0 <= i < uuid.len() implies uuid[i] == other_uuid[i] by {
        assert(name[5 + i] == uuid[i]);
        assert(other_name[5 + i] == other_uuid[i]);
    }
    assert(uuid =~= other_uuid);
}

} // verus!
