//! The render worker's state: one session's counter screen, its close flag, and
//! the decisions of its loop.
//!
//! The worker draws, takes the key that its session left for it, looks for the
//! close signal, sleeps, and starts over until the signal has been seen. What
//! it draws with, and where key and signal come from, is the caller's business.

use crate::text::same_text;
use vstd::prelude::*;

verus! {

/// What the worker's loop does next.
#[derive(Clone, Copy, Debug, PartialEq, Eq, Structural)]
pub enum WorkerAction {
    /// Draw the screen and publish the frame.
    Render,
    /// Leave the loop and touch nothing of the session any more.
    Stop,
}

/// The counter after a key: `ArrowLeft` takes one off unless it is zero,
/// `ArrowRight` adds one unless it is 255, and any other key leaves it.
pub open spec fn counter_after_key(counter: u8, key: Seq<char>) -> u8 {
    if key == "ArrowLeft"@ {
        if counter == 0 {
            0u8
        } else {
            (counter - 1) as u8
        }
    } else if key == "ArrowRight"@ {
        if counter == 255 {
            255u8
        } else {
            (counter + 1) as u8
        }
    } else {
        counter
    }
}

/// The counter after a run of keys, taken first to last.
pub open spec fn counter_after_keys(counter: u8, keys: Seq<Seq<char>>) -> u8
    decreases keys.len(),
{
    if keys.len() == 0 {
        counter
    } else {
        counter_after_key(counter_after_keys(counter, keys.drop_last()), keys.last())
    }
}

/// What the loop does next, by whether the close signal has been seen.
pub open spec fn action_when(exit: bool) -> WorkerAction {
    if exit {
        WorkerAction::Stop
    } else {
        WorkerAction::Render
    }
}

/// Whether the close signal has been seen after a run of passes, each of which
/// found the signal up or down.
pub open spec fn exit_after(exit: bool, signals: Seq<bool>) -> bool
    decreases signals.len(),
{
    if signals.len() == 0 {
        exit
    } else {
        exit_after(exit, signals.drop_last()) || signals.last()
    }
}

/// A worker stops after a run of passes exactly if it had seen the close
/// signal before or one of the passes found it up: a raised signal is noticed
/// in the pass that finds it and never forgotten, and nothing else ends the
/// loop.
pub proof fn law_close_signal_stops_worker(exit: bool, signals: Seq<bool>)
    ensures
        exit_after(exit, signals) == (exit || exists|i: int|
            0 <= i < signals.len() && signals[i]),
        action_when(exit_after(exit, signals)) == WorkerAction::Stop <==> (exit || exists|i: int|
            0 <= i < signals.len() && signals[i]),
    decreases signals.len(),
{
    if signals.len() > 0 {
        law_close_signal_stops_worker(exit, signals.drop_last());
        let earlier = signals.drop_last();
        if exists|i: int| 0 <= i < earlier.len() && earlier[i] {
            let i = choose|i: int| 0 <= i < earlier.len() && earlier[i];
            assert(signals[i]);
        }
        if exists|i: int| 0 <= i < signals.len() && signals[i] {
            let i = choose|i: int| 0 <= i < signals.len() && signals[i];
            if i < signals.len() - 1 {
                assert(earlier[i]);
            }
        }
    }
}

/// How long the worker sleeps between two passes, in milliseconds.
pub const RENDER_INTERVAL_MS: u64 = 100;

/// `ArrowRight` adds exactly one to a counter below 255, and `ArrowLeft` takes
/// exactly one off a counter above zero.
pub proof fn law_arrow_keys_move_by_one(counter: u8)
    ensures
        counter < 255 ==> counter_after_key(counter, "ArrowRight"@) == counter + 1,
        counter > 0 ==> counter_after_key(counter, "ArrowLeft"@) == counter - 1,
{
    reveal_strlit("ArrowLeft");
    reveal_strlit("ArrowRight");
    assert("ArrowLeft"@.len() != "ArrowRight"@.len());
}

/// One session's screen state.
#[derive(Debug, Default)]
pub struct App {
    counter: u8,
    exit: bool,
    uuid: String,
}

impl App {
    /// The counter's value.
    pub closed spec fn spec_counter(&self) -> u8 {
        self.counter
    }

    /// Whether the close signal has been seen.
    pub closed spec fn spec_exit(&self) -> bool {
        self.exit
    }

    /// The text form of the session's identifier.
    pub closed spec fn spec_uuid(&self) -> Seq<char> {
        self.uuid@
    }

    /// The state of a worker that has just been started: the counter at zero,
    /// no close signal seen, so that its first pass draws.
    pub fn init(uuid: String) -> (app: App)
        ensures
            app.spec_counter() == 0,
            !app.spec_exit(),
            app.spec_uuid() == uuid@,
    {
        App { counter: 0, exit: false, uuid }
    }

    /// The counter's value.
    #[verifier::when_used_as_spec(spec_counter)]
    pub fn counter(&self) -> (counter: u8)
        ensures
            counter == self.spec_counter(),
    {
        self.counter
    }

    /// Whether the close signal has been seen.
    #[verifier::when_used_as_spec(spec_exit)]
    pub fn exit(&self) -> (exit: bool)
        ensures
            exit == self.spec_exit(),
    {
        self.exit
    }

    /// The text form of the session's identifier.
    pub fn uuid(&self) -> (uuid: &str)
        ensures
            uuid@ == self.spec_uuid(),
    {
        self.uuid.as_str()
    }

    /// What the loop does next: it draws until the close signal has been seen.
    pub fn next_action(&self) -> (action: WorkerAction)
        ensures
            action == action_when(self.exit()),
    {
        if self.exit {
            WorkerAction::Stop
        } else {
            WorkerAction::Render
        }
    }

    /// Records whether the close signal is up. Once seen, it stays seen.
    pub fn check_exit(&mut self, close_signalled: bool)
        ensures
            final(self).exit() == (old(self).exit() || close_signalled),
            final(self).counter() == old(self).counter(),
            final(self).spec_uuid() == old(self).spec_uuid(),
    {
        if close_signalled {
            self.exit = true;
        }
    }

    /// Applies the key that the session left for the worker.
    pub fn handle_web_key_event(&mut self, key: &str)
        ensures
            final(self).counter() == counter_after_key(old(self).counter(), key@),
            final(self).exit() == old(self).exit(),
            final(self).spec_uuid() == old(self).spec_uuid(),
    {
        if same_text(key, "ArrowLeft") {
            self.decrement_counter()
        } else if same_text(key, "ArrowRight") {
            self.increment_counter()
        }
    }

    /// Adds one to the counter; at 255 it stays.
    pub fn increment_counter(&mut self)
        ensures
            final(self).counter() == if old(self).counter() == 255 {
                255int
            } else {
                old(self).counter() + 1
            },
            final(self).exit() == old(self).exit(),
            final(self).spec_uuid() == old(self).spec_uuid(),
    {
        if self.counter != 255 {
            self.counter += 1
        }
    }

    /// Takes one off the counter; at zero it stays.
    pub fn decrement_counter(&mut self)
        ensures
            final(self).counter() == if old(self).counter() == 0 {
                0int
            } else {
                old(self).counter() - 1
            },
            final(self).exit() == old(self).exit(),
            final(self).spec_uuid() == old(self).spec_uuid(),
    {
        if self.counter != 0 {
            self.counter -= 1
        }
    }

    /// The rest of one pass, after the frame is out: takes the pending key, if
    /// there is one, then looks at the close signal, and says what comes next.
    pub fn advance(&mut self, pending_key: Option<&str>, close_signalled: bool) -> (action:
        WorkerAction)
        ensures
            final(self).counter() == match pending_key {
                Some(key) => counter_after_key(old(self).counter(), key@),
                None => old(self).counter(),
            },
            final(self).exit() == (old(self).exit() || close_signalled),
            final(self).spec_uuid() == old(self).spec_uuid(),
            action == action_when(final(self).exit()),
    {
        match pending_key {
            Some(key) => self.handle_web_key_event(key),
            None => {},
        }
        self.check_exit(close_signalled);
        self.next_action()
    }

    /// The rest of one pass over a whole input buffer: takes every pending
    /// key, each once and in the order of arrival, then looks at the close
    /// signal, and says what comes next.
    pub fn advance_all(&mut self, pending: &Vec<String>, close_signalled: bool) -> (action:
        WorkerAction)
        ensures
            final(self).counter() == counter_after_keys(old(self).counter(), pending.deep_view()),
            final(self).exit() == (old(self).exit() || close_signalled),
            final(self).spec_uuid() == old(self).spec_uuid(),
            action == action_when(final(self).exit()),
    {
        let ghost keys = pending.deep_view();
        let mut i: usize = 0;
        assert(keys.subrange(0, 0) =~= Seq::<Seq<char>>::empty());
        while i < pending.len()
            invariant
                i <= pending.len(),
                keys == pending.deep_view(),
                self.counter() == counter_after_keys(old(self).counter(), keys.subrange(0, i as int)),
                self.exit() == old(self).exit(),
                self.spec_uuid() == old(self).spec_uuid(),
            decreases pending.len() - i,
        {
            self.handle_web_key_event(pending[i].as_str());
            proof {
                let longer = keys.subrange(0, i + 1);
                assert(longer.drop_last() =~= keys.subrange(0, i as int));
                assert(longer.last() == pending@[i as int]@);
            }
            i += 1;
        }
        assert(keys.subrange(0, i as int) =~= keys);
        self.check_exit(close_signalled);
        self.next_action()
    }
}

} // verus!
