//! The counter screen on its own: one process-wide screen with no session
//! behind it, driven by the same two keys.

use crate::text::same_text;
use crate::tui::counter_after_key;
use vstd::prelude::*;

verus! {

/// The counter screen's state: a bounded counter and the flag that ends its loop.
#[derive(Debug)]
pub struct App {
    counter: u8,
    exit: bool,
}

impl Default for App {
    /// The screen as it starts: the counter at zero, the loop running.
    fn default() -> (app: App)
        ensures
            app.counter() == 0,
            !app.exit(),
    {
        App { counter: 0, exit: false }
    }
}

impl App {
    /// The counter's value.
    pub closed spec fn spec_counter(&self) -> u8 {
        self.counter
    }

    /// Whether the loop is to end.
    pub closed spec fn spec_exit(&self) -> bool {
        self.exit
    }

    /// The counter's value.
    #[verifier::when_used_as_spec(spec_counter)]
    pub fn counter(&self) -> (counter: u8)
        ensures
            counter == self.spec_counter(),
    {
        self.counter
    }

    /// Whether the loop is to end.
    #[verifier::when_used_as_spec(spec_exit)]
    pub fn exit(&self) -> (exit: bool)
        ensures
            exit == self.spec_exit(),
    {
        self.exit
    }

    /// Applies one key to the counter.
    pub fn handle_web_key_event(&mut self, key: &str)
        ensures
            final(self).counter() == counter_after_key(old(self).counter(), key@),
            final(self).exit() == old(self).exit(),
    {
        if same_text(key, "ArrowLeft") {
            self.decrement_counter()
        } else if same_text(key, "ArrowRight") {
            self.increment_counter()
        }
    }

    /// Adds one to the counter; at 255 it stays.
    pub fn increment_counter(&mut self)
        ensures
            final(self).counter() == if old(self).counter() == 255 {
                255int
            } else {
                old(self).counter() + 1
            },
            final(self).exit() == old(self).exit(),
    {
        if self.counter != 255 {
            self.counter += 1
        }
    }

    /// Takes one off the counter; at zero it stays.
    pub fn decrement_counter(&mut self)
        ensures
            final(self).counter() == if old(self).counter() == 0 {
                0int
            } else {
                old(self).counter() - 1
            },
            final(self).exit() == old(self).exit(),
    {
        if self.counter != 0 {
            self.counter -= 1
        }
    }
}

} // verus!
