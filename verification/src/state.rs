//! The one mutable value in the system: the most recently derived mood,
//! shared between the poller and the animator.
//!
//! The store itself is a plain single-value cell. The callers own it
//! behind whatever mutual exclusion they need; each access here is one
//! whole copy-in or copy-out, so a reader can never observe a partially
//! written value.

use vstd::prelude::*;
use crate::mood::Mood;
use crate::parse::spec_statuses;

verus! {

/// Holds the most recently computed mood. Starts at `Unknown` and is
/// never empty: every read returns a valid mood.
pub struct SharedMoodState {
    mood: Mood,
}

/// The state a write leaves behind: the new mood, nothing else.
pub closed spec fn spec_write(s: SharedMoodState, m: Mood) -> SharedMoodState {
    SharedMoodState { mood: m }
}

impl SharedMoodState {
    /// The mood the store currently holds.
    pub closed spec fn mood(self) -> Mood {
        self.mood
    }

    /// A fresh store, holding `Unknown` until the first poll completes.
    pub fn new() -> (s: SharedMoodState)
        ensures
            s.mood() == Mood::Unknown,
    {
        SharedMoodState { mood: Mood::Unknown }
    }

    /// Returns a copy of the current mood, leaving the store unchanged.
    pub fn get_state(&self) -> (m: Mood)
        ensures
            m == self.mood(),
    {
        self.mood
    }

    /// Replaces the stored mood unconditionally: last write wins.
    pub fn set_state(&mut self, m: Mood)
        ensures
            *final(self) == spec_write(*old(self), m),
            final(self).mood() == m,
    {
        self.mood = m;
    }
}

/// A read immediately after a write returns exactly the mood written,
/// whatever the store held before.
pub proof fn lemma_read_after_write(s: SharedMoodState, m: Mood)
    ensures
        spec_write(s, m).mood() == m,
{
}

/// One whole polling cycle after the fetch: parse the body, derive the
/// mood, and publish it. `body` is `None` when the fetch itself failed
/// (transport error or non-success status). Any failure — transport or
/// parse — publishes `Unknown`; it never leaves the old mood standing.
pub fn poll_cycle(state: &mut SharedMoodState, body: Option<&String>)
    ensures
        final(state).mood() == (match body {
            None => Mood::Unknown,
            Some(b) => crate::mood::mood_of_body(b@),
        }),
        (match body {
            None => final(state).mood() == Mood::Unknown,
            Some(b) => spec_statuses(b@) is None ==> final(state).mood() == Mood::Unknown,
        }),
{
    let m = Mood::load(body);
    state.set_state(m);
}

} // verus!
