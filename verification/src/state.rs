//! The cache that the poller writes and the exporter reads: the latest
//! reading and two error counters.

use vstd::prelude::*;
use crate::measurement::Measurement;
use crate::reader::Effect;

verus! {

/// What a `SharedState` holds, as mathematical values.
pub struct StateView {
    /// The reading of the last successful poll, if there was one.
    pub latest: Option<Measurement>,
    /// Read and state-access errors that the agent survived.
    pub error_count: nat,
    /// Failures that end the agent.
    pub fatal_error_count: nat,
}

/// The state right after start: no reading, no errors.
pub open spec fn fresh() -> StateView {
    StateView { latest: None, error_count: 0, fatal_error_count: 0 }
}

/// A counter one step further; it stays at the largest value once there.
pub open spec fn counted(count: nat) -> nat {
    if count < usize::MAX {
        count + 1
    } else {
        count
    }
}

/// The state after a successful poll gave `m`: the reading is replaced as a
/// whole, the counters stay.
pub open spec fn stored(s: StateView, m: Measurement) -> StateView {
    StateView { latest: Some(m), ..s }
}

/// The state after one more survived error.
pub open spec fn with_error(s: StateView) -> StateView {
    StateView { error_count: counted(s.error_count), ..s }
}

/// The state after one more fatal failure.
pub open spec fn with_fatal_error(s: StateView) -> StateView {
    StateView { fatal_error_count: counted(s.fatal_error_count), ..s }
}

/// The state after `effect`.
pub open spec fn applied(s: StateView, effect: Effect) -> StateView {
    match effect {
        Effect::Nothing => s,
        Effect::Replace(m) => stored(s, m),
        Effect::CountError => with_error(s),
    }
}

/// Latest reading and error counters. The fields are private: a reading only
/// changes through `store`, a counter only through `count_error` and
/// `count_fatal_error`, and nothing ever lowers a counter.
#[derive(Clone, Copy, Debug)]
pub struct SharedState {
    latest: Option<Measurement>,
    error_count: usize,
    fatal_error_count: usize,
}

impl View for SharedState {
    type V = StateView;

    closed spec fn view(&self) -> StateView {
        StateView {
            latest: self.latest,
            error_count: self.error_count as nat,
            fatal_error_count: self.fatal_error_count as nat,
        }
    }
}

impl SharedState {
    /// The state at process start.
    pub fn new() -> (s: SharedState)
        ensures
            s@ == fresh(),
    {
        SharedState { latest: None, error_count: 0, fatal_error_count: 0 }
    }

    /// A copy of the latest reading; `None` until the first successful poll.
    pub fn latest(&self) -> (r: Option<Measurement>)
        ensures
            r == self@.latest,
    {
        self.latest
    }

    /// The number of survived errors so far.
    pub fn error_count(&self) -> (n: usize)
        ensures
            n == self@.error_count,
    {
        self.error_count
    }

    /// The number of fatal failures so far.
    pub fn fatal_error_count(&self) -> (n: usize)
        ensures
            n == self@.fatal_error_count,
    {
        self.fatal_error_count
    }

    /// Replaces the latest reading by `m`, all ten values at once.
    pub fn store(&mut self, m: Measurement)
        ensures
            final(self)@ == stored(old(self)@, m),
    {
        self.latest = Some(m);
    }

    /// Counts one survived error.
    pub fn count_error(&mut self)
        ensures
            final(self)@ == with_error(old(self)@),
    {
        if self.error_count < usize::MAX {
            self.error_count = self.error_count + 1;
        }
    }

    /// Lets the state undergo what a step of the reader asks for.
    pub fn apply(&mut self, effect: Effect)
        ensures
            final(self)@ == applied(old(self)@, effect),
    {
        match effect {
            Effect::Nothing => {},
            Effect::Replace(m) => self.store(m),
            Effect::CountError => self.count_error(),
        }
    }

    /// Counts one fatal failure.
    pub fn count_fatal_error(&mut self)
        ensures
            final(self)@ == with_fatal_error(old(self)@),
    {
        if self.fatal_error_count < usize::MAX {
            self.fatal_error_count = self.fatal_error_count + 1;
        }
    }
}

/// Whatever is stored or counted, no counter goes down, and a counter below
/// the largest value goes up by exactly one when it is counted.
pub proof fn lemma_counters_only_grow(s: StateView, m: Measurement)
    ensures
        stored(s, m).error_count == s.error_count,
        stored(s, m).fatal_error_count == s.fatal_error_count,
        with_error(s).error_count >= s.error_count,
        with_error(s).fatal_error_count == s.fatal_error_count,
        with_error(s).latest == s.latest,
        with_fatal_error(s).fatal_error_count >= s.fatal_error_count,
        with_fatal_error(s).error_count == s.error_count,
        with_fatal_error(s).latest == s.latest,
        s.error_count < usize::MAX ==> with_error(s).error_count == s.error_count + 1,
        s.fatal_error_count < usize::MAX ==> with_fatal_error(s).fatal_error_count
            == s.fatal_error_count + 1,
{
}

} // verus!
