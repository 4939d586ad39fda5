//! What holds of the reader, the cache and the exporter taken together.

use vstd::prelude::*;
use crate::exporter::{counter, counter_samples, exposition, reading_samples, Metric};
use crate::lifecycle::{concluded, exit_status};
use crate::measurement::{lemma_series_is_kept, measurement_of, series_of, SERIES_LEN};
use crate::reader::{
    awaited, next_step, phase_of, Command, Effect, Event, Phase, ReadOutcome, ReaderExit,
    ReaderState,
};
use crate::state::{applied, fresh, StateView};

verus! {

/// The state of the reader after it has handled `events` one after the
/// other, starting in `state`.
pub open spec fn state_after(state: ReaderState, events: Seq<Event>) -> ReaderState
    decreases events.len(),
{
    if events.len() == 0 {
        state
    } else {
        next_step(state_after(state, events.drop_last()), events.last()).state
    }
}

/// The cache after the reader has handled `events` one after the other,
/// starting in `state`, the cache undergoing the effect of each step.
pub open spec fn cache_after(state: ReaderState, shared: StateView, events: Seq<Event>) -> StateView
    decreases events.len(),
{
    if events.len() == 0 {
        shared
    } else {
        let before = events.drop_last();
        applied(
            cache_after(state, shared, before),
            next_step(state_after(state, before), events.last()).effect,
        )
    }
}

/// Whether `event`, arriving in `state`, is an error that the reader
/// survives: a read that failed otherwise than by having no data yet, or a
/// failed acquisition of write access.
pub open spec fn is_survived_error(state: ReaderState, event: Event) -> bool {
    (state == ReaderState::Polling && event == Event::Read(ReadOutcome::Failed)) || (state is Committing
        && event == Event::Failed)
}

/// Whether `event`, arriving in `state`, completes a successful poll: write
/// access was acquired for a reading.
pub open spec fn is_commit(state: ReaderState, event: Event) -> bool {
    state is Committing && event == Event::Completed
}

/// How many survived errors there are among `events`, handled from `state`.
pub open spec fn survived_errors(state: ReaderState, events: Seq<Event>) -> nat
    decreases events.len(),
{
    if events.len() == 0 {
        0
    } else {
        let before = events.drop_last();
        survived_errors(state, before) + if is_survived_error(
            state_after(state, before),
            events.last(),
        ) {
            1nat
        } else {
            0nat
        }
    }
}

/// How many successful polls are completed among `events`, handled from
/// `state`.
pub open spec fn commits(state: ReaderState, events: Seq<Event>) -> nat
    decreases events.len(),
{
    if events.len() == 0 {
        0
    } else {
        let before = events.drop_last();
        commits(state, before) + if is_commit(state_after(state, before), events.last()) {
            1nat
        } else {
            0nat
        }
    }
}

/// Whether the reader has not got as far as measuring: it has not started, is
/// starting up, or has given up.
pub open spec fn before_measuring(state: ReaderState) -> bool {
    phase_of(state) == Phase::Uninitialized || phase_of(state) == Phase::Initializing
        || phase_of(state) == Phase::FatalAbort
}

/// Whether the reader has observed the request to terminate.
pub open spec fn winding_down(state: ReaderState) -> bool {
    phase_of(state) == Phase::Stopping || phase_of(state) == Phase::Terminated
}

/// A successful poll is served as it was read. When a read gives a series and
/// write access is then acquired, the cache holds the reading of exactly that
/// series, each value under its own name, the counters are as before, and the
/// exposition starts with the ten series of that reading.
pub proof fn lemma_successful_poll_is_served(shared: StateView, series: [u32; 10])
    ensures
        ({
            let read = next_step(ReaderState::Polling, Event::Read(ReadOutcome::Data(series)));
            let commit = next_step(read.state, Event::Completed);
            let after = applied(applied(shared, read.effect), commit.effect);
            &&& read.command == Command::AcquireWrite
            &&& read.effect == Effect::Nothing
            &&& commit.state == ReaderState::Observing
            &&& after.latest == Some(measurement_of(series@))
            &&& series_of(after.latest.unwrap()) == series@
            &&& after.error_count == shared.error_count
            &&& after.fatal_error_count == shared.fatal_error_count
            &&& forall|e: usize, f: usize|
                #![trigger exposition(after.latest, e, f)]
                exposition(after.latest, e, f) == reading_samples(measurement_of(series@))
                    + counter_samples(e, f)
        }),
{
    assert(series@.len() == SERIES_LEN);
    lemma_series_is_kept(series@);
}

/// Before the first successful poll there is no reading, and all that is
/// exported is the two counters, both zero in a state in which nothing has
/// happened yet.
pub proof fn lemma_no_reading_exports_counters_only(error_count: usize, fatal_error_count: usize)
    ensures
        fresh().latest.is_none(),
        fresh().error_count == 0,
        fresh().fatal_error_count == 0,
        exposition(None, error_count, fatal_error_count) == seq![
            counter(Metric::ErrorCount, error_count),
            counter(Metric::FatalErrorCount, fatal_error_count),
        ],
        exposition(None, error_count, fatal_error_count).len() == 2,
{
}

/// An error is counted at exactly two kinds of steps: a read that failed
/// otherwise than by having no data yet, and a failed acquisition of write
/// access. A read without data counts nothing. Counting adds one to the error
/// count, unless it is at the largest value, and touches nothing else.
pub proof fn lemma_errors_are_counted_once(shared: StateView, state: ReaderState, event: Event)
    ensures
        next_step(state, event).effect == Effect::CountError <==> is_survived_error(state, event),
        next_step(ReaderState::Polling, Event::Read(ReadOutcome::Empty)).effect
            == Effect::Nothing,
        shared.error_count < usize::MAX ==> applied(shared, Effect::CountError).error_count
            == shared.error_count + 1,
        applied(shared, Effect::CountError).error_count >= shared.error_count,
        applied(shared, Effect::CountError).fatal_error_count == shared.fatal_error_count,
        applied(shared, Effect::CountError).latest == shared.latest,
        applied(shared, next_step(state, event).effect).error_count >= shared.error_count,
        applied(shared, next_step(state, event).effect).fatal_error_count
            == shared.fatal_error_count,
{
}

/// A startup step that fails ends the reader for good: it gives up without
/// touching the cache, the process counts one fatal failure and leaves with a
/// status other than zero.
pub proof fn lemma_failed_startup_is_fatal(shared: StateView, state: ReaderState)
    requires
        state == ReaderState::Opening || state == ReaderState::Resetting || state
            == ReaderState::Starting,
    ensures
        ({
            let step = next_step(state, Event::Failed);
            &&& step.state == ReaderState::FatalAbort
            &&& step.effect == Effect::Nothing
            &&& step.command == Command::Exit(ReaderExit::Failed)
        }),
        exit_status(ReaderExit::Failed) != 0,
        concluded(shared, ReaderExit::Failed).latest == shared.latest,
        concluded(shared, ReaderExit::Failed).error_count == shared.error_count,
        shared.fatal_error_count < usize::MAX ==> concluded(
            shared,
            ReaderExit::Failed,
        ).fatal_error_count == shared.fatal_error_count + 1,
{
}

/// Over any course of events the error count is what it was plus one for
/// each survived error, up to the largest value, where it stays. Nothing else
/// moves it, a read without data least of all, and the reader never touches
/// the count of fatal failures.
pub proof fn lemma_every_survived_error_adds_one(
    shared: StateView,
    state: ReaderState,
    events: Seq<Event>,
)
    requires
        shared.error_count <= usize::MAX,
    ensures
        cache_after(state, shared, events).error_count == if shared.error_count + survived_errors(
            state,
            events,
        ) <= usize::MAX {
            shared.error_count + survived_errors(state, events)
        } else {
            usize::MAX as nat
        },
        cache_after(state, shared, events).fatal_error_count == shared.fatal_error_count,
    decreases events.len(),
{
    if events.len() > 0 {
        lemma_every_survived_error_adds_one(shared, state, events.drop_last());
    }
}

/// As long as no successful poll is completed, whatever else happens, the
/// reading in the cache is the one that was there at the start: none, in a
/// cache that started empty.
pub proof fn lemma_no_reading_without_a_commit(
    shared: StateView,
    state: ReaderState,
    events: Seq<Event>,
)
    requires
        commits(state, events) == 0,
    ensures
        cache_after(state, shared, events).latest == shared.latest,
    decreases events.len(),
{
    if events.len() > 0 {
        lemma_no_reading_without_a_commit(shared, state, events.drop_last());
    }
}

/// As long as the reader has not got as far as measuring, whatever happened,
/// the cache is as it was at the start: a reader whose startup failed has
/// never stored a reading.
pub proof fn lemma_nothing_stored_before_measuring(shared: StateView, events: Seq<Event>)
    ensures
        before_measuring(state_after(ReaderState::Uninitialized, events)) ==> cache_after(
            ReaderState::Uninitialized,
            shared,
            events,
        ) == shared,
    decreases events.len(),
{
    if events.len() > 0 {
        lemma_nothing_stored_before_measuring(shared, events.drop_last());
    }
}

/// Once the request to terminate is observed, the reader only stops the
/// device and ends: whatever happens from then on, the cache is never written
/// again and the reader stays on its way out, which ends with a clean exit
/// and the status zero.
pub proof fn lemma_nothing_written_after_termination(
    shared: StateView,
    state: ReaderState,
    events: Seq<Event>,
    elapsed_nanos: u128,
)
    requires
        winding_down(state),
    ensures
        next_step(
            ReaderState::Observing,
            Event::Observed { terminate: true, elapsed_nanos },
        ).state == ReaderState::Stopping,
        next_step(
            ReaderState::Observing,
            Event::Observed { terminate: true, elapsed_nanos },
        ).effect == Effect::Nothing,
        cache_after(state, shared, events) == shared,
        winding_down(state_after(state, events)),
        next_step(ReaderState::Stopping, Event::Completed).state == ReaderState::Terminated,
        next_step(ReaderState::Stopping, Event::Failed).state == ReaderState::Terminated,
        awaited(ReaderState::Terminated) == Command::Exit(ReaderExit::Clean),
        exit_status(ReaderExit::Clean) == 0,
    decreases events.len(),
{
    if events.len() > 0 {
        lemma_nothing_written_after_termination(shared, state, events.drop_last(), elapsed_nanos);
    }
}

} // verus!
