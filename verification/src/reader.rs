//! The sensor reader as a state machine: given what the reader was waiting
//! for and what happened, it says what the cache must undergo and what to do
//! next. The caller owns the serial line, the clock and the lock; it performs
//! each command and reports the outcome as the next event.

use vstd::prelude::*;
use crate::measurement::{measurement_of, Measurement};

verus! {

/// Least time between the starts of two read attempts, in nanoseconds. The
/// sensor has new values about every second; twice that keeps "no data yet"
/// rare.
pub const READ_INTERVAL_NANOS: u64 = 2_000_000_000;

/// Time the sensor needs after a reset before it takes commands, in
/// nanoseconds.
pub const STARTUP_NANOS: u64 = 8_000_000_000;

/// What one read attempt gave.
#[derive(Clone, Copy, Debug, PartialEq, Eq)]
pub enum ReadOutcome {
    /// A ten-value series, each value as its IEEE-754 bit pattern.
    Data([u32; 10]),
    /// The sensor has no new data yet.
    Empty,
    /// Any other failure of the read.
    Failed,
}

/// The error type of the sensor driver, `sps30::Error`, over the error types
/// of the serial line's write and read sides.
#[verifier::external_type_specification]
#[verifier::external_body]
#[verifier::reject_recursive_types(E)]
#[verifier::reject_recursive_types(F)]
pub struct ExSensorError<E, F>(sps30::Error<E, F>);

/// The ways in which a read of the sensor fails, one for each variant of the
/// driver's error type.
#[derive(Clone, Copy, Debug, PartialEq, Eq, Structural)]
pub enum ReadFault {
    /// The serial line could not be read.
    SerialRead,
    /// The serial line could not be written.
    SerialWrite,
    /// The frame could not be decoded.
    Decode,
    /// No frame was found in what was read.
    InvalidFrame,
    /// The sensor answered without data: none is ready yet.
    EmptyResult,
    /// The checksum of the frame is wrong.
    ChecksumFailed,
    /// The answer belongs to another command.
    InvalidResponse,
    /// The sensor reported an error state.
    StatusError,
}

/// Names the variant of an `sps30::Error`, one `ReadFault` for each variant
/// and none for two; what a variant carries is left behind. The contract
/// claims nothing of the result.
#[verifier::external_body]
fn fault_of<E, F>(error: &sps30::Error<E, F>) -> (fault: ReadFault) {
    match error {
        sps30::Error::SerialR(_) => ReadFault::SerialRead,
        sps30::Error::SerialW(_) => ReadFault::SerialWrite,
        sps30::Error::SHDLC(_) => ReadFault::Decode,
        sps30::Error::InvalidFrame => ReadFault::InvalidFrame,
        sps30::Error::EmptyResult => ReadFault::EmptyResult,
        sps30::Error::ChecksumFailed => ReadFault::ChecksumFailed,
        sps30::Error::InvalidRespose => ReadFault::InvalidResponse,
        sps30::Error::StatusError => ReadFault::StatusError,
    }
}

/// What a failed read counts as: a sensor without new data is no failure,
/// everything else is.
pub open spec fn outcome_of_fault(fault: ReadFault) -> ReadOutcome {
    if fault == ReadFault::EmptyResult {
        ReadOutcome::Empty
    } else {
        ReadOutcome::Failed
    }
}

impl ReadOutcome {
    /// Classifies a failed read.
    pub fn from_fault(fault: ReadFault) -> (outcome: ReadOutcome)
        ensures
            outcome == outcome_of_fault(fault),
    {
        match fault {
            ReadFault::EmptyResult => ReadOutcome::Empty,
            _ => ReadOutcome::Failed,
        }
    }

    /// Classifies what the sensor driver returned for one read attempt, the
    /// values of a series given as their bit patterns. A series is data as it
    /// stands; an error is classified by its variant.
    pub fn from_driver<E, F>(result: Result<[u32; 10], sps30::Error<E, F>>) -> (outcome:
        ReadOutcome)
        ensures
            match result {
                Ok(series) => outcome == ReadOutcome::Data(series),
                Err(_) => exists|fault: ReadFault| outcome == outcome_of_fault(fault),
            },
    {
        match result {
            Ok(series) => ReadOutcome::Data(series),
            Err(error) => {
                let fault = fault_of(&error);
                ReadOutcome::from_fault(fault)
            },
        }
    }
}

/// How the reader ended, as the process sees it.
#[derive(Clone, Copy, Debug, PartialEq, Eq, Structural)]
pub enum ReaderExit {
    /// Termination was requested and the reader left its loop.
    Clean,
    /// The reader gave up on an error, such as a failed startup.
    Failed,
    /// The thread of the reader ended without a result.
    Crashed,
}

/// Where the reader stands. Each state but the first and the last two waits
/// for the outcome of one command.
#[derive(Clone, Copy, Debug, PartialEq, Eq, Structural)]
pub enum ReaderState {
    /// Not started.
    Uninitialized,
    /// The serial line is being opened and configured.
    Opening,
    /// The device is being reset.
    Resetting,
    /// The device settles after the reset.
    Settling,
    /// The device is being put into continuous measurement.
    Starting,
    /// Top of the poll loop: the termination flag and the time since the last
    /// attempt are being looked up.
    Observing,
    /// The rest of the interval, so many nanoseconds, is being slept.
    Sleeping(u64),
    /// One read attempt is under way.
    Polling,
    /// Write access to the cache is being acquired for this reading.
    Committing(Measurement),
    /// The device is being told to stop measuring.
    Stopping,
    /// Ended cleanly.
    Terminated,
    /// Ended on an error.
    FatalAbort,
}

/// The coarse phases of the reader's life.
#[derive(Clone, Copy, Debug, PartialEq, Eq, Structural)]
pub enum Phase {
    Uninitialized,
    Initializing,
    Measuring,
    Stopping,
    Terminated,
    FatalAbort,
}

/// What the caller reports back.
#[derive(Clone, Copy, Debug, PartialEq, Eq)]
pub enum Event {
    /// The reader is to start.
    Start,
    /// The last command succeeded.
    Completed,
    /// The last command failed.
    Failed,
    /// The termination flag, and the nanoseconds since the last read attempt
    /// started (since measuring started, before the first attempt).
    Observed { terminate: bool, elapsed_nanos: u128 },
    /// The outcome of the read attempt.
    Read(ReadOutcome),
}

/// What the caller has to do next.
#[derive(Clone, Copy, Debug, PartialEq, Eq, Structural)]
pub enum Command {
    /// Nothing yet: the reader waits to be started.
    AwaitStart,
    /// Open the serial line and configure it.
    OpenSerial,
    /// Reset the device.
    ResetDevice,
    /// Wait this many nanoseconds.
    Settle(u64),
    /// Put the device into continuous measurement.
    StartMeasurement,
    /// Look up the termination flag and the time since the last attempt.
    Observe,
    /// Sleep this many nanoseconds.
    Sleep(u64),
    /// Note the time, then make exactly one read attempt.
    Poll,
    /// Acquire write access to the cache.
    AcquireWrite,
    /// Tell the device to stop measuring.
    StopMeasurement,
    /// Leave, with this result.
    Exit(ReaderExit),
}

/// What the cache undergoes at a step.
#[derive(Clone, Copy, Debug, PartialEq, Eq, Structural)]
pub enum Effect {
    /// Nothing changes.
    Nothing,
    /// The latest reading is replaced.
    Replace(Measurement),
    /// One survived error is counted.
    CountError,
}

/// The answer to an event.
#[derive(Clone, Copy, Debug, PartialEq, Eq, Structural)]
pub struct Step {
    pub state: ReaderState,
    pub effect: Effect,
    pub command: Command,
}

/// The phase that a state belongs to.
pub open spec fn phase_of(state: ReaderState) -> Phase {
    match state {
        ReaderState::Uninitialized => Phase::Uninitialized,
        ReaderState::Opening | ReaderState::Resetting | ReaderState::Settling
        | ReaderState::Starting => Phase::Initializing,
        ReaderState::Observing | ReaderState::Sleeping(_) | ReaderState::Polling
        | ReaderState::Committing(_) => Phase::Measuring,
        ReaderState::Stopping => Phase::Stopping,
        ReaderState::Terminated => Phase::Terminated,
        ReaderState::FatalAbort => Phase::FatalAbort,
    }
}

/// The command whose outcome a state waits for.
pub open spec fn awaited(state: ReaderState) -> Command {
    match state {
        ReaderState::Uninitialized => Command::AwaitStart,
        ReaderState::Opening => Command::OpenSerial,
        ReaderState::Resetting => Command::ResetDevice,
        ReaderState::Settling => Command::Settle(STARTUP_NANOS),
        ReaderState::Starting => Command::StartMeasurement,
        ReaderState::Observing => Command::Observe,
        ReaderState::Sleeping(d) => Command::Sleep(d),
        ReaderState::Polling => Command::Poll,
        ReaderState::Committing(_) => Command::AcquireWrite,
        ReaderState::Stopping => Command::StopMeasurement,
        ReaderState::Terminated => Command::Exit(ReaderExit::Clean),
        ReaderState::FatalAbort => Command::Exit(ReaderExit::Failed),
    }
}

/// What is left of the interval when `elapsed` nanoseconds have passed since
/// the last attempt started; `None` once the interval is over.
pub open spec fn wait_left(elapsed: nat) -> Option<u64> {
    if elapsed <= READ_INTERVAL_NANOS {
        Some((READ_INTERVAL_NANOS - elapsed) as u64)
    } else {
        None
    }
}

/// A step that moves on to `state` and waits for its command there.
pub open spec fn move_to(state: ReaderState, effect: Effect) -> Step {
    Step { state, effect, command: awaited(state) }
}

/// The transition table.
///
/// Startup runs open, reset, settle, start; a failure of any of them is
/// fatal. The loop then observes, sleeps what is left of the interval, reads
/// once and commits. A read that gives no data changes nothing; any other
/// failed read, and a failed acquisition of write access, is counted. Once
/// termination is observed the device is stopped, and the reader ends cleanly
/// whether that worked or not. An event that the state does not wait for
/// changes nothing and repeats the command.
pub open spec fn next_step(state: ReaderState, event: Event) -> Step {
    match (state, event) {
        (ReaderState::Uninitialized, Event::Start) => move_to(
            ReaderState::Opening,
            Effect::Nothing,
        ),
        (ReaderState::Opening, Event::Completed) => move_to(
            ReaderState::Resetting,
            Effect::Nothing,
        ),
        (ReaderState::Resetting, Event::Completed) => move_to(
            ReaderState::Settling,
            Effect::Nothing,
        ),
        (ReaderState::Settling, Event::Completed) => move_to(
            ReaderState::Starting,
            Effect::Nothing,
        ),
        (ReaderState::Starting, Event::Completed) => move_to(
            ReaderState::Observing,
            Effect::Nothing,
        ),
        (ReaderState::Opening, Event::Failed) | (ReaderState::Resetting, Event::Failed) | (
            ReaderState::Starting,
            Event::Failed,
        ) => move_to(ReaderState::FatalAbort, Effect::Nothing),
        (ReaderState::Observing, Event::Observed { terminate, elapsed_nanos }) => if terminate {
            move_to(ReaderState::Stopping, Effect::Nothing)
        } else {
            match wait_left(elapsed_nanos as nat) {
                Some(d) => move_to(ReaderState::Sleeping(d), Effect::Nothing),
                None => move_to(ReaderState::Polling, Effect::Nothing),
            }
        },
        (ReaderState::Sleeping(_), Event::Completed) => move_to(
            ReaderState::Polling,
            Effect::Nothing,
        ),
        (ReaderState::Polling, Event::Read(ReadOutcome::Data(series))) => move_to(
            ReaderState::Committing(measurement_of(series@)),
            Effect::Nothing,
        ),
        (ReaderState::Polling, Event::Read(ReadOutcome::Empty)) => move_to(
            ReaderState::Observing,
            Effect::Nothing,
        ),
        (ReaderState::Polling, Event::Read(ReadOutcome::Failed)) => move_to(
            ReaderState::Observing,
            Effect::CountError,
        ),
        (ReaderState::Committing(m), Event::Completed) => move_to(
            ReaderState::Observing,
            Effect::Replace(m),
        ),
        (ReaderState::Committing(_), Event::Failed) => move_to(
            ReaderState::Observing,
            Effect::CountError,
        ),
        (ReaderState::Stopping, Event::Completed) | (ReaderState::Stopping, Event::Failed) => move_to(
            ReaderState::Terminated,
            Effect::Nothing,
        ),
        _ => move_to(state, Effect::Nothing),
    }
}

/// The time to sleep before the next read attempt, `elapsed_nanos` after the
/// last one started: what is left of the interval, which may be nothing at
/// all, or `None` when the interval is over.
pub fn remaining_wait(elapsed_nanos: u128) -> (r: Option<u64>)
    ensures
        r == wait_left(elapsed_nanos as nat),
{
    if elapsed_nanos <= READ_INTERVAL_NANOS as u128 {
        let elapsed: u64 = elapsed_nanos as u64;
        Some(READ_INTERVAL_NANOS - elapsed)
    } else {
        None
    }
}

impl ReaderState {
    /// The state of a reader that has not started.
    pub fn new() -> (s: ReaderState)
        ensures
            s == ReaderState::Uninitialized,
    {
        ReaderState::Uninitialized
    }

    /// The phase that this state belongs to.
    pub fn phase(self) -> (p: Phase)
        ensures
            p == phase_of(self),
    {
        match self {
            ReaderState::Uninitialized => Phase::Uninitialized,
            ReaderState::Opening => Phase::Initializing,
            ReaderState::Resetting => Phase::Initializing,
            ReaderState::Settling => Phase::Initializing,
            ReaderState::Starting => Phase::Initializing,
            ReaderState::Observing => Phase::Measuring,
            ReaderState::Sleeping(_) => Phase::Measuring,
            ReaderState::Polling => Phase::Measuring,
            ReaderState::Committing(_) => Phase::Measuring,
            ReaderState::Stopping => Phase::Stopping,
            ReaderState::Terminated => Phase::Terminated,
            ReaderState::FatalAbort => Phase::FatalAbort,
        }
    }

    /// The command whose outcome this state waits for.
    pub fn command(self) -> (c: Command)
        ensures
            c == awaited(self),
    {
        match self {
            ReaderState::Uninitialized => Command::AwaitStart,
            ReaderState::Opening => Command::OpenSerial,
            ReaderState::Resetting => Command::ResetDevice,
            ReaderState::Settling => Command::Settle(STARTUP_NANOS),
            ReaderState::Starting => Command::StartMeasurement,
            ReaderState::Observing => Command::Observe,
            ReaderState::Sleeping(d) => Command::Sleep(d),
            ReaderState::Polling => Command::Poll,
            ReaderState::Committing(_) => Command::AcquireWrite,
            ReaderState::Stopping => Command::StopMeasurement,
            ReaderState::Terminated => Command::Exit(ReaderExit::Clean),
            ReaderState::FatalAbort => Command::Exit(ReaderExit::Failed),
        }
    }

    /// Moves on to `self` with `effect` and asks for the command awaited there.
    fn entered(self, effect: Effect) -> (step: Step)
        ensures
            step == move_to(self, effect),
    {
        Step { state: self, effect, command: self.command() }
    }

    /// Handles one event: the next state, what the cache undergoes, and the
    /// next command.
    pub fn step(self, event: Event) -> (step: Step)
        ensures
            step == next_step(self, event),
    {
        match self {
            ReaderState::Uninitialized => match event {
                Event::Start => ReaderState::Opening.entered(Effect::Nothing),
                _ => self.entered(Effect::Nothing),
            },
            ReaderState::Opening => match event {
                Event::Completed => ReaderState::Resetting.entered(Effect::Nothing),
                Event::Failed => ReaderState::FatalAbort.entered(Effect::Nothing),
                _ => self.entered(Effect::Nothing),
            },
            ReaderState::Resetting => match event {
                Event::Completed => ReaderState::Settling.entered(Effect::Nothing),
                Event::Failed => ReaderState::FatalAbort.entered(Effect::Nothing),
                _ => self.entered(Effect::Nothing),
            },
            ReaderState::Settling => match event {
                Event::Completed => ReaderState::Starting.entered(Effect::Nothing),
                _ => self.entered(Effect::Nothing),
            },
            ReaderState::Starting => match event {
                Event::Completed => ReaderState::Observing.entered(Effect::Nothing),
                Event::Failed => ReaderState::FatalAbort.entered(Effect::Nothing),
                _ => self.entered(Effect::Nothing),
            },
            ReaderState::Observing => match event {
                Event::Observed { terminate, elapsed_nanos } => {
                    if terminate {
                        ReaderState::Stopping.entered(Effect::Nothing)
                    } else {
                        match remaining_wait(elapsed_nanos) {
                            Some(d) => ReaderState::Sleeping(d).entered(Effect::Nothing),
                            None => ReaderState::Polling.entered(Effect::Nothing),
                        }
                    }
                },
                _ => self.entered(Effect::Nothing),
            },
            ReaderState::Sleeping(_) => match event {
                Event::Completed => ReaderState::Polling.entered(Effect::Nothing),
                _ => self.entered(Effect::Nothing),
            },
            ReaderState::Polling => match event {
                Event::Read(ReadOutcome::Data(series)) => {
                    let m = Measurement::from_array(series);
                    ReaderState::Committing(m).entered(Effect::Nothing)
                },
                Event::Read(ReadOutcome::Empty) => ReaderState::Observing.entered(
                    Effect::Nothing,
                ),
                Event::Read(ReadOutcome::Failed) => ReaderState::Observing.entered(
                    Effect::CountError,
                ),
                _ => self.entered(Effect::Nothing),
            },
            ReaderState::Committing(m) => match event {
                Event::Completed => ReaderState::Observing.entered(Effect::Replace(m)),
                Event::Failed => ReaderState::Observing.entered(Effect::CountError),
                _ => self.entered(Effect::Nothing),
            },
            ReaderState::Stopping => match event {
                Event::Completed => ReaderState::Terminated.entered(Effect::Nothing),
                Event::Failed => ReaderState::Terminated.entered(Effect::Nothing),
                _ => self.entered(Effect::Nothing),
            },
            ReaderState::Terminated => self.entered(Effect::Nothing),
            ReaderState::FatalAbort => self.entered(Effect::Nothing),
        }
    }
}

} // verus!
