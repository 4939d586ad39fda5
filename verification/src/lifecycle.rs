//! What the process does when the reader has ended.

use vstd::prelude::*;
use crate::reader::ReaderExit;
use crate::state::{with_fatal_error, SharedState, StateView};

verus! {

/// Exit status of a clean shutdown.
pub const EXIT_CLEAN: i32 = 0;

/// Exit status after a fatal failure.
pub const EXIT_FATAL: i32 = 1;

/// The exit status that an end of the reader leads to: zero after a clean
/// end, non-zero otherwise.
pub open spec fn exit_status(exit: ReaderExit) -> int {
    match exit {
        ReaderExit::Clean => EXIT_CLEAN as int,
        ReaderExit::Failed | ReaderExit::Crashed => EXIT_FATAL as int,
    }
}

/// The state as the process leaves it: any end but a clean one is counted as
/// one fatal failure.
pub open spec fn concluded(s: StateView, exit: ReaderExit) -> StateView {
    match exit {
        ReaderExit::Clean => s,
        ReaderExit::Failed | ReaderExit::Crashed => with_fatal_error(s),
    }
}

/// Settles the end of the reader: counts a fatal failure where there was one
/// and gives the status to exit with.
pub fn conclude(state: &mut SharedState, exit: ReaderExit) -> (status: i32)
    ensures
        status == exit_status(exit),
        final(state)@ == concluded(old(state)@, exit),
{
    match exit {
        ReaderExit::Clean => EXIT_CLEAN,
        ReaderExit::Failed => {
            state.count_fatal_error();
            EXIT_FATAL
        },
        ReaderExit::Crashed => {
            state.count_fatal_error();
            EXIT_FATAL
        },
    }
}

} // verus!
