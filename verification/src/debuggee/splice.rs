//! Classification of the outcomes of the zero-copy kernel transfer.
//!
//! The transfer primitive itself is a raw system call made by the process
//! around this library; it reports back the call's return value and, on
//! failure, the error code the kernel left behind.  The classification of
//! that pair into "bytes moved", "recoverable peer condition" or "violated
//! kernel contract" is decided here.

use vstd::prelude::*;

verus! {

/// The error code the kernel sets when a transfer's destination has no
/// reader left (a broken pipe).
pub const CODE_BROKEN_PIPE: i32 = 32;

/// The error code the kernel sets when a descriptor of the wrong kind was
/// handed to the transfer call (an invalid argument).
pub const CODE_INVALID_ARGUMENT: i32 = 22;

/// The transfer conditions a relay loop recovers from locally: they mean a
/// peer went away, never that this process misbehaved.
#[derive(Clone, Copy, Debug, PartialEq, Eq, Structural)]
pub enum SpliceError {
    /// A descriptor of the wrong kind was handed to the call.
    InvalidArgument,
    /// The destination has no reader left; this direction must stop sending.
    BrokenPipe,
}

/// The classified outcome of one kernel transfer call.
#[derive(Clone, Copy, Debug, PartialEq, Eq, Structural)]
pub enum SpliceOutcome {
    /// The call moved this many bytes; zero means the source reached end of
    /// input.
    Moved(u64),
    /// A recoverable peer condition.
    Failed(SpliceError),
    /// Every other failure signals a violated descriptor-lifecycle
    /// invariant (or exhausted memory): the process must abort rather than
    /// attempt recovery.
    Fatal,
}

/// Classifies the result of one kernel transfer call: `res` is the call's
/// return value, `code` the error code left behind when `res` is negative.
pub fn classify_splice(res: i64, code: i32) -> (outcome: SpliceOutcome)
    ensures
        res >= 0 ==> outcome == SpliceOutcome::Moved(res as u64),
        res < 0 && code == CODE_BROKEN_PIPE ==> outcome == SpliceOutcome::Failed(
            SpliceError::BrokenPipe,
        ),
        res < 0 && code == CODE_INVALID_ARGUMENT ==> outcome == SpliceOutcome::Failed(
            SpliceError::InvalidArgument,
        ),
        res < 0 && code != CODE_BROKEN_PIPE && code != CODE_INVALID_ARGUMENT
            ==> outcome == SpliceOutcome::Fatal,
{
    if res >= 0 {
        SpliceOutcome::Moved(res as u64)
    } else if code == CODE_BROKEN_PIPE {
        SpliceOutcome::Failed(SpliceError::BrokenPipe)
    } else if code == CODE_INVALID_ARGUMENT {
        SpliceOutcome::Failed(SpliceError::InvalidArgument)
    } else {
        SpliceOutcome::Fatal
    }
}

} // verus!
