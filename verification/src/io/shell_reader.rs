//! The bookkeeping of an ffmpeg subprocess: how its exit is reported,
//! and closing it once.

use vstd::prelude::*;
use crate::models::errors::RustTgCallsError;
use crate::utils::text::push_str;

verus! {

/// How many bytes of the subprocess's stderr are kept: the last 4 KiB.
pub const STDERR_RING_SIZE: usize = 4096;

/// How long a read at end of stream waits for the exit status to be
/// collected: 200 ms.
pub const READ_EOF_DRAIN_TIMEOUT_MS: u64 = 200;

/// How waiting for the subprocess ended.
#[derive(Debug, Clone, PartialEq, Eq)]
pub enum ExitOutcome {
    /// It exited successfully.
    Success,
    /// It exited unsuccessfully; the status as the platform prints it.
    Failed(String),
    /// Waiting for it failed; the error's message.
    WaitFailed(String),
}

/// The error an exit is reported with: none for a successful exit;
/// `ffmpeg exited with code <status>` for a failed one; the wait error's
/// message when waiting failed.
pub fn exit_error(outcome: &ExitOutcome) -> (out: Option<RustTgCallsError>)
    ensures
        match *outcome {
            ExitOutcome::Success => out is None,
            ExitOutcome::Failed(status) => out matches Some(RustTgCallsError::FFmpegCrashed(m))
                && m@ == "ffmpeg exited with code "@ + status@,
            ExitOutcome::WaitFailed(e) => out matches Some(RustTgCallsError::FFmpegCrashed(m)) && m@ == e@,
        },
{
    match outcome {
        ExitOutcome::Success => None,
        ExitOutcome::Failed(status) => {
            let mut m = String::from_str("ffmpeg exited with code ");
            push_str(&mut m, status.as_str());
            Some(RustTgCallsError::FFmpegCrashed(m))
        },
        ExitOutcome::WaitFailed(e) => {
            let mut m = String::from_str("");
            push_str(&mut m, e.as_str());
            proof {
                reveal_strlit("");
            }
            Some(RustTgCallsError::FFmpegCrashed(m))
        },
    }
}

/// The error when the subprocess's stdout could not be captured.
pub fn stdout_missing() -> (out: RustTgCallsError)
    ensures
        out matches RustTgCallsError::FFmpegSpawn(m) && m@ == "failed to capture ffmpeg stdout"@,
{
    RustTgCallsError::FFmpegSpawn(String::from_str("failed to capture ffmpeg stdout"))
}

/// Whether the subprocess was closed by us and whether it has exited (or
/// been killed).
#[derive(Debug, Clone, Copy, PartialEq, Eq, Structural)]
pub struct ReaderState {
    pub closed: bool,
    pub exited: bool,
}

impl ReaderState {
    /// A running subprocess.
    pub fn new() -> (out: ReaderState)
        ensures
            !out.closed && !out.exited,
    {
        ReaderState { closed: false, exited: false }
    }

    /// Closing, once: tells whether this call closed it (and the process is
    /// to be killed); it then counts as exited.
    pub fn close(&mut self) -> (first: bool)
        ensures
            first == !old(self).closed,
            first ==> final(self).closed && final(self).exited,
            !first ==> *final(self) == *old(self),
    {
        if self.closed {
            return false;
        }
        self.closed = true;
        self.exited = true;
        true
    }

    /// The subprocess was reaped.
    pub fn on_exit(&mut self)
        ensures
            final(self).exited,
            final(self).closed == old(self).closed,
    {
        self.exited = true;
    }

    /// Whether waiting for the exit has to block.
    pub fn must_wait(&self) -> (out: bool)
        ensures
            out == !self.exited,
    {
        !self.exited
    }
}

} // verus!
