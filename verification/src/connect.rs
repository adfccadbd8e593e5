//! Connecting to a named pipe as a client.
//!
//! The server may not have made the pipe yet, so a client tries again until the
//! pipe is there or its time is up.

use crate::error::IoError;
use crate::pipe_name::{final_component, pipe_path_from, pipe_path_of};
use crate::transfer::{PipeStream, ERROR_FILE_NOT_FOUND, INVALID_HANDLE_VALUE};
use vstd::prelude::*;

verus! {

/// How long a client tries to connect, in milliseconds.
pub const TOTAL_TIMEOUT_MS: u32 = 10_000;

/// How long a client sleeps between two tries, in milliseconds.
pub const POLL_INTERVAL_MS: u32 = 10;

/// The access to read and write.
pub const GENERIC_READ_WRITE: u32 = 0xC000_0000;

/// Opens a file that exists, and makes none.
pub const OPEN_EXISTING: u32 = 3;

/// Opens a file without special attributes, for overlapped operations.
pub const OVERLAPPED_FLAGS: u32 = 0x4000_0080;

/// What the driver of a [`ConnectOp`] has to do next.
#[derive(Clone, Copy, Debug, PartialEq, Eq)]
pub enum ConnectCall {
    /// `GetTickCount64`.
    Tick,
    /// `WaitNamedPipeW`.
    WaitPipe { timeout_ms: u32 },
    /// `GetLastError`.
    LastError,
    /// `Sleep`.
    Sleep { ms: u32 },
    /// `CreateFileW`, for the pipe, which is not shared.
    Open { access: u32, disposition: u32, flags: u32 },
    /// Nothing more: this is what came of it.
    Finish(Result<PipeStream, IoError>),
}

/// What a [`ConnectCall`] returned.
#[derive(Clone, Copy, Debug, PartialEq, Eq)]
pub enum ConnectReply {
    /// The time, in milliseconds.
    Tick(u64),
    /// Whether there is a pipe to open; zero if not.
    Waited(i32),
    /// The error number.
    LastError(u32),
    /// The sleep is over.
    Slept,
    /// The handle of the pipe.
    Opened(isize),
}

/// Which call connecting waits for the outcome of.
#[derive(Clone, Copy, Debug, PartialEq, Eq)]
pub enum ConnectPhase {
    /// [`ConnectCall::Tick`], for the first time.
    Starting,
    /// [`ConnectCall::Tick`], before another try.
    Trying { deadline: u64 },
    /// [`ConnectCall::WaitPipe`].
    Waiting { deadline: u64 },
    /// [`ConnectCall::LastError`], for there is no pipe to open.
    WaitFailed { deadline: u64 },
    /// [`ConnectCall::Sleep`].
    Sleeping { deadline: u64 },
    /// [`ConnectCall::Open`].
    Opening,
    /// [`ConnectCall::LastError`], for the pipe could not be opened.
    OpenFailed,
    /// Nothing: it is over.
    Finished,
}

/// Where the connecting of a client stands.
#[derive(Clone, Copy, Debug, PartialEq, Eq)]
pub struct ConnectState {
    /// What the connecting waits for.
    pub phase: ConnectPhase,
}

/// How many milliseconds are left at the time `now`; never more than there were
/// at the start.
pub open spec fn time_left(deadline: u64, now: u64) -> int {
    if deadline <= now {
        0
    } else if deadline - now > TOTAL_TIMEOUT_MS {
        TOTAL_TIMEOUT_MS as int
    } else {
        deadline - now
    }
}

impl ConnectState {
    /// The client opens the pipe.
    pub open spec fn opening() -> (ConnectState, ConnectCall) {
        (
            ConnectState { phase: ConnectPhase::Opening },
            ConnectCall::Open {
                access: GENERIC_READ_WRITE,
                disposition: OPEN_EXISTING,
                flags: OVERLAPPED_FLAGS,
            },
        )
    }

    /// The connecting is over.
    pub open spec fn ending(outcome: Result<PipeStream, IoError>) -> (ConnectState, ConnectCall) {
        (ConnectState { phase: ConnectPhase::Finished }, ConnectCall::Finish(outcome))
    }

    /// The client looks whether the pipe is there, if there is time left.
    pub open spec fn trying(deadline: u64, now: u64) -> (ConnectState, ConnectCall) {
        let left = time_left(deadline, now);
        if left == 0 {
            ConnectState::ending(Err(IoError::Os(ERROR_FILE_NOT_FOUND as i32)))
        } else {
            (
                ConnectState { phase: ConnectPhase::Waiting { deadline } },
                ConnectCall::WaitPipe { timeout_ms: left as u32 },
            )
        }
    }

    /// Whether `reply` is an outcome of the call that is waited for, and the
    /// clock has not run out.
    pub open spec fn fits(self, reply: ConnectReply) -> bool {
        match self.phase {
            ConnectPhase::Starting => reply matches ConnectReply::Tick(now) && now
                + TOTAL_TIMEOUT_MS <= u64::MAX,
            ConnectPhase::Trying { .. } => reply is Tick,
            ConnectPhase::Waiting { .. } => reply is Waited,
            ConnectPhase::WaitFailed { .. } => reply is LastError,
            ConnectPhase::Sleeping { .. } => reply is Slept,
            ConnectPhase::Opening => reply is Opened,
            ConnectPhase::OpenFailed => reply is LastError,
            ConnectPhase::Finished => false,
        }
    }

    /// What follows on the outcome `reply` of the call that is waited for.
    pub open spec fn next(self, reply: ConnectReply) -> (ConnectState, ConnectCall) {
        match (self.phase, reply) {
            (ConnectPhase::Starting, ConnectReply::Tick(now)) => (
                ConnectState {
                    phase: ConnectPhase::Trying { deadline: (now + TOTAL_TIMEOUT_MS) as u64 },
                },
                ConnectCall::Tick,
            ),
            (ConnectPhase::Trying { deadline }, ConnectReply::Tick(now)) => ConnectState::trying(
                deadline,
                now,
            ),
            (ConnectPhase::Waiting { deadline }, ConnectReply::Waited(ok)) => if ok != 0 {
                ConnectState::opening()
            } else {
                (
                    ConnectState { phase: ConnectPhase::WaitFailed { deadline } },
                    ConnectCall::LastError,
                )
            },
            (ConnectPhase::WaitFailed { deadline }, ConnectReply::LastError(code)) => {
                if code == ERROR_FILE_NOT_FOUND {
                    (
                        ConnectState { phase: ConnectPhase::Sleeping { deadline } },
                        ConnectCall::Sleep { ms: POLL_INTERVAL_MS },
                    )
                } else {
                    ConnectState::ending(Err(IoError::Os(code as i32)))
                }
            },
            (ConnectPhase::Sleeping { deadline }, ConnectReply::Slept) => (
                ConnectState { phase: ConnectPhase::Trying { deadline } },
                ConnectCall::Tick,
            ),
            (ConnectPhase::Opening, ConnectReply::Opened(handle)) => {
                if handle == INVALID_HANDLE_VALUE {
                    (ConnectState { phase: ConnectPhase::OpenFailed }, ConnectCall::LastError)
                } else {
                    ConnectState::ending(Ok(PipeStream { handle }))
                }
            },
            (ConnectPhase::OpenFailed, ConnectReply::LastError(code)) => ConnectState::ending(
                Err(IoError::Os(code as i32)),
            ),
            _ => ConnectState::ending(Err(IoError::Driver)),
        }
    }
}

/// The connecting of a client.
#[derive(Debug, PartialEq, Eq)]
pub struct ConnectOp {
    state: ConnectState,
}

impl View for ConnectOp {
    type V = ConnectState;

    closed spec fn view(&self) -> ConnectState {
        self.state
    }
}

impl ConnectOp {
    fn finish(&mut self, outcome: Result<PipeStream, IoError>) -> (call: ConnectCall)
        ensures
            (final(self)@, call) == ConnectState::ending(outcome),
    {
        self.state.phase = ConnectPhase::Finished;
        ConnectCall::Finish(outcome)
    }

    /// Begins to connect, to a pipe whose path is known.
    pub fn start() -> (started: (ConnectOp, ConnectCall))
        ensures
            started.0@ == (ConnectState { phase: ConnectPhase::Starting }),
            started.1 == ConnectCall::Tick,
    {
        (ConnectOp { state: ConnectState { phase: ConnectPhase::Starting } }, ConnectCall::Tick)
    }

    /// Takes what the system call returned, and says which one to make next.
    pub fn step(&mut self, reply: ConnectReply) -> (call: ConnectCall)
        requires
            old(self)@.fits(reply),
        ensures
            (final(self)@, call) == old(self)@.next(reply),
    {
        match (self.state.phase, reply) {
            (ConnectPhase::Starting, ConnectReply::Tick(now)) => {
                self.state.phase = ConnectPhase::Trying { deadline: now + TOTAL_TIMEOUT_MS as u64 };
                ConnectCall::Tick
            },
            (ConnectPhase::Trying { deadline }, ConnectReply::Tick(now)) => {
                if deadline <= now {
                    return self.finish(Err(IoError::from_code(ERROR_FILE_NOT_FOUND)));
                }
                let left: u64 = deadline - now;
                let timeout_ms: u32 = if left > TOTAL_TIMEOUT_MS as u64 {
                    TOTAL_TIMEOUT_MS
                } else {
                    left as u32
                };
                self.state.phase = ConnectPhase::Waiting { deadline };
                ConnectCall::WaitPipe { timeout_ms }
            },
            (ConnectPhase::Waiting { deadline }, ConnectReply::Waited(ok)) => if ok != 0 {
                self.state.phase = ConnectPhase::Opening;
                ConnectCall::Open {
                    access: GENERIC_READ_WRITE,
                    disposition: OPEN_EXISTING,
                    flags: OVERLAPPED_FLAGS,
                }
            } else {
                self.state.phase = ConnectPhase::WaitFailed { deadline };
                ConnectCall::LastError
            },
            (ConnectPhase::WaitFailed { deadline }, ConnectReply::LastError(code)) => {
                if code == ERROR_FILE_NOT_FOUND {
                    self.state.phase = ConnectPhase::Sleeping { deadline };
                    ConnectCall::Sleep { ms: POLL_INTERVAL_MS }
                } else {
                    self.finish(Err(IoError::from_code(code)))
                }
            },
            (ConnectPhase::Sleeping { deadline }, ConnectReply::Slept) => {
                self.state.phase = ConnectPhase::Trying { deadline };
                ConnectCall::Tick
            },
            (ConnectPhase::Opening, ConnectReply::Opened(handle)) => {
                if handle == INVALID_HANDLE_VALUE {
                    self.state.phase = ConnectPhase::OpenFailed;
                    ConnectCall::LastError
                } else {
                    self.finish(Ok(PipeStream { handle }))
                }
            },
            (ConnectPhase::OpenFailed, ConnectReply::LastError(code)) => self.finish(
                Err(IoError::from_code(code)),
            ),
            _ => self.finish(Err(IoError::Driver)),
        }
    }
}

impl PipeStream {
    /// Begins to connect to the pipe that `path` names; hands out the path of
    /// that pipe as system calls take it.
    pub fn connect(path: &str) -> (started: Result<(Vec<u16>, ConnectOp, ConnectCall), IoError>)
        ensures
            match final_component(path@) {
                Some(stem) => match started {
                    Ok((pipe, op, call)) => {
                        &&& pipe@ == pipe_path_of(stem)
                        &&& op@ == ConnectState { phase: ConnectPhase::Starting }
                        &&& call == ConnectCall::Tick
                    },
                    Err(_) => false,
                },
                None => started matches Err(error) && error == IoError::InvalidPipeName,
            },
    {
        match pipe_path_from(path) {
            Ok(pipe) => {
                let (op, call) = ConnectOp::start();
                Ok((pipe, op, call))
            },
            Err(error) => Err(error),
        }
    }
}

/// The deadline of a connecting that has one.
pub open spec fn deadline_of(op: ConnectState) -> Option<u64> {
    match op.phase {
        ConnectPhase::Trying { deadline } => Some(deadline),
        ConnectPhase::Waiting { deadline } => Some(deadline),
        ConnectPhase::WaitFailed { deadline } => Some(deadline),
        ConnectPhase::Sleeping { deadline } => Some(deadline),
        _ => None,
    }
}

/// The deadline is set once, at the start, and kept through all tries.
pub proof fn law_deadline_is_kept(op: ConnectState, reply: ConnectReply)
    requires
        op.fits(reply),
        deadline_of(op.next(reply).0) is Some,
    ensures
        match op.phase {
            ConnectPhase::Starting => reply matches ConnectReply::Tick(now) && deadline_of(
                op.next(reply).0,
            ) == Some((now + TOTAL_TIMEOUT_MS) as u64),
            _ => deadline_of(op.next(reply).0) == deadline_of(op),
        },
{
}

/// A client waits for the pipe only while there is time, and never beyond its
/// deadline. Once the deadline has passed, the next look at the clock ends the
/// connecting, with the error of a pipe that does not exist.
pub proof fn law_connecting_ends_at_the_deadline(op: ConnectState, deadline: u64, now: u64)
    requires
        op.phase == (ConnectPhase::Trying { deadline }),
    ensures
        ({
            let call = op.next(ConnectReply::Tick(now)).1;
            if now < deadline {
                call matches ConnectCall::WaitPipe { timeout_ms } && 1 <= timeout_ms
                    <= TOTAL_TIMEOUT_MS && now + timeout_ms <= deadline
            } else {
                call == ConnectCall::Finish(Err(IoError::Os(2)))
            }
        }),
{
    assert(ERROR_FILE_NOT_FOUND as i32 == 2);
}

/// A client tries again only where the pipe does not exist yet; any other error
/// ends the connecting, and is what comes of it.
pub proof fn law_only_a_missing_pipe_is_tried_again(op: ConnectState, code: u32)
    requires
        op.phase is WaitFailed,
    ensures
        ({
            let (after, call) = op.next(ConnectReply::LastError(code));
            if code == ERROR_FILE_NOT_FOUND {
                &&& call == ConnectCall::Sleep { ms: POLL_INTERVAL_MS }
                &&& after.next(ConnectReply::Slept).1 == ConnectCall::Tick
            } else {
                call == ConnectCall::Finish(Err(IoError::Os(code as i32)))
            }
        }),
{
}

/// A stream that a client gets has a handle that the system gave out for it.
pub proof fn law_connected_stream_is_valid(op: ConnectState, reply: ConnectReply)
    requires
        op.fits(reply),
    ensures
        op.next(reply).1 matches ConnectCall::Finish(Ok(stream)) ==> reply == ConnectReply::Opened(
            stream.handle,
        ) && stream.handle != INVALID_HANDLE_VALUE,
{
}

/// A client tries to connect for ten seconds from the time that it starts at. As long as
/// there is time left it waits for the pipe, for no longer than that and no longer than ten
/// seconds; a pipe that does not exist yet is tried again ten milliseconds later; and after
/// ten seconds the client gives up, for the pipe does not exist. Any other error number ends
/// it with that number.
pub proof fn law_connecting_takes_ten_seconds(
    op: ConnectState,
    start: u64,
    now: u64,
    code: u32,
)
    requires
        op.phase is Starting,
        start + 10_000 <= u64::MAX,
    ensures
        ({
            let (first, tick) = op.next(ConnectReply::Tick(start));
            let (waiting, wait) = first.next(ConnectReply::Tick(now));
            let (failed, why) = waiting.next(ConnectReply::Waited(0));
            let (sleeping, sleep) = failed.next(ConnectReply::LastError(2));
            &&& tick == ConnectCall::Tick
            &&& now >= start + 10_000 ==> wait == ConnectCall::Finish(Err(IoError::Os(2)))
            &&& start <= now < start + 10_000 ==> wait == ConnectCall::WaitPipe {
                timeout_ms: (start + 10_000 - now) as u32,
            }
            &&& now < start ==> wait == ConnectCall::WaitPipe { timeout_ms: 10_000 }
            &&& now < start + 10_000 ==> {
                &&& why == ConnectCall::LastError
                &&& sleep == ConnectCall::Sleep { ms: 10 }
                &&& sleeping.next(ConnectReply::Slept) == (first, ConnectCall::Tick)
                &&& code != 2 ==> failed.next(ConnectReply::LastError(code)).1
                    == ConnectCall::Finish(Err(IoError::Os(code as i32)))
            }
        }),
{
}

/// A pipe that is there is opened to read and to write, for overlapped operations, and only
/// if it exists. What comes of connecting is a stream with the handle that the system gives,
/// or the error number if that handle is the invalid one.
pub proof fn law_pipe_that_is_there_is_opened(
    op: ConnectState,
    ok: i32,
    handle: isize,
    code: u32,
)
    requires
        op.phase is Waiting,
        ok != 0,
    ensures
        ({
            let (opening, open) = op.next(ConnectReply::Waited(ok));
            let (after, call) = opening.next(ConnectReply::Opened(handle));
            &&& open == ConnectCall::Open {
                access: 0xC000_0000,
                disposition: 3,
                flags: 0x4000_0080,
            }
            &&& handle != -1 ==> call == ConnectCall::Finish(Ok(PipeStream { handle }))
            &&& handle == -1 ==> {
                &&& call == ConnectCall::LastError
                &&& after.next(ConnectReply::LastError(code)).1 == ConnectCall::Finish(
                    Err(IoError::Os(code as i32)),
                )
            }
        }),
{
}

} // verus!
