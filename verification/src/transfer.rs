//! Reading from, writing to and peeking into a named pipe.
//!
//! All transfers are overlapped operations, so that a read can be given a time
//! limit. A [`Transfer`] says which system call to make next, the driver makes
//! it and hands back what it returned.

use crate::error::{win32_ok, IoError};
use vstd::prelude::*;

verus! {

/// The handle that stands for none.
pub const INVALID_HANDLE_VALUE: isize = -1;

/// The time limit that is none.
pub const INFINITE: u32 = 0xFFFF_FFFF;

/// What a wait returns when the object was signaled.
pub const WAIT_OBJECT_0: u32 = 0;

/// What a wait returns when the time was up.
pub const WAIT_TIMEOUT: u32 = 258;

/// The error number of an operation that goes on in the background.
pub const ERROR_IO_PENDING: u32 = 997;

/// The error number of a pipe whose client was there first.
pub const ERROR_PIPE_CONNECTED: u32 = 535;

/// The error number of a pipe whose other end is closed.
pub const ERROR_BROKEN_PIPE: u32 = 109;

/// The error number of an operation that was cancelled.
pub const ERROR_OPERATION_ABORTED: u32 = 995;

/// The error number of a pipe that does not exist.
pub const ERROR_FILE_NOT_FOUND: u32 = 2;

/// What the driver of a [`Transfer`] has to do next.
#[derive(Clone, Copy, Debug, PartialEq, Eq)]
pub enum IoCall {
    /// `CreateEventW`, for an event that is reset by hand.
    CreateEvent,
    /// `ReadFile`, with the event, for `len` bytes.
    Read { len: u32 },
    /// `WriteFile`, with the event, for `len` bytes.
    Write { len: u32 },
    /// `PeekNamedPipe`, for `len` bytes.
    Peek { len: u32 },
    /// `GetLastError`.
    LastError,
    /// `WaitForSingleObject`, for the event.
    Wait { timeout_ms: u32 },
    /// `CancelIoEx`, for the operation.
    Cancel,
    /// `GetOverlappedResult`, for the operation.
    Complete { wait: bool },
    /// Close the event if `close_event` says so; this is what came of the
    /// transfer. It is nothing if the time was up, no bytes if the other end is
    /// closed, and the number of bytes otherwise.
    Finish { outcome: Result<Option<usize>, IoError>, close_event: bool },
}

/// What an [`IoCall`] returned.
#[derive(Clone, Copy, Debug, PartialEq, Eq)]
pub enum IoReply {
    /// The event, or zero if there is none.
    Event(isize),
    /// Whether the operation is done, and how many bytes it was about.
    Issued { ok: i32, bytes: u32 },
    /// The error number.
    LastError(u32),
    /// How the wait ended.
    Waited(u32),
    /// The operation is being cancelled.
    Cancelled,
    /// Whether the operation has succeeded, and how many bytes it was about.
    Completed { ok: i32, bytes: u32 },
}

/// Which way bytes go.
#[derive(Clone, Copy, Debug, PartialEq, Eq)]
pub enum Direction {
    /// From the pipe, within `timeout_ms` milliseconds. Where time being up is
    /// no answer, `blocking` turns it into a closed pipe.
    Read { timeout_ms: u32, blocking: bool },
    /// To the pipe, however long it takes.
    Write,
    /// From the pipe, where they stay.
    Peek,
}

/// Which call a transfer waits for the outcome of.
#[derive(Clone, Copy, Debug, PartialEq, Eq)]
pub enum TransferPhase {
    /// [`IoCall::CreateEvent`].
    Creating,
    /// [`IoCall::LastError`], for there is no event.
    CreateFailed,
    /// [`IoCall::Read`], [`IoCall::Write`] or [`IoCall::Peek`].
    Issuing,
    /// [`IoCall::LastError`], for the operation is not done.
    IssueFailed,
    /// [`IoCall::Wait`].
    Waiting,
    /// [`IoCall::LastError`], for the wait went wrong.
    WaitFailed,
    /// [`IoCall::Cancel`].
    Cancelling,
    /// [`IoCall::Complete`], for a cancelled operation.
    Draining,
    /// [`IoCall::Complete`].
    Completing,
    /// [`IoCall::LastError`], for the operation went wrong.
    CompleteFailed,
    /// Nothing: the transfer is over.
    Finished,
}

/// Where one transfer of bytes stands.
#[derive(Clone, Copy, Debug, PartialEq, Eq)]
pub struct TransferState {
    /// Which way the bytes go.
    pub direction: Direction,
    /// The length of the buffer.
    pub len: usize,
    /// What the transfer waits for.
    pub phase: TransferPhase,
}

/// A length as system calls take it: its lower 32 bits.
pub open spec fn dword(len: usize) -> int {
    len as int % 0x1_0000_0000
}

/// A length as system calls take it.
fn to_dword(len: usize) -> (short: u32)
    ensures
        short == dword(len),
{
    let long: u64 = len as u64;
    let rest: u64 = long % 0x1_0000_0000;
    rest as u32
}

impl TransferState {
    /// The same transfer, in another phase.
    pub open spec fn at(self, phase: TransferPhase) -> TransferState {
        TransferState { phase, ..self }
    }

    /// Whether there is an event, which has to be closed.
    pub open spec fn has_event(self) -> bool {
        !(self.direction is Peek) && !(self.phase is Creating) && !(self.phase is CreateFailed)
            && !(self.phase is Finished)
    }

    /// Whether the operation goes on in the background: the system still uses
    /// the buffer.
    pub open spec fn is_outstanding(self) -> bool {
        self.phase is Waiting || self.phase is WaitFailed || self.phase is Cancelling
            || self.phase is Draining || self.phase is Completing
    }

    /// The transfer is over, with this outcome.
    pub open spec fn ending(self, outcome: Result<Option<usize>, IoError>) -> (TransferState, IoCall) {
        (
            self.at(TransferPhase::Finished),
            IoCall::Finish { outcome, close_event: self.has_event() },
        )
    }

    /// The operation is started.
    pub open spec fn issue(self) -> (TransferState, IoCall) {
        let len = dword(self.len) as u32;
        (
            self.at(TransferPhase::Issuing),
            match self.direction {
                Direction::Read { .. } => IoCall::Read { len },
                Direction::Write => IoCall::Write { len },
                Direction::Peek => IoCall::Peek { len },
            },
        )
    }

    /// How a transfer begins: without a buffer there is nothing to do.
    pub open spec fn begin(direction: Direction, len: usize) -> (TransferState, IoCall) {
        let transfer = TransferState { direction, len, phase: TransferPhase::Creating };
        if len == 0 {
            transfer.ending(Ok(Some(0)))
        } else if direction is Peek {
            transfer.issue()
        } else {
            (transfer, IoCall::CreateEvent)
        }
    }

    /// Whether `reply` is an outcome of the call that the transfer waits for.
    pub open spec fn fits(self, reply: IoReply) -> bool {
        match self.phase {
            TransferPhase::Creating => reply is Event,
            TransferPhase::Issuing => reply is Issued,
            TransferPhase::Waiting => reply is Waited,
            TransferPhase::Cancelling => reply is Cancelled,
            TransferPhase::Draining => reply is Completed,
            TransferPhase::Completing => reply is Completed,
            TransferPhase::Finished => false,
            _ => reply is LastError,
        }
    }

    /// What follows when the operation could not be done at once, for the reason
    /// that the error number `code` gives.
    pub open spec fn issue_failed(self, code: u32) -> (TransferState, IoCall) {
        match self.direction {
            Direction::Read { timeout_ms, .. } => if code == ERROR_IO_PENDING {
                (self.at(TransferPhase::Waiting), IoCall::Wait { timeout_ms })
            } else if code == ERROR_BROKEN_PIPE {
                self.ending(Ok(Some(0)))
            } else {
                self.ending(Err(IoError::Os(code as i32)))
            },
            Direction::Write => if code == ERROR_IO_PENDING {
                (self.at(TransferPhase::Completing), IoCall::Complete { wait: true })
            } else {
                self.ending(Err(IoError::Os(code as i32)))
            },
            Direction::Peek => if code == ERROR_BROKEN_PIPE {
                self.ending(Ok(Some(0)))
            } else {
                self.ending(Err(IoError::Os(code as i32)))
            },
        }
    }

    /// What a read whose time was up has come to.
    pub open spec fn timed_out(self) -> Option<usize> {
        match self.direction {
            Direction::Read { blocking: true, .. } => Some(0),
            _ => None,
        }
    }

    /// Whether the error number `code` at the end of an operation only says that
    /// the other end is closed.
    pub open spec fn is_end(self, code: u32) -> bool {
        self.direction is Read && (code == ERROR_BROKEN_PIPE || code == ERROR_OPERATION_ABORTED)
    }

    /// What follows on the outcome `reply` of the call that is waited for.
    pub open spec fn next(self, reply: IoReply) -> (TransferState, IoCall) {
        match (self.phase, reply) {
            (TransferPhase::Creating, IoReply::Event(event)) => if event == 0 {
                (self.at(TransferPhase::CreateFailed), IoCall::LastError)
            } else {
                self.issue()
            },
            (TransferPhase::CreateFailed, IoReply::LastError(code)) => self.ending(
                Err(IoError::Os(code as i32)),
            ),
            (TransferPhase::Issuing, IoReply::Issued { ok, bytes }) => if ok != 0 {
                self.ending(Ok(Some(bytes as usize)))
            } else {
                (self.at(TransferPhase::IssueFailed), IoCall::LastError)
            },
            (TransferPhase::IssueFailed, IoReply::LastError(code)) => self.issue_failed(code),
            (TransferPhase::Waiting, IoReply::Waited(how)) => if how == WAIT_TIMEOUT {
                (self.at(TransferPhase::Cancelling), IoCall::Cancel)
            } else if how == WAIT_OBJECT_0 {
                (self.at(TransferPhase::Completing), IoCall::Complete { wait: false })
            } else {
                (self.at(TransferPhase::WaitFailed), IoCall::LastError)
            },
            (TransferPhase::WaitFailed, IoReply::LastError(code)) => self.ending(
                Err(IoError::Os(code as i32)),
            ),
            (TransferPhase::Cancelling, IoReply::Cancelled) => (
                self.at(TransferPhase::Draining),
                IoCall::Complete { wait: true },
            ),
            (TransferPhase::Draining, IoReply::Completed { .. }) => self.ending(
                Ok(self.timed_out()),
            ),
            (TransferPhase::Completing, IoReply::Completed { ok, bytes }) => if ok != 0 {
                self.ending(Ok(Some(bytes as usize)))
            } else {
                (self.at(TransferPhase::CompleteFailed), IoCall::LastError)
            },
            (TransferPhase::CompleteFailed, IoReply::LastError(code)) => if self.is_end(code) {
                self.ending(Ok(Some(0)))
            } else {
                self.ending(Err(IoError::Os(code as i32)))
            },
            _ => self.ending(Err(IoError::Driver)),
        }
    }
}

/// One transfer of bytes.
#[derive(Debug, PartialEq, Eq)]
pub struct Transfer {
    state: TransferState,
}

impl View for Transfer {
    type V = TransferState;

    closed spec fn view(&self) -> TransferState {
        self.state
    }
}

impl Transfer {
    fn finish(&mut self, outcome: Result<Option<usize>, IoError>) -> (call: IoCall)
        ensures
            (final(self)@, call) == old(self)@.ending(outcome),
    {
        let close_event = match self.state.direction {
            Direction::Peek => false,
            _ => match self.state.phase {
                TransferPhase::Creating => false,
                TransferPhase::CreateFailed => false,
                TransferPhase::Finished => false,
                _ => true,
            },
        };
        self.state.phase = TransferPhase::Finished;
        IoCall::Finish { outcome, close_event }
    }

    fn fail(&mut self, code: u32) -> (call: IoCall)
        ensures
            (final(self)@, call) == old(self)@.ending(Err(IoError::Os(code as i32))),
    {
        self.finish(Err(IoError::from_code(code)))
    }

    fn ask(&mut self, phase: TransferPhase, call: IoCall) -> (asked: IoCall)
        ensures
            (final(self)@, asked) == (old(self)@.at(phase), call),
    {
        self.state.phase = phase;
        call
    }

    fn issue_now(&mut self) -> (call: IoCall)
        ensures
            (final(self)@, call) == old(self)@.issue(),
    {
        let len: u32 = to_dword(self.state.len);
        let call = match self.state.direction {
            Direction::Read { .. } => IoCall::Read { len },
            Direction::Write => IoCall::Write { len },
            Direction::Peek => IoCall::Peek { len },
        };
        self.ask(TransferPhase::Issuing, call)
    }

    /// Begins a transfer with a buffer of `len` bytes.
    pub fn start(direction: Direction, len: usize) -> (started: (Transfer, IoCall))
        ensures
            (started.0@, started.1) == TransferState::begin(direction, len),
    {
        let mut transfer = Transfer {
            state: TransferState { direction, len, phase: TransferPhase::Creating },
        };
        let call = if len == 0 {
            transfer.finish(Ok(Some(0)))
        } else {
            match direction {
                Direction::Peek => transfer.issue_now(),
                _ => IoCall::CreateEvent,
            }
        };
        (transfer, call)
    }

    /// Takes what the system call returned, and says which one to make next.
    pub fn step(&mut self, reply: IoReply) -> (call: IoCall)
        requires
            old(self)@.fits(reply),
        ensures
            (final(self)@, call) == old(self)@.next(reply),
    {
        match (self.state.phase, reply) {
            (TransferPhase::Creating, IoReply::Event(event)) => if event == 0 {
                self.ask(TransferPhase::CreateFailed, IoCall::LastError)
            } else {
                self.issue_now()
            },
            (TransferPhase::CreateFailed, IoReply::LastError(code)) => self.fail(code),
            (TransferPhase::Issuing, IoReply::Issued { ok, bytes }) => if ok != 0 {
                self.finish(Ok(Some(bytes as usize)))
            } else {
                self.ask(TransferPhase::IssueFailed, IoCall::LastError)
            },
            (TransferPhase::IssueFailed, IoReply::LastError(code)) => match self.state.direction {
                Direction::Read { timeout_ms, .. } => if code == ERROR_IO_PENDING {
                    self.ask(TransferPhase::Waiting, IoCall::Wait { timeout_ms })
                } else if code == ERROR_BROKEN_PIPE {
                    self.finish(Ok(Some(0)))
                } else {
                    self.fail(code)
                },
                Direction::Write => if code == ERROR_IO_PENDING {
                    self.ask(TransferPhase::Completing, IoCall::Complete { wait: true })
                } else {
                    self.fail(code)
                },
                Direction::Peek => if code == ERROR_BROKEN_PIPE {
                    self.finish(Ok(Some(0)))
                } else {
                    self.fail(code)
                },
            },
            (TransferPhase::Waiting, IoReply::Waited(how)) => if how == WAIT_TIMEOUT {
                self.ask(TransferPhase::Cancelling, IoCall::Cancel)
            } else if how == WAIT_OBJECT_0 {
                self.ask(TransferPhase::Completing, IoCall::Complete { wait: false })
            } else {
                self.ask(TransferPhase::WaitFailed, IoCall::LastError)
            },
            (TransferPhase::WaitFailed, IoReply::LastError(code)) => self.fail(code),
            (TransferPhase::Cancelling, IoReply::Cancelled) => self.ask(
                TransferPhase::Draining,
                IoCall::Complete { wait: true },
            ),
            (TransferPhase::Draining, IoReply::Completed { .. }) => {
                let late = match self.state.direction {
                    Direction::Read { blocking: true, .. } => Some(0),
                    _ => None,
                };
                self.finish(Ok(late))
            },
            (TransferPhase::Completing, IoReply::Completed { ok, bytes }) => if ok != 0 {
                self.finish(Ok(Some(bytes as usize)))
            } else {
                self.ask(TransferPhase::CompleteFailed, IoCall::LastError)
            },
            (TransferPhase::CompleteFailed, IoReply::LastError(code)) => {
                let closed = match self.state.direction {
                    Direction::Read { .. } => code == ERROR_BROKEN_PIPE || code
                        == ERROR_OPERATION_ABORTED,
                    _ => false,
                };
                if closed {
                    self.finish(Ok(Some(0)))
                } else {
                    self.fail(code)
                }
            },
            _ => self.finish(Err(IoError::Driver)),
        }
    }
}

/// One end of a connected pipe.
#[derive(Clone, Copy, Debug, PartialEq, Eq, Structural)]
pub struct PipeStream {
    /// The handle of the pipe.
    pub handle: isize,
}

/// Whether a handle is one that has to be closed.
pub open spec fn is_open(handle: isize) -> bool {
    handle != INVALID_HANDLE_VALUE && handle != 0
}

/// Whether a handle is one that has to be closed.
pub fn handle_is_open(handle: isize) -> (yes: bool)
    ensures
        yes == is_open(handle),
{
    handle != INVALID_HANDLE_VALUE && handle != 0
}

impl PipeStream {
    /// The process of the client at the other end, from what
    /// `GetNamedPipeClientProcessId` returned and wrote.
    pub fn client_pid(&self, ok: i32, pid: u32) -> (client: Result<u32, IoError>)
        ensures
            ok != 0 ==> client == Ok::<u32, IoError>(pid),
            ok == 0 ==> (client matches Err(error) && error is Os),
    {
        match win32_ok(ok) {
            Ok(_) => Ok(pid),
            Err(error) => Err(error),
        }
    }

    /// Begins to look at up to `len` bytes without taking them.
    pub fn peek(&self, len: usize) -> (started: (Transfer, IoCall))
        ensures
            (started.0@, started.1) == TransferState::begin(Direction::Peek, len),
    {
        Transfer::start(Direction::Peek, len)
    }

    /// Begins to read up to `len` bytes, however long it takes.
    pub fn recv(&self, len: usize) -> (started: (Transfer, IoCall))
        ensures
            (started.0@, started.1) == TransferState::begin(
                Direction::Read { timeout_ms: INFINITE, blocking: true },
                len,
            ),
    {
        Transfer::start(Direction::Read { timeout_ms: INFINITE, blocking: true }, len)
    }

    /// Begins to read up to `len` bytes, within `timeout_ms` milliseconds.
    pub fn recv_timeout_ms(&self, len: usize, timeout_ms: u32) -> (started: (Transfer, IoCall))
        ensures
            (started.0@, started.1) == TransferState::begin(Direction::Read { timeout_ms, blocking: false }, len),
    {
        Transfer::start(Direction::Read { timeout_ms, blocking: false }, len)
    }

    /// Begins to write `len` bytes.
    pub fn send(&self, len: usize) -> (started: (Transfer, IoCall))
        ensures
            (started.0@, started.1) == TransferState::begin(Direction::Write, len),
    {
        Transfer::start(Direction::Write, len)
    }

    /// Begins to read into buffers of the lengths `lens`, one after the other.
    pub fn recv_vectored(&self, lens: Vec<usize>) -> (vectored: Vectored)
        ensures
            vectored@ == VectoredState::begin(lens@, true),
            vectored@.wf(),
    {
        Vectored::start(lens, true)
    }

    /// Begins to write buffers of the lengths `lens`, one after the other.
    pub fn send_vectored(&self, lens: Vec<usize>) -> (vectored: Vectored)
        ensures
            vectored@ == VectoredState::begin(lens@, false),
            vectored@.wf(),
    {
        Vectored::start(lens, false)
    }
}

/// What came of transferring buffers of the lengths `lens` one after the other,
/// from the buffer `from` on, after `total` bytes; `results(i)` is what came of
/// the buffer `i`. Empty buffers are skipped. The transfer stops at an error, and
/// at a closed pipe if `stops_at_zero`; an error counts only if nothing has been
/// transferred before.
pub open spec fn vectored_outcome(
    lens: Seq<usize>,
    results: spec_fn(int) -> Result<usize, IoError>,
    from: int,
    total: int,
    stops_at_zero: bool,
) -> Result<int, IoError>
    decreases lens.len() - from,
{
    if from >= lens.len() {
        Ok(total)
    } else if lens[from] == 0 {
        vectored_outcome(lens, results, from + 1, total, stops_at_zero)
    } else {
        match results(from) {
            Ok(n) => if n == 0 && stops_at_zero {
                Ok(total)
            } else {
                vectored_outcome(lens, results, from + 1, total + n, stops_at_zero)
            },
            Err(error) => if total > 0 {
                Ok(total)
            } else {
                Err(error)
            },
        }
    }
}

/// The first buffer from `from` on that is not empty, or the number of buffers if
/// there is none.
pub open spec fn next_buffer(lens: Seq<usize>, from: int) -> int
    decreases lens.len() - from,
{
    if from >= lens.len() {
        lens.len() as int
    } else if lens[from] == 0 {
        next_buffer(lens, from + 1)
    } else {
        from
    }
}

/// The state of a transfer of several buffers.
#[verifier::ext_equal]
pub struct VectoredState {
    /// The lengths of the buffers.
    pub lens: Seq<usize>,
    /// The buffer whose turn it is.
    pub next: int,
    /// How many bytes have been transferred.
    pub total: int,
    /// Whether a closed pipe ends the transfer.
    pub stops_at_zero: bool,
    /// What came of the transfer, once it is over.
    pub done: Option<Result<int, IoError>>,
}

impl VectoredState {
    /// A transfer that is not over is at a buffer that is not empty.
    pub open spec fn wf(self) -> bool {
        self.done is None ==> 0 <= self.next < self.lens.len() && self.lens[self.next] != 0
    }

    /// The transfer is over, with this outcome.
    pub open spec fn ending(self, outcome: Result<int, IoError>) -> VectoredState {
        VectoredState { done: Some(outcome), ..self }
    }

    /// The transfer turns to the first buffer from `from` on that is not empty;
    /// without one it is over.
    pub open spec fn turning_to(self, from: int) -> VectoredState {
        let state = VectoredState { next: next_buffer(self.lens, from), ..self };
        if state.next >= self.lens.len() {
            state.ending(Ok(self.total))
        } else {
            state
        }
    }

    /// How a transfer of buffers of the lengths `lens` begins.
    pub open spec fn begin(lens: Seq<usize>, stops_at_zero: bool) -> VectoredState {
        VectoredState { lens, next: 0, total: 0, stops_at_zero, done: None }.turning_to(0)
    }

    /// What follows when `result` came of the buffer whose turn it is.
    pub open spec fn after(self, result: Result<usize, IoError>) -> VectoredState {
        match result {
            Ok(n) => if n == 0 && self.stops_at_zero {
                self.ending(Ok(self.total))
            } else {
                VectoredState { total: self.total + n, ..self }.turning_to(self.next + 1)
            },
            Err(error) => if self.total > 0 {
                self.ending(Ok(self.total))
            } else {
                self.ending(Err(error))
            },
        }
    }

    /// What comes of the transfer if `results(i)` comes of the buffer `i`.
    pub open spec fn outcome(
        self,
        results: spec_fn(int) -> Result<usize, IoError>,
    ) -> Result<int, IoError> {
        match self.done {
            Some(outcome) => outcome,
            None => vectored_outcome(
                self.lens,
                results,
                self.next,
                self.total,
                self.stops_at_zero,
            ),
        }
    }
}

/// A transfer of several buffers, one after the other.
#[derive(Debug)]
pub struct Vectored {
    lens: Vec<usize>,
    next: usize,
    total: usize,
    stops_at_zero: bool,
    done: Option<Result<usize, IoError>>,
}

/// What came of a transfer, over the integers.
pub open spec fn widened(done: Option<Result<usize, IoError>>) -> Option<Result<int, IoError>> {
    match done {
        None => None,
        Some(Ok(n)) => Some(Ok(n as int)),
        Some(Err(error)) => Some(Err(error)),
    }
}

impl View for Vectored {
    type V = VectoredState;

    closed spec fn view(&self) -> VectoredState {
        VectoredState {
            lens: self.lens@,
            next: self.next as int,
            total: self.total as int,
            stops_at_zero: self.stops_at_zero,
            done: widened(self.done),
        }
    }
}

impl Vectored {
    /// Turns to the next buffer that is not empty; without one the transfer is
    /// over.
    fn turn_to(&mut self, from: usize)
        requires
            old(self)@.done is None,
            from <= old(self)@.lens.len(),
        ensures
            final(self)@ == old(self)@.turning_to(from as int),
            final(self)@.wf(),
    {
        let mut i: usize = from;
        while i < self.lens.len() && self.lens[i] == 0
            invariant
                *self == *old(self),
                i <= self.lens@.len(),
                next_buffer(self.lens@, i as int) == next_buffer(self.lens@, from as int),
            decreases self.lens@.len() - i,
        {
            i = i + 1;
        }
        self.next = i;
        if i >= self.lens.len() {
            self.done = Some(Ok(self.total));
        }
    }

    fn start(lens: Vec<usize>, stops_at_zero: bool) -> (vectored: Vectored)
        ensures
            vectored@ == VectoredState::begin(lens@, stops_at_zero),
            vectored@.wf(),
    {
        let mut vectored = Vectored { lens, next: 0, total: 0, stops_at_zero, done: None };
        vectored.turn_to(0);
        vectored
    }

    /// The buffer whose turn it is, if the transfer is not over.
    pub fn pending(&self) -> (buffer: Option<usize>)
        ensures
            match buffer {
                Some(i) => self@.done is None && i == self@.next,
                None => self@.done is Some,
            },
    {
        match self.done {
            None => Some(self.next),
            Some(_) => None,
        }
    }

    /// How many bytes have been transferred.
    pub fn transferred(&self) -> (total: usize)
        ensures
            total == self@.total,
    {
        self.total
    }

    /// What came of the transfer, if it is over.
    pub fn result(&self) -> (result: Option<Result<usize, IoError>>)
        ensures
            widened(result) == self@.done,
    {
        self.done
    }

    /// Takes what came of the buffer whose turn it is.
    pub fn complete(&mut self, result: Result<usize, IoError>)
        requires
            old(self)@.wf(),
            old(self)@.done is None,
            result matches Ok(n) ==> old(self)@.total + n <= usize::MAX,
        ensures
            final(self)@ == old(self)@.after(result),
            final(self)@.wf(),
    {
        match result {
            Ok(n) => {
                if n == 0 && self.stops_at_zero {
                    self.done = Some(Ok(self.total));
                } else {
                    let count: usize = self.lens.len();
                    assert(self.next < count);
                    self.total = self.total + n;
                    self.turn_to(self.next + 1);
                }
            },
            Err(error) => {
                self.done = if self.total > 0 {
                    Some(Ok(self.total))
                } else {
                    Some(Err(error))
                };
            },
        }
    }
}

/// What the system calls of a read, a write or a peek return when they are made.
pub struct Answers {
    /// What `CreateEventW` returns.
    pub event: isize,
    /// The error number if there is no event.
    pub event_error: u32,
    /// What starting the operation returns.
    pub issued: i32,
    /// How many bytes it was about, if it was done at once.
    pub issued_bytes: u32,
    /// The error number if it was not.
    pub issue_error: u32,
    /// What waiting returns.
    pub waited: u32,
    /// The error number if the wait went wrong.
    pub wait_error: u32,
    /// What asking for the result returns.
    pub completed: i32,
    /// How many bytes the operation was about.
    pub completed_bytes: u32,
    /// The error number if the operation went wrong.
    pub complete_error: u32,
}

/// What the call that `transfer` waits for returns.
pub open spec fn reply_of(answers: Answers, transfer: TransferState) -> IoReply {
    match transfer.phase {
        TransferPhase::Creating => IoReply::Event(answers.event),
        TransferPhase::CreateFailed => IoReply::LastError(answers.event_error),
        TransferPhase::Issuing => IoReply::Issued {
            ok: answers.issued,
            bytes: answers.issued_bytes,
        },
        TransferPhase::IssueFailed => IoReply::LastError(answers.issue_error),
        TransferPhase::Waiting => IoReply::Waited(answers.waited),
        TransferPhase::WaitFailed => IoReply::LastError(answers.wait_error),
        TransferPhase::Cancelling => IoReply::Cancelled,
        TransferPhase::CompleteFailed => IoReply::LastError(answers.complete_error),
        _ => IoReply::Completed { ok: answers.completed, bytes: answers.completed_bytes },
    }
}

/// What `transfer`, whose last call was `call`, comes to within `steps` steps.
pub open spec fn driven(transfer: TransferState, call: IoCall, answers: Answers, steps: nat) -> IoCall
    decreases steps,
{
    if call is Finish || steps == 0 {
        call
    } else {
        let (after, following) = transfer.next(reply_of(answers, transfer));
        driven(after, following, answers, (steps - 1) as nat)
    }
}

/// What a read returns: how many bytes it read, none if the pipe is closed, and
/// nothing if there were none in time.
pub open spec fn read_outcome(len: usize, answers: Answers) -> Result<Option<usize>, IoError> {
    if len == 0 {
        Ok(Some(0))
    } else if answers.event == 0 {
        Err(IoError::Os(answers.event_error as i32))
    } else if answers.issued != 0 {
        Ok(Some(answers.issued_bytes as usize))
    } else if answers.issue_error == ERROR_BROKEN_PIPE {
        Ok(Some(0))
    } else if answers.issue_error != ERROR_IO_PENDING {
        Err(IoError::Os(answers.issue_error as i32))
    } else if answers.waited == WAIT_TIMEOUT {
        Ok(None)
    } else if answers.waited != WAIT_OBJECT_0 {
        Err(IoError::Os(answers.wait_error as i32))
    } else if answers.completed != 0 {
        Ok(Some(answers.completed_bytes as usize))
    } else if answers.complete_error == ERROR_BROKEN_PIPE || answers.complete_error
        == ERROR_OPERATION_ABORTED {
        Ok(Some(0))
    } else {
        Err(IoError::Os(answers.complete_error as i32))
    }
}

/// What a write returns: how many bytes it wrote.
pub open spec fn write_outcome(len: usize, answers: Answers) -> Result<Option<usize>, IoError> {
    if len == 0 {
        Ok(Some(0))
    } else if answers.event == 0 {
        Err(IoError::Os(answers.event_error as i32))
    } else if answers.issued != 0 {
        Ok(Some(answers.issued_bytes as usize))
    } else if answers.issue_error != ERROR_IO_PENDING {
        Err(IoError::Os(answers.issue_error as i32))
    } else if answers.completed != 0 {
        Ok(Some(answers.completed_bytes as usize))
    } else {
        Err(IoError::Os(answers.complete_error as i32))
    }
}

/// What a peek returns: how many bytes there are, none if the pipe is closed.
pub open spec fn peek_outcome(len: usize, answers: Answers) -> Result<Option<usize>, IoError> {
    if len == 0 {
        Ok(Some(0))
    } else if answers.issued != 0 {
        Ok(Some(answers.issued_bytes as usize))
    } else if answers.issue_error == ERROR_BROKEN_PIPE {
        Ok(Some(0))
    } else {
        Err(IoError::Os(answers.issue_error as i32))
    }
}

/// A read comes to an end after six system calls at the latest, whatever they
/// return, and its outcome is [`read_outcome`]; where time being up is no answer,
/// a read that it happens to has read nothing.
pub proof fn law_read_outcome(timeout_ms: u32, blocking: bool, len: usize, answers: Answers)
    ensures
        ({
            let (transfer, call) = TransferState::begin(Direction::Read { timeout_ms, blocking }, len);
            driven(transfer, call, answers, 7) matches IoCall::Finish { outcome, close_event } && {
                &&& outcome == match read_outcome(len, answers) {
                    Ok(None) => if blocking {
                        Ok(Some(0))
                    } else {
                        Ok(None)
                    },
                    other => other,
                }
                &&& close_event == (len != 0 && answers.event != 0)
            }
        }),
{
    reveal_with_fuel(driven, 8);
}

/// A write comes to an end after five system calls at the latest, whatever they
/// return, and its outcome is [`write_outcome`].
pub proof fn law_write_outcome(len: usize, answers: Answers)
    ensures
        ({
            let (transfer, call) = TransferState::begin(Direction::Write, len);
            driven(transfer, call, answers, 6) matches IoCall::Finish { outcome, close_event } && {
                &&& outcome == write_outcome(len, answers)
                &&& close_event == (len != 0 && answers.event != 0)
            }
        }),
{
    reveal_with_fuel(driven, 7);
}

/// A peek comes to an end after two system calls at the latest, whatever they
/// return, and its outcome is [`peek_outcome`].
pub proof fn law_peek_outcome(len: usize, answers: Answers)
    ensures
        ({
            let (transfer, call) = TransferState::begin(Direction::Peek, len);
            driven(transfer, call, answers, 3) == IoCall::Finish {
                outcome: peek_outcome(len, answers),
                close_event: false,
            }
        }),
{
    reveal_with_fuel(driven, 4);
}

/// A peek only peeks: it takes nothing from the pipe, starts nothing that goes on in
/// the background, and waits for nothing. It makes one call to peek and, if that
/// fails, one for the reason.
pub proof fn law_peek_only_peeks(len: usize, transfer: TransferState, reply: IoReply)
    requires
        transfer.direction is Peek,
        transfer.phase is Issuing || transfer.phase is IssueFailed,
        transfer.fits(reply),
    ensures
        len > 0 ==> TransferState::begin(Direction::Peek, len) == (
            TransferState { direction: Direction::Peek, len, phase: TransferPhase::Issuing },
            IoCall::Peek { len: dword(len) as u32 },
        ),
        transfer.next(reply).0.direction is Peek,
        match transfer.next(reply).1 {
            IoCall::LastError => transfer.phase is Issuing && transfer.next(
                reply,
            ).0.phase is IssueFailed,
            IoCall::Finish { outcome, close_event } => !close_event,
            _ => false,
        },
{
}

/// What is left of the bytes that wait in a pipe after `call`, which moved `moved` of
/// them: only reading takes bytes out.
pub open spec fn left_in_pipe(waiting: Seq<u8>, call: IoCall, moved: int) -> Seq<u8> {
    match call {
        IoCall::Read { .. } => waiting.skip(moved),
        _ => waiting,
    }
}

/// How many bytes a look into a pipe finds, with room for `len` of them.
pub open spec fn in_sight(waiting: Seq<u8>, len: usize) -> int {
    if waiting.len() < len {
        waiting.len() as int
    } else {
        len as int
    }
}

/// Two peeks agree: the first takes nothing out of the pipe, so that the second sees all
/// that the first saw, and what has come since. `first` and `second` are what the system
/// calls of an open pipe return that holds `waiting`, and then `later`.
pub proof fn law_peeks_agree(
    len: usize,
    waiting: Seq<u8>,
    later: Seq<u8>,
    first: Answers,
    second: Answers,
)
    requires
        0 < len <= u32::MAX,
        first.issued != 0,
        first.issued_bytes == in_sight(waiting, len),
        left_in_pipe(
            waiting,
            TransferState::begin(Direction::Peek, len).1,
            first.issued_bytes as int,
        ).is_prefix_of(later),
        second.issued != 0,
        second.issued_bytes == in_sight(later, len),
    ensures
        ({
            let (peek, call) = TransferState::begin(Direction::Peek, len);
            let n = in_sight(waiting, len);
            let m = in_sight(later, len);
            &&& driven(peek, call, first, 3) == IoCall::Finish {
                outcome: Ok(Some(n as usize)),
                close_event: false,
            }
            &&& driven(peek, call, second, 3) == IoCall::Finish {
                outcome: Ok(Some(m as usize)),
                close_event: false,
            }
            &&& n <= m <= len
            &&& later.take(n) == waiting.take(n)
        }),
{
    law_peek_outcome(len, first);
    law_peek_outcome(len, second);
    assert(later.take(in_sight(waiting, len)) =~= waiting.take(in_sight(waiting, len)));
}

/// A transfer without a buffer makes no system call.
pub proof fn law_empty_buffer_needs_no_call(direction: Direction)
    ensures
        TransferState::begin(direction, 0).1 == (IoCall::Finish {
            outcome: Ok(Some(0)),
            close_event: false,
        }),
{
}

/// A transfer gives the buffer back only when the system has let go of it: the
/// operation was done at once, was refused, or has been waited for after it was
/// cancelled. A wait that goes wrong is left out: it ends the transfer with the
/// operation still under way.
pub proof fn law_buffer_is_free_at_the_end(transfer: TransferState, reply: IoReply)
    requires
        transfer.fits(reply),
        !(transfer.phase is WaitFailed),
        transfer.next(reply).1 is Finish,
    ensures
        transfer.is_outstanding() ==> reply is Completed,
{
}

/// A read whose time is up is cancelled, and waited for, before it ends.
pub proof fn law_late_read_is_cancelled(transfer: TransferState, ok: i32, bytes: u32)
    requires
        transfer.phase is Waiting,
    ensures
        ({
            let (late, first) = transfer.next(IoReply::Waited(WAIT_TIMEOUT));
            let (cancelled, second) = late.next(IoReply::Cancelled);
            let (over, third) = cancelled.next(IoReply::Completed { ok, bytes });
            &&& first == IoCall::Cancel
            &&& second == IoCall::Complete { wait: true }
            &&& third matches IoCall::Finish { outcome, .. } && outcome == Ok::<
                Option<usize>,
                IoError,
            >(transfer.timed_out())
        }),
{
}

/// The next buffer that is not empty is where one is expected, and leaving out the
/// empty ones before it changes nothing.
proof fn lemma_next_buffer(
    lens: Seq<usize>,
    results: spec_fn(int) -> Result<usize, IoError>,
    from: int,
    total: int,
    stops_at_zero: bool,
)
    requires
        0 <= from <= lens.len(),
    ensures
        from <= next_buffer(lens, from) <= lens.len(),
        next_buffer(lens, from) < lens.len() ==> lens[next_buffer(lens, from)] != 0,
        vectored_outcome(lens, results, from, total, stops_at_zero) == vectored_outcome(
            lens,
            results,
            next_buffer(lens, from),
            total,
            stops_at_zero,
        ),
    decreases lens.len() - from,
{
    if from < lens.len() && lens[from] == 0 {
        lemma_next_buffer(lens, results, from + 1, total, stops_at_zero);
    }
}

/// Transferring several buffers one after the other, each with what comes of it,
/// comes to [`vectored_outcome`], and gets there: every buffer ends the transfer or
/// is left behind.
pub proof fn law_vectored_outcome(
    lens: Seq<usize>,
    stops_at_zero: bool,
    state: VectoredState,
    results: spec_fn(int) -> Result<usize, IoError>,
)
    requires
        state.wf(),
        state.done is None,
    ensures
        VectoredState::begin(lens, stops_at_zero).outcome(results) == vectored_outcome(
            lens,
            results,
            0,
            0,
            stops_at_zero,
        ),
        state.after(results(state.next)).outcome(results) == state.outcome(results),
        state.after(results(state.next)).done is Some || state.next < state.after(
            results(state.next),
        ).next,
{
    lemma_next_buffer(lens, results, 0, 0, stops_at_zero);
    if let Ok(n) = results(state.next) {
        lemma_next_buffer(
            state.lens,
            results,
            state.next + 1,
            state.total + n,
            state.stops_at_zero,
        );
    }
}

/// The bytes of several buffers, one after the other, from the buffer `from` on.
pub open spec fn room(lens: Seq<usize>, from: int) -> int
    decreases lens.len() - from,
{
    if from >= lens.len() {
        0
    } else {
        lens[from] + room(lens, from + 1)
    }
}

/// A transfer of several buffers never counts more bytes than they have room for,
/// as long as no single transfer does. It fails only with the error of one of the
/// buffers, and not if bytes were transferred before the first of them.
pub proof fn law_vectored_counts_within_room(
    lens: Seq<usize>,
    results: spec_fn(int) -> Result<usize, IoError>,
    from: int,
    total: int,
    stops_at_zero: bool,
)
    requires
        forall|i: int|
            0 <= i < lens.len() ==> (#[trigger] results(i) matches Ok(n) ==> n <= lens[i]),
        0 <= from,
        0 <= total,
    ensures
        vectored_outcome(lens, results, from, total, stops_at_zero) matches Ok(n) ==> total <= n
            <= total + room(lens, from),
        vectored_outcome(lens, results, from, total, stops_at_zero) matches Err(error) ==> total
            == 0 && exists|i: int|
            from <= i < lens.len() && #[trigger] results(i) == Err::<usize, IoError>(error),
    decreases lens.len() - from,
{
    lemma_room(lens, from);
    if from < lens.len() {
        lemma_room(lens, from + 1);
        if lens[from] == 0 {
            law_vectored_counts_within_room(lens, results, from + 1, total, stops_at_zero);
        } else {
            match results(from) {
                Ok(n) => {
                    law_vectored_counts_within_room(
                        lens,
                        results,
                        from + 1,
                        total + n,
                        stops_at_zero,
                    );
                },
                Err(_) => {},
            }
        }
    }
}

/// There is no less room than none.
proof fn lemma_room(lens: Seq<usize>, from: int)
    ensures
        room(lens, from) >= 0,
    decreases lens.len() - from,
{
    if from < lens.len() {
        lemma_room(lens, from + 1);
    }
}

/// The numbers that the system gives its conditions.
pub proof fn law_numbers_of_the_system()
    ensures
        INVALID_HANDLE_VALUE == -1,
        INFINITE == 0xFFFF_FFFF,
        WAIT_OBJECT_0 == 0,
        WAIT_TIMEOUT == 258,
        ERROR_IO_PENDING == 997,
        ERROR_PIPE_CONNECTED == 535,
        ERROR_BROKEN_PIPE == 109,
        ERROR_OPERATION_ABORTED == 995,
        ERROR_FILE_NOT_FOUND == 2,
        forall|handle: isize| #[trigger] is_open(handle) <==> handle != -1 && handle != 0,
{
}

/// The system call that starts a transfer is asked for as many bytes as the buffer holds.
/// It takes a number of 32 bits, so of a longer buffer it is asked for what is left over
/// when as many whole multiples of 2 to the power of 32 as possible are taken off.
pub proof fn law_system_is_asked_for_the_whole_buffer(
    direction: Direction,
    len: usize,
    event: isize,
)
    requires
        len > 0,
        event != 0,
    ensures
        ({
            let (created, first) = TransferState::begin(direction, len);
            let (issued, call) = if direction is Peek {
                (created, first)
            } else {
                created.next(IoReply::Event(event))
            };
            let asked = match call {
                IoCall::Read { len } => len,
                IoCall::Write { len } => len,
                IoCall::Peek { len } => len,
                _ => 0,
            };
            &&& !(direction is Peek) ==> first == IoCall::CreateEvent
            &&& direction is Read <==> call is Read
            &&& direction is Write <==> call is Write
            &&& direction is Peek <==> call is Peek
            &&& len <= u32::MAX ==> asked == len
            &&& exists|k: int| #[trigger] (k * 0x1_0000_0000) == len - asked
            &&& issued.phase is Issuing
            &&& issued.len == len
            &&& issued.direction == direction
        }),
{
    let k = len as int / 0x1_0000_0000;
    assert(k * 0x1_0000_0000 == len - dword(len));
    assert(0 <= dword(len) <= u32::MAX);
}

/// A transfer without an event to wait for does not begin, and nothing is to be closed.
pub proof fn law_no_transfer_without_an_event(transfer: TransferState, code: u32)
    requires
        transfer.phase is Creating,
    ensures
        ({
            let (failed, call) = transfer.next(IoReply::Event(0));
            &&& call == IoCall::LastError
            &&& failed.next(IoReply::LastError(code)).1 == IoCall::Finish {
                outcome: Err(IoError::Os(code as i32)),
                close_event: false,
            }
        }),
{
}

/// What comes of a transfer that is done at once is the number of bytes that the system
/// gives; the event is closed, where there is one.
pub proof fn law_done_at_once(transfer: TransferState, ok: i32, bytes: u32)
    requires
        transfer.phase is Issuing,
    ensures
        ok != 0 ==> transfer.next(IoReply::Issued { ok, bytes }).1 == (IoCall::Finish {
            outcome: Ok(Some(bytes as usize)),
            close_event: !(transfer.direction is Peek),
        }),
        ok == 0 ==> transfer.next(IoReply::Issued { ok, bytes }).1 == IoCall::LastError,
        ok == 0 ==> transfer.next(IoReply::Issued { ok, bytes }).0 == (TransferState {
            phase: TransferPhase::IssueFailed,
            ..transfer
        }),
{
}

/// A read that is not done at once is waited for as long as it may take. One that is done
/// in time gives the number of bytes that the system gives; a pipe whose other end is
/// closed gives none; a read whose time is up is cancelled, and the system is waited for
/// until it has let go of the buffer, before it comes to nothing, or to no bytes where time
/// being up is no answer. Any other error number is handed on. The event is closed in every
/// case.
pub proof fn law_read_in_the_background(
    transfer: TransferState,
    timeout_ms: u32,
    blocking: bool,
    code: u32,
    how: u32,
    ok: i32,
    bytes: u32,
)
    requires
        transfer.phase is IssueFailed,
        transfer.direction == (Direction::Read { timeout_ms, blocking }),
    ensures
        ({
            let (waiting, wait) = transfer.next(IoReply::LastError(997));
            let (after, call) = waiting.next(IoReply::Waited(how));
            let (cancelled, cancel) = waiting.next(IoReply::Waited(258));
            let (draining, drain) = cancelled.next(IoReply::Cancelled);
            let (completing, complete) = waiting.next(IoReply::Waited(0));
            let (read, last) = completing.next(IoReply::Completed { ok, bytes });
            let failed = IoCall::Finish {
                outcome: Err(IoError::Os(code as i32)),
                close_event: true,
            };
            let ended = IoCall::Finish { outcome: Ok(Some(0)), close_event: true };
            &&& transfer.next(IoReply::LastError(109)).1 == ended
            &&& code != 997 && code != 109 ==> transfer.next(IoReply::LastError(code)).1 == failed
            &&& wait == IoCall::Wait { timeout_ms }
            &&& cancel == IoCall::Cancel
            &&& drain == IoCall::Complete { wait: true }
            &&& draining.next(IoReply::Completed { ok, bytes }).1 == IoCall::Finish {
                outcome: Ok(
                    if blocking {
                        Some(0)
                    } else {
                        None
                    },
                ),
                close_event: true,
            }
            &&& complete == IoCall::Complete { wait: false }
            &&& ok != 0 ==> last == IoCall::Finish {
                outcome: Ok(Some(bytes as usize)),
                close_event: true,
            }
            &&& ok == 0 ==> {
                &&& last == IoCall::LastError
                &&& code == 109 || code == 995 ==> read.next(IoReply::LastError(code)).1 == ended
                &&& code != 109 && code != 995 ==> read.next(IoReply::LastError(code)).1 == failed
            }
            &&& how != 0 && how != 258 ==> {
                &&& call == IoCall::LastError
                &&& after.next(IoReply::LastError(code)).1 == failed
            }
        }),
{
}

/// A write that is not done at once is waited for until it is, and gives the number of bytes
/// that the system gives. Any error number is handed on, that of a closed pipe too. The
/// event is closed in every case.
pub proof fn law_write_in_the_background(
    transfer: TransferState,
    code: u32,
    ok: i32,
    bytes: u32,
)
    requires
        transfer.phase is IssueFailed,
        transfer.direction is Write,
    ensures
        ({
            let (completing, complete) = transfer.next(IoReply::LastError(997));
            let (written, last) = completing.next(IoReply::Completed { ok, bytes });
            let failed = IoCall::Finish {
                outcome: Err(IoError::Os(code as i32)),
                close_event: true,
            };
            &&& code != 997 ==> transfer.next(IoReply::LastError(code)).1 == failed
            &&& complete == IoCall::Complete { wait: true }
            &&& ok != 0 ==> last == IoCall::Finish {
                outcome: Ok(Some(bytes as usize)),
                close_event: true,
            }
            &&& ok == 0 ==> {
                &&& last == IoCall::LastError
                &&& written.next(IoReply::LastError(code)).1 == failed
            }
        }),
{
}

/// A peek that fails at a closed pipe gives no bytes; any other error number is handed on.
/// There is no event to close.
pub proof fn law_peek_that_fails(transfer: TransferState, code: u32)
    requires
        transfer.phase is IssueFailed,
        transfer.direction is Peek,
    ensures
        transfer.next(IoReply::LastError(code)).1 == (IoCall::Finish {
            outcome: if code == 109 {
                Ok(Some(0))
            } else {
                Err(IoError::Os(code as i32))
            },
            close_event: false,
        }),
{
}

/// The number of bytes in the buffers before `upto` that are not empty, where `counts(i)`
/// were transferred for the buffer `i`.
pub open spec fn bytes_before(lens: Seq<usize>, counts: spec_fn(int) -> usize, upto: int) -> int
    decreases upto,
{
    if upto <= 0 {
        0
    } else {
        bytes_before(lens, counts, upto - 1) + if lens[upto - 1] == 0 {
            0int
        } else {
            counts(upto - 1) as int
        }
    }
}

/// Whether a transfer of several buffers stands where it should, when `counts(i)` bytes were
/// transferred for every buffer `i` before: at the first buffer from `from` on that is not
/// empty, or at its end with all the bytes, and having counted them all.
pub open spec fn stands_behind(
    state: VectoredState,
    counts: spec_fn(int) -> usize,
    from: int,
) -> bool {
    let lens = state.lens;
    &&& match state.done {
        None => {
            &&& from <= state.next < lens.len()
            &&& lens[state.next] != 0
            &&& forall|i: int| from <= i < state.next ==> #[trigger] lens[i] == 0
            &&& state.total == bytes_before(lens, counts, state.next)
        },
        Some(outcome) => {
            &&& forall|i: int| from <= i < lens.len() ==> #[trigger] lens[i] == 0
            &&& outcome == Ok::<int, IoError>(bytes_before(lens, counts, lens.len() as int))
        },
    }
}

/// Buffers are transferred one after the other, empty ones are left out, and the bytes of
/// all of them are counted: a transfer starts at the first buffer that is not empty, and
/// goes on behind every buffer for which bytes were transferred. Without another buffer it
/// is over, with the number of all those bytes. No bytes at all end it if it stops at a
/// closed pipe, and an error ends it in every case, with the bytes so far; an error is
/// handed on only where there are none.
pub proof fn law_buffers_follow_one_another(
    state: VectoredState,
    counts: spec_fn(int) -> usize,
    lens: Seq<usize>,
    stops_at_zero: bool,
    error: IoError,
)
    requires
        state.done is None,
        state.lens == lens,
        stands_behind(state, counts, state.next),
        0 <= state.next,
    ensures
        stands_behind(VectoredState::begin(lens, stops_at_zero), counts, 0),
        VectoredState::begin(lens, stops_at_zero).lens == lens,
        VectoredState::begin(lens, stops_at_zero).stops_at_zero == stops_at_zero,
        ({
            let n = counts(state.next);
            let after = state.after(Ok(n));
            let so_far = bytes_before(lens, counts, state.next);
            &&& after.lens == lens
            &&& after.stops_at_zero == state.stops_at_zero
            &&& n > 0 || !state.stops_at_zero ==> stands_behind(after, counts, state.next + 1)
            &&& n == 0 && state.stops_at_zero ==> after.done == Some(Ok::<int, IoError>(so_far))
            &&& so_far > 0 ==> state.after(Err(error)).done == Some(Ok::<int, IoError>(so_far))
            &&& so_far == 0 ==> state.after(Err(error)).done == Some(Err::<int, IoError>(error))
        }),
{
    let blank = VectoredState { lens, next: 0, total: 0, stops_at_zero, done: None };
    lemma_turning_to(blank, counts, 0);
    let n = counts(state.next);
    lemma_bytes_before_grow(lens, counts, state.next);
    lemma_turning_to(
        VectoredState { total: state.total + n, ..state },
        counts,
        state.next + 1,
    );
}

/// There are never less than no bytes.
proof fn lemma_bytes_before_grow(lens: Seq<usize>, counts: spec_fn(int) -> usize, upto: int)
    ensures
        bytes_before(lens, counts, upto) >= 0,
    decreases upto,
{
    if upto > 0 {
        lemma_bytes_before_grow(lens, counts, upto - 1);
    }
}

/// Turning to the next buffer leaves out empty ones.
proof fn lemma_turning_to(state: VectoredState, counts: spec_fn(int) -> usize, from: int)
    requires
        state.done is None,
        0 <= from <= state.lens.len(),
        state.total == bytes_before(state.lens, counts, from),
    ensures
        stands_behind(state.turning_to(from), counts, from),
    decreases state.lens.len() - from,
{
    if from < state.lens.len() && state.lens[from] == 0 {
        lemma_turning_to(state, counts, from + 1);
        let after = state.turning_to(from);
        assert(after == state.turning_to(from + 1));
    }
}

} // verus!
