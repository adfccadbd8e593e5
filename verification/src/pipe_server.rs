//! The message loop of a server on named pipes, which serves one client at a
//! time.
//!
//! As in [`crate::poll_server`], the loop says which [`PipeCall`] to make next,
//! and decides what follows on its outcome, a [`PipeReply`].

use crate::error::{IoError, LoopAction, ServerError};
use crate::wire::{ByteOrder, DumpRequest, Header, Request, CRASH_ACK, HEADER_SIZE, PONG};
use vstd::prelude::*;

verus! {

/// How long the server waits for a client, or for bytes of a client, before it looks
/// at the shutdown flag again, in milliseconds.
pub const ACCEPT_TIMEOUT_MS: u32 = 200;

/// How often in a row the server waits in vain for the next part of a body before it
/// gives the client up: for one second in all.
pub const BODY_PATIENCE: u32 = 5;

/// What the driver of a [`PipeLoop`] has to do next.
#[derive(Clone, Copy, Debug, PartialEq, Eq)]
pub enum PipeCall {
    /// Look at the shutdown flag.
    CheckShutdown,
    /// Accept a connection from the listener.
    Accept { timeout_ms: u32 },
    /// Ask the pipe which process is at its other end.
    ClientPid,
    /// Tell the handler that there is a new connection, one of `clients`.
    NotifyConnected { clients: usize },
    /// Receive a header.
    RecvHeader { timeout_ms: u32 },
    /// Ask the handler for a buffer. Where a body follows the header, `size` is
    /// its length, and the buffer is made ready for it with
    /// [`crate::recv::message_buffer`]; otherwise the buffer stays as it is.
    Allocate { size: u32 },
    /// Receive a part of the body, into the buffer from `offset` on.
    RecvBody { offset: usize, timeout_ms: u32 },
    /// Read the dump request in the buffer.
    ReadRequest,
    /// Handle the crash that the request describes.
    Dump { request: DumpRequest },
    /// Tell the handler that no minidump could be made.
    NotifyFailure { error: ServerError },
    /// Send this header, which acknowledges a crash.
    SendAck { header: Header },
    /// Send this header, which answers a ping.
    SendPong { header: Header },
    /// Hand the buffer to the handler, under `code`.
    Deliver { code: u32 },
    /// Tell the handler that the connection is gone, and `clients` are left. The
    /// pipe is closed after that.
    NotifyDisconnected { clients: usize },
    /// Leave the loop with this outcome.
    Finish(Result<(), ServerError>),
}

/// What came of a [`PipeCall`].
#[derive(Clone, Copy, Debug, PartialEq, Eq)]
pub enum PipeReply {
    /// Whether to shut down.
    Shutdown(bool),
    /// Whether there is a connection now.
    Accepted(Result<bool, IoError>),
    /// The process at the other end.
    Pid(Result<u32, IoError>),
    /// What the handler answered.
    Handler(LoopAction),
    /// How many bytes of the header were received, if any were in time, and the
    /// bytes.
    Header { read: Result<Option<usize>, IoError>, bytes: [u8; 8] },
    /// There is a buffer now.
    Allocated,
    /// How many bytes of the body were received, if any were in time.
    Body(Result<Option<usize>, IoError>),
    /// The dump request, if there is one.
    DumpRequest(Option<DumpRequest>),
    /// What came of handling the crash.
    Crash(Result<LoopAction, ServerError>),
    /// Whether the bytes could be sent.
    Sent(bool),
    /// The call was made.
    Done,
}

/// Which call a loop waits for the outcome of. `pid` is the process at the other
/// end of the pipe.
#[derive(Clone, Copy, Debug, PartialEq, Eq)]
pub enum PipePhase {
    /// [`PipeCall::CheckShutdown`], without a client.
    Idle,
    /// [`PipeCall::Accept`].
    Accepting,
    /// [`PipeCall::ClientPid`].
    Identifying,
    /// [`PipeCall::NotifyConnected`].
    Welcoming { pid: u32 },
    /// [`PipeCall::CheckShutdown`], with a client.
    Listening { pid: u32 },
    /// [`PipeCall::RecvHeader`].
    ReadingHeader { pid: u32 },
    /// [`PipeCall::Allocate`].
    Allocating { pid: u32, header: Header },
    /// [`PipeCall::CheckShutdown`], in the middle of a body: `total` bytes are there,
    /// and `waits` waits since the last of them were in vain.
    Pausing { pid: u32, header: Header, total: usize, waits: u32 },
    /// [`PipeCall::RecvBody`]; `total` bytes are there, and `waits` waits since the
    /// last of them were in vain.
    ReadingBody { pid: u32, header: Header, total: usize, waits: u32 },
    /// [`PipeCall::ReadRequest`].
    ReadingRequest { pid: u32 },
    /// [`PipeCall::Dump`].
    Dumping,
    /// [`PipeCall::NotifyFailure`].
    Excusing,
    /// [`PipeCall::SendAck`].
    Acking { action: LoopAction },
    /// [`PipeCall::SendPong`].
    Ponging { pid: u32 },
    /// [`PipeCall::Deliver`].
    Delivering { pid: u32 },
    /// [`PipeCall::NotifyDisconnected`].
    Parting,
    /// Nothing: the loop is over.
    Finished,
}

/// The state of a message loop on named pipes.
#[derive(Clone, Copy, Debug, PartialEq, Eq)]
pub struct PipeState {
    /// The byte order of the machine.
    pub order: ByteOrder,
    /// What the loop waits for.
    pub phase: PipePhase,
}

impl PipeState {
    /// The same loop, in another phase.
    pub open spec fn at(self, phase: PipePhase) -> PipeState {
        PipeState { phase, ..self }
    }

    /// The loop ends with this outcome.
    pub open spec fn ending(self, outcome: Result<(), ServerError>) -> (PipeState, PipeCall) {
        (self.at(PipePhase::Finished), PipeCall::Finish(outcome))
    }

    /// The client is given up.
    pub open spec fn parting(self) -> (PipeState, PipeCall) {
        (self.at(PipePhase::Parting), PipeCall::NotifyDisconnected { clients: 0 })
    }

    /// The loop turns to the next message of the client.
    pub open spec fn listening(self, pid: u32) -> (PipeState, PipeCall) {
        (self.at(PipePhase::Listening { pid }), PipeCall::CheckShutdown)
    }

    /// A part of the body is still missing when `total` bytes are there.
    pub open spec fn missing(header: Header, total: int) -> bool {
        total < header.size
    }

    /// The message has been received as a whole; it is of the kind `kind`.
    pub open spec fn answering(self, pid: u32, kind: u32) -> (PipeState, PipeCall) {
        match Request::spec_of(kind) {
            Request::Crash => (self.at(PipePhase::ReadingRequest { pid }), PipeCall::ReadRequest),
            Request::Ping => (
                self.at(PipePhase::Ponging { pid }),
                PipeCall::SendPong { header: Header::spec_bare(PONG) },
            ),
            Request::Pong => self.listening(pid),
            Request::User(code) => (
                self.at(PipePhase::Delivering { pid }),
                PipeCall::Deliver { code },
            ),
        }
    }

    /// The crash has been handled; the client is told.
    pub open spec fn acking(self, action: LoopAction) -> (PipeState, PipeCall) {
        (
            self.at(PipePhase::Acking { action }),
            PipeCall::SendAck { header: Header::spec_bare(CRASH_ACK) },
        )
    }

    /// The next part of the body is waited for, `waits` times in vain so far, once
    /// the loop has looked at the shutdown flag.
    pub open spec fn pausing(self, pid: u32, header: Header, total: usize, waits: u32) -> (
        PipeState,
        PipeCall,
    ) {
        (
            self.at(PipePhase::Pausing { pid, header, total, waits }),
            PipeCall::CheckShutdown,
        )
    }

    /// `total` bytes of the body have been received; the rest is waited for, or
    /// the message is answered if there is none.
    pub open spec fn receiving(self, pid: u32, header: Header, total: usize) -> (
        PipeState,
        PipeCall,
    ) {
        if PipeState::missing(header, total as int) {
            self.pausing(pid, header, total, 0)
        } else {
            self.answering(pid, header.kind)
        }
    }

    /// Whether `reply` is an outcome of the call that the loop waits for, and one
    /// that the loop can go on from: lengths do not run out, and a message that
    /// is there as a whole is of a kind that clients send.
    pub open spec fn fits(self, reply: PipeReply) -> bool {
        match self.phase {
            PipePhase::Idle => reply is Shutdown,
            PipePhase::Accepting => reply is Accepted,
            PipePhase::Identifying => reply is Pid,
            PipePhase::Welcoming { .. } => reply is Handler,
            PipePhase::Listening { .. } => reply is Shutdown,
            PipePhase::ReadingHeader { .. } => reply is Header,
            PipePhase::Allocating { header, .. } => reply is Allocated && (PipeState::missing(
                header,
                0,
            ) || Request::known(header.kind)),
            PipePhase::Pausing { .. } => reply is Shutdown,
            PipePhase::ReadingBody { header, total, .. } => reply matches PipeReply::Body(read) && (
            read matches Ok(Some(n)) ==> n > 0 ==> total + n <= usize::MAX && (PipeState::missing(
                header,
                total + n,
            ) || Request::known(header.kind))),
            PipePhase::ReadingRequest { .. } => reply is DumpRequest,
            PipePhase::Dumping => reply is Crash,
            PipePhase::Excusing => reply is Handler,
            PipePhase::Acking { .. } => reply is Sent,
            PipePhase::Ponging { .. } => reply is Sent,
            PipePhase::Delivering { .. } => reply is Done,
            PipePhase::Parting => reply is Handler,
            PipePhase::Finished => false,
        }
    }

    /// What the loop does on the outcome `reply` of the call that it waits for.
    pub open spec fn next(self, reply: PipeReply) -> (PipeState, PipeCall) {
        match (self.phase, reply) {
            (PipePhase::Idle, PipeReply::Shutdown(stop)) => if stop {
                self.ending(Ok(()))
            } else {
                (
                    self.at(PipePhase::Accepting),
                    PipeCall::Accept { timeout_ms: ACCEPT_TIMEOUT_MS },
                )
            },
            (PipePhase::Accepting, PipeReply::Accepted(accepted)) => match accepted {
                Err(error) => self.ending(Err(ServerError::Io(error))),
                Ok(false) => (self.at(PipePhase::Idle), PipeCall::CheckShutdown),
                Ok(true) => (self.at(PipePhase::Identifying), PipeCall::ClientPid),
            },
            (PipePhase::Identifying, PipeReply::Pid(identified)) => match identified {
                Err(_) => (self.at(PipePhase::Idle), PipeCall::CheckShutdown),
                Ok(pid) => (
                    self.at(PipePhase::Welcoming { pid }),
                    PipeCall::NotifyConnected { clients: 1 },
                ),
            },
            (PipePhase::Welcoming { pid }, PipeReply::Handler(action)) => match action {
                LoopAction::Exit => self.ending(Ok(())),
                LoopAction::Continue => self.listening(pid),
            },
            (PipePhase::Listening { pid }, PipeReply::Shutdown(stop)) => if stop {
                self.ending(Ok(()))
            } else {
                (
                    self.at(PipePhase::ReadingHeader { pid }),
                    PipeCall::RecvHeader { timeout_ms: ACCEPT_TIMEOUT_MS },
                )
            },
            (PipePhase::ReadingHeader { pid }, PipeReply::Header { read, bytes }) => match read {
                Err(error) => self.ending(Err(ServerError::Io(error))),
                Ok(None) => self.listening(pid),
                Ok(Some(n)) => if n < HEADER_SIZE {
                    self.parting()
                } else {
                    let header = Header::spec_in(bytes@, self.order);
                    (
                        self.at(PipePhase::Allocating { pid, header }),
                        PipeCall::Allocate { size: header.size },
                    )
                },
            },
            (PipePhase::Allocating { pid, header }, PipeReply::Allocated) => self.receiving(
                pid,
                header,
                0,
            ),
            (PipePhase::Pausing { pid, header, total, waits }, PipeReply::Shutdown(stop)) => {
                if stop {
                    self.ending(Ok(()))
                } else {
                    (
                        self.at(PipePhase::ReadingBody { pid, header, total, waits }),
                        PipeCall::RecvBody { offset: total, timeout_ms: ACCEPT_TIMEOUT_MS },
                    )
                }
            },
            (
                PipePhase::ReadingBody { pid, header, total, waits },
                PipeReply::Body(read),
            ) => match read {
                Err(error) => self.ending(Err(ServerError::Io(error))),
                Ok(None) => if waits + 1 >= BODY_PATIENCE {
                    self.parting()
                } else {
                    self.pausing(pid, header, total, (waits + 1) as u32)
                },
                Ok(Some(n)) => if n == 0 {
                    self.parting()
                } else {
                    self.receiving(pid, header, (total + n) as usize)
                },
            },
            (PipePhase::ReadingRequest { pid }, PipeReply::DumpRequest(read)) => match read {
                None => self.parting(),
                Some(request) => if request.process_id != pid {
                    self.parting()
                } else {
                    (self.at(PipePhase::Dumping), PipeCall::Dump { request })
                },
            },
            (PipePhase::Dumping, PipeReply::Crash(outcome)) => match outcome {
                Err(error) => (self.at(PipePhase::Excusing), PipeCall::NotifyFailure { error }),
                Ok(action) => self.acking(action),
            },
            (PipePhase::Excusing, PipeReply::Handler(action)) => self.acking(action),
            (PipePhase::Acking { action }, PipeReply::Sent(_)) => match action {
                LoopAction::Exit => self.ending(Ok(())),
                LoopAction::Continue => self.parting(),
            },
            (PipePhase::Ponging { pid }, PipeReply::Sent(sent)) => if sent {
                self.listening(pid)
            } else {
                self.parting()
            },
            (PipePhase::Delivering { pid }, PipeReply::Done) => self.listening(pid),
            (PipePhase::Parting, PipeReply::Handler(action)) => match action {
                LoopAction::Exit => self.ending(Ok(())),
                LoopAction::Continue => (self.at(PipePhase::Idle), PipeCall::CheckShutdown),
            },
            _ => self.ending(Ok(())),
        }
    }
}

/// The message loop of a server on named pipes.
#[derive(Debug, PartialEq, Eq)]
pub struct PipeLoop {
    state: PipeState,
}

impl View for PipeLoop {
    type V = PipeState;

    closed spec fn view(&self) -> PipeState {
        self.state
    }
}

impl PipeLoop {
    /// A loop without a client, which first wants to look at the shutdown flag.
    pub fn start(order: ByteOrder) -> (started: (PipeLoop, PipeCall))
        ensures
            started.0@ == (PipeState { order, phase: PipePhase::Idle }),
            started.1 == PipeCall::CheckShutdown,
    {
        let state = PipeState { order, phase: PipePhase::Idle };
        (PipeLoop { state }, PipeCall::CheckShutdown)
    }

    fn finish(&mut self, outcome: Result<(), ServerError>) -> (call: PipeCall)
        ensures
            (final(self)@, call) == old(self)@.ending(outcome),
    {
        self.state.phase = PipePhase::Finished;
        PipeCall::Finish(outcome)
    }

    fn part(&mut self) -> (call: PipeCall)
        ensures
            (final(self)@, call) == old(self)@.parting(),
    {
        self.state.phase = PipePhase::Parting;
        PipeCall::NotifyDisconnected { clients: 0 }
    }

    fn listen(&mut self, pid: u32) -> (call: PipeCall)
        ensures
            (final(self)@, call) == old(self)@.listening(pid),
    {
        self.state.phase = PipePhase::Listening { pid };
        PipeCall::CheckShutdown
    }

    fn wait_for_client(&mut self) -> (call: PipeCall)
        ensures
            final(self)@ == old(self)@.at(PipePhase::Idle),
            call == PipeCall::CheckShutdown,
    {
        self.state.phase = PipePhase::Idle;
        PipeCall::CheckShutdown
    }

    fn acknowledge(&mut self, action: LoopAction) -> (call: PipeCall)
        ensures
            (final(self)@, call) == old(self)@.acking(action),
    {
        self.state.phase = PipePhase::Acking { action };
        PipeCall::SendAck { header: Header::bare(CRASH_ACK) }
    }

    fn pause(&mut self, pid: u32, header: Header, total: usize, waits: u32) -> (call: PipeCall)
        ensures
            (final(self)@, call) == old(self)@.pausing(pid, header, total, waits),
    {
        self.state.phase = PipePhase::Pausing { pid, header, total, waits };
        PipeCall::CheckShutdown
    }

    fn receive(&mut self, pid: u32, header: Header, total: usize) -> (call: PipeCall)
        requires
            PipeState::missing(header, total as int) || Request::known(header.kind),
        ensures
            (final(self)@, call) == old(self)@.receiving(pid, header, total),
    {
        if total < header.size as usize {
            return self.pause(pid, header, total, 0);
        }
        match Request::of(header.kind) {
            Request::Crash => {
                self.state.phase = PipePhase::ReadingRequest { pid };
                PipeCall::ReadRequest
            },
            Request::Ping => {
                self.state.phase = PipePhase::Ponging { pid };
                PipeCall::SendPong { header: Header::bare(PONG) }
            },
            Request::Pong => self.listen(pid),
            Request::User(code) => {
                self.state.phase = PipePhase::Delivering { pid };
                PipeCall::Deliver { code }
            },
        }
    }

    /// Takes the outcome of the call that the loop waits for, and says which call
    /// to make next.
    pub fn step(&mut self, reply: PipeReply) -> (call: PipeCall)
        requires
            old(self)@.fits(reply),
        ensures
            (final(self)@, call) == old(self)@.next(reply),
    {
        match (self.state.phase, reply) {
            (PipePhase::Idle, PipeReply::Shutdown(stop)) => if stop {
                self.finish(Ok(()))
            } else {
                self.state.phase = PipePhase::Accepting;
                PipeCall::Accept { timeout_ms: ACCEPT_TIMEOUT_MS }
            },
            (PipePhase::Accepting, PipeReply::Accepted(accepted)) => match accepted {
                Err(error) => self.finish(Err(ServerError::Io(error))),
                Ok(false) => self.wait_for_client(),
                Ok(true) => {
                    self.state.phase = PipePhase::Identifying;
                    PipeCall::ClientPid
                },
            },
            (PipePhase::Identifying, PipeReply::Pid(identified)) => match identified {
                Err(_) => self.wait_for_client(),
                Ok(pid) => {
                    self.state.phase = PipePhase::Welcoming { pid };
                    PipeCall::NotifyConnected { clients: 1 }
                },
            },
            (PipePhase::Welcoming { pid }, PipeReply::Handler(action)) => match action {
                LoopAction::Exit => self.finish(Ok(())),
                LoopAction::Continue => self.listen(pid),
            },
            (PipePhase::Listening { pid }, PipeReply::Shutdown(stop)) => if stop {
                self.finish(Ok(()))
            } else {
                self.state.phase = PipePhase::ReadingHeader { pid };
                PipeCall::RecvHeader { timeout_ms: ACCEPT_TIMEOUT_MS }
            },
            (PipePhase::ReadingHeader { pid }, PipeReply::Header { read, bytes }) => match read {
                Err(error) => self.finish(Err(ServerError::Io(error))),
                Ok(None) => self.listen(pid),
                Ok(Some(n)) => {
                    if n >= HEADER_SIZE {
                        if let Some(header) = Header::from_bytes(&bytes, self.state.order) {
                            self.state.phase = PipePhase::Allocating { pid, header };
                            return PipeCall::Allocate { size: header.size };
                        }
                    }
                    self.part()
                },
            },
            (PipePhase::Allocating { pid, header }, PipeReply::Allocated) => self.receive(
                pid,
                header,
                0,
            ),
            (PipePhase::Pausing { pid, header, total, waits }, PipeReply::Shutdown(stop)) => {
                if stop {
                    self.finish(Ok(()))
                } else {
                    self.state.phase = PipePhase::ReadingBody { pid, header, total, waits };
                    PipeCall::RecvBody { offset: total, timeout_ms: ACCEPT_TIMEOUT_MS }
                }
            },
            (
                PipePhase::ReadingBody { pid, header, total, waits },
                PipeReply::Body(read),
            ) => match read {
                Err(error) => self.finish(Err(ServerError::Io(error))),
                Ok(None) => if waits >= BODY_PATIENCE - 1 {
                    self.part()
                } else {
                    self.pause(pid, header, total, waits + 1)
                },
                Ok(Some(n)) => if n == 0 {
                    self.part()
                } else {
                    self.receive(pid, header, total + n)
                },
            },
            (PipePhase::ReadingRequest { pid }, PipeReply::DumpRequest(read)) => match read {
                None => self.part(),
                Some(request) => if request.process_id != pid {
                    self.part()
                } else {
                    self.state.phase = PipePhase::Dumping;
                    PipeCall::Dump { request }
                },
            },
            (PipePhase::Dumping, PipeReply::Crash(outcome)) => match outcome {
                Err(error) => {
                    self.state.phase = PipePhase::Excusing;
                    PipeCall::NotifyFailure { error }
                },
                Ok(action) => self.acknowledge(action),
            },
            (PipePhase::Excusing, PipeReply::Handler(action)) => self.acknowledge(action),
            (PipePhase::Acking { action }, PipeReply::Sent(_)) => match action {
                LoopAction::Exit => self.finish(Ok(())),
                LoopAction::Continue => self.part(),
            },
            (PipePhase::Ponging { pid }, PipeReply::Sent(sent)) => if sent {
                self.listen(pid)
            } else {
                self.part()
            },
            (PipePhase::Delivering { pid }, PipeReply::Done) => self.listen(pid),
            (PipePhase::Parting, PipeReply::Handler(action)) => match action {
                LoopAction::Exit => self.finish(Ok(())),
                LoopAction::Continue => self.wait_for_client(),
            },
            _ => self.finish(Ok(())),
        }
    }

    /// Takes the body of a crash message, and says which call to make next.
    pub fn read_request(&mut self, body: &Vec<u8>) -> (call: PipeCall)
        requires
            old(self)@.phase is ReadingRequest,
        ensures
            match call {
                PipeCall::Dump { request } => {
                    &&& request.is_at_start_of(body@, old(self)@.order)
                    &&& request.process_id == old(self)@.phase->ReadingRequest_pid
                    &&& final(self)@ == old(self)@.at(PipePhase::Dumping)
                },
                _ => {
                    &&& body@.len() < crate::wire::DUMP_REQUEST_SIZE || crate::wire::number(
                        body@.subrange(8, 12),
                        old(self)@.order,
                    ) != old(self)@.phase->ReadingRequest_pid
                    &&& (final(self)@, call) == old(self)@.parting()
                },
            },
    {
        let request = DumpRequest::read(body, self.state.order);
        self.step(PipeReply::DumpRequest(request))
    }

    /// Whether a message of the kind of the current one can be answered: where it
    /// cannot, it must not be received to its end.
    pub fn is_answerable(&self) -> (yes: bool)
        ensures
            yes == match self@.phase {
                PipePhase::Allocating { header, .. } => Request::known(header.kind),
                PipePhase::ReadingBody { header, .. } => Request::known(header.kind),
                _ => true,
            },
    {
        match self.state.phase {
            PipePhase::Allocating { header, .. } => Request::is_known(header.kind),
            PipePhase::ReadingBody { header, .. } => Request::is_known(header.kind),
            _ => true,
        }
    }
}

/// A minidump is only ever made for the process at the other end of the pipe: a
/// request that speaks of another process ends the connection.
pub proof fn law_dump_only_for_the_client(server: PipeState, reply: PipeReply)
    requires
        server.fits(reply),
    ensures
        server.next(reply).1 matches PipeCall::Dump { request } ==> {
            &&& server.phase matches PipePhase::ReadingRequest { pid } && request.process_id == pid
            &&& reply == PipeReply::DumpRequest(Some(request))
        },
        server.phase matches PipePhase::ReadingRequest { pid } ==> (reply matches
            PipeReply::DumpRequest(Some(request)) ==> (request.process_id != pid ==> server.next(
            reply,
        ) == server.parting())),
{
}

/// The process at the other end of the pipe, while there is a client.
pub open spec fn client_of(server: PipeState) -> Option<u32> {
    match server.phase {
        PipePhase::Welcoming { pid } => Some(pid),
        PipePhase::Listening { pid } => Some(pid),
        PipePhase::ReadingHeader { pid } => Some(pid),
        PipePhase::Allocating { pid, .. } => Some(pid),
        PipePhase::Pausing { pid, .. } => Some(pid),
        PipePhase::ReadingBody { pid, .. } => Some(pid),
        PipePhase::ReadingRequest { pid } => Some(pid),
        PipePhase::Ponging { pid } => Some(pid),
        PipePhase::Delivering { pid } => Some(pid),
        _ => None,
    }
}

/// The process that a client was found to be when it connected is what its
/// messages are held against for as long as it is connected.
pub proof fn law_client_stays_the_same(server: PipeState, reply: PipeReply)
    requires
        server.fits(reply),
        client_of(server.next(reply).0) is Some,
    ensures
        client_of(server) is Some ==> client_of(server.next(reply).0) == client_of(server),
        client_of(server) is None ==> server.phase is Identifying,
        client_of(server) is None ==> (reply matches PipeReply::Pid(Ok(pid)) && client_of(
            server.next(reply).0,
        ) == Some(pid)),
{
}

/// Whether the handler has been told of a connection, and not yet that it is
/// gone.
pub open spec fn is_connected(server: PipeState) -> bool {
    client_of(server) is Some || server.phase is Dumping || server.phase is Excusing
        || server.phase is Acking
}

/// The handler hears of one connection at a time: a connection is reported, as
/// the only one, when there is none, and its end is reported, with none left,
/// when there is one. It is gone only with that report, or with the loop.
pub proof fn law_connections_are_reported(server: PipeState, reply: PipeReply)
    requires
        server.fits(reply),
    ensures
        server.next(reply).1 matches PipeCall::NotifyConnected { clients } ==> clients == 1
            && !is_connected(server) && is_connected(server.next(reply).0),
        server.next(reply).1 matches PipeCall::NotifyDisconnected { clients } ==> clients == 0
            && is_connected(server) && !is_connected(server.next(reply).0),
        !(server.next(reply).1 is NotifyConnected || server.next(reply).1 is NotifyDisconnected
            || server.next(reply).1 is Finish) ==> is_connected(server.next(reply).0)
            == is_connected(server),
{
}

/// The loop ends without an error only when it is told to: by the shutdown flag,
/// by what the handler has just answered, or by what it answered to a minidump.
/// When it is told to, it ends.
pub proof fn law_pipe_loop_ends_when_told(server: PipeState, reply: PipeReply)
    requires
        server.fits(reply),
    ensures
        server.next(reply).1 == PipeCall::Finish(Ok(())) <==> reply == PipeReply::Shutdown(true) || (
        reply == PipeReply::Handler(LoopAction::Exit) && !(server.phase is Excusing)) || (
        server.phase matches PipePhase::Acking { action } && action is Exit),
        (server.next(reply).0.phase matches PipePhase::Acking { action } && action is Exit) ==> reply
            == PipeReply::Crash(Ok(LoopAction::Exit)) || reply == PipeReply::Handler(
            LoopAction::Exit,
        ),
{
}

/// A ping is answered with a pong, after which the client is listened to again;
/// it is given up if the pong cannot be sent.
pub proof fn law_pipe_ping_is_answered(server: PipeState, pid: u32, sent: bool)
    ensures
        ({
            let (pinged, call) = server.answering(pid, crate::wire::PING);
            let (ponged, following) = pinged.next(PipeReply::Sent(sent));
            &&& call == PipeCall::SendPong { header: Header { kind: PONG, size: 0 } }
            &&& sent ==> (ponged, following) == server.listening(pid)
            &&& !sent ==> (ponged, following) == server.parting()
        }),
{
}

/// A crash that the loop decides to handle is acknowledged, whether or not a
/// minidump came of it, and the connection is over after that.
pub proof fn law_pipe_crash_is_acknowledged(
    server: PipeState,
    outcome: Result<LoopAction, ServerError>,
    answer: LoopAction,
    sent: bool,
)
    requires
        server.phase is Dumping,
    ensures
        ({
            let (dumped, call) = server.next(PipeReply::Crash(outcome));
            let (told, second) = dumped.next(PipeReply::Handler(answer));
            let acking = if outcome is Ok {
                dumped
            } else {
                told
            };
            let after = acking.next(PipeReply::Sent(sent));
            let ack = PipeCall::SendAck { header: Header { kind: CRASH_ACK, size: 0 } };
            &&& outcome is Ok ==> call == ack
            &&& outcome matches Err(error) ==> call == (PipeCall::NotifyFailure { error }) && second
                == ack
            &&& after == server.parting() || after == server.ending(Ok(()))
        }),
{
}

/// The loop looks at the shutdown flag right before every wait, be it for a client,
/// for a header or for a part of a body, and no wait is longer than the time limit.
pub proof fn law_pipe_waits_are_bounded(server: PipeState, reply: PipeReply)
    requires
        server.fits(reply),
    ensures
        server.next(reply).1 matches PipeCall::Accept { timeout_ms } ==> timeout_ms
            == ACCEPT_TIMEOUT_MS && reply == PipeReply::Shutdown(false),
        server.next(reply).1 matches PipeCall::RecvHeader { timeout_ms } ==> timeout_ms
            == ACCEPT_TIMEOUT_MS && reply == PipeReply::Shutdown(false),
        server.next(reply).1 matches PipeCall::RecvBody { offset, timeout_ms } ==> timeout_ms
            == ACCEPT_TIMEOUT_MS && reply == PipeReply::Shutdown(false),
{
}

/// The loop after `n` rounds of looking at the shutdown flag, which is not up, and
/// waiting for bytes, of which there are none.
pub open spec fn waited_in_vain(server: PipeState, n: nat) -> (PipeState, PipeCall)
    decreases n,
{
    if n == 0 {
        (server, PipeCall::CheckShutdown)
    } else {
        let (paused, _) = waited_in_vain(server, (n - 1) as nat);
        let (reading, _) = paused.next(PipeReply::Shutdown(false));
        reading.next(PipeReply::Body(Ok(None)))
    }
}

/// A client that stops in the middle of a body is waited for five times, and given
/// up after that. Bytes in between make the count start anew.
pub proof fn law_slow_body_is_given_up(
    server: PipeState,
    pid: u32,
    header: Header,
    total: usize,
    n: nat,
)
    requires
        server.phase == (PipePhase::Pausing { pid, header, total, waits: 0 }),
        n <= BODY_PATIENCE,
    ensures
        n < BODY_PATIENCE ==> waited_in_vain(server, n).0.phase == (PipePhase::Pausing {
            pid,
            header,
            total,
            waits: n as u32,
        }),
        n == BODY_PATIENCE ==> waited_in_vain(server, n) == server.parting(),
    decreases n,
{
    if n > 0 {
        law_slow_body_is_given_up(server, pid, header, total, (n - 1) as nat);
    }
    assert(waited_in_vain(server, n).0.order == server.order) by {
        lemma_order_is_kept(server, n);
    }
}

/// Waiting does not change the byte order.
proof fn lemma_order_is_kept(server: PipeState, n: nat)
    ensures
        waited_in_vain(server, n).0.order == server.order,
    decreases n,
{
    if n > 0 {
        lemma_order_is_kept(server, (n - 1) as nat);
    }
}

/// A message of a user is delivered once, under the code that it was sent with, and
/// the client is listened to again.
pub proof fn law_pipe_user_message_is_delivered(server: PipeState, pid: u32, code: u32)
    requires
        crate::wire::USER + code <= u32::MAX,
    ensures
        ({
            let kind = (crate::wire::USER + code) as u32;
            let (received, call) = server.answering(pid, kind);
            &&& call == PipeCall::Deliver { code }
            &&& received.next(PipeReply::Done) == server.listening(pid)
        }),
{
}

/// A body is received to its end before it is answered: each part goes to where
/// the last one ended, and the message is answered once as many bytes are there
/// as the header announces.
pub proof fn law_body_is_complete(server: PipeState, n: usize)
    requires
        server.phase is ReadingBody,
        n > 0,
        server.fits(PipeReply::Body(Ok(Some(n)))),
    ensures
        ({
            let pid = server.phase->ReadingBody_pid;
            let header = server.phase->ReadingBody_header;
            let total = server.phase->ReadingBody_total + n;
            let (after, call) = server.next(PipeReply::Body(Ok(Some(n))));
            if total < header.size {
                &&& call == PipeCall::CheckShutdown
                &&& after.next(PipeReply::Shutdown(false)).1 == PipeCall::RecvBody {
                    offset: total as usize,
                    timeout_ms: ACCEPT_TIMEOUT_MS,
                }
                &&& after.next(PipeReply::Shutdown(true)) == server.ending(Ok(()))
            } else {
                (after, call) == server.answering(pid, header.kind)
            }
        }),
{
}

} // verus!
