//! Waiting for clients at a named pipe.
//!
//! There is one instance of the pipe for every client. A [`PipeListener`] holds
//! the instance that the next client connects to.

use crate::error::IoError;
use crate::pipe_name::{final_component, pipe_path_from, pipe_path_of};
use crate::security::SecurityAttributes;
use crate::transfer::{
    PipeStream, ERROR_IO_PENDING, ERROR_PIPE_CONNECTED, INVALID_HANDLE_VALUE, WAIT_OBJECT_0,
    WAIT_TIMEOUT,
};
use vstd::prelude::*;

verus! {

/// Opens a pipe for both directions, with overlapped operations.
pub const SHARED_OPEN_MODE: u32 = 0x4000_0003;

/// As [`SHARED_OPEN_MODE`], but only if no instance of the pipe exists yet.
pub const FIRST_OPEN_MODE: u32 = 0x4008_0003;

/// The mode in which a pipe is opened to read and to write.
pub const PIPE_ACCESS_DUPLEX: u32 = 0x0000_0003;

/// The flag for overlapped operations.
pub const FILE_FLAG_OVERLAPPED: u32 = 0x4000_0000;

/// The flag that keeps other processes from having made the pipe before.
pub const FILE_FLAG_FIRST_PIPE_INSTANCE: u32 = 0x0008_0000;

/// The mode of a pipe that carries bytes, and that blocks.
pub const PIPE_MODE: u32 = 0;

/// The number of instances that stands for any number of them.
pub const PIPE_UNLIMITED_INSTANCES: u32 = 255;

/// How many bytes each buffer of a pipe holds.
pub const PIPE_BUFFER_SIZE: u32 = 65536;

/// The mode in which an instance of a pipe is opened. The first one is refused if
/// another process was there before with a pipe of the same name.
pub fn open_mode(first_instance: bool) -> (mode: u32)
    ensures
        mode == if first_instance {
            FIRST_OPEN_MODE
        } else {
            SHARED_OPEN_MODE
        },
        mode & FILE_FLAG_FIRST_PIPE_INSTANCE == FILE_FLAG_FIRST_PIPE_INSTANCE <==> first_instance,
        mode & (PIPE_ACCESS_DUPLEX | FILE_FLAG_OVERLAPPED) == (PIPE_ACCESS_DUPLEX
            | FILE_FLAG_OVERLAPPED),
{
    let shared: u32 = PIPE_ACCESS_DUPLEX | FILE_FLAG_OVERLAPPED;
    proof {
        assert(0x3u32 | 0x4000_0000u32 == 0x4000_0003u32) by (bit_vector);
        assert((0x3u32 | 0x4000_0000u32) | 0x0008_0000u32 == 0x4008_0003u32) by (bit_vector);
        assert(0x4008_0003u32 & 0x0008_0000u32 == 0x0008_0000u32) by (bit_vector);
        assert(0x4000_0003u32 & 0x0008_0000u32 != 0x0008_0000u32) by (bit_vector);
        assert(0x4008_0003u32 & 0x4000_0003u32 == 0x4000_0003u32) by (bit_vector);
        assert(0x4000_0003u32 & 0x4000_0003u32 == 0x4000_0003u32) by (bit_vector);
    }
    if first_instance {
        shared | FILE_FLAG_FIRST_PIPE_INSTANCE
    } else {
        shared
    }
}

/// What the driver of an [`InstanceOp`] has to do next.
#[derive(Clone, Copy, Debug, PartialEq, Eq)]
pub enum InstanceCall {
    /// Make the security attributes that let the current user in, and nobody else.
    Secure,
    /// `CreateNamedPipeW`, with those attributes, without a default time limit. Both
    /// buffers have the same size.
    Create {
        open_mode: u32,
        pipe_mode: u32,
        max_instances: u32,
        buffer_size: u32,
        attributes: SecurityAttributes,
    },
    /// `GetLastError`.
    LastError,
    /// Nothing more: this is what came of it. The descriptor of the attributes is
    /// freed, where it is given.
    Finish { outcome: Result<isize, IoError>, free_descriptor: Option<usize> },
}

/// What came of an [`InstanceCall`].
#[derive(Clone, Copy, Debug, PartialEq, Eq)]
pub enum InstanceReply {
    /// The attributes.
    Secured(Result<SecurityAttributes, IoError>),
    /// The handle of the instance.
    Created(isize),
    /// The error number.
    LastError(u32),
}

/// Which call making an instance waits for the outcome of.
#[derive(Clone, Copy, Debug, PartialEq, Eq)]
pub enum InstancePhase {
    /// [`InstanceCall::Secure`].
    Securing,
    /// [`InstanceCall::Create`].
    Creating,
    /// [`InstanceCall::LastError`].
    CreateFailed,
    /// Nothing: it is over.
    Finished,
}

/// Where the making of an instance of a pipe stands.
#[derive(Clone, Copy, Debug, PartialEq, Eq)]
pub struct InstanceState {
    /// Whether it is the first one.
    pub first_instance: bool,
    /// The address of the security descriptor, or zero before there is one.
    pub descriptor: usize,
    /// What the making waits for.
    pub phase: InstancePhase,
}

impl InstanceState {
    /// The same making, in another phase.
    pub open spec fn at(self, phase: InstancePhase) -> InstanceState {
        InstanceState { phase, ..self }
    }

    /// The making is over, with this outcome; the descriptor is given back.
    pub open spec fn ending(self, outcome: Result<isize, IoError>) -> (InstanceState, InstanceCall) {
        (
            self.at(InstancePhase::Finished),
            InstanceCall::Finish {
                outcome,
                free_descriptor: if self.descriptor != 0 {
                    Some(self.descriptor)
                } else {
                    None
                },
            },
        )
    }

    /// Whether `reply` is an outcome of the call that is waited for.
    pub open spec fn fits(self, reply: InstanceReply) -> bool {
        match self.phase {
            InstancePhase::Securing => reply is Secured,
            InstancePhase::Creating => reply is Created,
            InstancePhase::CreateFailed => reply is LastError,
            InstancePhase::Finished => false,
        }
    }

    /// What follows on the outcome `reply` of the call that is waited for.
    pub open spec fn next(self, reply: InstanceReply) -> (InstanceState, InstanceCall) {
        match (self.phase, reply) {
            (InstancePhase::Securing, InstanceReply::Secured(Err(error))) => self.ending(
                Err(error),
            ),
            (InstancePhase::Securing, InstanceReply::Secured(Ok(attributes))) => (
                InstanceState {
                    descriptor: attributes.descriptor,
                    phase: InstancePhase::Creating,
                    ..self
                },
                InstanceCall::Create {
                    open_mode: if self.first_instance {
                        FIRST_OPEN_MODE
                    } else {
                        SHARED_OPEN_MODE
                    },
                    pipe_mode: PIPE_MODE,
                    max_instances: PIPE_UNLIMITED_INSTANCES,
                    buffer_size: PIPE_BUFFER_SIZE,
                    attributes,
                },
            ),
            (InstancePhase::Creating, InstanceReply::Created(handle)) => {
                if handle == INVALID_HANDLE_VALUE {
                    (self.at(InstancePhase::CreateFailed), InstanceCall::LastError)
                } else {
                    self.ending(Ok(handle))
                }
            },
            (InstancePhase::CreateFailed, InstanceReply::LastError(code)) => self.ending(
                Err(IoError::Os(code as i32)),
            ),
            _ => self.ending(Err(IoError::Driver)),
        }
    }
}

/// The making of an instance of a pipe.
#[derive(Debug, PartialEq, Eq)]
pub struct InstanceOp {
    state: InstanceState,
}

impl View for InstanceOp {
    type V = InstanceState;

    closed spec fn view(&self) -> InstanceState {
        self.state
    }
}

impl InstanceOp {
    /// Begins to make an instance of a pipe.
    pub fn create_pipe_instance(first_instance: bool) -> (started: (InstanceOp, InstanceCall))
        ensures
            started.0@ == (InstanceState {
                first_instance,
                descriptor: 0,
                phase: InstancePhase::Securing,
            }),
            started.1 == InstanceCall::Secure,
    {
        let state = InstanceState { first_instance, descriptor: 0, phase: InstancePhase::Securing };
        (InstanceOp { state }, InstanceCall::Secure)
    }

    /// Takes the outcome of the call that is waited for, and says which call to
    /// make next.
    pub fn step(&mut self, reply: InstanceReply) -> (call: InstanceCall)
        requires
            old(self)@.fits(reply),
        ensures
            (final(self)@, call) == old(self)@.next(reply),
    {
        let outcome = match (self.state.phase, reply) {
            (InstancePhase::Securing, InstanceReply::Secured(Err(error))) => Err(error),
            (InstancePhase::Securing, InstanceReply::Secured(Ok(attributes))) => {
                self.state.descriptor = attributes.descriptor;
                self.state.phase = InstancePhase::Creating;
                return InstanceCall::Create {
                    open_mode: open_mode(self.state.first_instance),
                    pipe_mode: PIPE_MODE,
                    max_instances: PIPE_UNLIMITED_INSTANCES,
                    buffer_size: PIPE_BUFFER_SIZE,
                    attributes,
                };
            },
            (InstancePhase::Creating, InstanceReply::Created(handle)) => {
                if handle == INVALID_HANDLE_VALUE {
                    self.state.phase = InstancePhase::CreateFailed;
                    return InstanceCall::LastError;
                }
                Ok(handle)
            },
            (InstancePhase::CreateFailed, InstanceReply::LastError(code)) => Err(
                IoError::from_code(code),
            ),
            _ => Err(IoError::Driver),
        };
        self.state.phase = InstancePhase::Finished;
        let free_descriptor = if self.state.descriptor != 0 {
            Some(self.state.descriptor)
        } else {
            None
        };
        InstanceCall::Finish { outcome, free_descriptor }
    }
}

/// No instance of a pipe is made without the attributes that keep other users out, it
/// is made with those, and one that is made has a handle. Only the first one is
/// refused where there is an instance already.
pub proof fn law_instances_are_secured(op: InstanceState, reply: InstanceReply)
    requires
        op.fits(reply),
    ensures
        op.next(reply).1 matches InstanceCall::Create { open_mode, attributes, .. } ==> reply
            == InstanceReply::Secured(Ok(attributes)) && (open_mode == FIRST_OPEN_MODE
            <==> op.first_instance),
        op.next(reply).1 matches InstanceCall::Finish { outcome: Ok(handle), .. } ==> handle
            != INVALID_HANDLE_VALUE && reply == InstanceReply::Created(handle),
{
}

/// The descriptor that came with the attributes is given back when the making ends,
/// and not before.
pub proof fn law_descriptor_is_given_back(op: InstanceState, reply: InstanceReply)
    requires
        op.fits(reply),
    ensures
        match op.next(reply).1 {
            InstanceCall::Finish { outcome, free_descriptor } => {
                &&& op.descriptor != 0 <==> free_descriptor is Some
                &&& free_descriptor matches Some(descriptor) ==> descriptor == op.descriptor
            },
            InstanceCall::Create { attributes, .. } => op.next(reply).0.descriptor
                == attributes.descriptor,
            _ => op.next(reply).0.descriptor == op.descriptor,
        },
{
}

/// What the driver of a [`StartOp`] has to do next.
#[derive(Clone, Copy, Debug, PartialEq, Eq)]
pub enum StartCall {
    /// `ResetEvent`, and then `ConnectNamedPipe`, overlapped.
    Connect,
    /// `GetLastError`.
    LastError,
    /// `SetEvent`.
    SetEvent,
    /// Nothing more: this is what came of it. It says whether a client is there
    /// already, or the event will tell.
    Finish(Result<bool, IoError>),
}

/// What came of a [`StartCall`].
#[derive(Clone, Copy, Debug, PartialEq, Eq)]
pub enum StartReply {
    /// Whether a client is there; zero if not.
    Connected(i32),
    /// The error number.
    LastError(u32),
    /// The event is set.
    EventSet,
}

/// Which call letting clients in waits for the outcome of.
#[derive(Clone, Copy, Debug, PartialEq, Eq)]
pub enum StartPhase {
    /// [`StartCall::Connect`].
    Connecting,
    /// [`StartCall::LastError`].
    ConnectFailed,
    /// [`StartCall::SetEvent`].
    Setting,
    /// Nothing: it is over.
    Finished,
}

/// Where the letting in of a client at an instance of a pipe stands.
#[derive(Clone, Copy, Debug, PartialEq, Eq)]
pub struct StartState {
    /// What it waits for.
    pub phase: StartPhase,
}

impl StartState {
    /// Whether `reply` is an outcome of the call that is waited for.
    pub open spec fn fits(self, reply: StartReply) -> bool {
        match self.phase {
            StartPhase::Connecting => reply is Connected,
            StartPhase::ConnectFailed => reply is LastError,
            StartPhase::Setting => reply is EventSet,
            StartPhase::Finished => false,
        }
    }

    /// What follows on the outcome `reply` of the call that is waited for.
    pub open spec fn next(self, reply: StartReply) -> (StartState, StartCall) {
        match (self.phase, reply) {
            (StartPhase::Connecting, StartReply::Connected(ok)) => if ok != 0 {
                (StartState { phase: StartPhase::Setting }, StartCall::SetEvent)
            } else {
                (StartState { phase: StartPhase::ConnectFailed }, StartCall::LastError)
            },
            (StartPhase::ConnectFailed, StartReply::LastError(code)) => {
                if code == ERROR_IO_PENDING {
                    (StartState { phase: StartPhase::Finished }, StartCall::Finish(Ok(false)))
                } else if code == ERROR_PIPE_CONNECTED {
                    (StartState { phase: StartPhase::Setting }, StartCall::SetEvent)
                } else {
                    (
                        StartState { phase: StartPhase::Finished },
                        StartCall::Finish(Err(IoError::Os(code as i32))),
                    )
                }
            },
            (StartPhase::Setting, StartReply::EventSet) => (
                StartState { phase: StartPhase::Finished },
                StartCall::Finish(Ok(true)),
            ),
            _ => (
                StartState { phase: StartPhase::Finished },
                StartCall::Finish(Err(IoError::Driver)),
            ),
        }
    }
}

/// The letting in of a client at an instance of a pipe.
#[derive(Debug, PartialEq, Eq)]
pub struct StartOp {
    state: StartState,
}

impl View for StartOp {
    type V = StartState;

    closed spec fn view(&self) -> StartState {
        self.state
    }
}

impl StartOp {
    /// Begins to let a client in.
    pub fn start_connect() -> (started: (StartOp, StartCall))
        ensures
            started.0@ == (StartState { phase: StartPhase::Connecting }),
            started.1 == StartCall::Connect,
    {
        (StartOp { state: StartState { phase: StartPhase::Connecting } }, StartCall::Connect)
    }

    /// Takes the outcome of the call that is waited for, and says which call to
    /// make next.
    pub fn step(&mut self, reply: StartReply) -> (call: StartCall)
        requires
            old(self)@.fits(reply),
        ensures
            (final(self)@, call) == old(self)@.next(reply),
    {
        let outcome = match (self.state.phase, reply) {
            (StartPhase::Connecting, StartReply::Connected(ok)) => {
                if ok != 0 {
                    self.state.phase = StartPhase::Setting;
                    return StartCall::SetEvent;
                }
                self.state.phase = StartPhase::ConnectFailed;
                return StartCall::LastError;
            },
            (StartPhase::ConnectFailed, StartReply::LastError(code)) => {
                if code == ERROR_IO_PENDING {
                    Ok(false)
                } else if code == ERROR_PIPE_CONNECTED {
                    self.state.phase = StartPhase::Setting;
                    return StartCall::SetEvent;
                } else {
                    Err(IoError::from_code(code))
                }
            },
            (StartPhase::Setting, StartReply::EventSet) => Ok(true),
            _ => Err(IoError::Driver),
        };
        self.state.phase = StartPhase::Finished;
        StartCall::Finish(outcome)
    }
}

/// A client that is there before the server waits for it is not missed: the event
/// is set by hand, so that the next wait ends at once.
pub proof fn law_early_client_is_not_missed(op: StartState, reply: StartReply)
    requires
        op.fits(reply),
    ensures
        op.next(reply).1 == StartCall::Finish(Ok(true)) ==> op.phase is Setting,
        op.phase is ConnectFailed && reply == StartReply::LastError(ERROR_PIPE_CONNECTED)
            ==> op.next(reply).1 == StartCall::SetEvent,
        op.phase is Connecting && (reply matches StartReply::Connected(ok) && ok != 0)
            ==> op.next(reply).1 == StartCall::SetEvent,
{
}

/// Which call a listener waits for the outcome of.
#[derive(Clone, Copy, Debug, PartialEq, Eq)]
pub enum ListenerPhase {
    /// [`ListenerCall::CreateEvent`].
    CreatingEvent,
    /// [`ListenerCall::LastError`], for there is no event.
    EventFailed,
    /// [`ListenerCall::CreateInstance`], for the first time.
    CreatingFirst,
    /// [`ListenerCall::StartConnect`], for the first time.
    StartingFirst,
    /// Nothing: the listener listens.
    Listening,
    /// [`ListenerCall::CreateInstance`], for none was left from the last time.
    Recreating { timeout_ms: u32 },
    /// [`ListenerCall::StartConnect`], for none was left from the last time.
    Restarting { timeout_ms: u32 },
    /// [`ListenerCall::Wait`].
    Waiting,
    /// [`ListenerCall::LastError`], for the wait went wrong.
    WaitFailed,
    /// [`ListenerCall::Confirm`].
    Confirming,
    /// [`ListenerCall::LastError`], for the client is not confirmed.
    ConfirmFailed,
    /// [`ListenerCall::CreateInstance`], while `client` is being accepted.
    CreatingNext { client: isize },
    /// [`ListenerCall::StartConnect`], while `client` is being accepted.
    StartingNext { client: isize },
    /// Nothing: the listener could not be set up, or has been closed.
    Failed,
}

/// What the driver of a [`PipeListener`] has to do next.
#[derive(Clone, Copy, Debug, PartialEq, Eq)]
pub enum ListenerCall {
    /// `CreateEventW`, for an event that is reset by hand.
    CreateEvent,
    /// `GetLastError`.
    LastError,
    /// Make an instance of the pipe; see [`InstanceOp`].
    CreateInstance { first_instance: bool },
    /// Let a client in at the instance `handle`; see [`StartOp`].
    StartConnect { handle: isize, event: isize },
    /// `WaitForSingleObject`, for the event.
    Wait { event: isize, timeout_ms: u32 },
    /// `GetOverlappedResult`, for the instance, without waiting.
    Confirm { handle: isize },
    /// Nothing more: the listener is set up, or this is why not. What is given has to
    /// be closed: the instance, if it is not the invalid one, and the event, if it is
    /// not zero.
    Bound { outcome: Result<(), IoError>, close_handle: isize, close_event: isize },
    /// Nothing more: here is a client, if there was one in time.
    Accepted(Result<Option<PipeStream>, IoError>),
}

/// What came of a [`ListenerCall`].
#[derive(Clone, Copy, Debug, PartialEq, Eq)]
pub enum ListenerReply {
    /// The event, or zero if there is none.
    Event(isize),
    /// The error number.
    LastError(u32),
    /// The handle of the new instance.
    Instance(Result<isize, IoError>),
    /// Whether a client is there already.
    Started(Result<bool, IoError>),
    /// How the wait ended.
    Waited(u32),
    /// Whether a client is there; zero if not.
    Confirmed(i32),
}

/// The state of the server end of a named pipe.
#[derive(Clone, Copy, Debug, PartialEq, Eq)]
pub struct ListenerState {
    /// The instance that the next client connects to.
    pub handle: isize,
    /// The event that is set when a client connects.
    pub event: isize,
    /// Whether a client was there first, and the event was set by hand.
    pub connected: bool,
    /// What the listener waits for.
    pub phase: ListenerPhase,
}

impl ListenerState {
    /// The same listener, in another phase.
    pub open spec fn at(self, phase: ListenerPhase) -> ListenerState {
        ListenerState { phase, ..self }
    }

    /// The listener before anything was set up.
    pub open spec fn blank() -> ListenerState {
        ListenerState {
            handle: INVALID_HANDLE_VALUE,
            event: 0,
            connected: false,
            phase: ListenerPhase::CreatingEvent,
        }
    }

    /// Whether the listener holds an instance.
    pub open spec fn has_instance(self) -> bool {
        self.handle != INVALID_HANDLE_VALUE
    }

    /// The listener holds an event and an instance where the phase needs them, and
    /// never waits for a client without an instance; a client that is being accepted
    /// has one.
    pub open spec fn wf(self) -> bool {
        match self.phase {
            ListenerPhase::CreatingEvent => !self.has_instance() && self.event == 0,
            ListenerPhase::EventFailed => !self.has_instance() && self.event == 0,
            ListenerPhase::CreatingFirst => !self.has_instance() && self.event != 0,
            ListenerPhase::Listening => self.event != 0,
            ListenerPhase::Recreating { .. } => !self.has_instance() && self.event != 0,
            ListenerPhase::CreatingNext { client } => !self.has_instance() && client
                != INVALID_HANDLE_VALUE && self.event != 0,
            ListenerPhase::StartingNext { client } => self.has_instance() && client
                != INVALID_HANDLE_VALUE && self.event != 0,
            ListenerPhase::Failed => !self.has_instance() && self.event == 0,
            _ => self.has_instance() && self.event != 0,
        }
    }

    /// Whether `reply` is an outcome of making an instance: one that was made is not
    /// the invalid one.
    pub open spec fn is_instance(reply: ListenerReply) -> bool {
        reply matches ListenerReply::Instance(made) && (made matches Ok(handle) ==> handle
            != INVALID_HANDLE_VALUE)
    }

    /// Whether `reply` is an outcome of the call that is waited for.
    pub open spec fn fits(self, reply: ListenerReply) -> bool {
        match self.phase {
            ListenerPhase::CreatingEvent => reply is Event,
            ListenerPhase::EventFailed => reply is LastError,
            ListenerPhase::CreatingFirst => ListenerState::is_instance(reply),
            ListenerPhase::StartingFirst => reply is Started,
            ListenerPhase::Listening => false,
            ListenerPhase::Recreating { .. } => ListenerState::is_instance(reply),
            ListenerPhase::Restarting { .. } => reply is Started,
            ListenerPhase::Waiting => reply is Waited,
            ListenerPhase::WaitFailed => reply is LastError,
            ListenerPhase::Confirming => reply is Confirmed,
            ListenerPhase::ConfirmFailed => reply is LastError,
            ListenerPhase::CreatingNext { .. } => ListenerState::is_instance(reply),
            ListenerPhase::StartingNext { .. } => reply is Started,
            ListenerPhase::Failed => false,
        }
    }

    /// The listener when what it held has been handed out to be closed.
    pub open spec fn closed(self) -> ListenerState {
        ListenerState {
            handle: INVALID_HANDLE_VALUE,
            event: 0,
            phase: ListenerPhase::Failed,
            ..self
        }
    }

    /// The listener could not be set up, for want of an instance. The event stays open,
    /// and is let go of.
    pub open spec fn abandoned(self, error: IoError) -> (ListenerState, ListenerCall) {
        (
            self.closed(),
            ListenerCall::Bound {
                outcome: Err(error),
                close_handle: INVALID_HANDLE_VALUE,
                close_event: 0,
            },
        )
    }

    /// The listener could not be set up; what is open is to be closed.
    pub open spec fn unbound(self, error: IoError) -> (ListenerState, ListenerCall) {
        (
            self.closed(),
            ListenerCall::Bound {
                outcome: Err(error),
                close_handle: self.handle,
                close_event: self.event,
            },
        )
    }

    /// The listener lets a client in at its new instance `handle`.
    pub open spec fn starting(self, handle: isize, phase: ListenerPhase) -> (
        ListenerState,
        ListenerCall,
    ) {
        (
            ListenerState { handle, connected: false, phase, ..self },
            ListenerCall::StartConnect { handle, event: self.event },
        )
    }

    /// The listener waits for a client.
    pub open spec fn waiting(self, timeout_ms: u32) -> (ListenerState, ListenerCall) {
        (
            self.at(ListenerPhase::Waiting),
            ListenerCall::Wait { event: self.event, timeout_ms },
        )
    }

    /// This is what comes of accepting a client.
    pub open spec fn accepting(self, outcome: Result<Option<PipeStream>, IoError>) -> (
        ListenerState,
        ListenerCall,
    ) {
        (self.at(ListenerPhase::Listening), ListenerCall::Accepted(outcome))
    }

    /// How accepting a client begins: a listener without an instance makes one first.
    pub open spec fn accept(self, timeout_ms: u32) -> (ListenerState, ListenerCall) {
        if self.has_instance() {
            self.waiting(timeout_ms)
        } else {
            (
                self.at(ListenerPhase::Recreating { timeout_ms }),
                ListenerCall::CreateInstance { first_instance: false },
            )
        }
    }

    /// A client has connected: it gets the instance, and another is made for the
    /// next one.
    pub open spec fn handing_over(self) -> (ListenerState, ListenerCall) {
        (
            ListenerState {
                handle: INVALID_HANDLE_VALUE,
                phase: ListenerPhase::CreatingNext { client: self.handle },
                ..self
            },
            ListenerCall::CreateInstance { first_instance: false },
        )
    }

    /// What follows on the outcome `reply` of the call that is waited for.
    pub open spec fn next(self, reply: ListenerReply) -> (ListenerState, ListenerCall) {
        match (self.phase, reply) {
            (ListenerPhase::CreatingEvent, ListenerReply::Event(event)) => if event == 0 {
                (self.at(ListenerPhase::EventFailed), ListenerCall::LastError)
            } else {
                (
                    ListenerState { event, phase: ListenerPhase::CreatingFirst, ..self },
                    ListenerCall::CreateInstance { first_instance: true },
                )
            },
            (ListenerPhase::EventFailed, ListenerReply::LastError(code)) => self.unbound(
                IoError::Os(code as i32),
            ),
            (ListenerPhase::CreatingFirst, ListenerReply::Instance(made)) => match made {
                Err(error) => self.abandoned(error),
                Ok(handle) => self.starting(handle, ListenerPhase::StartingFirst),
            },
            (ListenerPhase::StartingFirst, ListenerReply::Started(started)) => match started {
                Err(error) => self.unbound(error),
                Ok(connected) => (
                    ListenerState { connected, phase: ListenerPhase::Listening, ..self },
                    ListenerCall::Bound {
                        outcome: Ok(()),
                        close_handle: INVALID_HANDLE_VALUE,
                        close_event: 0,
                    },
                ),
            },
            (ListenerPhase::Recreating { timeout_ms }, ListenerReply::Instance(made)) => match made {
                Err(error) => self.accepting(Err(error)),
                Ok(handle) => self.starting(handle, ListenerPhase::Restarting { timeout_ms }),
            },
            (
                ListenerPhase::Restarting { timeout_ms },
                ListenerReply::Started(started),
            ) => match started {
                Err(error) => self.accepting(Err(error)),
                Ok(connected) => ListenerState { connected, ..self }.waiting(timeout_ms),
            },
            (ListenerPhase::Waiting, ListenerReply::Waited(how)) => if how == WAIT_TIMEOUT {
                self.accepting(Ok(None))
            } else if how != WAIT_OBJECT_0 {
                (self.at(ListenerPhase::WaitFailed), ListenerCall::LastError)
            } else if self.connected {
                self.handing_over()
            } else {
                (
                    self.at(ListenerPhase::Confirming),
                    ListenerCall::Confirm { handle: self.handle },
                )
            },
            (ListenerPhase::WaitFailed, ListenerReply::LastError(code)) => self.accepting(
                Err(IoError::Os(code as i32)),
            ),
            (ListenerPhase::Confirming, ListenerReply::Confirmed(ok)) => if ok != 0 {
                self.handing_over()
            } else {
                (self.at(ListenerPhase::ConfirmFailed), ListenerCall::LastError)
            },
            (ListenerPhase::ConfirmFailed, ListenerReply::LastError(code)) => {
                if code == ERROR_PIPE_CONNECTED {
                    self.handing_over()
                } else {
                    self.accepting(Err(IoError::Os(code as i32)))
                }
            },
            (ListenerPhase::CreatingNext { client }, ListenerReply::Instance(made)) => match made {
                Err(_) => self.accepting(Ok(Some(PipeStream { handle: client }))),
                Ok(handle) => self.starting(handle, ListenerPhase::StartingNext { client }),
            },
            (ListenerPhase::StartingNext { client }, ListenerReply::Started(started)) => {
                let connected = started == Ok::<bool, IoError>(true);
                ListenerState { connected, ..self }.accepting(
                    Ok(Some(PipeStream { handle: client })),
                )
            },
            _ => self.unbound(IoError::Driver),
        }
    }
}

/// The server end of a named pipe.
#[derive(Debug, PartialEq, Eq)]
pub struct PipeListener {
    state: ListenerState,
}

impl View for PipeListener {
    type V = ListenerState;

    closed spec fn view(&self) -> ListenerState {
        self.state
    }
}

impl PipeListener {
    /// Begins to listen at the pipe that `path` names; hands out the path of that
    /// pipe as system calls take it.
    pub fn bind(path: &str) -> (started: Result<(Vec<u16>, PipeListener, ListenerCall), IoError>)
        ensures
            match final_component(path@) {
                Some(stem) => match started {
                    Ok((pipe, listener, call)) => {
                        &&& pipe@ == pipe_path_of(stem)
                        &&& listener@ == ListenerState::blank()
                        &&& call == ListenerCall::CreateEvent
                    },
                    Err(_) => false,
                },
                None => started matches Err(error) && error == IoError::InvalidPipeName,
            },
    {
        match pipe_path_from(path) {
            Ok(pipe) => {
                let (listener, call) = PipeListener::start();
                Ok((pipe, listener, call))
            },
            Err(error) => Err(error),
        }
    }

    /// Begins to listen at a pipe whose path is known.
    pub fn start() -> (started: (PipeListener, ListenerCall))
        ensures
            started.0@ == ListenerState::blank(),
            started.0@.wf(),
            started.1 == ListenerCall::CreateEvent,
    {
        let state = ListenerState {
            handle: INVALID_HANDLE_VALUE,
            event: 0,
            connected: false,
            phase: ListenerPhase::CreatingEvent,
        };
        (PipeListener { state }, ListenerCall::CreateEvent)
    }

    /// Whether the listener listens, and no client is being accepted.
    pub fn is_listening(&self) -> (yes: bool)
        ensures
            yes == (self@.phase is Listening),
    {
        matches!(self.state.phase, ListenerPhase::Listening)
    }

    /// Begins to wait for a client, for up to `timeout_ms` milliseconds.
    pub fn accept_timeout_ms(&mut self, timeout_ms: u32) -> (call: ListenerCall)
        requires
            old(self)@.wf(),
            old(self)@.phase is Listening,
        ensures
            (final(self)@, call) == old(self)@.accept(timeout_ms),
            final(self)@.wf(),
    {
        if self.state.handle != INVALID_HANDLE_VALUE {
            return self.wait(timeout_ms);
        }
        self.ask(
            ListenerPhase::Recreating { timeout_ms },
            ListenerCall::CreateInstance { first_instance: false },
        )
    }

    fn abandon(&mut self, error: IoError) -> (call: ListenerCall)
        ensures
            (final(self)@, call) == old(self)@.abandoned(error),
    {
        self.state.handle = INVALID_HANDLE_VALUE;
        self.state.event = 0;
        self.state.phase = ListenerPhase::Failed;
        ListenerCall::Bound {
            outcome: Err(error),
            close_handle: INVALID_HANDLE_VALUE,
            close_event: 0,
        }
    }

    fn fail(&mut self, error: IoError) -> (call: ListenerCall)
        ensures
            (final(self)@, call) == old(self)@.unbound(error),
    {
        let (close_handle, close_event): (isize, isize) = (self.state.handle, self.state.event);
        self.state.handle = INVALID_HANDLE_VALUE;
        self.state.event = 0;
        self.state.phase = ListenerPhase::Failed;
        ListenerCall::Bound { outcome: Err(error), close_handle, close_event }
    }

    fn let_in(&mut self, handle: isize, phase: ListenerPhase) -> (call: ListenerCall)
        ensures
            (final(self)@, call) == old(self)@.starting(handle, phase),
    {
        self.state.handle = handle;
        self.state.connected = false;
        self.state.phase = phase;
        ListenerCall::StartConnect { handle, event: self.state.event }
    }

    fn wait(&mut self, timeout_ms: u32) -> (call: ListenerCall)
        ensures
            (final(self)@, call) == old(self)@.waiting(timeout_ms),
    {
        self.state.phase = ListenerPhase::Waiting;
        ListenerCall::Wait { event: self.state.event, timeout_ms }
    }

    fn accepted(&mut self, outcome: Result<Option<PipeStream>, IoError>) -> (call: ListenerCall)
        ensures
            (final(self)@, call) == old(self)@.accepting(outcome),
    {
        self.state.phase = ListenerPhase::Listening;
        ListenerCall::Accepted(outcome)
    }

    fn hand_over(&mut self) -> (call: ListenerCall)
        ensures
            (final(self)@, call) == old(self)@.handing_over(),
    {
        let client: isize = self.state.handle;
        self.state.handle = INVALID_HANDLE_VALUE;
        self.state.phase = ListenerPhase::CreatingNext { client };
        ListenerCall::CreateInstance { first_instance: false }
    }

    fn ask(&mut self, phase: ListenerPhase, call: ListenerCall) -> (asked: ListenerCall)
        ensures
            (final(self)@, asked) == (old(self)@.at(phase), call),
    {
        self.state.phase = phase;
        call
    }

    /// Takes the outcome of the call that is waited for, and says which call to
    /// make next.
    pub fn step(&mut self, reply: ListenerReply) -> (call: ListenerCall)
        requires
            old(self)@.wf(),
            old(self)@.fits(reply),
        ensures
            (final(self)@, call) == old(self)@.next(reply),
            final(self)@.wf(),
    {
        match (self.state.phase, reply) {
            (ListenerPhase::CreatingEvent, ListenerReply::Event(event)) => if event == 0 {
                self.ask(ListenerPhase::EventFailed, ListenerCall::LastError)
            } else {
                self.state.event = event;
                self.ask(
                    ListenerPhase::CreatingFirst,
                    ListenerCall::CreateInstance { first_instance: true },
                )
            },
            (ListenerPhase::EventFailed, ListenerReply::LastError(code)) => self.fail(
                IoError::from_code(code),
            ),
            (ListenerPhase::CreatingFirst, ListenerReply::Instance(made)) => match made {
                Err(error) => self.abandon(error),
                Ok(handle) => self.let_in(handle, ListenerPhase::StartingFirst),
            },
            (ListenerPhase::StartingFirst, ListenerReply::Started(started)) => match started {
                Err(error) => self.fail(error),
                Ok(connected) => {
                    self.state.connected = connected;
                    self.ask(
                        ListenerPhase::Listening,
                        ListenerCall::Bound {
                            outcome: Ok(()),
                            close_handle: INVALID_HANDLE_VALUE,
                            close_event: 0,
                        },
                    )
                },
            },
            (ListenerPhase::Recreating { timeout_ms }, ListenerReply::Instance(made)) => match made {
                Err(error) => self.accepted(Err(error)),
                Ok(handle) => self.let_in(handle, ListenerPhase::Restarting { timeout_ms }),
            },
            (
                ListenerPhase::Restarting { timeout_ms },
                ListenerReply::Started(started),
            ) => match started {
                Err(error) => self.accepted(Err(error)),
                Ok(connected) => {
                    self.state.connected = connected;
                    self.wait(timeout_ms)
                },
            },
            (ListenerPhase::Waiting, ListenerReply::Waited(how)) => if how == WAIT_TIMEOUT {
                self.accepted(Ok(None))
            } else if how != WAIT_OBJECT_0 {
                self.ask(ListenerPhase::WaitFailed, ListenerCall::LastError)
            } else if self.state.connected {
                self.hand_over()
            } else {
                let handle: isize = self.state.handle;
                self.ask(ListenerPhase::Confirming, ListenerCall::Confirm { handle })
            },
            (ListenerPhase::WaitFailed, ListenerReply::LastError(code)) => self.accepted(
                Err(IoError::from_code(code)),
            ),
            (ListenerPhase::Confirming, ListenerReply::Confirmed(ok)) => if ok != 0 {
                self.hand_over()
            } else {
                self.ask(ListenerPhase::ConfirmFailed, ListenerCall::LastError)
            },
            (ListenerPhase::ConfirmFailed, ListenerReply::LastError(code)) => {
                if code == ERROR_PIPE_CONNECTED {
                    self.hand_over()
                } else {
                    self.accepted(Err(IoError::from_code(code)))
                }
            },
            (ListenerPhase::CreatingNext { client }, ListenerReply::Instance(made)) => match made {
                Err(_) => self.accepted(Ok(Some(PipeStream { handle: client }))),
                Ok(handle) => self.let_in(handle, ListenerPhase::StartingNext { client }),
            },
            (ListenerPhase::StartingNext { client }, ListenerReply::Started(started)) => {
                self.state.connected = match started {
                    Ok(connected) => connected,
                    Err(_) => false,
                };
                self.accepted(Ok(Some(PipeStream { handle: client })))
            },
            _ => self.fail(IoError::Driver),
        }
    }

    /// Hands out what has to be closed with the listener: the instance, which is
    /// disconnected first, and the event.
    pub fn close(&mut self) -> (handles: (Option<isize>, Option<isize>))
        ensures
            final(self)@ == old(self)@.closed(),
            handles.0 == if old(self)@.has_instance() {
                Some(old(self)@.handle)
            } else {
                None
            },
            handles.1 == if old(self)@.event != 0 {
                Some(old(self)@.event)
            } else {
                None
            },
    {
        let handle = if self.state.handle != INVALID_HANDLE_VALUE {
            Some(self.state.handle)
        } else {
            None
        };
        let event = if self.state.event != 0 {
            Some(self.state.event)
        } else {
            None
        };
        self.state.handle = INVALID_HANDLE_VALUE;
        self.state.event = 0;
        self.state.phase = ListenerPhase::Failed;
        (handle, event)
    }
}

/// Whatever the outcomes are, a well-formed listener stays well-formed: it holds what
/// its phase needs, and never waits without an instance.
pub proof fn law_listener_stays_well_formed(
    listener: ListenerState,
    reply: ListenerReply,
    timeout_ms: u32,
)
    requires
        listener.wf(),
    ensures
        ListenerState::blank().wf(),
        listener.fits(reply) ==> listener.next(reply).0.wf(),
        listener.phase is Listening ==> listener.accept(timeout_ms).0.wf(),
        listener.closed().wf(),
{
}

/// The instance of a client that has connected but has not been handed out yet.
pub open spec fn client_of(listener: ListenerState) -> Option<isize> {
    match listener.phase {
        ListenerPhase::CreatingNext { client } => Some(client),
        ListenerPhase::StartingNext { client } => Some(client),
        _ => None,
    }
}

/// A client gets the instance that it connected to, which is one that the listener
/// held when the wait ended, and is never the invalid one: a stream is a connected
/// pipe, also after instances could not be made.
pub proof fn law_client_gets_its_instance(listener: ListenerState, reply: ListenerReply)
    requires
        listener.wf(),
        listener.fits(reply),
    ensures
        listener.next(reply).1 matches ListenerCall::Accepted(Ok(Some(stream))) ==> client_of(
            listener,
        ) == Some(stream.handle) && stream.handle != INVALID_HANDLE_VALUE,
        client_of(listener) is None && client_of(listener.next(reply).0) is Some ==> client_of(
            listener.next(reply).0,
        ) == Some(listener.handle),
        client_of(listener) is Some && client_of(listener.next(reply).0) is Some ==> client_of(
            listener.next(reply).0,
        ) == client_of(listener),
{
}

/// Nothing owns an instance twice: when a client has been handed out, the listener
/// holds a new instance or none. The system does not give out a handle that is still
/// open, which is what `made` says.
pub proof fn law_instances_have_one_owner(
    listener: ListenerState,
    client: isize,
    made: Result<isize, IoError>,
    started: Result<bool, IoError>,
)
    requires
        listener.wf(),
        listener.phase == (ListenerPhase::CreatingNext { client }),
        listener.fits(ListenerReply::Instance(made)),
        made matches Ok(handle) ==> handle != client,
    ensures
        ({
            let (after, call) = listener.next(ListenerReply::Instance(made));
            let (done, last) = after.next(ListenerReply::Started(started));
            let accepted = ListenerCall::Accepted(Ok(Some(PipeStream { handle: client })));
            match made {
                Ok(handle) => last == accepted && done.handle == handle && done.handle != client,
                Err(_) => call == accepted && !after.has_instance(),
            }
        }),
{
}

/// A listener that was left without an instance makes one before it waits for the
/// next client, and fails with the error if it cannot.
pub proof fn law_missing_instance_is_made_first(
    listener: ListenerState,
    timeout_ms: u32,
    made: Result<isize, IoError>,
    started: Result<bool, IoError>,
)
    requires
        listener.wf(),
        listener.phase is Listening,
        !listener.has_instance(),
    ensures
        ({
            let (making, first) = listener.accept(timeout_ms);
            let (made_it, second) = making.next(ListenerReply::Instance(made));
            let (waiting, third) = made_it.next(ListenerReply::Started(started));
            &&& first == ListenerCall::CreateInstance { first_instance: false }
            &&& made matches Err(error) ==> second == ListenerCall::Accepted(Err(error))
            &&& made matches Ok(handle) ==> {
                &&& second == ListenerCall::StartConnect { handle, event: listener.event }
                &&& waiting.handle == handle
                &&& third == match started {
                    Err(error) => ListenerCall::Accepted(Err(error)),
                    Ok(_) => ListenerCall::Wait { event: listener.event, timeout_ms },
                }
            }
        }),
{
}

/// A wait whose time is up changes nothing: the listener is as it was.
pub proof fn law_no_client_no_change(listener: ListenerState, timeout_ms: u32)
    requires
        listener.wf(),
        listener.phase is Listening,
        listener.has_instance(),
    ensures
        listener.accept(timeout_ms).0.next(ListenerReply::Waited(WAIT_TIMEOUT)) == (
            listener,
            ListenerCall::Accepted(Ok(None)),
        ),
{
}

/// A listener that cannot be set up hands out all that it has open, once: it holds
/// nothing after that. One that is set up keeps both the instance and the event. A
/// listener that has no first instance is left out: its event stays open.
pub proof fn law_failed_bind_leaves_nothing_open(listener: ListenerState, reply: ListenerReply)
    requires
        listener.wf(),
        listener.fits(reply),
        !(listener.phase is CreatingFirst),
    ensures
        listener.next(reply).1 matches ListenerCall::Bound { outcome, close_handle, close_event }
            ==> {
            let after = listener.next(reply).0;
            match outcome {
                Err(_) => {
                    &&& close_handle == listener.handle
                    &&& close_event == listener.event
                    &&& !after.has_instance()
                    &&& after.event == 0
                },
                Ok(_) => {
                    &&& close_handle == INVALID_HANDLE_VALUE
                    &&& close_event == 0
                    &&& after.handle == listener.handle
                    &&& after.event == listener.event
                },
            }
        },
{
}

/// A listener, and the streams that it has given out and that are still open.
#[verifier::ext_equal]
pub struct Service {
    /// The listener.
    pub listener: ListenerState,
    /// The handles of the streams.
    pub alive: Set<isize>,
}

/// What happens to a listener and its streams.
pub enum Happening {
    /// A client is waited for.
    Accept { timeout_ms: u32 },
    /// The call that the listener waits for has come out so.
    Reply(ListenerReply),
    /// A stream is closed.
    Dropped { handle: isize },
}

impl Service {
    /// A listener that is yet to be set up, without streams.
    pub open spec fn fresh() -> Service {
        Service { listener: ListenerState::blank(), alive: Set::empty() }
    }

    /// Whether `handle` is open: as the instance of the listener, of the client that is
    /// being accepted, or of a stream.
    pub open spec fn is_open(self, handle: isize) -> bool {
        (self.listener.has_instance() && handle == self.listener.handle) || client_of(
            self.listener,
        ) == Some(handle) || self.alive.contains(handle)
    }

    /// Whether this can happen now. The system gives out no handle that is open.
    pub open spec fn can(self, happening: Happening) -> bool {
        match happening {
            Happening::Accept { .. } => self.listener.phase is Listening,
            Happening::Reply(reply) => self.listener.fits(reply) && (
            reply matches ListenerReply::Instance(Ok(handle)) ==> !self.is_open(handle)),
            Happening::Dropped { handle } => self.alive.contains(handle),
        }
    }

    /// The stream that is given out when this happens.
    pub open spec fn given(self, happening: Happening) -> Option<PipeStream> {
        match happening {
            Happening::Reply(reply) => match self.listener.next(reply).1 {
                ListenerCall::Accepted(Ok(stream)) => stream,
                _ => None,
            },
            _ => None,
        }
    }

    /// How things stand when this has happened.
    pub open spec fn after(self, happening: Happening) -> Service {
        match happening {
            Happening::Accept { timeout_ms } => Service {
                listener: self.listener.accept(timeout_ms).0,
                ..self
            },
            Happening::Reply(reply) => Service {
                listener: self.listener.next(reply).0,
                alive: match self.given(happening) {
                    Some(stream) => self.alive.insert(stream.handle),
                    None => self.alive,
                },
            },
            Happening::Dropped { handle } => Service { alive: self.alive.remove(handle), ..self },
        }
    }

    /// No handle has two owners, and no stream has the invalid one.
    pub open spec fn apart(self) -> bool {
        &&& self.listener.wf()
        &&& !self.alive.contains(INVALID_HANDLE_VALUE)
        &&& self.listener.has_instance() ==> !self.alive.contains(self.listener.handle)
        &&& client_of(self.listener) matches Some(client) ==> !self.alive.contains(client)
            && client != self.listener.handle
    }

    /// How things stand when all of this has happened, in turn.
    pub open spec fn after_all(self, happenings: Seq<Happening>) -> Service
        decreases happenings.len(),
    {
        if happenings.len() == 0 {
            self
        } else {
            self.after_all(happenings.drop_last()).after(happenings.last())
        }
    }

    /// Whether all of this can happen, in turn.
    pub open spec fn can_all(self, happenings: Seq<Happening>) -> bool
        decreases happenings.len(),
    {
        happenings.len() == 0 || (self.can_all(happenings.drop_last()) && self.after_all(
            happenings.drop_last(),
        ).can(happenings.last()))
    }
}

/// However many clients are accepted, whatever fails in between and whichever streams
/// are closed: every stream that is given out is a connected pipe of its own. Its handle
/// is not the invalid one, is not that of a stream that is still open, and is not kept
/// by the listener.
pub proof fn law_streams_are_distinct(happenings: Seq<Happening>, next: Happening)
    requires
        Service::fresh().can_all(happenings),
        Service::fresh().after_all(happenings).can(next),
    ensures
        ({
            let before = Service::fresh().after_all(happenings);
            let after = before.after(next);
            &&& before.apart()
            &&& after.apart()
            &&& before.given(next) matches Some(stream) ==> {
                &&& stream.handle != INVALID_HANDLE_VALUE
                &&& !before.alive.contains(stream.handle)
                &&& stream.handle != after.listener.handle
            }
        }),
    decreases happenings.len(),
{
    if happenings.len() > 0 {
        law_streams_are_distinct(happenings.drop_last(), happenings.last());
    }
}

/// An instance of a pipe is made with the attributes that it is secured by, for both
/// directions and overlapped operations, for bytes, with any number of instances and buffers
/// of 64 KiB; the first one only where there is none yet. What comes of it is the handle that
/// the system gives, or the error number if that is the invalid one. The descriptor of the
/// attributes is freed in both cases. Without attributes there is no instance.
pub proof fn law_instance_is_made(
    op: InstanceState,
    attributes: SecurityAttributes,
    handle: isize,
    code: u32,
    error: IoError,
)
    requires
        op.phase is Securing,
        op.descriptor == 0,
    ensures
        ({
            let (creating, create) = op.next(InstanceReply::Secured(Ok(attributes)));
            let (after, call) = creating.next(InstanceReply::Created(handle));
            let free_descriptor = if attributes.descriptor == 0 {
                None
            } else {
                Some(attributes.descriptor)
            };
            &&& op.next(InstanceReply::Secured(Err(error))).1 == InstanceCall::Finish {
                outcome: Err(error),
                free_descriptor: None,
            }
            &&& create == InstanceCall::Create {
                open_mode: if op.first_instance {
                    0x4008_0003
                } else {
                    0x4000_0003
                },
                pipe_mode: 0,
                max_instances: 255,
                buffer_size: 65536,
                attributes,
            }
            &&& handle != -1 ==> call == InstanceCall::Finish {
                outcome: Ok(handle),
                free_descriptor,
            }
            &&& handle == -1 ==> {
                &&& call == InstanceCall::LastError
                &&& after.next(InstanceReply::LastError(code)).1 == InstanceCall::Finish {
                    outcome: Err(IoError::Os(code as i32)),
                    free_descriptor,
                }
            }
        }),
{
}

/// A client is let in at an instance: one that is there at once, or was there first, has the
/// event set by hand, one that is still to come will set it, and any other error number is
/// handed on.
pub proof fn law_client_is_let_in(op: StartState, ok: i32, code: u32)
    requires
        op.phase is Connecting,
    ensures
        ({
            let (after, call) = op.next(StartReply::Connected(ok));
            let (told, next) = after.next(StartReply::LastError(code));
            &&& ok != 0 ==> {
                &&& call == StartCall::SetEvent
                &&& after.next(StartReply::EventSet).1 == StartCall::Finish(Ok(true))
            }
            &&& ok == 0 ==> {
                &&& call == StartCall::LastError
                &&& code == 997 ==> next == StartCall::Finish(Ok(false))
                &&& code == 535 ==> next == StartCall::SetEvent && told.next(StartReply::EventSet).1
                    == StartCall::Finish(Ok(true))
                &&& code != 997 && code != 535 ==> next == StartCall::Finish(
                    Err(IoError::Os(code as i32)),
                )
            }
        }),
{
}

/// A listener is set up with an event, with the first instance of the pipe and with letting a
/// client in there, in this order. If all goes well it listens with that instance and that
/// event, and knows whether a client is there already. If not, it fails with the error: what
/// is open by then is handed out to be closed, but for an event for which there is no
/// instance.
pub proof fn law_listener_is_set_up(
    event: isize,
    handle: isize,
    connected: bool,
    code: u32,
    error: IoError,
)
    requires
        event != 0,
        handle != -1,
    ensures
        ({
            let blank = ListenerState::blank();
            let (creating, first) = blank.next(ListenerReply::Event(event));
            let (starting, second) = creating.next(ListenerReply::Instance(Ok(handle)));
            let (listening, third) = starting.next(ListenerReply::Started(Ok(connected)));
            let (failed, why) = blank.next(ListenerReply::Event(0));
            &&& why == ListenerCall::LastError
            &&& failed.next(ListenerReply::LastError(code)).1 == ListenerCall::Bound {
                outcome: Err(IoError::Os(code as i32)),
                close_handle: -1 as isize,
                close_event: 0,
            }
            &&& first == ListenerCall::CreateInstance { first_instance: true }
            &&& creating.next(ListenerReply::Instance(Err(error))).1 == ListenerCall::Bound {
                outcome: Err(error),
                close_handle: -1 as isize,
                close_event: 0,
            }
            &&& second == ListenerCall::StartConnect { handle, event }
            &&& starting.next(ListenerReply::Started(Err(error))).1 == ListenerCall::Bound {
                outcome: Err(error),
                close_handle: handle,
                close_event: event,
            }
            &&& third == ListenerCall::Bound {
                outcome: Ok(()),
                close_handle: -1 as isize,
                close_event: 0,
            }
            &&& listening == ListenerState {
                handle,
                event,
                connected,
                phase: ListenerPhase::Listening,
            }
        }),
{
}

/// Whether `client` has been handed over at its instance: another instance is made for the
/// next client, and let one in at; whatever comes of that, the stream of the client has its
/// instance, and the listener listens with the new one, or with none.
pub open spec fn hands_over(
    before: ListenerState,
    after: ListenerState,
    call: ListenerCall,
    client: isize,
) -> bool {
    let served = ListenerCall::Accepted(Ok(Some(PipeStream { handle: client })));
    &&& call == ListenerCall::CreateInstance { first_instance: false }
    &&& forall|error: IoError| #[trigger]
        after.next(ListenerReply::Instance(Err(error))) == (
            ListenerState { handle: -1 as isize, phase: ListenerPhase::Listening, ..before },
            served,
        )
    &&& forall|handle: isize, started: Result<bool, IoError>|
        #![trigger after.next(ListenerReply::Instance(Ok(handle))).0.next(ListenerReply::Started(started))]
        {
            let (starting, start) = after.next(ListenerReply::Instance(Ok(handle)));
            &&& start == ListenerCall::StartConnect { handle, event: before.event }
            &&& starting.next(ListenerReply::Started(started)) == (
                ListenerState {
                    handle,
                    event: before.event,
                    connected: started == Ok::<bool, IoError>(true),
                    phase: ListenerPhase::Listening,
                },
                served,
            )
        }
}

/// A listener with an instance waits at its event for as long as it is told. If the time is
/// up, nobody has come; if a client has come, it is handed over, once that is confirmed where
/// the event was not set by hand. A client that was there first counts as confirmed; any
/// other error number is handed on, and the listener listens on as it is.
pub proof fn law_client_is_accepted(
    listener: ListenerState,
    timeout_ms: u32,
    how: u32,
    ok: i32,
    code: u32,
)
    requires
        listener.phase is Listening,
        listener.handle != -1,
    ensures
        ({
            let (waiting, wait) = listener.accept(timeout_ms);
            let (after, call) = waiting.next(ListenerReply::Waited(0));
            let (other, why) = waiting.next(ListenerReply::Waited(how));
            let (answered, next) = after.next(ListenerReply::Confirmed(ok));
            let (told, last) = answered.next(ListenerReply::LastError(code));
            let failed = (listener, ListenerCall::Accepted(Err(IoError::Os(code as i32))));
            &&& wait == ListenerCall::Wait { event: listener.event, timeout_ms }
            &&& waiting.next(ListenerReply::Waited(258)) == (
                listener,
                ListenerCall::Accepted(Ok(None)),
            )
            &&& how != 0 && how != 258 ==> {
                &&& why == ListenerCall::LastError
                &&& other.next(ListenerReply::LastError(code)) == failed
            }
            &&& listener.connected ==> hands_over(listener, after, call, listener.handle)
            &&& !listener.connected ==> {
                &&& call == ListenerCall::Confirm { handle: listener.handle }
                &&& ok != 0 ==> hands_over(listener, answered, next, listener.handle)
                &&& ok == 0 ==> {
                    &&& next == ListenerCall::LastError
                    &&& code == 535 ==> hands_over(listener, told, last, listener.handle)
                    &&& code != 535 ==> (told, last) == failed
                }
            }
        }),
{
}

/// A listener without an instance makes one before it waits, lets a client in there, and
/// waits for as long as it was told; if that fails, it listens on, and the error is handed
/// on.
pub proof fn law_missing_instance_is_replaced(
    listener: ListenerState,
    timeout_ms: u32,
    handle: isize,
    connected: bool,
    error: IoError,
)
    requires
        listener.phase is Listening,
        listener.handle == -1,
        handle != -1,
    ensures
        ({
            let (making, make) = listener.accept(timeout_ms);
            let (starting, start) = making.next(ListenerReply::Instance(Ok(handle)));
            let (waiting, wait) = starting.next(ListenerReply::Started(Ok(connected)));
            let ready = ListenerState { handle, connected, ..listener };
            &&& make == ListenerCall::CreateInstance { first_instance: false }
            &&& making.next(ListenerReply::Instance(Err(error))) == (
                listener,
                ListenerCall::Accepted(Err(error)),
            )
            &&& start == ListenerCall::StartConnect { handle, event: listener.event }
            &&& starting.next(ListenerReply::Started(Err(error))) == (
                ListenerState { handle, connected: false, ..listener },
                ListenerCall::Accepted(Err(error)),
            )
            &&& (waiting, wait) == ready.accept(timeout_ms)
            &&& wait == ListenerCall::Wait { event: listener.event, timeout_ms }
        }),
{
}

} // verus!
