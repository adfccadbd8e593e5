//! The server: how it is set up, run and torn down.

use crate::crash::{CrashCall, CrashOp, CrashPhase, CrashState};
use crate::error::{IoError, ServerError};
use crate::pipe_server::{PipeCall, PipeLoop, PipePhase, PipeState};
use crate::platform::Platform;
use crate::poll_server::{Call, PollLoop, PollState};
use crate::wire::ByteOrder;
use vstd::prelude::*;
use vstd::utf8::encode_utf8;

verus! {

/// The address of a socket, as `uds` has it. It is carried to where the socket is
/// bound; nothing here looks into it.
#[verifier::external_type_specification]
#[verifier::external_body]
pub struct ExUnixSocketAddr(uds::UnixSocketAddr);

/// The error of `uds`, of which only that there is one counts here.
#[verifier::external_type_specification]
#[verifier::external_body]
pub struct ExIoError(std::io::Error);

/// How many bytes the path of a socket can have.
pub const MAX_PATH_LEN: usize = 108;

/// How many bytes an abstract name can have.
pub const MAX_ABSTRACT_LEN: usize = 107;

/// The address that `uds::UnixSocketAddr::from_path` makes of a path.
pub uninterp spec fn path_address(path: Seq<char>) -> uds::UnixSocketAddr;

/// The address that `uds::UnixSocketAddr::from_abstract` makes of a name.
pub uninterp spec fn abstract_address(name: Seq<char>) -> uds::UnixSocketAddr;

/// Whether there is an address for a path: it is not empty, its bytes have room in
/// an address, and none of them is zero.
pub open spec fn is_socket_path(path: Seq<char>) -> bool {
    0 < encode_utf8(path).len() <= MAX_PATH_LEN && !encode_utf8(path).contains(0)
}

/// Whether there is an address for an abstract name: its bytes have room in an
/// address, behind the zero that marks it.
pub open spec fn is_abstract_name(name: Seq<char>) -> bool {
    encode_utf8(name).len() <= MAX_ABSTRACT_LEN
}

/// Calls `uds::UnixSocketAddr::from_path`, which makes an address of the bytes of
/// a path; it refuses an empty path, one with more bytes than an address has room
/// for, which are 108 on Linux and Android, and one with a zero byte.
#[verifier::external_body]
fn from_path(path: &str) -> (address: Result<uds::UnixSocketAddr, std::io::Error>)
    ensures
        address is Ok <==> is_socket_path(path@),
        address matches Ok(a) ==> a == path_address(path@),
{
    uds::UnixSocketAddr::from_path(path)
}

/// Calls `uds::UnixSocketAddr::from_abstract`, which makes an address of the bytes
/// of a name; on Linux and Android it refuses only a name with more bytes than an
/// address has room for, which are 107.
#[verifier::external_body]
fn from_abstract(name: &str) -> (address: Result<uds::UnixSocketAddr, std::io::Error>)
    ensures
        address is Ok <==> is_abstract_name(name@),
        address matches Ok(a) ==> a == abstract_address(name@),
{
    uds::UnixSocketAddr::from_abstract(name)
}

/// What a server is reached by.
#[derive(Debug, PartialEq, Eq)]
pub enum SocketName {
    /// A path in the file system or, on Windows, one whose final component is the
    /// name of a pipe.
    Path(String),
    /// A name outside the file system, on Linux only.
    Abstract(String),
}

/// Whether a string has a zero in it.
fn has_zero(s: &str) -> (yes: bool)
    ensures
        yes == s@.contains('\0'),
{
    for c in it: s.chars()
        invariant
            it.seq() == s@,
            forall|i: int| 0 <= i < it.index() ==> s@[i] != '\0',
    {
        if c == '\0' {
            assert(s@[it.index()] == '\0');
            return true;
        }
    }
    false
}

impl SocketName {
    /// Why a server cannot be reached by this name on `platform`, if it cannot.
    /// Pipes are checked when they are opened.
    pub open spec fn fault(self, platform: Platform) -> Option<ServerError> {
        match (platform, self) {
            (Platform::Linux, SocketName::Path(path)) => if is_socket_path(path@) {
                None
            } else {
                Some(ServerError::InvalidName)
            },
            (Platform::Linux, SocketName::Abstract(name)) => if is_abstract_name(name@) {
                None
            } else {
                Some(ServerError::InvalidName)
            },
            (Platform::MacOs, SocketName::Path(path)) => if path@.contains('\0') {
                Some(ServerError::InvalidPortName)
            } else {
                None
            },
            _ => None,
        }
    }

    /// The address of the socket, where there is one.
    pub open spec fn address(self, platform: Platform) -> Option<uds::UnixSocketAddr> {
        if !(platform is Linux) || self.fault(platform) is Some {
            None
        } else {
            match self {
                SocketName::Path(path) => Some(path_address(path@)),
                SocketName::Abstract(name) => Some(abstract_address(name@)),
            }
        }
    }
}

/// What the driver of a [`Server`] that is being set up has to do next.
#[derive(Clone, Copy, Debug, PartialEq, Eq)]
pub enum SetupCall {
    /// Remove the file that the server is named by, if there is one.
    RemoveFile,
    /// Make a Mach port of that name.
    CreatePort,
    /// Bind the listener: to [`Server::address`], or to the path.
    Bind,
    /// Have the listener never block.
    SetNonblocking,
    /// Nothing more: the server is set up, or this is why not.
    Finish(Result<(), ServerError>),
}

/// What came of a [`SetupCall`].
#[derive(Clone, Copy, Debug, PartialEq, Eq)]
pub enum SetupReply {
    /// The file is gone, or could not be removed.
    Removed,
    /// Whether there is a port.
    Port(Result<(), ServerError>),
    /// Whether the listener did as told.
    Listener(Result<(), IoError>),
}

/// Which call setting up waits for the outcome of.
#[derive(Clone, Copy, Debug, PartialEq, Eq)]
pub enum SetupPhase {
    /// [`SetupCall::RemoveFile`]; `fault` is what is wrong with the name.
    Removing { fault: Option<ServerError> },
    /// [`SetupCall::CreatePort`].
    CreatingPort,
    /// [`SetupCall::Bind`].
    Binding,
    /// [`SetupCall::SetNonblocking`].
    Unblocking,
    /// Nothing: the server is set up.
    Ready,
    /// Nothing: the server could not be set up.
    Failed,
}

/// The state of a server.
#[verifier::ext_equal]
pub struct ServerState {
    /// What the server runs on.
    pub platform: Platform,
    /// Whether the listener is there, and not in use by a message loop.
    pub listening: bool,
    /// The path of the socket, which is removed with the server.
    pub socket_path: Option<Seq<char>>,
    /// The address of the socket.
    pub address: Option<uds::UnixSocketAddr>,
    /// What setting up waits for.
    pub phase: SetupPhase,
}

impl ServerState {
    /// The same server, in another phase.
    pub open spec fn at(self, phase: SetupPhase) -> ServerState {
        ServerState { phase, ..self }
    }

    /// The server could not be set up. It has no socket to remove.
    pub open spec fn failing(self, error: ServerError) -> (ServerState, SetupCall) {
        (
            ServerState { socket_path: None, ..self.at(SetupPhase::Failed) },
            SetupCall::Finish(Err(error)),
        )
    }

    /// The server is set up.
    pub open spec fn succeeding(self) -> (ServerState, SetupCall) {
        (
            ServerState { listening: true, ..self.at(SetupPhase::Ready) },
            SetupCall::Finish(Ok(())),
        )
    }

    /// The name is good, and any file that was in its way is gone.
    pub open spec fn opening(self) -> (ServerState, SetupCall) {
        if self.platform is MacOs {
            (self.at(SetupPhase::CreatingPort), SetupCall::CreatePort)
        } else {
            (self.at(SetupPhase::Binding), SetupCall::Bind)
        }
    }

    /// How setting up begins.
    pub open spec fn begin(platform: Platform, name: SocketName) -> (ServerState, SetupCall) {
        let fault = name.fault(platform);
        let blank = ServerState {
            platform,
            listening: false,
            socket_path: match name {
                SocketName::Path(path) => if platform is Windows {
                    None
                } else {
                    Some(path@)
                },
                SocketName::Abstract(_) => None,
            },
            address: name.address(platform),
            phase: SetupPhase::Removing { fault },
        };
        match name {
            SocketName::Path(_) => (blank, SetupCall::RemoveFile),
            SocketName::Abstract(_) => match fault {
                Some(error) => blank.failing(error),
                None => blank.opening(),
            },
        }
    }

    /// Whether `reply` is an outcome of the call that is waited for.
    pub open spec fn fits(self, reply: SetupReply) -> bool {
        match self.phase {
            SetupPhase::Removing { .. } => reply is Removed,
            SetupPhase::CreatingPort => reply is Port,
            SetupPhase::Binding => reply is Listener,
            SetupPhase::Unblocking => reply is Listener,
            SetupPhase::Ready => false,
            SetupPhase::Failed => false,
        }
    }

    /// What follows on the outcome `reply` of the call that is waited for.
    pub open spec fn next(self, reply: SetupReply) -> (ServerState, SetupCall) {
        match (self.phase, reply) {
            (SetupPhase::Removing { fault }, SetupReply::Removed) => match fault {
                Some(error) => self.failing(error),
                None => self.opening(),
            },
            (SetupPhase::CreatingPort, SetupReply::Port(outcome)) => match outcome {
                Err(error) => self.failing(error),
                Ok(_) => (self.at(SetupPhase::Binding), SetupCall::Bind),
            },
            (SetupPhase::Binding, SetupReply::Listener(outcome)) => match outcome {
                Err(error) => self.failing(ServerError::Io(error)),
                Ok(_) => if self.platform is MacOs {
                    (self.at(SetupPhase::Unblocking), SetupCall::SetNonblocking)
                } else {
                    self.succeeding()
                },
            },
            (SetupPhase::Unblocking, SetupReply::Listener(outcome)) => match outcome {
                Err(error) => self.failing(ServerError::Io(error)),
                Ok(_) => self.succeeding(),
            },
            _ => self.failing(ServerError::Io(IoError::Driver)),
        }
    }

    /// The server when its listener has been handed to a message loop.
    pub open spec fn running(self) -> ServerState {
        ServerState { listening: false, ..self }
    }

    /// The server when it has been torn down.
    pub open spec fn closed(self) -> ServerState {
        ServerState { listening: false, socket_path: None, ..self }
    }
}

/// The message loop of a server, and the first call that it wants made.
#[derive(Debug)]
pub enum MessageLoop {
    /// On sockets.
    Poll(PollLoop, Call),
    /// On pipes.
    Pipe(PipeLoop, PipeCall),
}

/// The server side of the connection. It runs in the process that monitors its
/// clients.
pub struct Server {
    platform: Platform,
    listening: bool,
    socket_path: Option<String>,
    address: Option<uds::UnixSocketAddr>,
    phase: SetupPhase,
}

/// The text of a string that may be there.
pub open spec fn text_of(s: Option<String>) -> Option<Seq<char>> {
    match s {
        Some(text) => Some(text@),
        None => None,
    }
}

impl View for Server {
    type V = ServerState;

    closed spec fn view(&self) -> ServerState {
        ServerState {
            platform: self.platform,
            listening: self.listening,
            socket_path: text_of(self.socket_path),
            address: self.address,
            phase: self.phase,
        }
    }
}

impl Server {
    /// Begins to set up a server with the given name. A file of that name is
    /// removed first, for it may be left from a server that ended abnormally.
    pub fn with_name(platform: Platform, name: SocketName) -> (started: (Server, SetupCall))
        requires
            name is Abstract ==> platform is Linux,
        ensures
            (started.0@, started.1) == ServerState::begin(platform, name),
    {
        match name {
            SocketName::Path(path) => {
                let (address, fault) = match platform {
                    Platform::Linux => match from_path(path.as_str()) {
                        Ok(address) => (Some(address), None),
                        Err(_) => (None, Some(ServerError::InvalidName)),
                    },
                    Platform::MacOs => if has_zero(path.as_str()) {
                        (None, Some(ServerError::InvalidPortName))
                    } else {
                        (None, None)
                    },
                    Platform::Windows => (None, None),
                };
                let socket_path = match platform {
                    Platform::Windows => None,
                    _ => Some(path),
                };
                let server = Server {
                    platform,
                    listening: false,
                    socket_path,
                    address,
                    phase: SetupPhase::Removing { fault },
                };
                (server, SetupCall::RemoveFile)
            },
            SocketName::Abstract(name) => {
                let (address, fault) = match from_abstract(name.as_str()) {
                    Ok(address) => (Some(address), None),
                    Err(_) => (None, Some(ServerError::InvalidName)),
                };
                let mut server = Server {
                    platform,
                    listening: false,
                    socket_path: None,
                    address,
                    phase: SetupPhase::Removing { fault },
                };
                let call = match fault {
                    Some(error) => server.fail(error),
                    None => server.open(),
                };
                (server, call)
            },
        }
    }

    /// The address that the listener is bound to, where it is a socket of its own
    /// kind.
    pub fn address(&self) -> (address: &Option<uds::UnixSocketAddr>)
        ensures
            *address == self@.address,
    {
        &self.address
    }

    fn fail(&mut self, error: ServerError) -> (call: SetupCall)
        ensures
            (final(self)@, call) == old(self)@.failing(error),
    {
        self.socket_path = None;
        self.phase = SetupPhase::Failed;
        SetupCall::Finish(Err(error))
    }

    fn succeed(&mut self) -> (call: SetupCall)
        ensures
            (final(self)@, call) == old(self)@.succeeding(),
    {
        self.listening = true;
        self.phase = SetupPhase::Ready;
        SetupCall::Finish(Ok(()))
    }

    fn open(&mut self) -> (call: SetupCall)
        ensures
            (final(self)@, call) == old(self)@.opening(),
    {
        match self.platform {
            Platform::MacOs => {
                self.phase = SetupPhase::CreatingPort;
                SetupCall::CreatePort
            },
            _ => {
                self.phase = SetupPhase::Binding;
                SetupCall::Bind
            },
        }
    }

    /// Takes the outcome of the call that setting up waits for, and says which
    /// call to make next.
    pub fn set_up(&mut self, reply: SetupReply) -> (call: SetupCall)
        requires
            old(self)@.fits(reply),
        ensures
            (final(self)@, call) == old(self)@.next(reply),
    {
        match (self.phase, reply) {
            (SetupPhase::Removing { fault }, SetupReply::Removed) => match fault {
                Some(error) => self.fail(error),
                None => self.open(),
            },
            (SetupPhase::CreatingPort, SetupReply::Port(outcome)) => match outcome {
                Err(error) => self.fail(error),
                Ok(_) => {
                    self.phase = SetupPhase::Binding;
                    SetupCall::Bind
                },
            },
            (SetupPhase::Binding, SetupReply::Listener(outcome)) => match outcome {
                Err(error) => self.fail(ServerError::Io(error)),
                Ok(_) => match self.platform {
                    Platform::MacOs => {
                        self.phase = SetupPhase::Unblocking;
                        SetupCall::SetNonblocking
                    },
                    _ => self.succeed(),
                },
            },
            (SetupPhase::Unblocking, SetupReply::Listener(outcome)) => match outcome {
                Err(error) => self.fail(ServerError::Io(error)),
                Ok(_) => self.succeed(),
            },
            _ => self.fail(ServerError::Io(IoError::Driver)),
        }
    }

    /// Whether the listener is there, and not in use by a message loop.
    pub fn is_listening(&self) -> (yes: bool)
        ensures
            yes == self@.listening,
    {
        self.listening
    }

    /// Hands the listener to a new message loop. On sockets, clients that are
    /// silent for `stale_timeout` nanoseconds are dropped. A server runs once.
    pub fn run(&mut self, stale_timeout: Option<u128>, order: ByteOrder) -> (messages: MessageLoop)
        requires
            old(self)@.listening,
        ensures
            final(self)@ == old(self)@.running(),
            match messages {
                MessageLoop::Poll(server, call) => {
                    &&& !(old(self)@.platform is Windows)
                    &&& server@ == PollState::start(old(self)@.platform, stale_timeout)
                    &&& server@.wf()
                    &&& call == Call::CheckShutdown
                },
                MessageLoop::Pipe(server, call) => {
                    &&& old(self)@.platform is Windows
                    &&& server@ == PipeState { order, phase: PipePhase::Idle }
                    &&& call == PipeCall::CheckShutdown
                },
            },
    {
        self.listening = false;
        match self.platform {
            Platform::Windows => {
                let (server, call) = PipeLoop::start(order);
                MessageLoop::Pipe(server, call)
            },
            _ => {
                let (server, call) = PollLoop::start(self.platform, stale_timeout);
                MessageLoop::Poll(server, call)
            },
        }
    }

    /// Begins to handle the crash of the process `pid`.
    pub fn handle_crash_request(&self, pid: u32) -> (started: (CrashOp, CrashCall))
        ensures
            started.0@ == (CrashState {
                platform: self@.platform,
                pid,
                phase: CrashPhase::Creating,
            }),
            started.1 == CrashCall::CreateFile,
    {
        CrashOp::handle_crash_request(self.platform, pid)
    }

    /// Tears the server down: the listener is closed first, if it is still there,
    /// and after that the file at this path is removed, if there is one.
    pub fn close(&mut self) -> (path: Option<String>)
        ensures
            final(self)@ == old(self)@.closed(),
            text_of(path) == old(self)@.socket_path,
    {
        self.listening = false;
        self.socket_path.take()
    }
}

/// A server whose name is a path removes what is at the path before it does
/// anything else, whatever the path is.
pub proof fn law_stale_file_goes_first(platform: Platform, path: String)
    ensures
        ServerState::begin(platform, SocketName::Path(path)).1 is RemoveFile,
{
}

/// A server with a bad name fails with the error for that name, before anything is
/// opened; one with a good name fails only with the error of a call that failed.
pub proof fn law_bad_names_are_refused(platform: Platform, name: SocketName)
    requires
        name is Abstract ==> platform is Linux,
    ensures
        ({
            let (blank, first) = ServerState::begin(platform, name);
            let (state, call) = if first is RemoveFile {
                blank.next(SetupReply::Removed)
            } else {
                (blank, first)
            };
            match name.fault(platform) {
                Some(error) => call == SetupCall::Finish(Err(error)),
                None => call == if platform is MacOs {
                    SetupCall::CreatePort
                } else {
                    SetupCall::Bind
                },
            }
        }),
{
}

/// Setting up fails with the error of the call that failed, and with no other; the
/// server listens exactly when setting up ends well.
pub proof fn law_setup_fails_with_its_cause(state: ServerState, reply: SetupReply)
    requires
        state.fits(reply),
        !state.listening,
    ensures
        state.next(reply).1 matches SetupCall::Finish(Err(error)) ==> match reply {
            SetupReply::Removed => state.phase == (SetupPhase::Removing { fault: Some(error) }),
            SetupReply::Port(outcome) => outcome == Err::<(), ServerError>(error),
            SetupReply::Listener(outcome) => error is Io && outcome == Err::<(), IoError>(
                error->Io_0,
            ),
        },
        state.next(reply).0.listening <==> state.next(reply).1 is Finish && (state.next(
            reply,
        ).1->Finish_0 is Ok),
{
}

/// The socket is bound to the address that the name stands for: it has it from the
/// start, and setting up does not change it.
pub proof fn law_socket_has_its_address(name: SocketName, state: ServerState, reply: SetupReply)
    requires
        name.fault(Platform::Linux) is None,
    ensures
        ServerState::begin(Platform::Linux, name).0.address == Some(
            match name {
                SocketName::Path(path) => path_address(path@),
                SocketName::Abstract(text) => abstract_address(text@),
            },
        ),
        state.next(reply).0.address == state.address,
{
}

/// The file of a socket is removed once: with the server that made it, and not
/// again. A server that could not be set up, or that has no file, removes none. Nor
/// does a listener serve twice: none is left when one was handed out.
pub proof fn law_socket_is_used_once(state: ServerState, error: ServerError)
    ensures
        state.closed().socket_path is None,
        state.closed().closed() == state.closed(),
        state.failing(error).0.closed().socket_path is None,
        state.succeeding().0.socket_path == state.socket_path,
        state.running().socket_path == state.socket_path,
        !state.running().listening && !state.closed().listening,
{
}

/// There is an address for a path of 1 to 108 bytes without a zero, and for an abstract name
/// of up to 107 bytes, on Linux. Other names cannot be used there. On macOS a path cannot be
/// used if it has a zero in it, and on Windows any path can be tried.
pub proof fn law_names_that_can_be_used(path: String, name: String)
    ensures
        SocketName::Path(path).fault(Platform::Linux) is None <==> 1 <= encode_utf8(path@).len()
            <= 108 && forall|i: int|
            0 <= i < encode_utf8(path@).len() ==> #[trigger] encode_utf8(path@)[i] != 0,
        SocketName::Path(path).fault(Platform::Linux) is Some ==> SocketName::Path(path).fault(
            Platform::Linux,
        ) == Some(ServerError::InvalidName),
        SocketName::Abstract(name).fault(Platform::Linux) == if encode_utf8(name@).len() <= 107 {
            None
        } else {
            Some(ServerError::InvalidName)
        },
        SocketName::Path(path).fault(Platform::MacOs) == if path@.contains('\0') {
            Some(ServerError::InvalidPortName)
        } else {
            None
        },
        SocketName::Path(path).fault(Platform::Windows) is None,
        SocketName::Path(path).fault(Platform::Linux) is None ==> SocketName::Path(path).address(
            Platform::Linux,
        ) == Some(path_address(path@)),
        SocketName::Abstract(name).fault(Platform::Linux) is None ==> SocketName::Abstract(
            name,
        ).address(Platform::Linux) == Some(abstract_address(name@)),
{
    let bytes = encode_utf8(path@);
    if bytes.contains(0) {
        let i = choose|i: int| 0 <= i < bytes.len() && bytes[i] == 0;
        assert(encode_utf8(path@)[i] == 0);
    }
}

/// A server with a path is set up in this order: a file of that name is removed, a port is
/// made on macOS, the listener is bound, and on macOS kept from blocking. If all goes well it
/// listens, and a socket at a path is removed with it. If anything fails the server does not
/// listen, the error is handed on, and nothing is removed with it; so it is, after the file
/// has been removed, where the name cannot be used.
pub proof fn law_server_at_a_path_is_set_up(platform: Platform, path: String, error: IoError)
    ensures
        ({
            let (removing, first) = ServerState::begin(platform, SocketName::Path(path));
            let (opening, second) = removing.next(SetupReply::Removed);
            let (binding, third) = if platform is MacOs {
                opening.next(SetupReply::Port(Ok(())))
            } else {
                (opening, second)
            };
            let (bound, fourth) = binding.next(SetupReply::Listener(Ok(())));
            let (ready, last) = if platform is MacOs {
                bound.next(SetupReply::Listener(Ok(())))
            } else {
                (bound, fourth)
            };
            let refused = binding.next(SetupReply::Listener(Err(error)));
            &&& first == SetupCall::RemoveFile
            &&& !removing.listening
            &&& match SocketName::Path(path).fault(platform) {
                Some(fault) => {
                    &&& second == SetupCall::Finish(Err(fault))
                    &&& !opening.listening && opening.socket_path is None
                },
                None => {
                    &&& platform is MacOs ==> second == SetupCall::CreatePort
                    &&& platform is MacOs ==> fourth == SetupCall::SetNonblocking
                    &&& third == SetupCall::Bind
                    &&& last == SetupCall::Finish(Ok(()))
                    &&& ready.listening
                    &&& ready.platform == platform
                    &&& ready.socket_path == if platform is Windows {
                        None
                    } else {
                        Some(path@)
                    }
                    &&& ready.address == SocketName::Path(path).address(platform)
                    &&& refused.1 == SetupCall::Finish(Err(ServerError::Io(error)))
                    &&& !refused.0.listening && refused.0.socket_path is None
                    &&& platform is MacOs ==> bound.next(SetupReply::Listener(Err(error))).1
                        == SetupCall::Finish(Err(ServerError::Io(error)))
                    &&& platform is MacOs ==> forall|fault: ServerError| #[trigger]
                        opening.next(SetupReply::Port(Err(fault))).1 == SetupCall::Finish(
                            Err(fault),
                        )
                },
            }
        }),
{
}

/// A server with an abstract name is bound at once, without a file to remove, and leaves
/// none behind; a name that cannot be used is refused at once.
pub proof fn law_server_with_an_abstract_name_is_set_up(name: String)
    ensures
        ({
            let (binding, first) = ServerState::begin(Platform::Linux, SocketName::Abstract(name));
            let (ready, last) = binding.next(SetupReply::Listener(Ok(())));
            match SocketName::Abstract(name).fault(Platform::Linux) {
                Some(fault) => first == SetupCall::Finish(Err(fault)) && !binding.listening
                    && binding.socket_path is None,
                None => {
                    &&& first == SetupCall::Bind
                    &&& last == SetupCall::Finish(Ok(()))
                    &&& ready.listening
                    &&& ready.socket_path is None
                    &&& ready.address == Some(abstract_address(name@))
                },
            }
        }),
{
}

/// A server that runs has handed its listener out and is otherwise as it was; one that is
/// closed has neither a listener nor a path to remove.
pub proof fn law_listener_is_handed_out_once(state: ServerState)
    ensures
        state.running() == (ServerState { listening: false, ..state }),
        state.closed() == (ServerState { listening: false, socket_path: None, ..state }),
{
}

} // verus!
