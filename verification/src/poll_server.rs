//! The message loop of a server on sockets.
//!
//! The loop never touches a socket, a clock or a handler itself. It says which
//! [`Call`] to make next, the driver makes it and hands the outcome back as a
//! [`Reply`], and [`PollLoop::step`] decides what follows.

use crate::clients::{ClientTable, Table, Wanted};
use crate::crash::{decide, CrashInfo};
use crate::error::{IoError, LoopAction, ServerError};
use crate::platform::Platform;
use crate::wire::{crashed_pid, ByteOrder, Header, Request, CRASH_ACK, PONG};
use vstd::prelude::*;

verus! {

/// How long the poller waits for events before the loop looks at the shutdown
/// flag again, in nanoseconds.
pub const POLL_TIMEOUT: u128 = 200_000_000;

/// How long the loop looks for a crash at the Mach port, in nanoseconds.
pub const PORT_TIMEOUT: u128 = 1_000_000;

/// How long the loop tries to acknowledge a crash at the Mach port, in nanoseconds.
pub const PORT_ACK_TIMEOUT: u128 = 2_000_000_000;

/// What a crash at the Mach port is acknowledged with.
pub const PORT_ACK: u32 = 1;

/// What a client that announces a crash at the Mach port is sent.
pub const NOTE: u8 = 1;

/// What the driver of a [`PollLoop`] has to do next. A `key` says which
/// connection it is about.
#[derive(Clone, Copy, Debug, PartialEq, Eq)]
pub enum Call {
    /// Look at the shutdown flag and at the clock.
    CheckShutdown,
    /// Forget the events of the last round, and wait for new ones.
    Wait { timeout: u128 },
    /// See whether a crash has arrived at the Mach port.
    CheckPort { timeout: u128 },
    /// Acknowledge the crash that arrived at the Mach port, with this value.
    AckPort { value: u32, timeout: u128 },
    /// Accept a connection from the listener.
    Accept,
    /// Register the accepted connection with the poller under `key`.
    Register { key: usize },
    /// Tell the handler that there is a new connection, one of `clients`.
    NotifyConnected { clients: usize },
    /// Ask the poller for the next event of the listener.
    RearmListener,
    /// Look at the clock and receive a message.
    Receive { key: usize },
    /// Hand the received message to the handler, under `code`.
    Deliver { code: u32 },
    /// Send this header, which answers a ping.
    SendPong { key: usize, header: Header },
    /// Send this byte, which lets the client go on to the Mach port.
    SendNote { key: usize, byte: u8 },
    /// Ask the poller for the next event of the connection.
    Rearm { key: usize },
    /// Ask the socket which process is at its other end.
    PeerCredentials { key: usize },
    /// Handle the crash of the client.
    Dump { key: usize },
    /// Tell the handler that no minidump could be made.
    NotifyFailure { error: ServerError },
    /// Send this header, which acknowledges a crash.
    SendAck { key: usize, header: Header },
    /// Take the connection out of the poller, and close it.
    Deregister { key: usize },
    /// Tell the handler that connections are gone, and `clients` are left.
    NotifyDisconnected { clients: usize },
    /// Look at the clock once for every connection, in their order.
    ReadClocks,
    /// Take the connections of [`PollLoop::stale`] out of the poller, and close
    /// them.
    DropStale,
    /// Leave the loop with this outcome.
    Finish(Result<(), ServerError>),
}

/// What came of a [`Call`].
#[derive(Debug)]
pub enum Reply {
    /// Whether to shut down, and the time in nanoseconds.
    Shutdown { stop: bool, now: u128 },
    /// The keys of the events that the poller reported.
    Events(Vec<usize>),
    /// The wait was interrupted; it is `now`.
    Interrupted { now: u128 },
    /// The wait failed.
    PollFailed(IoError),
    /// The process that sent the crash at the Mach port, if there is one.
    Port(Result<Option<u32>, ServerError>),
    /// What came of handling a crash.
    Crash(Result<LoopAction, ServerError>),
    /// Whether a connection could be accepted.
    Accepted(bool),
    /// What came of registering a connection, and the time after that.
    Registered { outcome: Result<(), IoError>, now: u128 },
    /// What the handler answered.
    Handler(LoopAction),
    /// What came of asking the poller for events.
    Rearmed(Result<(), IoError>),
    /// The kind of the received message, and the process that its body starts
    /// with; nothing if the connection is closed or broken. It is `now`.
    Received { now: u128, message: Option<(u32, Result<u32, ServerError>)> },
    /// Whether the bytes could be sent.
    Sent(bool),
    /// What the socket says of its other end, and the process that the message
    /// says has crashed.
    Peer { credentials: Result<Option<u32>, IoError>, claimed: Option<i32> },
    /// The times at which the connections were looked at.
    Clocks(Vec<u128>),
    /// The call was made; what came of it does not matter.
    Done,
}

/// Which call a loop waits for the outcome of.
#[derive(Clone, Copy, Debug, PartialEq, Eq)]
pub enum Phase {
    /// [`Call::CheckShutdown`].
    Idle,
    /// [`Call::Wait`], until `deadline` at the latest.
    Polling { deadline: u128 },
    /// [`Call::CheckPort`].
    CheckingPort,
    /// [`Call::Dump`] for a crash that arrived at the Mach port.
    PortDumping { key: usize },
    /// [`Call::AckPort`].
    PortAcking { key: usize, action: LoopAction },
    /// [`Call::Deregister`] after a crash that arrived at the Mach port.
    PortLeaving { action: LoopAction },
    /// [`Call::Accept`].
    Accepting,
    /// [`Call::Register`].
    Registering { key: usize },
    /// [`Call::NotifyConnected`].
    Welcoming,
    /// [`Call::RearmListener`] or [`Call::Rearm`].
    Rearming,
    /// [`Call::Receive`].
    Receiving { position: usize, key: usize },
    /// [`Call::Deliver`].
    Delivering { key: usize },
    /// [`Call::SendPong`].
    Ponging { position: usize, key: usize },
    /// [`Call::SendNote`].
    Noting { key: usize },
    /// [`Call::PeerCredentials`].
    Vouching { key: usize },
    /// [`Call::Dump`] for a crash that arrived on the socket.
    Dumping { key: usize },
    /// [`Call::NotifyFailure`].
    Excusing { key: usize },
    /// [`Call::SendAck`].
    Acking { key: usize, action: LoopAction },
    /// [`Call::Deregister`].
    Leaving,
    /// [`Call::NotifyDisconnected`] for one connection.
    Parting,
    /// [`Call::ReadClocks`].
    Sweeping,
    /// [`Call::DropStale`].
    Dropping,
    /// [`Call::NotifyDisconnected`] for stale connections.
    PartingStale,
    /// Nothing: the loop is over.
    Finished,
}

/// The state of a message loop on sockets.
#[verifier::ext_equal]
pub struct PollState {
    /// What the loop runs on.
    pub platform: Platform,
    /// How long a client may be silent, in nanoseconds.
    pub stale_timeout: Option<u128>,
    /// The connections.
    pub table: Table,
    /// The keys of the events of this round.
    pub events: Seq<usize>,
    /// How many of the events have been looked at.
    pub cursor: int,
    /// The keys of the connections that were found stale last.
    pub stale: Seq<usize>,
    /// What the loop waits for.
    pub phase: Phase,
}

impl PollState {
    /// The state of a loop that has just been started.
    pub open spec fn start(platform: Platform, stale_timeout: Option<u128>) -> PollState {
        PollState {
            platform,
            stale_timeout,
            table: Table::empty(),
            events: Seq::empty(),
            cursor: 0,
            stale: Seq::empty(),
            phase: Phase::Idle,
        }
    }

    /// The same state, but in another phase.
    pub open spec fn at(self, phase: Phase) -> PollState {
        PollState { phase, ..self }
    }

    /// The same state, but with another table.
    pub open spec fn having(self, table: Table) -> PollState {
        PollState { table, ..self }
    }

    /// The same state, but in a round with these events.
    pub open spec fn seeing(self, events: Seq<usize>) -> PollState {
        PollState { events, cursor: 0, ..self }
    }

    /// The connection at `position` is the one registered under `key`.
    pub open spec fn stands_at(self, position: usize, key: usize) -> bool {
        position < self.table.list.len() && self.table.list[position as int].key == key
    }

    /// No connection in the table is registered under `key`.
    pub open spec fn lacks(self, key: usize) -> bool {
        forall|i: int| 0 <= i < self.table.list.len() ==> (#[trigger] self.table.list[i]).key != key
    }

    /// The table is well-formed, and the phase fits the table and the platform.
    pub open spec fn wf(self) -> bool {
        &&& self.table.wf()
        &&& 0 <= self.cursor <= self.events.len()
        &&& !(self.platform is Windows)
        &&& match self.phase {
            Phase::CheckingPort => self.platform is MacOs,
            Phase::PortDumping { key } => self.platform is MacOs && self.lacks(key),
            Phase::PortAcking { key, action } => self.platform is MacOs && self.lacks(key),
            Phase::PortLeaving { action } => self.platform is MacOs,
            Phase::Registering { key } => key == self.table.next_key - 1 && 1 <= key && self.lacks(
                key,
            ),
            Phase::Receiving { position, key } => self.stands_at(position, key),
            Phase::Ponging { position, key } => self.stands_at(position, key),
            Phase::Noting { key } => self.platform is MacOs,
            Phase::Vouching { key } => self.platform is Linux && self.lacks(key),
            Phase::Dumping { key } => self.platform is Linux && self.lacks(key),
            Phase::Excusing { key } => self.platform is Linux && self.lacks(key),
            Phase::Acking { key, action } => self.platform is Linux && self.lacks(key),
            Phase::Sweeping => self.stale_timeout is Some,
            Phase::Dropping => self.stale.len() > 0,
            _ => true,
        }
    }

    /// Whether `reply` is an outcome of the call that the loop waits for, and
    /// one that the loop can go on from: the clock and the keys have not run
    /// out, and a message is of a kind that clients send.
    pub open spec fn fits(self, reply: Reply) -> bool {
        match self.phase {
            Phase::Idle => reply matches Reply::Shutdown { stop, now } && now + POLL_TIMEOUT
                <= u128::MAX,
            Phase::Polling { .. } => reply is Events || reply is Interrupted || reply is PollFailed,
            Phase::CheckingPort => reply is Port,
            Phase::PortDumping { .. } => reply is Crash,
            Phase::PortAcking { .. } => reply is Done,
            Phase::PortLeaving { .. } => reply is Done,
            Phase::Accepting => reply matches Reply::Accepted(accepted) && (accepted
                ==> self.table.next_key < usize::MAX),
            Phase::Registering { .. } => reply is Registered,
            Phase::Welcoming => reply is Handler,
            Phase::Rearming => reply is Rearmed,
            Phase::Receiving { .. } => reply matches Reply::Received { now, message } && (
            message matches Some((kind, pid)) ==> Request::known(kind)),
            Phase::Delivering { .. } => reply is Done,
            Phase::Ponging { .. } => reply is Sent,
            Phase::Noting { .. } => reply is Sent,
            Phase::Vouching { .. } => reply is Peer,
            Phase::Dumping { .. } => reply is Crash,
            Phase::Excusing { .. } => reply is Handler,
            Phase::Acking { .. } => reply is Sent,
            Phase::Leaving => reply is Done,
            Phase::Parting => reply is Handler,
            Phase::Sweeping => reply matches Reply::Clocks(clock) && clock@.len()
                == self.table.list.len(),
            Phase::Dropping => reply is Done,
            Phase::PartingStale => reply is Handler,
            Phase::Finished => false,
        }
    }

    /// The loop ends with this outcome.
    pub open spec fn finish(self, outcome: Result<(), ServerError>) -> (PollState, Call) {
        (self.at(Phase::Finished), Call::Finish(outcome))
    }

    /// The loop begins another round.
    pub open spec fn next_round(self) -> (PollState, Call) {
        (self.at(Phase::Idle), Call::CheckShutdown)
    }

    /// The loop has looked at all events of the round; it looks for clients that
    /// have been silent for too long, if there is a limit to that.
    pub open spec fn sweep(self) -> (PollState, Call) {
        match self.stale_timeout {
            Some(_) => (self.at(Phase::Sweeping), Call::ReadClocks),
            None => self.next_round(),
        }
    }

    /// The loop turns to the next event of the round. An event with the key zero
    /// is one of the listener; an event for a connection that is gone is skipped.
    pub open spec fn next_event(self) -> (PollState, Call)
        decreases self.events.len() - self.cursor,
    {
        if self.cursor < 0 || self.cursor >= self.events.len() {
            self.sweep()
        } else {
            let key = self.events[self.cursor];
            let rest = PollState { cursor: self.cursor + 1, ..self };
            if key == 0 {
                (rest.at(Phase::Accepting), Call::Accept)
            } else {
                match crate::clients::first_position(self.table.list, Wanted::Key(key)) {
                    Some(p) => (
                        rest.at(Phase::Receiving { position: p as usize, key }),
                        Call::Receive { key },
                    ),
                    None => rest.next_event(),
                }
            }
        }
    }

    /// The poller is done waiting and has reported these events.
    pub open spec fn polled(self, events: Seq<usize>) -> (PollState, Call) {
        let round = self.seeing(events);
        if self.platform is MacOs {
            (round.at(Phase::CheckingPort), Call::CheckPort { timeout: PORT_TIMEOUT })
        } else {
            round.next_event()
        }
    }

    /// The poller is asked for the next event of a connection.
    pub open spec fn rearm(self, key: usize) -> (PollState, Call) {
        (self.at(Phase::Rearming), Call::Rearm { key })
    }

    /// The connection at `position`, under `key`, is given up.
    pub open spec fn part_with(self, position: usize, key: usize) -> (PollState, Call) {
        (
            self.having(self.table.remove(position as int)).at(Phase::Leaving),
            Call::Deregister { key },
        )
    }

    /// A message of the connection at `position`, under `key`, asks for `request`;
    /// `pid` is the process that its body starts with.
    pub open spec fn answer(
        self,
        position: usize,
        key: usize,
        request: Request,
        pid: Result<u32, ServerError>,
    ) -> (PollState, Call) {
        match request {
            Request::Crash => if self.platform is MacOs {
                match pid {
                    Ok(p) => (
                        self.having(self.table.announce(position as int, p)).at(
                            Phase::Noting { key },
                        ),
                        Call::SendNote { key, byte: NOTE },
                    ),
                    Err(error) => self.finish(Err(error)),
                }
            } else {
                (
                    self.having(self.table.remove(position as int)).at(Phase::Vouching { key }),
                    Call::PeerCredentials { key },
                )
            },
            Request::Ping => (
                self.at(Phase::Ponging { position, key }),
                Call::SendPong { key, header: Header::spec_bare(PONG) },
            ),
            Request::Pong => self.rearm(key),
            Request::User(code) => (self.at(Phase::Delivering { key }), Call::Deliver { code }),
        }
    }

    /// A crash has been handled; the client is told.
    pub open spec fn acknowledge(self, key: usize, action: LoopAction) -> (PollState, Call) {
        (
            self.at(Phase::Acking { key, action }),
            Call::SendAck { key, header: Header::spec_bare(CRASH_ACK) },
        )
    }

    /// A crash has arrived at the Mach port, from the process `pid`.
    pub open spec fn port_crash(self, pid: u32) -> (PollState, Call) {
        match crate::clients::first_position(self.table.list, Wanted::Pid(pid)) {
            None => self.finish(Err(ServerError::UnknownClientPid)),
            Some(p) => {
                let key = self.table.list[p].key;
                (
                    self.having(self.table.remove(p)).at(Phase::PortDumping { key }),
                    Call::Dump { key },
                )
            },
        }
    }

    /// What the loop does on the outcome `reply` of the call that it waits for:
    /// the state after it, and the next call.
    pub open spec fn next(self, reply: Reply) -> (PollState, Call) {
        match (self.phase, reply) {
            (Phase::Idle, Reply::Shutdown { stop, now }) => if stop {
                self.finish(Ok(()))
            } else {
                (
                    self.at(Phase::Polling { deadline: (now + POLL_TIMEOUT) as u128 }),
                    Call::Wait { timeout: POLL_TIMEOUT },
                )
            },
            (Phase::Polling { .. }, Reply::Events(events)) => self.polled(events@),
            (Phase::Polling { deadline }, Reply::Interrupted { now }) => if now <= deadline {
                (self, Call::Wait { timeout: (deadline - now) as u128 })
            } else {
                self.polled(Seq::empty())
            },
            (Phase::Polling { .. }, Reply::PollFailed(error)) => self.finish(
                Err(ServerError::Io(error)),
            ),
            (Phase::CheckingPort, Reply::Port(arrival)) => match arrival {
                Err(error) => self.finish(Err(error)),
                Ok(None) => self.next_event(),
                Ok(Some(pid)) => self.port_crash(pid),
            },
            (Phase::PortDumping { key }, Reply::Crash(outcome)) => {
                let action = match outcome {
                    Ok(action) => action,
                    Err(_) => LoopAction::Continue,
                };
                (
                    self.at(Phase::PortAcking { key, action }),
                    Call::AckPort { value: PORT_ACK, timeout: PORT_ACK_TIMEOUT },
                )
            },
            (Phase::PortAcking { key, action }, Reply::Done) => (
                self.at(Phase::PortLeaving { action }),
                Call::Deregister { key },
            ),
            (Phase::PortLeaving { action }, Reply::Done) => match action {
                LoopAction::Exit => self.finish(Ok(())),
                LoopAction::Continue => self.next_event(),
            },
            (Phase::Accepting, Reply::Accepted(accepted)) => if accepted {
                let key = self.table.next_key as usize;
                (
                    self.having(self.table.reserve()).at(Phase::Registering { key }),
                    Call::Register { key },
                )
            } else {
                (self.at(Phase::Rearming), Call::RearmListener)
            },
            (Phase::Registering { key }, Reply::Registered { outcome, now }) => match outcome {
                Err(error) => self.finish(Err(ServerError::Io(error))),
                Ok(_) => (
                    self.having(self.table.push(key, now)).at(Phase::Welcoming),
                    Call::NotifyConnected { clients: (self.table.list.len() + 1) as usize },
                ),
            },
            (Phase::Welcoming, Reply::Handler(action)) => match action {
                LoopAction::Exit => self.finish(Ok(())),
                LoopAction::Continue => (self.at(Phase::Rearming), Call::RearmListener),
            },
            (Phase::Rearming, Reply::Rearmed(outcome)) => match outcome {
                Err(error) => self.finish(Err(ServerError::Io(error))),
                Ok(_) => self.next_event(),
            },
            (Phase::Receiving { position, key }, Reply::Received { now, message }) => {
                let heard = self.having(self.table.touch(position as int, now));
                match message {
                    None => heard.part_with(position, key),
                    Some((kind, pid)) => heard.answer(position, key, Request::spec_of(kind), pid),
                }
            },
            (Phase::Delivering { key }, Reply::Done) => self.rearm(key),
            (Phase::Ponging { position, key }, Reply::Sent(sent)) => if sent {
                self.rearm(key)
            } else {
                self.part_with(position, key)
            },
            (Phase::Noting { key }, Reply::Sent(_)) => self.rearm(key),
            (Phase::Vouching { key }, Reply::Peer { credentials, claimed }) => {
                match crate::crash::verdict(credentials, claimed) {
                    Err(error) => self.finish(Err(error)),
                    Ok(_) => (self.at(Phase::Dumping { key }), Call::Dump { key }),
                }
            },
            (Phase::Dumping { key }, Reply::Crash(outcome)) => match outcome {
                Err(error) => (self.at(Phase::Excusing { key }), Call::NotifyFailure { error }),
                Ok(action) => self.acknowledge(key, action),
            },
            (Phase::Excusing { key }, Reply::Handler(action)) => self.acknowledge(key, action),
            (Phase::Acking { key, action }, Reply::Sent(_)) => match action {
                LoopAction::Exit => self.finish(Ok(())),
                LoopAction::Continue => (self.at(Phase::Leaving), Call::Deregister { key }),
            },
            (Phase::Leaving, Reply::Done) => (
                self.at(Phase::Parting),
                Call::NotifyDisconnected { clients: self.table.list.len() as usize },
            ),
            (Phase::Parting, Reply::Handler(action)) => match action {
                LoopAction::Exit => self.finish(Ok(())),
                LoopAction::Continue => self.next_event(),
            },
            (Phase::Sweeping, Reply::Clocks(clock)) => {
                let timeout = self.stale_timeout->0;
                let keys = crate::clients::stale_keys(self.table.list, clock@, timeout);
                if keys.len() == 0 {
                    PollState { stale: keys, ..self }.next_round()
                } else {
                    (
                        PollState {
                            table: self.table.reap(clock@, timeout),
                            stale: keys,
                            phase: Phase::Dropping,
                            ..self
                        },
                        Call::DropStale,
                    )
                }
            },
            (Phase::Dropping, Reply::Done) => (
                self.at(Phase::PartingStale),
                Call::NotifyDisconnected { clients: self.table.list.len() as usize },
            ),
            (Phase::PartingStale, Reply::Handler(action)) => match action {
                LoopAction::Exit => self.finish(Ok(())),
                LoopAction::Continue => self.next_round(),
            },
            _ => self.finish(Ok(())),
        }
    }
}

/// The message loop of a server on sockets.
#[derive(Debug)]
pub struct PollLoop {
    platform: Platform,
    stale_timeout: Option<u128>,
    table: ClientTable,
    events: Vec<usize>,
    cursor: usize,
    stale: Vec<usize>,
    phase: Phase,
}

impl View for PollLoop {
    type V = PollState;

    closed spec fn view(&self) -> PollState {
        PollState {
            platform: self.platform,
            stale_timeout: self.stale_timeout,
            table: self.table@,
            events: self.events@,
            cursor: self.cursor as int,
            stale: self.stale@,
            phase: self.phase,
        }
    }
}

impl PollLoop {
    /// A loop without connections, which first wants to look at the shutdown
    /// flag. Clients that are silent for `stale_timeout` nanoseconds are dropped.
    pub fn start(platform: Platform, stale_timeout: Option<u128>) -> (started: (PollLoop, Call))
        requires
            !(platform is Windows),
        ensures
            started.0@ == PollState::start(platform, stale_timeout),
            started.0@.wf(),
            started.1 == Call::CheckShutdown,
    {
        let server = PollLoop {
            platform,
            stale_timeout,
            table: ClientTable::new(),
            events: Vec::new(),
            cursor: 0,
            stale: Vec::new(),
            phase: Phase::Idle,
        };
        (server, Call::CheckShutdown)
    }

    /// The keys of the connections that were found stale last.
    pub fn stale(&self) -> (keys: &Vec<usize>)
        ensures
            keys@ == self@.stale,
    {
        &self.stale
    }

    /// How many connections there are.
    pub fn clients(&self) -> (clients: usize)
        ensures
            clients == self@.table.list.len(),
    {
        self.table.len()
    }

    /// Whether there is a key left for another connection.
    pub fn has_keys(&self) -> (yes: bool)
        ensures
            yes == (self@.table.next_key < usize::MAX),
    {
        self.table.has_keys()
    }

    /// Whether the loop is over.
    pub fn is_finished(&self) -> (yes: bool)
        ensures
            yes == (self@.phase is Finished),
    {
        matches!(self.phase, Phase::Finished)
    }

    fn finish(&mut self, outcome: Result<(), ServerError>) -> (call: Call)
        ensures
            (final(self)@, call) == old(self)@.finish(outcome),
    {
        self.phase = Phase::Finished;
        Call::Finish(outcome)
    }

    fn next_round(&mut self) -> (call: Call)
        ensures
            (final(self)@, call) == old(self)@.next_round(),
    {
        self.phase = Phase::Idle;
        Call::CheckShutdown
    }

    fn sweep(&mut self) -> (call: Call)
        ensures
            (final(self)@, call) == old(self)@.sweep(),
    {
        match self.stale_timeout {
            Some(_) => {
                self.phase = Phase::Sweeping;
                Call::ReadClocks
            },
            None => self.next_round(),
        }
    }

    fn next_event(&mut self) -> (call: Call)
        requires
            old(self)@.cursor <= old(self)@.events.len(),
        ensures
            (final(self)@, call) == old(self)@.next_event(),
    {
        while self.cursor < self.events.len()
            invariant
                self@.cursor <= self@.events.len(),
                self@.next_event() == old(self)@.next_event(),
            decreases self.events@.len() - self.cursor,
        {
            let key: usize = self.events[self.cursor];
            let ghost before = self@;
            self.cursor = self.cursor + 1;
            if key == 0 {
                self.phase = Phase::Accepting;
                return Call::Accept;
            }
            match self.table.position(Wanted::Key(key)) {
                Some(position) => {
                    self.phase = Phase::Receiving { position, key };
                    return Call::Receive { key };
                },
                None => {
                    assert(self@ == (PollState { cursor: before.cursor + 1, ..before }));
                },
            }
        }
        self.sweep()
    }

    fn polled(&mut self, events: Vec<usize>) -> (call: Call)
        ensures
            (final(self)@, call) == old(self)@.polled(events@),
    {
        self.events = events;
        self.cursor = 0;
        match self.platform {
            Platform::MacOs => {
                self.phase = Phase::CheckingPort;
                Call::CheckPort { timeout: PORT_TIMEOUT }
            },
            _ => self.next_event(),
        }
    }

    fn rearm(&mut self, key: usize) -> (call: Call)
        ensures
            (final(self)@, call) == old(self)@.rearm(key),
    {
        self.phase = Phase::Rearming;
        Call::Rearm { key }
    }

    fn part_with(&mut self, position: usize, key: usize) -> (call: Call)
        requires
            position < old(self)@.table.list.len(),
        ensures
            (final(self)@, call) == old(self)@.part_with(position, key),
    {
        self.table.remove(position);
        self.phase = Phase::Leaving;
        Call::Deregister { key }
    }

    fn answer(
        &mut self,
        position: usize,
        key: usize,
        request: Request,
        pid: Result<u32, ServerError>,
    ) -> (call: Call)
        requires
            position < old(self)@.table.list.len(),
        ensures
            (final(self)@, call) == old(self)@.answer(position, key, request, pid),
    {
        match request {
            Request::Crash => match self.platform {
                Platform::MacOs => match pid {
                    Ok(p) => {
                        self.table.announce(position, p);
                        self.phase = Phase::Noting { key };
                        Call::SendNote { key, byte: NOTE }
                    },
                    Err(error) => self.finish(Err(error)),
                },
                _ => {
                    self.table.remove(position);
                    self.phase = Phase::Vouching { key };
                    Call::PeerCredentials { key }
                },
            },
            Request::Ping => {
                self.phase = Phase::Ponging { position, key };
                Call::SendPong { key, header: Header::bare(PONG) }
            },
            Request::Pong => self.rearm(key),
            Request::User(code) => {
                self.phase = Phase::Delivering { key };
                Call::Deliver { code }
            },
        }
    }

    fn acknowledge(&mut self, key: usize, action: LoopAction) -> (call: Call)
        ensures
            (final(self)@, call) == old(self)@.acknowledge(key, action),
    {
        self.phase = Phase::Acking { key, action };
        Call::SendAck { key, header: Header::bare(CRASH_ACK) }
    }

    fn port_crash(&mut self, pid: u32) -> (call: Call)
        ensures
            (final(self)@, call) == old(self)@.port_crash(pid),
    {
        proof {
            crate::clients::law_position_is_first(self@.table.list, Wanted::Pid(pid));
        }
        match self.table.position(Wanted::Pid(pid)) {
            None => self.finish(Err(ServerError::UnknownClientPid)),
            Some(position) => {
                let client = self.table.remove(position);
                let key: usize = client.key;
                self.phase = Phase::PortDumping { key };
                Call::Dump { key }
            },
        }
    }

    /// Takes the outcome of the call that the loop waits for, and says which call
    /// to make next.
    pub fn step(&mut self, reply: Reply) -> (call: Call)
        requires
            old(self)@.wf(),
            old(self)@.fits(reply),
        ensures
            (final(self)@, call) == old(self)@.next(reply),
            final(self)@.wf(),
    {
        proof {
            law_step_keeps_well_formed(self@, reply);
        }
        match (self.phase, reply) {
            (Phase::Idle, Reply::Shutdown { stop, now }) => if stop {
                self.finish(Ok(()))
            } else {
                self.phase = Phase::Polling { deadline: now + POLL_TIMEOUT };
                Call::Wait { timeout: POLL_TIMEOUT }
            },
            (Phase::Polling { .. }, Reply::Events(events)) => self.polled(events),
            (Phase::Polling { deadline }, Reply::Interrupted { now }) => if now <= deadline {
                Call::Wait { timeout: deadline - now }
            } else {
                self.polled(Vec::new())
            },
            (Phase::Polling { .. }, Reply::PollFailed(error)) => self.finish(
                Err(ServerError::Io(error)),
            ),
            (Phase::CheckingPort, Reply::Port(arrival)) => match arrival {
                Err(error) => self.finish(Err(error)),
                Ok(None) => self.next_event(),
                Ok(Some(pid)) => self.port_crash(pid),
            },
            (Phase::PortDumping { key }, Reply::Crash(outcome)) => {
                let action = match outcome {
                    Ok(action) => action,
                    Err(_) => LoopAction::Continue,
                };
                self.phase = Phase::PortAcking { key, action };
                Call::AckPort { value: PORT_ACK, timeout: PORT_ACK_TIMEOUT }
            },
            (Phase::PortAcking { key, action }, Reply::Done) => {
                self.phase = Phase::PortLeaving { action };
                Call::Deregister { key }
            },
            (Phase::PortLeaving { action }, Reply::Done) => match action {
                LoopAction::Exit => self.finish(Ok(())),
                LoopAction::Continue => self.next_event(),
            },
            (Phase::Accepting, Reply::Accepted(accepted)) => if accepted {
                let key: usize = self.table.reserve();
                self.phase = Phase::Registering { key };
                Call::Register { key }
            } else {
                self.phase = Phase::Rearming;
                Call::RearmListener
            },
            (Phase::Registering { key }, Reply::Registered { outcome, now }) => match outcome {
                Err(error) => self.finish(Err(ServerError::Io(error))),
                Ok(_) => {
                    self.table.push(key, now);
                    self.phase = Phase::Welcoming;
                    Call::NotifyConnected { clients: self.table.len() }
                },
            },
            (Phase::Welcoming, Reply::Handler(action)) => match action {
                LoopAction::Exit => self.finish(Ok(())),
                LoopAction::Continue => {
                    self.phase = Phase::Rearming;
                    Call::RearmListener
                },
            },
            (Phase::Rearming, Reply::Rearmed(outcome)) => match outcome {
                Err(error) => self.finish(Err(ServerError::Io(error))),
                Ok(_) => self.next_event(),
            },
            (Phase::Receiving { position, key }, Reply::Received { now, message }) => {
                self.table.touch(position, now);
                match message {
                    None => self.part_with(position, key),
                    Some((kind, pid)) => self.answer(position, key, Request::of(kind), pid),
                }
            },
            (Phase::Delivering { key }, Reply::Done) => self.rearm(key),
            (Phase::Ponging { position, key }, Reply::Sent(sent)) => if sent {
                self.rearm(key)
            } else {
                self.part_with(position, key)
            },
            (Phase::Noting { key }, Reply::Sent(_)) => self.rearm(key),
            (Phase::Vouching { key }, Reply::Peer { credentials, claimed }) => {
                match decide(credentials, claimed) {
                    Err(error) => self.finish(Err(error)),
                    Ok(_) => {
                        self.phase = Phase::Dumping { key };
                        Call::Dump { key }
                    },
                }
            },
            (Phase::Dumping { key }, Reply::Crash(outcome)) => match outcome {
                Err(error) => {
                    self.phase = Phase::Excusing { key };
                    Call::NotifyFailure { error }
                },
                Ok(action) => self.acknowledge(key, action),
            },
            (Phase::Excusing { key }, Reply::Handler(action)) => self.acknowledge(key, action),
            (Phase::Acking { key, action }, Reply::Sent(_)) => match action {
                LoopAction::Exit => self.finish(Ok(())),
                LoopAction::Continue => {
                    self.phase = Phase::Leaving;
                    Call::Deregister { key }
                },
            },
            (Phase::Leaving, Reply::Done) => {
                self.phase = Phase::Parting;
                Call::NotifyDisconnected { clients: self.table.len() }
            },
            (Phase::Parting, Reply::Handler(action)) => match action {
                LoopAction::Exit => self.finish(Ok(())),
                LoopAction::Continue => self.next_event(),
            },
            (Phase::Sweeping, Reply::Clocks(clock)) => {
                let timeout: u128 = match self.stale_timeout {
                    Some(limit) => limit,
                    None => 0,
                };
                proof {
                    lemma_none_stale(self@.table, clock@, timeout);
                }
                self.stale = self.table.reap(&clock, timeout);
                if self.stale.len() == 0 {
                    self.next_round()
                } else {
                    self.phase = Phase::Dropping;
                    Call::DropStale
                }
            },
            (Phase::Dropping, Reply::Done) => {
                self.phase = Phase::PartingStale;
                Call::NotifyDisconnected { clients: self.table.len() }
            },
            (Phase::PartingStale, Reply::Handler(action)) => match action {
                LoopAction::Exit => self.finish(Ok(())),
                LoopAction::Continue => self.next_round(),
            },
            _ => self.finish(Ok(())),
        }
    }
}

impl PollLoop {
    /// Takes the message that was received, and says which call to make next.
    /// Where crashes arrive at a Mach port, the body of a crash message starts
    /// with the process id of its sender, in the byte order `order`.
    pub fn received(
        &mut self,
        now: u128,
        message: Option<(u32, &Vec<u8>)>,
        order: ByteOrder,
    ) -> (call: Call)
        requires
            old(self)@.wf(),
            old(self)@.phase is Receiving,
            message matches Some((kind, body)) ==> Request::known(kind),
        ensures
            (final(self)@, call) == old(self)@.next(
                Reply::Received {
                    now,
                    message: match message {
                        Some((kind, body)) => Some((kind, announced_pid(body@, order))),
                        None => None,
                    },
                },
            ),
            final(self)@.wf(),
    {
        match message {
            Some((kind, body)) => {
                let pid = crashed_pid(body, order);
                self.step(Reply::Received { now, message: Some((kind, pid)) })
            },
            None => self.step(Reply::Received { now, message: None }),
        }
    }

    /// Takes what the socket says of its other end, and the body of the crash
    /// message that came from there, and says which call to make next. The
    /// crash that the body describes is handed out for a [`Call::Dump`].
    pub fn vouched(
        &mut self,
        credentials: Result<Option<u32>, IoError>,
        body: &Vec<u8>,
    ) -> (decision: (Call, Option<CrashInfo>))
        requires
            old(self)@.wf(),
            old(self)@.phase is Vouching,
        ensures
            (final(self)@, decision.0) == old(self)@.next(
                Reply::Peer { credentials, claimed: CrashInfo::pid_in(body@) },
            ),
            final(self)@.wf(),
            decision.1 is Some <==> CrashInfo::pid_in(body@) is Some,
            decision.1 matches Some(info) ==> (info.context, info.pid, info.tid)
                == crate::crash::crash_context_in(body@),
    {
        let info = CrashInfo::read(body);
        let claimed = match &info {
            Some(i) => Some(i.pid),
            None => None,
        };
        let call = self.step(Reply::Peer { credentials, claimed });
        (call, info)
    }
}

/// The process that a message body starts with, in the byte order `order`.
pub open spec fn announced_pid(body: Seq<u8>, order: ByteOrder) -> Result<u32, ServerError> {
    if body.len() >= 4 {
        Ok(crate::wire::number(body.subrange(0, 4), order) as u32)
    } else {
        Err(ServerError::Scroll { size: 4, len: body.len() as usize })
    }
}

/// Where no connection is stale, reaping leaves the table as it is.
pub proof fn lemma_none_stale(table: Table, clock: Seq<u128>, timeout: u128)
    requires
        clock.len() >= table.list.len(),
    ensures
        crate::clients::stale_keys(table.list, clock, timeout).len() == 0 ==> table.reap(
            clock,
            timeout,
        ) == table,
    decreases table.list.len(),
{
    if table.list.len() > 0 {
        let before = Table { list: table.list.drop_last(), next_key: table.next_key };
        lemma_none_stale(before, clock, timeout);
        if crate::clients::stale_keys(table.list, clock, timeout).len() == 0 {
            assert(crate::clients::fresh(before.list, clock, timeout) == before.list);
            assert(table.list.drop_last().push(table.list.last()) =~= table.list);
        }
    } else {
        assert(crate::clients::fresh(table.list, clock, timeout) =~= table.list);
    }
}

/// Turning to the next event keeps the state well-formed.
proof fn lemma_next_event_wf(state: PollState)
    requires
        state.at(Phase::Idle).wf(),
    ensures
        state.next_event().0.wf(),
        state.next_event().0.table == state.table,
    decreases state.events.len() - state.cursor,
{
    if state.cursor < state.events.len() {
        let key = state.events[state.cursor];
        let rest = PollState { cursor: state.cursor + 1, ..state };
        crate::clients::law_position_is_first(state.table.list, Wanted::Key(key));
        if key != 0 {
            match crate::clients::first_position(state.table.list, Wanted::Key(key)) {
                Some(p) => {
                    lemma_length_fits(state.table);
                },
                None => lemma_next_event_wf(rest),
            }
        }
    }
}

/// A well-formed table has fewer connections than there are keys.
pub proof fn lemma_length_fits(table: Table)
    requires
        table.wf(),
    ensures
        table.list.len() < table.next_key,
{
    let keys = table.list.map_values(|c: crate::clients::ClientConn| c.key as int);
    assert(keys.no_duplicates()) by {
        assert forall|i: int, j: int|
            0 <= i < keys.len() && 0 <= j < keys.len() && i != j implies keys[i] != keys[j] by {
            if i < j {
                assert(table.list[i].key != table.list[j].key);
            } else {
                assert(table.list[j].key != table.list[i].key);
            }
        }
    }
    keys.unique_seq_to_set();
    let range = vstd::set_lib::set_int_range(1, table.next_key);
    vstd::set_lib::lemma_int_range(1, table.next_key);
    assert(keys.to_set().subset_of(range)) by {
        assert forall|k: int| keys.to_set().contains(k) implies range.contains(k) by {
            let i = choose|i: int| 0 <= i < keys.len() && keys[i] == k;
            assert(1 <= table.list[i].key < table.next_key);
        }
    }
    vstd::set_lib::lemma_len_subset(keys.to_set(), range);
}

/// Whatever the outcome of the call that it waits for, a well-formed loop stays
/// well-formed: keys are never shared or used again, and a connection that the
/// loop is busy with is the one in the table, or has been taken out of it.
pub proof fn law_step_keeps_well_formed(state: PollState, reply: Reply)
    requires
        state.wf(),
        state.fits(reply),
    ensures
        state.next(reply).0.wf(),
{
    crate::clients::law_table_stays_well_formed(state.table);
    lemma_length_fits(state.table);
    assert forall|events: Seq<usize>| (#[trigger] state.polled(events)).0.wf() by {
        if !(state.platform is MacOs) {
            lemma_next_event_wf(state.seeing(events));
        }
    }
    lemma_next_event_wf(state);
    match (state.phase, reply) {
        (Phase::CheckingPort, Reply::Port(Ok(Some(pid)))) => {
            crate::clients::law_position_is_first(state.table.list, Wanted::Pid(pid));
            if let Some(p) = crate::clients::first_position(state.table.list, Wanted::Pid(pid)) {
                lemma_removed_is_lacking(state.table, p);
            }
        },
        (Phase::Receiving { position, key }, Reply::Received { now, message }) => {
            let heard = state.table.touch(position as int, now);
            crate::clients::law_table_stays_well_formed(heard);
            lemma_removed_is_lacking(heard, position as int);
        },
        (Phase::Ponging { position, key }, Reply::Sent(sent)) => {
            lemma_removed_is_lacking(state.table, position as int);
        },
        _ => {},
    }
}

/// The key of a connection that has been taken out is not in the table.
pub proof fn lemma_removed_is_lacking(table: Table, position: int)
    requires
        table.wf(),
        0 <= position < table.list.len(),
    ensures
        forall|i: int|
            0 <= i < table.remove(position).list.len() ==> (#[trigger] table.remove(
                position,
            ).list[i]).key != table.list[position].key,
{
    let rest = table.remove(position).list;
    assert forall|i: int| 0 <= i < rest.len() implies (#[trigger] rest[i]).key
        != table.list[position].key by {
        let j = if i == position {
            table.list.len() - 1
        } else {
            i
        };
        assert(rest[i] == table.list[j]);
    }
}

} // verus!
