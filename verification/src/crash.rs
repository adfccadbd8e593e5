//! Crash requests: what a client sends, whether to believe it, and what becomes
//! of it.

use crate::error::{IoError, LoopAction, ServerError};
use crate::platform::Platform;
use vstd::prelude::*;

verus! {

/// The state of a crashed thread, as `crash_context` has it. It is carried from
/// the message to the minidump; nothing here looks into it.
#[verifier::external_type_specification]
#[verifier::external_body]
pub struct ExCrashContext(crash_context::CrashContext);

/// The crash context that `crash_context::CrashContext::from_bytes` reads from
/// `bytes`, and the ids of the process and of the thread that crashed. The bytes
/// are the memory of that struct, so what they mean goes by its layout on the
/// architecture that the crate is built for.
pub uninterp spec fn crash_context_in(bytes: Seq<u8>) -> (crash_context::CrashContext, i32, i32);

/// Calls `crash_context::CrashContext::from_bytes`, which takes the bytes for
/// the memory of a crash context if there are as many as one takes, and gives
/// nothing otherwise. It reads the buffer as it lies in memory; the storage that
/// the allocator hands out for a buffer of that size is aligned for it.
#[verifier::external_body]
fn crash_context_from_bytes(bytes: &Vec<u8>) -> (parsed: Option<
    (crash_context::CrashContext, i32, i32),
>)
    ensures
        parsed is Some <==> bytes@.len() == vstd::layout::size_of::<crash_context::CrashContext>(),
        parsed matches Some(p) ==> p == crash_context_in(bytes@),
{
    let context = crash_context::CrashContext::from_bytes(bytes)?;
    let (pid, tid) = (context.pid, context.tid);
    Some((context, pid, tid))
}

/// A crash, as a client on a socket describes it.
pub struct CrashInfo {
    /// The state of the crashed thread.
    pub context: crash_context::CrashContext,
    /// The process that crashed.
    pub pid: i32,
    /// The thread that crashed.
    pub tid: i32,
}

impl CrashInfo {
    /// The process that a message body says has crashed, if it describes a crash.
    pub open spec fn pid_in(body: Seq<u8>) -> Option<i32> {
        if body.len() == vstd::layout::size_of::<crash_context::CrashContext>() {
            Some(crash_context_in(body).1)
        } else {
            None
        }
    }

    /// Reads the description of a crash from a message body; there is one in
    /// every body that has the size of a crash context, and in no other.
    pub fn read(body: &Vec<u8>) -> (info: Option<CrashInfo>)
        ensures
            info is Some <==> CrashInfo::pid_in(body@) is Some,
            info matches Some(i) ==> (i.context, i.pid, i.tid) == crash_context_in(body@),
    {
        match crash_context_from_bytes(body) {
            Some((context, pid, tid)) => Some(CrashInfo { context, pid, tid }),
            None => None,
        }
    }
}

/// What to make of a crash request on a socket: `peer` is what the socket says
/// of the process at its other end, and `claimed` the process that the message
/// says has crashed. Only a process that asks for itself is served.
pub open spec fn verdict(
    peer: Result<Option<u32>, IoError>,
    claimed: Option<i32>,
) -> Result<(), ServerError> {
    match peer {
        Err(error) => Err(ServerError::Io(error)),
        Ok(None) => Err(ServerError::UnknownClientPid),
        Ok(Some(pid)) => match claimed {
            None => Err(ServerError::Io(IoError::IncorrectBufferSize)),
            Some(claim) => if pid == claim as u32 {
                Ok(())
            } else {
                Err(ServerError::UnknownClientPid)
            },
        },
    }
}

/// Decides on a crash request; see [`verdict`].
pub fn decide(peer: Result<Option<u32>, IoError>, claimed: Option<i32>) -> (outcome: Result<
    (),
    ServerError,
>)
    ensures
        outcome == verdict(peer, claimed),
{
    match peer {
        Err(error) => Err(ServerError::Io(error)),
        Ok(None) => Err(ServerError::UnknownClientPid),
        Ok(Some(pid)) => match claimed {
            None => Err(ServerError::Io(IoError::IncorrectBufferSize)),
            Some(claim) => if pid == claim as u32 {
                Ok(())
            } else {
                Err(ServerError::UnknownClientPid)
            },
        },
    }
}

/// What the driver of a [`CrashOp`] has to do next.
#[derive(Clone, Copy, Debug, PartialEq, Eq)]
pub enum CrashCall {
    /// Ask the handler for a file to write the minidump to.
    CreateFile,
    /// Ask the handler for a handle of the process `pid`.
    ProcessHandle { pid: u32 },
    /// Tell the handler that the process `pid` is about to be dumped; `handle` is
    /// zero where there is none.
    PreDump { handle: isize, pid: u32 },
    /// Make the minidump, in memory: through `handle`, where the handler gave one.
    Dump { handle: Option<isize> },
    /// Write what was made of the minidump to the file.
    Write,
    /// Flush the file.
    Flush,
    /// Tell the handler what came of the minidump. A minidump that was made is
    /// handed over, with the file if there is one.
    NotifyCreated { dumped: Result<(), ServerError>, has_file: bool },
    /// The request has been handled, with this outcome.
    Finish(Result<LoopAction, ServerError>),
}

/// What came of a [`CrashCall`].
#[derive(Clone, Copy, Debug, PartialEq, Eq)]
pub enum CrashReply {
    /// Whether the handler wants the minidump in a file.
    FileCreated(Result<bool, ServerError>),
    /// The handle of the process, if the handler has one.
    Handle(Option<isize>),
    /// The call was made.
    Done,
    /// What came of making the minidump.
    Dumped(Result<(), ServerError>),
    /// What came of writing to the file, or of flushing it.
    Written(Result<(), ServerError>),
    /// What the handler answered.
    Handler(LoopAction),
}

/// Which call the handling of a crash waits for the outcome of.
#[derive(Clone, Copy, Debug, PartialEq, Eq)]
pub enum CrashPhase {
    /// [`CrashCall::CreateFile`].
    Creating,
    /// [`CrashCall::ProcessHandle`].
    Opening { has_file: bool },
    /// [`CrashCall::PreDump`].
    Preparing { has_file: bool, handle: Option<isize> },
    /// [`CrashCall::Dump`].
    Dumping { has_file: bool },
    /// [`CrashCall::Write`].
    Writing { dumped: Result<(), ServerError> },
    /// [`CrashCall::Flush`].
    Flushing { dumped: Result<(), ServerError> },
    /// [`CrashCall::NotifyCreated`].
    Notifying,
    /// Nothing: the request has been handled.
    Finished,
}

/// Where the handling of the crash of one process stands.
#[derive(Clone, Copy, Debug, PartialEq, Eq)]
pub struct CrashState {
    /// What the server runs on.
    pub platform: Platform,
    /// The process that crashed.
    pub pid: u32,
    /// What the handling waits for.
    pub phase: CrashPhase,
}

impl CrashState {
    /// The same request, in another phase.
    pub open spec fn at(self, phase: CrashPhase) -> CrashState {
        CrashState { phase, ..self }
    }

    /// The handler is told what came of the minidump.
    pub open spec fn tell(self, dumped: Result<(), ServerError>, has_file: bool) -> (
        CrashState,
        CrashCall,
    ) {
        (self.at(CrashPhase::Notifying), CrashCall::NotifyCreated { dumped, has_file })
    }

    /// Whether `reply` is an outcome of the call that is waited for.
    pub open spec fn fits(self, reply: CrashReply) -> bool {
        match self.phase {
            CrashPhase::Creating => reply is FileCreated,
            CrashPhase::Opening { .. } => reply is Handle,
            CrashPhase::Preparing { .. } => reply is Done,
            CrashPhase::Dumping { .. } => reply is Dumped,
            CrashPhase::Writing { .. } => reply is Written,
            CrashPhase::Flushing { .. } => reply is Written,
            CrashPhase::Notifying => reply is Handler,
            CrashPhase::Finished => false,
        }
    }

    /// What follows on the outcome `reply` of the call that is waited for.
    pub open spec fn next(self, reply: CrashReply) -> (CrashState, CrashCall) {
        match (self.phase, reply) {
            (CrashPhase::Creating, CrashReply::FileCreated(Err(error))) => (
                self.at(CrashPhase::Finished),
                CrashCall::Finish(Err(error)),
            ),
            (CrashPhase::Creating, CrashReply::FileCreated(Ok(has_file))) => {
                if self.platform is Windows {
                    (
                        self.at(CrashPhase::Opening { has_file }),
                        CrashCall::ProcessHandle { pid: self.pid },
                    )
                } else {
                    (
                        self.at(CrashPhase::Dumping { has_file }),
                        CrashCall::Dump { handle: None },
                    )
                }
            },
            (CrashPhase::Opening { has_file }, CrashReply::Handle(handle)) => (
                self.at(CrashPhase::Preparing { has_file, handle }),
                CrashCall::PreDump {
                    handle: match handle {
                        Some(h) => h,
                        None => 0,
                    },
                    pid: self.pid,
                },
            ),
            (CrashPhase::Preparing { has_file, handle }, CrashReply::Done) => (
                self.at(CrashPhase::Dumping { has_file }),
                CrashCall::Dump { handle },
            ),
            (CrashPhase::Dumping { has_file }, CrashReply::Dumped(dumped)) => {
                if has_file && (dumped is Ok || !(self.platform is Windows)) {
                    (self.at(CrashPhase::Writing { dumped }), CrashCall::Write)
                } else {
                    self.tell(dumped, has_file)
                }
            },
            (CrashPhase::Writing { dumped }, CrashReply::Written(outcome)) => {
                if self.platform is Windows || outcome is Err {
                    self.tell(outcome, true)
                } else {
                    (self.at(CrashPhase::Flushing { dumped }), CrashCall::Flush)
                }
            },
            (CrashPhase::Flushing { dumped }, CrashReply::Written(outcome)) => self.tell(
                match outcome {
                    Ok(_) => dumped,
                    Err(error) => Err(error),
                },
                true,
            ),
            (CrashPhase::Notifying, CrashReply::Handler(action)) => (
                self.at(CrashPhase::Finished),
                CrashCall::Finish(Ok(action)),
            ),
            _ => (self.at(CrashPhase::Finished), CrashCall::Finish(Err(ServerError::Writer))),
        }
    }

    /// How many calls are still to come, at most.
    pub open spec fn calls_left(self) -> nat {
        match self.phase {
            CrashPhase::Creating => 7,
            CrashPhase::Opening { .. } => 6,
            CrashPhase::Preparing { .. } => 5,
            CrashPhase::Dumping { .. } => 4,
            CrashPhase::Writing { .. } => 3,
            CrashPhase::Flushing { .. } => 2,
            CrashPhase::Notifying => 1,
            CrashPhase::Finished => 0,
        }
    }
}

/// The handling of the crash of one process.
#[derive(Debug, PartialEq, Eq)]
pub struct CrashOp {
    state: CrashState,
}

impl View for CrashOp {
    type V = CrashState;

    closed spec fn view(&self) -> CrashState {
        self.state
    }
}

impl CrashOp {
    /// Begins to handle the crash of the process `pid`.
    pub fn handle_crash_request(platform: Platform, pid: u32) -> (started: (CrashOp, CrashCall))
        ensures
            started.0@ == (CrashState { platform, pid, phase: CrashPhase::Creating }),
            started.1 == CrashCall::CreateFile,
    {
        let state = CrashState { platform, pid, phase: CrashPhase::Creating };
        (CrashOp { state }, CrashCall::CreateFile)
    }

    fn notify(&mut self, dumped: Result<(), ServerError>, has_file: bool) -> (call: CrashCall)
        ensures
            (final(self)@, call) == old(self)@.tell(dumped, has_file),
    {
        self.state.phase = CrashPhase::Notifying;
        CrashCall::NotifyCreated { dumped, has_file }
    }

    /// Takes the outcome of the call that is waited for, and says which call to
    /// make next.
    pub fn step(&mut self, reply: CrashReply) -> (call: CrashCall)
        requires
            old(self)@.fits(reply),
        ensures
            (final(self)@, call) == old(self)@.next(reply),
    {
        let windows = matches!(self.state.platform, Platform::Windows);
        match (self.state.phase, reply) {
            (CrashPhase::Creating, CrashReply::FileCreated(Err(error))) => {
                self.state.phase = CrashPhase::Finished;
                CrashCall::Finish(Err(error))
            },
            (CrashPhase::Creating, CrashReply::FileCreated(Ok(has_file))) => {
                if windows {
                    self.state.phase = CrashPhase::Opening { has_file };
                    CrashCall::ProcessHandle { pid: self.state.pid }
                } else {
                    self.state.phase = CrashPhase::Dumping { has_file };
                    CrashCall::Dump { handle: None }
                }
            },
            (CrashPhase::Opening { has_file }, CrashReply::Handle(handle)) => {
                self.state.phase = CrashPhase::Preparing { has_file, handle };
                CrashCall::PreDump {
                    handle: match handle {
                        Some(h) => h,
                        None => 0,
                    },
                    pid: self.state.pid,
                }
            },
            (CrashPhase::Preparing { has_file, handle }, CrashReply::Done) => {
                self.state.phase = CrashPhase::Dumping { has_file };
                CrashCall::Dump { handle }
            },
            (CrashPhase::Dumping { has_file }, CrashReply::Dumped(dumped)) => {
                if has_file && (dumped.is_ok() || !windows) {
                    self.state.phase = CrashPhase::Writing { dumped };
                    CrashCall::Write
                } else {
                    self.notify(dumped, has_file)
                }
            },
            (CrashPhase::Writing { dumped }, CrashReply::Written(outcome)) => {
                if windows || outcome.is_err() {
                    self.notify(outcome, true)
                } else {
                    self.state.phase = CrashPhase::Flushing { dumped };
                    CrashCall::Flush
                }
            },
            (CrashPhase::Flushing { dumped }, CrashReply::Written(outcome)) => match outcome {
                Ok(_) => self.notify(dumped, true),
                Err(error) => self.notify(Err(error), true),
            },
            (CrashPhase::Notifying, CrashReply::Handler(action)) => {
                self.state.phase = CrashPhase::Finished;
                CrashCall::Finish(Ok(action))
            },
            _ => {
                self.state.phase = CrashPhase::Finished;
                CrashCall::Finish(Err(ServerError::Writer))
            },
        }
    }
}

/// Handling a crash comes to an end: every outcome brings it closer to it.
pub proof fn law_crash_handling_ends(op: CrashState, reply: CrashReply)
    requires
        op.fits(reply),
    ensures
        op.next(reply).0.calls_left() < op.calls_left(),
        op.next(reply).1 is Finish <==> op.next(reply).0.calls_left() == 0,
{
}

/// The handler hears of the minidump exactly once, also where making or writing
/// it failed: the handling ends either with the handler's answer to having been
/// told, or because the handler had no file to give, before it was told anything.
pub proof fn law_handler_hears_of_the_minidump(op: CrashState, reply: CrashReply)
    requires
        op.fits(reply),
    ensures
        op.next(reply).1 matches CrashCall::Finish(outcome) ==> match outcome {
            Ok(action) => op.phase is Notifying && reply == CrashReply::Handler(action),
            Err(error) => op.phase is Creating && reply == CrashReply::FileCreated(Err(error)),
        },
        op.next(reply).1 is NotifyCreated <==> op.next(reply).0.phase is Notifying,
        op.phase is Notifying ==> op.next(reply).1 is Finish,
{
}

/// A minidump that was made and, where the handler wants a file, written and flushed
/// reaches the handler as a success, and any other as an error: that of the file if
/// it failed, or else that of the minidump. On Windows nothing is written of a
/// minidump that could not be made, and nothing is flushed.
pub proof fn law_handler_hears_the_truth(
    op: CrashState,
    dumped: Result<(), ServerError>,
    written: Result<(), ServerError>,
    flushed: Result<(), ServerError>,
)
    requires
        op.phase is Dumping,
    ensures
        ({
            let has_file = op.phase->Dumping_has_file;
            let windows = op.platform is Windows;
            let (tried, first) = op.next(CrashReply::Dumped(dumped));
            let (wrote, second) = tried.next(CrashReply::Written(written));
            let (_, third) = wrote.next(CrashReply::Written(flushed));
            let told = if first is NotifyCreated {
                first
            } else if second is NotifyCreated {
                second
            } else {
                third
            };
            &&& told matches CrashCall::NotifyCreated { dumped: heard, has_file: shown } && {
                &&& shown == has_file
                &&& heard is Ok <==> dumped is Ok && (has_file ==> written is Ok && (windows
                    || flushed is Ok))
                &&& heard matches Err(error) ==> {
                    ||| dumped == Err::<(), ServerError>(error)
                    ||| has_file && written == Err::<(), ServerError>(error)
                    ||| has_file && !windows && flushed == Err::<(), ServerError>(error)
                }
                &&& has_file && !windows ==> (written matches Err(error) ==> heard == Err::<
                    (),
                    ServerError,
                >(error))
            }
        }),
{
}

/// The minidump is made through the handle that the handler gave, where it gave one;
/// it is told that handle before, or zero.
pub proof fn law_dump_goes_through_the_handle(op: CrashState, handle: Option<isize>)
    requires
        op.phase is Opening,
    ensures
        ({
            let (opened, first) = op.next(CrashReply::Handle(handle));
            let (_, second) = opened.next(CrashReply::Done);
            &&& first == CrashCall::PreDump {
                handle: match handle {
                    Some(h) => h,
                    None => 0,
                },
                pid: op.pid,
            }
            &&& second == CrashCall::Dump { handle }
        }),
{
}

/// A crash request is believed exactly if the socket names the process at its other end, and
/// the message says that this very process has crashed. Otherwise it is refused: with the
/// error of the socket, with there being no process to believe, with the message being of
/// the wrong size, or with the process being another one.
pub proof fn law_only_the_process_itself_is_believed(
    peer: Result<Option<u32>, IoError>,
    claimed: Option<i32>,
)
    ensures
        verdict(peer, claimed) is Ok <==> (peer matches Ok(Some(pid)) && claimed matches Some(claim)
            && pid == claim as u32),
        peer matches Err(error) ==> verdict(peer, claimed) == Err::<(), ServerError>(
            ServerError::Io(error),
        ),
        peer == Ok::<Option<u32>, IoError>(None) ==> verdict(peer, claimed) == Err::<
            (),
            ServerError,
        >(ServerError::UnknownClientPid),
        (peer matches Ok(Some(_))) && claimed is None ==> verdict(peer, claimed) == Err::<
            (),
            ServerError,
        >(ServerError::Io(IoError::IncorrectBufferSize)),
        peer matches Ok(Some(pid)) ==> (claimed matches Some(claim) ==> (pid != claim as u32
            ==> verdict(peer, claimed) == Err::<(), ServerError>(ServerError::UnknownClientPid))),
{
}

/// On sockets a crash is handled in this order: the handler says whether the minidump goes to
/// a file, the minidump is made, what was made of it is written to the file and flushed, if
/// there is one, and the handler is told what came of it all; what the handler says to that
/// is the outcome. Without an answer about the file the request fails with the reason.
pub proof fn law_crash_on_sockets_is_handled(
    op: CrashState,
    has_file: bool,
    dumped: Result<(), ServerError>,
    written: Result<(), ServerError>,
    flushed: Result<(), ServerError>,
    action: LoopAction,
    error: ServerError,
)
    requires
        op.phase is Creating,
        !(op.platform is Windows),
    ensures
        ({
            let (dumping, first) = op.next(CrashReply::FileCreated(Ok(has_file)));
            let (made, second) = dumping.next(CrashReply::Dumped(dumped));
            let (wrote, third) = made.next(CrashReply::Written(written));
            let (flush, fourth) = wrote.next(CrashReply::Written(flushed));
            let answer = CrashReply::Handler(action);
            &&& op.next(CrashReply::FileCreated(Err(error))).1 == CrashCall::Finish(Err(error))
            &&& first == CrashCall::Dump { handle: None }
            &&& !has_file ==> {
                &&& second == CrashCall::NotifyCreated { dumped, has_file: false }
                &&& made.next(answer).1 == CrashCall::Finish(Ok(action))
            }
            &&& has_file ==> second == CrashCall::Write
            &&& has_file && written is Err ==> {
                &&& third == CrashCall::NotifyCreated { dumped: written, has_file: true }
                &&& wrote.next(answer).1 == CrashCall::Finish(Ok(action))
            }
            &&& has_file && written is Ok ==> {
                &&& third == CrashCall::Flush
                &&& flushed is Err ==> fourth == CrashCall::NotifyCreated {
                    dumped: flushed,
                    has_file: true,
                }
                &&& flushed is Ok ==> fourth == CrashCall::NotifyCreated { dumped, has_file: true }
                &&& flush.next(answer).1 == CrashCall::Finish(Ok(action))
            }
        }),
{
}

/// On pipes a crash is handled in this order: the handler says whether the minidump goes to a
/// file, gives a handle of the process if it has one, and is told that the process is about
/// to be dumped; the minidump is made through that handle and, if that went well and there is
/// a file, written to it; and the handler is told what came of it all. What the handler says
/// to that is the outcome. Without an answer about the file the request fails with the
/// reason.
pub proof fn law_crash_on_pipes_is_handled(
    op: CrashState,
    has_file: bool,
    handle: Option<isize>,
    dumped: Result<(), ServerError>,
    written: Result<(), ServerError>,
    action: LoopAction,
    error: ServerError,
)
    requires
        op.phase is Creating,
        op.platform is Windows,
    ensures
        ({
            let (opening, first) = op.next(CrashReply::FileCreated(Ok(has_file)));
            let (preparing, second) = opening.next(CrashReply::Handle(handle));
            let (dumping, third) = preparing.next(CrashReply::Done);
            let (made, fourth) = dumping.next(CrashReply::Dumped(dumped));
            let (wrote, fifth) = made.next(CrashReply::Written(written));
            let answer = CrashReply::Handler(action);
            &&& op.next(CrashReply::FileCreated(Err(error))).1 == CrashCall::Finish(Err(error))
            &&& first == CrashCall::ProcessHandle { pid: op.pid }
            &&& handle is None ==> second == CrashCall::PreDump { handle: 0, pid: op.pid }
            &&& handle matches Some(h) ==> second == CrashCall::PreDump { handle: h, pid: op.pid }
            &&& third == CrashCall::Dump { handle }
            &&& !has_file || dumped is Err ==> {
                &&& fourth == CrashCall::NotifyCreated { dumped, has_file }
                &&& made.next(answer).1 == CrashCall::Finish(Ok(action))
            }
            &&& has_file && dumped is Ok ==> {
                &&& fourth == CrashCall::Write
                &&& fifth == CrashCall::NotifyCreated { dumped: written, has_file: true }
                &&& wrote.next(answer).1 == CrashCall::Finish(Ok(action))
            }
        }),
{
}

} // verus!
