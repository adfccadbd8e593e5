//! What becomes of every client, message and answer in a message loop on named pipes, from
//! the call that brings it to the call that ends the work on it.

use crate::error::{IoError, LoopAction, ServerError};
use crate::pipe_server::{PipeCall, PipePhase, PipeReply, PipeState};
use crate::wire::{DumpRequest, Header};
use vstd::prelude::*;

verus! {

/// Whether the client has been reported gone: nobody is left, and what the handler says
/// decides whether the loop looks for another client or ends.
pub open spec fn client_is_out(after: PipeState, call: PipeCall) -> bool {
    &&& call == PipeCall::NotifyDisconnected { clients: 0 }
    &&& after.next(PipeReply::Handler(LoopAction::Exit)).1 == PipeCall::Finish(Ok(()))
    &&& after.next(PipeReply::Handler(LoopAction::Continue)) == (
        PipeState { order: after.order, phase: PipePhase::Idle },
        PipeCall::CheckShutdown,
    )
}

/// Whether the loop looks at the shutdown flag and, if it is not up, waits for the next
/// message of the client `pid` for a fifth of a second.
pub open spec fn client_is_heard(after: PipeState, call: PipeCall, pid: u32) -> bool {
    &&& call == PipeCall::CheckShutdown
    &&& after.next(PipeReply::Shutdown(true)).1 == PipeCall::Finish(Ok(()))
    &&& after.next(PipeReply::Shutdown(false)) == (
        PipeState { order: after.order, phase: PipePhase::ReadingHeader { pid } },
        PipeCall::RecvHeader { timeout_ms: 200 },
    )
}

/// A client is waited for, a fifth of a second at a time. One that comes and can be
/// identified is reported as the only one, and heard; one that cannot be identified is let
/// go of. A pipe that fails ends the loop with its error.
pub proof fn law_pipe_client_is_taken_in(state: PipeState, pid: u32, error: IoError)
    requires
        state.phase is Idle,
    ensures
        ({
            let (accepting, first) = state.next(PipeReply::Shutdown(false));
            let (named, second) = accepting.next(PipeReply::Accepted(Ok(true)));
            let (met, third) = named.next(PipeReply::Pid(Ok(pid)));
            let heard = met.next(PipeReply::Handler(LoopAction::Continue));
            &&& state.next(PipeReply::Shutdown(true)).1 == PipeCall::Finish(Ok(()))
            &&& first == PipeCall::Accept { timeout_ms: 200 }
            &&& accepting.next(PipeReply::Accepted(Ok(false))) == (state, PipeCall::CheckShutdown)
            &&& accepting.next(PipeReply::Accepted(Err(error))).1 == PipeCall::Finish(
                Err(ServerError::Io(error)),
            )
            &&& second == PipeCall::ClientPid
            &&& named.next(PipeReply::Pid(Err(error))) == (state, PipeCall::CheckShutdown)
            &&& third == PipeCall::NotifyConnected { clients: 1 }
            &&& met.next(PipeReply::Handler(LoopAction::Exit)).1 == PipeCall::Finish(Ok(()))
            &&& client_is_heard(heard.0, heard.1, pid)
            &&& heard.0.order == state.order
        }),
{
}

/// A message begins with eight bytes, which give its kind and the length of its body; room
/// is made for a body of that length. A client that sends fewer bytes is given up, one that
/// sends none in time is heard again, and a pipe that fails ends the loop with its error.
pub proof fn law_pipe_message_begins(
    state: PipeState,
    pid: u32,
    n: usize,
    bytes: [u8; 8],
    error: IoError,
)
    requires
        state.phase == (PipePhase::ReadingHeader { pid }),
    ensures
        ({
            let b = bytes@;
            let (after, call) = state.next(PipeReply::Header { read: Ok(Some(n)), bytes });
            let late = state.next(PipeReply::Header { read: Ok(None), bytes });
            &&& n < 8 ==> client_is_out(after, call)
            &&& n >= 8 ==> {
                &&& after.order == state.order
                &&& after.phase matches PipePhase::Allocating { pid: p, header } && {
                    &&& p == pid
                    &&& call == PipeCall::Allocate { size: header.size }
                    &&& state.order is Little ==> header.kind == b[0] + 256 * b[1] + 65536 * b[2]
                        + 16777216 * b[3]
                    &&& state.order is Little ==> header.size == b[4] + 256 * b[5] + 65536 * b[6]
                        + 16777216 * b[7]
                    &&& state.order is Big ==> header.kind == b[3] + 256 * b[2] + 65536 * b[1]
                        + 16777216 * b[0]
                    &&& state.order is Big ==> header.size == b[7] + 256 * b[6] + 65536 * b[5]
                        + 16777216 * b[4]
                }
            }
            &&& client_is_heard(late.0, late.1, pid)
            &&& late.0.order == state.order
            &&& state.next(PipeReply::Header { read: Err(error), bytes }).1 == PipeCall::Finish(
                Err(ServerError::Io(error)),
            )
        }),
{
    let header = Header::spec_in(bytes@, state.order);
    crate::wire::law_header_layout(header, bytes@);
}

/// Whether a message of the client `pid`, of the kind `kind`, that is there as a whole, is
/// answered: with a look at the dump request, with a pong, with the next message, or with
/// delivery under its code.
pub open spec fn is_answered(
    before: PipeState,
    after: PipeState,
    call: PipeCall,
    pid: u32,
    kind: u32,
) -> bool {
    &&& after.order == before.order
    &&& kind == 0 ==> call == PipeCall::ReadRequest && after.phase == (
    PipePhase::ReadingRequest { pid })
    &&& kind == 2 ==> {
        let sent = after.next(PipeReply::Sent(true));
        let lost = after.next(PipeReply::Sent(false));
        &&& call == PipeCall::SendPong { header: Header { kind: 3, size: 0 } }
        &&& client_is_heard(sent.0, sent.1, pid)
        &&& client_is_out(lost.0, lost.1)
    }
    &&& kind == 3 ==> client_is_heard(after, call, pid)
    &&& kind >= 4 ==> {
        let done = after.next(PipeReply::Done);
        &&& call == PipeCall::Deliver { code: (kind - 4) as u32 }
        &&& client_is_heard(done.0, done.1, pid)
    }
}

/// Whether the loop waits for the part of a body behind its first `total` bytes: it looks at
/// the shutdown flag and, if it is not up, receives into the buffer behind those bytes for a
/// fifth of a second. `waits` waits for that part were in vain.
pub open spec fn awaits_body(
    before: PipeState,
    after: PipeState,
    call: PipeCall,
    body: (u32, Header, usize, u32),
) -> bool {
    let (pid, header, total, waits) = body;
    &&& after.order == before.order
    &&& call == PipeCall::CheckShutdown
    &&& after.next(PipeReply::Shutdown(true)).1 == PipeCall::Finish(Ok(()))
    &&& after.next(PipeReply::Shutdown(false)) == (
        PipeState {
            order: before.order,
            phase: PipePhase::ReadingBody { pid, header, total, waits },
        },
        PipeCall::RecvBody { offset: total, timeout_ms: 200 },
    )
}

/// A message without a body is answered at once, and one with a body when the body is
/// there: every part that comes is received behind those before it, the message is answered
/// exactly if as many bytes have come as its header announces, and otherwise the next part
/// is waited for, up to five times in a row in vain. A client that closes the pipe, or whose
/// next part does not come, is given up; a pipe that fails ends the loop with its error.
pub proof fn law_pipe_body_is_received(
    state: PipeState,
    pid: u32,
    header: Header,
    total: usize,
    waits: u32,
    n: usize,
    error: IoError,
)
    requires
        state.phase == (PipePhase::ReadingBody { pid, header, total, waits }),
        0 < n,
        total + n <= usize::MAX,
    ensures
        ({
            let ready = PipeState { phase: PipePhase::Allocating { pid, header }, ..state };
            let start = ready.next(PipeReply::Allocated);
            let more = state.next(PipeReply::Body(Ok(Some(n))));
            let late = state.next(PipeReply::Body(Ok(None)));
            let gone = state.next(PipeReply::Body(Ok(Some(0usize))));
            &&& header.size == 0 ==> is_answered(state, start.0, start.1, pid, header.kind)
            &&& header.size > 0 ==> awaits_body(state, start.0, start.1, (pid, header, 0, 0))
            &&& total + n >= header.size ==> is_answered(state, more.0, more.1, pid, header.kind)
            &&& total + n < header.size ==> awaits_body(
                state,
                more.0,
                more.1,
                (pid, header, (total + n) as usize, 0),
            )
            &&& waits >= 4 ==> client_is_out(late.0, late.1)
            &&& waits < 4 ==> awaits_body(
                state,
                late.0,
                late.1,
                (pid, header, total, (waits + 1) as u32),
            )
            &&& client_is_out(gone.0, gone.1)
            &&& state.next(PipeReply::Body(Err(error))).1 == PipeCall::Finish(
                Err(ServerError::Io(error)),
            )
        }),
{
}

/// A dump request is served exactly if it speaks of the process at the other end of the
/// pipe, and then as it stands. A client without such a request is given up.
pub proof fn law_pipe_crash_request_is_served(
    state: PipeState,
    pid: u32,
    request: Option<DumpRequest>,
)
    requires
        state.phase == (PipePhase::ReadingRequest { pid }),
    ensures
        ({
            let (after, call) = state.next(PipeReply::DumpRequest(request));
            match request {
                Some(r) => if r.process_id == pid {
                    &&& call == PipeCall::Dump { request: r }
                    &&& after == PipeState { phase: PipePhase::Dumping, ..state }
                } else {
                    client_is_out(after, call)
                },
                None => client_is_out(after, call),
            }
        }),
{
}

/// The handler's answer to a minidump is obeyed, whether it was to a minidump or to there
/// being none: the client is sent its acknowledgement, and after that, sent or not, the loop
/// ends without an error exactly if the answer was to leave, and otherwise the client is
/// reported gone.
pub proof fn law_pipe_answer_to_a_minidump_is_obeyed(
    state: PipeState,
    failure: Option<ServerError>,
    action: LoopAction,
    sent: bool,
)
    requires
        state.phase is Dumping,
    ensures
        ({
            let (acking, ack) = match failure {
                None => state.next(PipeReply::Crash(Ok(action))),
                Some(error) => state.next(PipeReply::Crash(Err(error))).0.next(
                    PipeReply::Handler(action),
                ),
            };
            let (after, call) = acking.next(PipeReply::Sent(sent));
            &&& failure matches Some(error) ==> state.next(PipeReply::Crash(Err(error))).1
                == PipeCall::NotifyFailure { error }
            &&& acking.phase == PipePhase::Acking { action }
            &&& ack == PipeCall::SendAck { header: Header { kind: 1, size: 0 } }
            &&& call == PipeCall::Finish(Ok(())) <==> action is Exit
            &&& action is Exit ==> after.phase is Finished
            &&& action is Continue ==> client_is_out(after, call)
            &&& after.order == state.order
        }),
{
}

/// Whatever comes of a call, the loop goes on from it or ends: it takes every outcome that
/// the call can have, unless a length runs out, or a message that is there as a whole is of
/// the one kind that clients never send.
pub proof fn law_pipe_every_outcome_is_taken(state: PipeState, reply: PipeReply)
    requires
        match reply {
            PipeReply::Shutdown(_) => state.phase is Idle || state.phase is Listening
                || state.phase is Pausing,
            PipeReply::Accepted(_) => state.phase is Accepting,
            PipeReply::Pid(_) => state.phase is Identifying,
            PipeReply::Handler(_) => state.phase is Welcoming || state.phase is Excusing
                || state.phase is Parting,
            PipeReply::Header { .. } => state.phase is ReadingHeader,
            PipeReply::Allocated => state.phase matches PipePhase::Allocating { header, .. } && (
            header.size > 0 || header.kind != 1),
            PipeReply::Body(read) => state.phase matches PipePhase::ReadingBody { header, total, .. }
                && (read matches Ok(Some(n)) ==> total + n <= usize::MAX && (total + n < header.size
                || header.kind != 1)),
            PipeReply::DumpRequest(_) => state.phase is ReadingRequest,
            PipeReply::Crash(_) => state.phase is Dumping,
            PipeReply::Sent(_) => state.phase is Acking || state.phase is Ponging,
            PipeReply::Done => state.phase is Delivering,
        },
    ensures
        state.fits(reply),
{
}

} // verus!
