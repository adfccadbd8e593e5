use minidumper::error::{IoError, LoopAction, ServerError};
use minidumper::pipe_server::{PipeCall, PipeLoop, PipeReply, ACCEPT_TIMEOUT_MS, BODY_PATIENCE};
use minidumper::wire::{ByteOrder, Header, CRASH, CRASH_ACK, PING, PONG, USER};

const ORDER: ByteOrder = ByteOrder::Little;
const PONGED: PipeCall = PipeCall::SendPong { header: Header { kind: PONG, size: 0 } };
const ACKED: PipeCall = PipeCall::SendAck { header: Header { kind: CRASH_ACK, size: 0 } };

/// A loop with a client, the process 55, that it is about to hear from.
fn connected() -> PipeLoop {
    let (mut server, call) = PipeLoop::start(ORDER);
    assert_eq!(call, PipeCall::CheckShutdown);
    assert_eq!(
        server.step(PipeReply::Shutdown(false)),
        PipeCall::Accept { timeout_ms: ACCEPT_TIMEOUT_MS }
    );
    assert_eq!(server.step(PipeReply::Accepted(Ok(true))), PipeCall::ClientPid);
    assert_eq!(
        server.step(PipeReply::Pid(Ok(55))),
        PipeCall::NotifyConnected { clients: 1 }
    );
    assert_eq!(
        server.step(PipeReply::Handler(LoopAction::Continue)),
        PipeCall::CheckShutdown
    );
    assert_eq!(
        server.step(PipeReply::Shutdown(false)),
        PipeCall::RecvHeader { timeout_ms: ACCEPT_TIMEOUT_MS }
    );
    server
}

fn header(kind: u32, size: u32) -> PipeReply {
    PipeReply::Header { read: Ok(Some(8)), bytes: Header { kind, size }.as_bytes(ORDER) }
}

/// A message without a body arrives.
fn hear(server: &mut PipeLoop, kind: u32) -> PipeCall {
    assert_eq!(server.step(header(kind, 0)), PipeCall::Allocate { size: 0 });
    assert!(server.is_answerable());
    server.step(PipeReply::Allocated)
}

fn request(pid: u32) -> Vec<u8> {
    let mut body = vec![0u8; 8];
    body.extend_from_slice(&pid.to_le_bytes());
    body.extend_from_slice(&3u32.to_le_bytes());
    body.extend_from_slice(&4i32.to_le_bytes());
    body
}

/// The loop waits for the body from `offset` on.
fn wait_for_body(server: &mut PipeLoop, offset: usize) {
    assert_eq!(
        server.step(PipeReply::Shutdown(false)),
        PipeCall::RecvBody { offset, timeout_ms: 200 }
    );
}

/// A crash message with this body arrives.
fn crash(server: &mut PipeLoop, body: &Vec<u8>) -> PipeCall {
    let size = body.len() as u32;
    assert_eq!(server.step(header(CRASH, size)), PipeCall::Allocate { size });
    assert_eq!(server.step(PipeReply::Allocated), PipeCall::CheckShutdown);
    wait_for_body(server, 0);
    assert_eq!(
        server.step(PipeReply::Body(Ok(Some(body.len())))),
        PipeCall::ReadRequest
    );
    server.read_request(body)
}

#[test]
fn timeouts_of_the_pipe_loop() {
    assert_eq!(ACCEPT_TIMEOUT_MS, 200);
    assert_eq!(BODY_PATIENCE * ACCEPT_TIMEOUT_MS, 1000);
}

#[test]
fn shutdown_flag_is_looked_at_between_waits() {
    let (mut server, _) = PipeLoop::start(ORDER);
    server.step(PipeReply::Shutdown(false));
    assert_eq!(server.step(PipeReply::Accepted(Ok(false))), PipeCall::CheckShutdown);
    assert_eq!(server.step(PipeReply::Shutdown(true)), PipeCall::Finish(Ok(())));

    let mut server = connected();
    let late = PipeReply::Header { read: Ok(None), bytes: [0; 8] };
    assert_eq!(server.step(late), PipeCall::CheckShutdown);
    assert_eq!(server.step(PipeReply::Shutdown(true)), PipeCall::Finish(Ok(())));
}

#[test]
fn failed_accept_ends_the_pipe_loop() {
    let (mut server, _) = PipeLoop::start(ORDER);
    server.step(PipeReply::Shutdown(false));
    assert_eq!(
        server.step(PipeReply::Accepted(Err(IoError::Os(6)))),
        PipeCall::Finish(Err(ServerError::Io(IoError::Os(6))))
    );
}

#[test]
fn client_without_a_process_is_passed_over() {
    let (mut server, _) = PipeLoop::start(ORDER);
    server.step(PipeReply::Shutdown(false));
    server.step(PipeReply::Accepted(Ok(true)));
    assert_eq!(server.step(PipeReply::Pid(Err(IoError::Os(6)))), PipeCall::CheckShutdown);
    assert_eq!(
        server.step(PipeReply::Shutdown(false)),
        PipeCall::Accept { timeout_ms: 200 }
    );
}

#[test]
fn handler_can_leave_when_a_pipe_client_connects() {
    let (mut server, _) = PipeLoop::start(ORDER);
    server.step(PipeReply::Shutdown(false));
    server.step(PipeReply::Accepted(Ok(true)));
    server.step(PipeReply::Pid(Ok(55)));
    assert_eq!(server.step(PipeReply::Handler(LoopAction::Exit)), PipeCall::Finish(Ok(())));
}

#[test]
fn closed_pipe_ends_the_connection() {
    let mut server = connected();
    let closed = PipeReply::Header { read: Ok(Some(0)), bytes: [0; 8] };
    assert_eq!(server.step(closed), PipeCall::NotifyDisconnected { clients: 0 });
    assert_eq!(
        server.step(PipeReply::Handler(LoopAction::Continue)),
        PipeCall::CheckShutdown
    );
    let mut server = connected();
    let short = PipeReply::Header { read: Ok(Some(7)), bytes: [0; 8] };
    assert_eq!(server.step(short), PipeCall::NotifyDisconnected { clients: 0 });
    assert_eq!(server.step(PipeReply::Handler(LoopAction::Exit)), PipeCall::Finish(Ok(())));
}

#[test]
fn failed_read_ends_the_pipe_loop() {
    let mut server = connected();
    let failed = PipeReply::Header { read: Err(IoError::Os(5)), bytes: [0; 8] };
    assert_eq!(
        server.step(failed),
        PipeCall::Finish(Err(ServerError::Io(IoError::Os(5))))
    );
    let mut server = connected();
    server.step(header(USER, 10));
    server.step(PipeReply::Allocated);
    wait_for_body(&mut server, 0);
    assert_eq!(
        server.step(PipeReply::Body(Err(IoError::Os(5)))),
        PipeCall::Finish(Err(ServerError::Io(IoError::Os(5))))
    );
}

#[test]
fn pipe_ping_is_answered_with_pong() {
    let mut server = connected();
    assert_eq!(hear(&mut server, PING), PONGED);
    assert_eq!(server.step(PipeReply::Sent(true)), PipeCall::CheckShutdown);
    assert_eq!(
        server.step(PipeReply::Shutdown(false)),
        PipeCall::RecvHeader { timeout_ms: 200 }
    );
    assert_eq!(hear(&mut server, PING), PONGED);
    assert_eq!(
        server.step(PipeReply::Sent(false)),
        PipeCall::NotifyDisconnected { clients: 0 }
    );
}

#[test]
fn pipe_pong_is_heard_and_forgotten() {
    let mut server = connected();
    assert_eq!(hear(&mut server, PONG), PipeCall::CheckShutdown);
}

#[test]
fn pipe_user_message_is_delivered() {
    let mut server = connected();
    assert_eq!(hear(&mut server, USER + 9), PipeCall::Deliver { code: 9 });
    assert_eq!(server.step(PipeReply::Done), PipeCall::CheckShutdown);
}

#[test]
fn body_is_received_part_by_part() {
    let mut server = connected();
    assert_eq!(server.step(header(USER + 1, 100)), PipeCall::Allocate { size: 100 });
    assert_eq!(server.step(PipeReply::Allocated), PipeCall::CheckShutdown);
    wait_for_body(&mut server, 0);
    assert_eq!(server.step(PipeReply::Body(Ok(Some(60)))), PipeCall::CheckShutdown);
    wait_for_body(&mut server, 60);
    assert_eq!(server.step(PipeReply::Body(Ok(Some(39)))), PipeCall::CheckShutdown);
    wait_for_body(&mut server, 99);
    assert_eq!(server.step(PipeReply::Body(Ok(Some(1)))), PipeCall::Deliver { code: 1 });
}

#[test]
fn shutdown_flag_is_looked_at_within_a_body() {
    let mut server = connected();
    server.step(header(USER, 10));
    server.step(PipeReply::Allocated);
    wait_for_body(&mut server, 0);
    assert_eq!(server.step(PipeReply::Body(Ok(Some(1)))), PipeCall::CheckShutdown);
    assert_eq!(server.step(PipeReply::Shutdown(true)), PipeCall::Finish(Ok(())));
}

#[test]
fn late_body_is_waited_for_five_times() {
    let mut server = connected();
    server.step(header(USER, 10));
    server.step(PipeReply::Allocated);
    for _ in 0..4 {
        wait_for_body(&mut server, 0);
        assert_eq!(server.step(PipeReply::Body(Ok(None))), PipeCall::CheckShutdown);
    }
    wait_for_body(&mut server, 0);
    assert_eq!(server.step(PipeReply::Body(Ok(Some(3)))), PipeCall::CheckShutdown);
    for _ in 0..4 {
        wait_for_body(&mut server, 3);
        assert_eq!(server.step(PipeReply::Body(Ok(None))), PipeCall::CheckShutdown);
    }
    wait_for_body(&mut server, 3);
    assert_eq!(
        server.step(PipeReply::Body(Ok(None))),
        PipeCall::NotifyDisconnected { clients: 0 }
    );
}

#[test]
fn cut_body_ends_the_connection() {
    let mut server = connected();
    server.step(header(USER, 10));
    server.step(PipeReply::Allocated);
    wait_for_body(&mut server, 0);
    assert_eq!(
        server.step(PipeReply::Body(Ok(Some(0)))),
        PipeCall::NotifyDisconnected { clients: 0 }
    );
}

#[test]
fn acknowledgement_cannot_be_answered() {
    let mut server = connected();
    server.step(header(CRASH_ACK, 0));
    assert!(!server.is_answerable());
}

#[test]
fn pipe_crash_is_dumped_and_acknowledged() {
    let mut server = connected();
    let PipeCall::Dump { request } = crash(&mut server, &request(55)) else {
        panic!("the crash is not dumped");
    };
    assert_eq!(request.process_id, 55);
    assert_eq!(request.thread_id, 3);
    assert_eq!(request.exception_code, 4);
    assert_eq!(server.step(PipeReply::Crash(Ok(LoopAction::Continue))), ACKED);
    assert_eq!(
        server.step(PipeReply::Sent(false)),
        PipeCall::NotifyDisconnected { clients: 0 }
    );
}

#[test]
fn pipe_handler_hears_of_a_failed_dump() {
    let mut server = connected();
    crash(&mut server, &request(55));
    assert_eq!(
        server.step(PipeReply::Crash(Err(ServerError::Writer))),
        PipeCall::NotifyFailure { error: ServerError::Writer }
    );
    assert_eq!(server.step(PipeReply::Handler(LoopAction::Exit)), ACKED);
    assert_eq!(server.step(PipeReply::Sent(true)), PipeCall::Finish(Ok(())));
}

#[test]
fn pipe_crash_of_another_process_is_refused() {
    let mut server = connected();
    assert_eq!(
        crash(&mut server, &request(56)),
        PipeCall::NotifyDisconnected { clients: 0 }
    );
}

#[test]
fn pipe_crash_that_is_too_short_is_refused() {
    let mut server = connected();
    assert_eq!(
        crash(&mut server, &vec![0u8; 19]),
        PipeCall::NotifyDisconnected { clients: 0 }
    );
}
