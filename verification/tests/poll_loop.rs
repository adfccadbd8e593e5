use minidumper::crash::CrashInfo;
use minidumper::error::{IoError, LoopAction, ServerError};
use minidumper::platform::Platform;
use minidumper::poll_server::{Call, PollLoop, Reply, POLL_TIMEOUT};
use minidumper::wire::{ByteOrder, Header, CRASH, CRASH_ACK, PING, PONG, USER};

const MS: u128 = 1_000_000;
const CHECK_PORT: Call = Call::CheckPort { timeout: MS };
const ACK_PORT: Call = Call::AckPort { value: 1, timeout: 2000 * MS };

fn go_on() -> Reply {
    Reply::Handler(LoopAction::Continue)
}

fn leave() -> Reply {
    Reply::Handler(LoopAction::Exit)
}

/// A loop that has begun a round with these events.
fn round(server: &mut PollLoop, now: u128, events: Vec<usize>) -> Call {
    assert_eq!(
        server.step(Reply::Shutdown { stop: false, now }),
        Call::Wait { timeout: POLL_TIMEOUT }
    );
    server.step(Reply::Events(events))
}

/// Has a client connect, in a round of its own.
fn connect(server: &mut PollLoop, now: u128) -> usize {
    let before = server.clients();
    let mut call = round(server, now, vec![0]);
    if call == CHECK_PORT {
        call = server.step(Reply::Port(Ok(None)));
    }
    assert_eq!(call, Call::Accept);
    let Call::Register { key } = server.step(Reply::Accepted(true)) else {
        panic!("the connection is not registered");
    };
    assert_eq!(
        server.step(Reply::Registered { outcome: Ok(()), now }),
        Call::NotifyConnected { clients: before + 1 }
    );
    assert_eq!(server.step(go_on()), Call::RearmListener);
    assert_eq!(server.step(Reply::Rearmed(Ok(()))), Call::CheckShutdown);
    key
}

fn with_clients(platform: Platform, clients: usize) -> PollLoop {
    let (mut server, call) = PollLoop::start(platform, None);
    assert_eq!(call, Call::CheckShutdown);
    for i in 0..clients {
        assert_eq!(connect(&mut server, (i as u128) * MS), i + 1);
    }
    server
}

fn context_bytes(pid: i32) -> Vec<u8> {
    let size = std::mem::size_of::<crash_context::CrashContext>();
    let mut bytes = vec![0u8; size];
    bytes[size - 8..size - 4].copy_from_slice(&pid.to_ne_bytes());
    bytes
}

#[test]
fn shutdown_flag_ends_the_loop() {
    let (mut server, _) = PollLoop::start(Platform::Linux, None);
    assert_eq!(server.step(Reply::Shutdown { stop: true, now: 0 }), Call::Finish(Ok(())));
    assert!(server.is_finished());
}

#[test]
fn wait_is_200_milliseconds() {
    assert_eq!(POLL_TIMEOUT, 200 * MS);
}

#[test]
fn interrupted_wait_goes_on_until_the_deadline() {
    let (mut server, _) = PollLoop::start(Platform::Linux, None);
    server.step(Reply::Shutdown { stop: false, now: 1000 });
    assert_eq!(
        server.step(Reply::Interrupted { now: 1000 + 50 * MS }),
        Call::Wait { timeout: 150 * MS }
    );
    assert_eq!(
        server.step(Reply::Interrupted { now: 1000 + 200 * MS }),
        Call::Wait { timeout: 0 }
    );
    assert_eq!(
        server.step(Reply::Interrupted { now: 1001 + 200 * MS }),
        Call::CheckShutdown
    );
}

#[test]
fn failed_wait_ends_the_loop() {
    let (mut server, _) = PollLoop::start(Platform::Linux, None);
    server.step(Reply::Shutdown { stop: false, now: 0 });
    assert_eq!(
        server.step(Reply::PollFailed(IoError::Os(22))),
        Call::Finish(Err(ServerError::Io(IoError::Os(22))))
    );
}

#[test]
fn clients_get_keys_of_their_own() {
    let mut server = with_clients(Platform::Linux, 3);
    assert_eq!(server.clients(), 3);
    assert!(server.has_keys());
    assert_eq!(round(&mut server, 0, vec![2]), Call::Receive { key: 2 });
    assert_eq!(
        server.received(1, None, ByteOrder::Little),
        Call::Deregister { key: 2 }
    );
    assert_eq!(server.step(Reply::Done), Call::NotifyDisconnected { clients: 2 });
    assert_eq!(server.step(go_on()), Call::CheckShutdown);
    assert_eq!(connect(&mut server, 5), 4);
}

#[test]
fn handler_can_leave_when_a_client_connects() {
    let (mut server, _) = PollLoop::start(Platform::Linux, None);
    round(&mut server, 0, vec![0]);
    server.step(Reply::Accepted(true));
    server.step(Reply::Registered { outcome: Ok(()), now: 0 });
    assert_eq!(server.step(leave()), Call::Finish(Ok(())));
}

#[test]
fn failed_accept_is_survived() {
    let (mut server, _) = PollLoop::start(Platform::Linux, None);
    round(&mut server, 0, vec![0]);
    assert_eq!(server.step(Reply::Accepted(false)), Call::RearmListener);
    assert_eq!(server.step(Reply::Rearmed(Ok(()))), Call::CheckShutdown);
    assert_eq!(server.clients(), 0);
}

#[test]
fn failed_registration_ends_the_loop() {
    let (mut server, _) = PollLoop::start(Platform::Linux, None);
    round(&mut server, 0, vec![0]);
    server.step(Reply::Accepted(true));
    assert_eq!(
        server.step(Reply::Registered { outcome: Err(IoError::Os(12)), now: 0 }),
        Call::Finish(Err(ServerError::Io(IoError::Os(12))))
    );
}

#[test]
fn failed_rearming_ends_the_loop() {
    let mut server = with_clients(Platform::Linux, 1);
    round(&mut server, 0, vec![1]);
    assert_eq!(
        server.received(0, Some((PONG, &vec![])), ByteOrder::Little),
        Call::Rearm { key: 1 }
    );
    assert_eq!(
        server.step(Reply::Rearmed(Err(IoError::Os(9)))),
        Call::Finish(Err(ServerError::Io(IoError::Os(9))))
    );
}

#[test]
fn ping_is_answered_with_pong() {
    let mut server = with_clients(Platform::Linux, 1);
    round(&mut server, 0, vec![1]);
    assert_eq!(
        server.received(0, Some((PING, &vec![])), ByteOrder::Little),
        Call::SendPong { key: 1, header: Header { kind: PONG, size: 0 } }
    );
    assert_eq!(server.step(Reply::Sent(true)), Call::Rearm { key: 1 });
    assert_eq!(server.step(Reply::Rearmed(Ok(()))), Call::CheckShutdown);
    assert_eq!(server.clients(), 1);
}

#[test]
fn client_that_cannot_be_answered_is_dropped() {
    let mut server = with_clients(Platform::Linux, 2);
    round(&mut server, 0, vec![1]);
    server.received(0, Some((PING, &vec![])), ByteOrder::Little);
    assert_eq!(server.step(Reply::Sent(false)), Call::Deregister { key: 1 });
    assert_eq!(server.step(Reply::Done), Call::NotifyDisconnected { clients: 1 });
    assert_eq!(server.step(leave()), Call::Finish(Ok(())));
}

#[test]
fn user_message_is_delivered_with_its_code() {
    let mut server = with_clients(Platform::Linux, 1);
    round(&mut server, 0, vec![1]);
    assert_eq!(
        server.received(0, Some((USER + 42, &vec![1, 2])), ByteOrder::Little),
        Call::Deliver { code: 42 }
    );
    assert_eq!(server.step(Reply::Done), Call::Rearm { key: 1 });
}

#[test]
fn events_of_gone_connections_are_skipped() {
    let mut server = with_clients(Platform::Linux, 2);
    assert_eq!(round(&mut server, 0, vec![9, 7, 2, 1]), Call::Receive { key: 2 });
    server.received(0, None, ByteOrder::Little);
    server.step(Reply::Done);
    assert_eq!(server.step(go_on()), Call::Receive { key: 1 });
}

#[test]
fn crash_is_dumped_and_acknowledged() {
    let mut server = with_clients(Platform::Linux, 2);
    round(&mut server, 0, vec![1]);
    let body = context_bytes(77);
    assert_eq!(
        server.received(0, Some((CRASH, &body)), ByteOrder::Little),
        Call::PeerCredentials { key: 1 }
    );
    assert_eq!(server.clients(), 1);
    let (call, info) = server.vouched(Ok(Some(77)), &body);
    assert_eq!(call, Call::Dump { key: 1 });
    assert_eq!(info.map(|i: CrashInfo| i.pid), Some(77));
    assert_eq!(
        server.step(Reply::Crash(Ok(LoopAction::Continue))),
        Call::SendAck { key: 1, header: Header { kind: CRASH_ACK, size: 0 } }
    );
    assert_eq!(server.step(Reply::Sent(true)), Call::Deregister { key: 1 });
    assert_eq!(server.step(Reply::Done), Call::NotifyDisconnected { clients: 1 });
    assert_eq!(server.step(go_on()), Call::CheckShutdown);
}

#[test]
fn handler_hears_of_a_failed_dump_before_the_client() {
    let mut server = with_clients(Platform::Linux, 1);
    round(&mut server, 0, vec![1]);
    let body = context_bytes(77);
    server.received(0, Some((CRASH, &body)), ByteOrder::Little);
    server.vouched(Ok(Some(77)), &body);
    assert_eq!(
        server.step(Reply::Crash(Err(ServerError::Writer))),
        Call::NotifyFailure { error: ServerError::Writer }
    );
    assert_eq!(server.step(leave()), Call::SendAck { key: 1, header: Header { kind: CRASH_ACK, size: 0 } });
    assert_eq!(server.step(Reply::Sent(false)), Call::Finish(Ok(())));
}

#[test]
fn crash_of_another_process_is_refused() {
    let mut server = with_clients(Platform::Linux, 1);
    round(&mut server, 0, vec![1]);
    let body = context_bytes(77);
    server.received(0, Some((CRASH, &body)), ByteOrder::Little);
    let (call, _) = server.vouched(Ok(Some(78)), &body);
    assert_eq!(call, Call::Finish(Err(ServerError::UnknownClientPid)));
}

#[test]
fn crash_of_an_unknown_process_is_refused() {
    let mut server = with_clients(Platform::Linux, 1);
    round(&mut server, 0, vec![1]);
    let body = context_bytes(77);
    server.received(0, Some((CRASH, &body)), ByteOrder::Little);
    let (call, _) = server.vouched(Ok(None), &body);
    assert_eq!(call, Call::Finish(Err(ServerError::UnknownClientPid)));
}

#[test]
fn crash_of_the_wrong_size_is_refused() {
    let mut server = with_clients(Platform::Linux, 1);
    round(&mut server, 0, vec![1]);
    let body = vec![0u8; 12];
    server.received(0, Some((CRASH, &body)), ByteOrder::Little);
    let (call, info) = server.vouched(Ok(Some(77)), &body);
    assert_eq!(call, Call::Finish(Err(ServerError::Io(IoError::IncorrectBufferSize))));
    assert!(info.is_none());
}

#[test]
fn unreadable_credentials_end_the_loop() {
    let mut server = with_clients(Platform::Linux, 1);
    round(&mut server, 0, vec![1]);
    let body = context_bytes(77);
    server.received(0, Some((CRASH, &body)), ByteOrder::Little);
    let (call, _) = server.vouched(Err(IoError::Os(95)), &body);
    assert_eq!(call, Call::Finish(Err(ServerError::Io(IoError::Os(95)))));
}

fn announce(server: &mut PollLoop, key: usize, pid: u32) {
    assert_eq!(round(server, 0, vec![key]), CHECK_PORT);
    assert_eq!(server.step(Reply::Port(Ok(None))), Call::Receive { key });
    let body = pid.to_le_bytes().to_vec();
    assert_eq!(
        server.received(0, Some((CRASH, &body)), ByteOrder::Little),
        Call::SendNote { key, byte: 1 }
    );
    assert_eq!(server.step(Reply::Sent(true)), Call::Rearm { key });
    assert_eq!(server.step(Reply::Rearmed(Ok(()))), Call::CheckShutdown);
}

#[test]
fn crash_at_the_port_belongs_to_the_announced_client() {
    let mut server = with_clients(Platform::MacOs, 3);
    announce(&mut server, 2, 600);
    assert_eq!(round(&mut server, 0, vec![]), CHECK_PORT);
    assert_eq!(server.step(Reply::Port(Ok(Some(600)))), Call::Dump { key: 2 });
    assert_eq!(server.clients(), 2);
    assert_eq!(server.step(Reply::Crash(Ok(LoopAction::Exit))), ACK_PORT);
    assert_eq!(server.step(Reply::Done), Call::Deregister { key: 2 });
    assert_eq!(server.step(Reply::Done), Call::Finish(Ok(())));
}

#[test]
fn failed_dump_at_the_port_is_survived() {
    let mut server = with_clients(Platform::MacOs, 1);
    announce(&mut server, 1, 600);
    round(&mut server, 0, vec![]);
    server.step(Reply::Port(Ok(Some(600))));
    assert_eq!(server.step(Reply::Crash(Err(ServerError::Writer))), ACK_PORT);
    assert_eq!(server.step(Reply::Done), Call::Deregister { key: 1 });
    assert_eq!(server.step(Reply::Done), Call::CheckShutdown);
    assert_eq!(server.clients(), 0);
}

#[test]
fn crash_at_the_port_of_a_stranger_is_refused() {
    let mut server = with_clients(Platform::MacOs, 1);
    round(&mut server, 0, vec![]);
    assert_eq!(
        server.step(Reply::Port(Ok(Some(600)))),
        Call::Finish(Err(ServerError::UnknownClientPid))
    );
    let mut server = with_clients(Platform::MacOs, 1);
    round(&mut server, 0, vec![]);
    assert_eq!(
        server.step(Reply::Port(Err(ServerError::Port))),
        Call::Finish(Err(ServerError::Port))
    );
}

#[test]
fn announcement_needs_a_process_id() {
    let mut server = with_clients(Platform::MacOs, 1);
    round(&mut server, 0, vec![1]);
    server.step(Reply::Port(Ok(None)));
    assert_eq!(
        server.received(0, Some((CRASH, &vec![1, 2])), ByteOrder::Little),
        Call::Finish(Err(ServerError::Scroll { size: 4, len: 2 }))
    );
}

#[test]
fn stale_clients_are_dropped() {
    let (mut server, _) = PollLoop::start(Platform::Linux, Some(10 * MS));
    for i in 0..3u128 {
        round(&mut server, 0, vec![0]);
        server.step(Reply::Accepted(true));
        server.step(Reply::Registered { outcome: Ok(()), now: i * MS });
        server.step(go_on());
        assert_eq!(server.step(Reply::Rearmed(Ok(()))), Call::ReadClocks);
        let clock = vec![i * MS; server.clients()];
        assert_eq!(server.step(Reply::Clocks(clock)), Call::CheckShutdown);
    }
    assert_eq!(round(&mut server, 11 * MS, vec![]), Call::ReadClocks);
    assert_eq!(
        server.step(Reply::Clocks(vec![11 * MS, 11 * MS, 11 * MS])),
        Call::DropStale
    );
    assert_eq!(server.stale(), &vec![1, 2]);
    assert_eq!(server.step(Reply::Done), Call::NotifyDisconnected { clients: 1 });
    assert_eq!(server.step(go_on()), Call::CheckShutdown);
    assert_eq!(server.clients(), 1);
}

#[test]
fn handler_can_leave_when_stale_clients_go() {
    let (mut server, _) = PollLoop::start(Platform::Linux, Some(MS));
    round(&mut server, 0, vec![0]);
    server.step(Reply::Accepted(true));
    server.step(Reply::Registered { outcome: Ok(()), now: 0 });
    server.step(go_on());
    server.step(Reply::Rearmed(Ok(())));
    assert_eq!(server.step(Reply::Clocks(vec![MS])), Call::DropStale);
    server.step(Reply::Done);
    assert_eq!(server.step(leave()), Call::Finish(Ok(())));
}

#[test]
fn messages_keep_a_client_fresh() {
    let (mut server, _) = PollLoop::start(Platform::Linux, Some(10 * MS));
    round(&mut server, 0, vec![0]);
    server.step(Reply::Accepted(true));
    server.step(Reply::Registered { outcome: Ok(()), now: 0 });
    server.step(go_on());
    server.step(Reply::Rearmed(Ok(())));
    server.step(Reply::Clocks(vec![0]));
    round(&mut server, 9 * MS, vec![1]);
    server.received(9 * MS, Some((PONG, &vec![])), ByteOrder::Little);
    assert_eq!(server.step(Reply::Rearmed(Ok(()))), Call::ReadClocks);
    assert_eq!(server.step(Reply::Clocks(vec![18 * MS])), Call::CheckShutdown);
    assert_eq!(server.clients(), 1);
}
