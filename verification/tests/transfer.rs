use minidumper::error::IoError;
use minidumper::transfer::{
    handle_is_open, IoCall, IoReply, PipeStream, Transfer, ERROR_BROKEN_PIPE, ERROR_IO_PENDING,
    ERROR_OPERATION_ABORTED, INFINITE, WAIT_OBJECT_0, WAIT_TIMEOUT,
};

const STREAM: PipeStream = PipeStream { handle: 12 };

fn done(outcome: Result<Option<usize>, IoError>) -> IoCall {
    IoCall::Finish { outcome, close_event: true }
}

/// A read of 16 bytes within 300 milliseconds that goes on in the background.
fn pending_read() -> Transfer {
    let (mut read, call) = STREAM.recv_timeout_ms(16, 300);
    assert_eq!(call, IoCall::CreateEvent);
    assert_eq!(read.step(IoReply::Event(7)), IoCall::Read { len: 16 });
    assert_eq!(read.step(IoReply::Issued { ok: 0, bytes: 0 }), IoCall::LastError);
    assert_eq!(
        read.step(IoReply::LastError(ERROR_IO_PENDING)),
        IoCall::Wait { timeout_ms: 300 }
    );
    read
}

#[test]
fn empty_buffers_need_no_call() {
    let nothing = IoCall::Finish { outcome: Ok(Some(0)), close_event: false };
    assert_eq!(STREAM.recv(0).1, nothing);
    assert_eq!(STREAM.recv_timeout_ms(0, 5).1, nothing);
    assert_eq!(STREAM.send(0).1, nothing);
    assert_eq!(STREAM.peek(0).1, nothing);
}

#[test]
fn event_that_cannot_be_made() {
    let (mut read, _) = STREAM.recv_timeout_ms(16, 300);
    assert_eq!(read.step(IoReply::Event(0)), IoCall::LastError);
    assert_eq!(
        read.step(IoReply::LastError(8)),
        IoCall::Finish { outcome: Err(IoError::Os(8)), close_event: false }
    );
}

#[test]
fn read_is_done_at_once() {
    let (mut read, _) = STREAM.recv_timeout_ms(16, 300);
    read.step(IoReply::Event(7));
    assert_eq!(read.step(IoReply::Issued { ok: 1, bytes: 9 }), done(Ok(Some(9))));
}

#[test]
fn read_is_refused() {
    let (mut read, _) = STREAM.recv_timeout_ms(16, 300);
    read.step(IoReply::Event(7));
    read.step(IoReply::Issued { ok: 0, bytes: 0 });
    assert_eq!(read.step(IoReply::LastError(ERROR_BROKEN_PIPE)), done(Ok(Some(0))));
    let (mut read, _) = STREAM.recv_timeout_ms(16, 300);
    read.step(IoReply::Event(7));
    read.step(IoReply::Issued { ok: 0, bytes: 0 });
    assert_eq!(read.step(IoReply::LastError(6)), done(Err(IoError::Os(6))));
}

#[test]
fn read_is_waited_for() {
    let mut read = pending_read();
    assert_eq!(
        read.step(IoReply::Waited(WAIT_OBJECT_0)),
        IoCall::Complete { wait: false }
    );
    assert_eq!(read.step(IoReply::Completed { ok: 1, bytes: 16 }), done(Ok(Some(16))));
}

#[test]
fn read_that_is_late_is_cancelled() {
    let mut read = pending_read();
    assert_eq!(read.step(IoReply::Waited(WAIT_TIMEOUT)), IoCall::Cancel);
    assert_eq!(read.step(IoReply::Cancelled), IoCall::Complete { wait: true });
    assert_eq!(read.step(IoReply::Completed { ok: 1, bytes: 16 }), done(Ok(None)));
}

#[test]
fn read_whose_wait_goes_wrong() {
    let mut read = pending_read();
    assert_eq!(read.step(IoReply::Waited(u32::MAX)), IoCall::LastError);
    assert_eq!(read.step(IoReply::LastError(6)), done(Err(IoError::Os(6))));
}

#[test]
fn read_that_goes_wrong_at_the_end() {
    for (code, outcome) in [
        (ERROR_BROKEN_PIPE, Ok(Some(0))),
        (ERROR_OPERATION_ABORTED, Ok(Some(0))),
        (5, Err(IoError::Os(5))),
    ] {
        let mut read = pending_read();
        read.step(IoReply::Waited(WAIT_OBJECT_0));
        assert_eq!(read.step(IoReply::Completed { ok: 0, bytes: 0 }), IoCall::LastError);
        assert_eq!(read.step(IoReply::LastError(code)), done(outcome));
    }
}

#[test]
fn blocking_read_has_no_time_limit() {
    let (mut read, _) = STREAM.recv(16);
    read.step(IoReply::Event(7));
    read.step(IoReply::Issued { ok: 0, bytes: 0 });
    assert_eq!(
        read.step(IoReply::LastError(ERROR_IO_PENDING)),
        IoCall::Wait { timeout_ms: INFINITE }
    );
    read.step(IoReply::Waited(WAIT_TIMEOUT));
    read.step(IoReply::Cancelled);
    assert_eq!(read.step(IoReply::Completed { ok: 0, bytes: 0 }), done(Ok(Some(0))));
}

#[test]
fn write_is_waited_for() {
    let (mut write, call) = STREAM.send(8);
    assert_eq!(call, IoCall::CreateEvent);
    assert_eq!(write.step(IoReply::Event(7)), IoCall::Write { len: 8 });
    write.step(IoReply::Issued { ok: 0, bytes: 0 });
    assert_eq!(
        write.step(IoReply::LastError(ERROR_IO_PENDING)),
        IoCall::Complete { wait: true }
    );
    assert_eq!(write.step(IoReply::Completed { ok: 1, bytes: 8 }), done(Ok(Some(8))));
}

#[test]
fn write_to_a_closed_pipe_fails() {
    let code = ERROR_BROKEN_PIPE;
    let (mut write, _) = STREAM.send(8);
    write.step(IoReply::Event(7));
    write.step(IoReply::Issued { ok: 0, bytes: 0 });
    assert_eq!(write.step(IoReply::LastError(code)), done(Err(IoError::Os(109))));
    let (mut write, _) = STREAM.send(8);
    write.step(IoReply::Event(7));
    write.step(IoReply::Issued { ok: 0, bytes: 0 });
    write.step(IoReply::LastError(ERROR_IO_PENDING));
    assert_eq!(write.step(IoReply::Completed { ok: 0, bytes: 0 }), IoCall::LastError);
    assert_eq!(write.step(IoReply::LastError(code)), done(Err(IoError::Os(109))));
}

#[test]
fn peek_needs_no_event() {
    let (mut peek, call) = STREAM.peek(8);
    assert_eq!(call, IoCall::Peek { len: 8 });
    assert_eq!(
        peek.step(IoReply::Issued { ok: 1, bytes: 3 }),
        IoCall::Finish { outcome: Ok(Some(3)), close_event: false }
    );
    for (code, outcome) in [(ERROR_BROKEN_PIPE, Ok(Some(0))), (6, Err(IoError::Os(6)))] {
        let (mut peek, _) = STREAM.peek(8);
        peek.step(IoReply::Issued { ok: 0, bytes: 0 });
        assert_eq!(
            peek.step(IoReply::LastError(code)),
            IoCall::Finish { outcome, close_event: false }
        );
    }
}

#[test]
fn lengths_keep_their_lower_bits() {
    let len = 0x1_0000_0005u64 as usize;
    let (mut write, _) = STREAM.send(len);
    assert_eq!(write.step(IoReply::Event(7)), IoCall::Write { len: 5 });
}

#[test]
fn vectored_read_fills_the_buffers_in_turn() {
    let mut read = STREAM.recv_vectored(vec![0, 8, 0, 4]);
    assert_eq!(read.pending(), Some(1));
    read.complete(Ok(8));
    assert_eq!(read.pending(), Some(3));
    assert_eq!(read.transferred(), 8);
    read.complete(Ok(2));
    assert_eq!(read.pending(), None);
    assert_eq!(read.result(), Some(Ok(10)));
}

#[test]
fn vectored_read_stops_at_a_closed_pipe() {
    let mut read = STREAM.recv_vectored(vec![8, 4]);
    read.complete(Ok(0));
    assert_eq!(read.result(), Some(Ok(0)));
    let mut write = STREAM.send_vectored(vec![8, 4]);
    write.complete(Ok(0));
    assert_eq!(write.pending(), Some(1));
    write.complete(Ok(4));
    assert_eq!(write.result(), Some(Ok(4)));
}

#[test]
fn vectored_error_counts_only_at_the_start() {
    let mut write = STREAM.send_vectored(vec![8, 4]);
    write.complete(Err(IoError::Os(5)));
    assert_eq!(write.result(), Some(Err(IoError::Os(5))));
    let mut write = STREAM.send_vectored(vec![8, 4, 2]);
    write.complete(Ok(8));
    write.complete(Err(IoError::Os(5)));
    assert_eq!(write.result(), Some(Ok(8)));
    let mut read = STREAM.recv_vectored(vec![8, 4, 2]);
    read.complete(Ok(8));
    read.complete(Err(IoError::Os(5)));
    assert_eq!(read.result(), Some(Ok(8)));
}

#[test]
fn vectored_transfer_without_bytes() {
    assert_eq!(STREAM.recv_vectored(vec![]).result(), Some(Ok(0)));
    assert_eq!(STREAM.send_vectored(vec![0, 0]).result(), Some(Ok(0)));
}

#[test]
fn client_process_of_a_pipe() {
    assert_eq!(STREAM.client_pid(1, 44), Ok(44));
    assert!(matches!(STREAM.client_pid(0, 44), Err(IoError::Os(_))));
}

#[test]
fn handles_that_have_to_be_closed() {
    assert!(handle_is_open(4));
    assert!(handle_is_open(-2));
    assert!(!handle_is_open(0));
    assert!(!handle_is_open(-1));
}
