use minidumper::connect::{ConnectCall, ConnectOp, ConnectReply};
use minidumper::error::IoError;
use minidumper::listener::{
    open_mode, InstanceCall, InstanceOp, InstanceReply, ListenerCall, ListenerReply, PipeListener,
    StartCall, StartOp, StartReply,
};
use minidumper::security::{SecurityAttributes, SecurityCall, SecurityOp, SecurityReply};
use minidumper::transfer::{
    PipeStream, ERROR_FILE_NOT_FOUND, ERROR_IO_PENDING, ERROR_PIPE_CONNECTED,
    INVALID_HANDLE_VALUE, WAIT_OBJECT_0, WAIT_TIMEOUT,
};
use minidumper::wide::to_wide;

const OPEN: ConnectCall = ConnectCall::Open {
    access: 0xc000_0000,
    disposition: 3,
    flags: 0x4000_0080,
};

fn trying() -> ConnectOp {
    let (pipe, mut op, call) = PipeStream::connect("/tmp/monitor").unwrap();
    assert_eq!(pipe, to_wide("\\\\.\\pipe\\monitor"));
    assert_eq!(call, ConnectCall::Tick);
    assert_eq!(op.step(ConnectReply::Tick(5000)), ConnectCall::Tick);
    op
}

#[test]
fn client_connects() {
    let mut op = trying();
    assert_eq!(
        op.step(ConnectReply::Tick(5000)),
        ConnectCall::WaitPipe { timeout_ms: 10_000 }
    );
    assert_eq!(op.step(ConnectReply::Waited(1)), OPEN);
    assert_eq!(
        op.step(ConnectReply::Opened(9)),
        ConnectCall::Finish(Ok(PipeStream { handle: 9 }))
    );
}

#[test]
fn client_waits_for_the_pipe_to_appear() {
    let mut op = trying();
    op.step(ConnectReply::Tick(5000));
    assert_eq!(op.step(ConnectReply::Waited(0)), ConnectCall::LastError);
    assert_eq!(
        op.step(ConnectReply::LastError(ERROR_FILE_NOT_FOUND)),
        ConnectCall::Sleep { ms: 10 }
    );
    assert_eq!(op.step(ConnectReply::Slept), ConnectCall::Tick);
    assert_eq!(
        op.step(ConnectReply::Tick(14_999)),
        ConnectCall::WaitPipe { timeout_ms: 1 }
    );
    op.step(ConnectReply::Waited(0));
    op.step(ConnectReply::LastError(ERROR_FILE_NOT_FOUND));
    op.step(ConnectReply::Slept);
    assert_eq!(
        op.step(ConnectReply::Tick(15_000)),
        ConnectCall::Finish(Err(IoError::Os(2)))
    );
}

#[test]
fn client_never_waits_longer_than_in_all() {
    let mut op = trying();
    assert_eq!(
        op.step(ConnectReply::Tick(0)),
        ConnectCall::WaitPipe { timeout_ms: 10_000 }
    );
}

#[test]
fn other_errors_end_the_connecting() {
    let mut op = trying();
    op.step(ConnectReply::Tick(5000));
    op.step(ConnectReply::Waited(0));
    assert_eq!(
        op.step(ConnectReply::LastError(121)),
        ConnectCall::Finish(Err(IoError::Os(121)))
    );
    let mut op = trying();
    op.step(ConnectReply::Tick(5000));
    op.step(ConnectReply::Waited(1));
    assert_eq!(op.step(ConnectReply::Opened(-1)), ConnectCall::LastError);
    assert_eq!(
        op.step(ConnectReply::LastError(231)),
        ConnectCall::Finish(Err(IoError::Os(231)))
    );
}

#[test]
fn names_are_checked_before_connecting() {
    assert_eq!(PipeStream::connect("/tmp/..").err(), Some(IoError::InvalidPipeName));
    assert_eq!(PipeListener::bind("").err(), Some(IoError::InvalidPipeName));
}

#[test]
fn first_instance_is_opened_alone() {
    assert_eq!(open_mode(true), 0x4008_0003);
    assert_eq!(open_mode(false), 0x4000_0003);
}

const ATTRIBUTES: SecurityAttributes =
    SecurityAttributes { length: 24, descriptor: 8192, inherit_handle: 0 };

fn create(open_mode: u32) -> InstanceCall {
    InstanceCall::Create {
        open_mode,
        pipe_mode: 0,
        max_instances: 255,
        buffer_size: 65536,
        attributes: ATTRIBUTES,
    }
}

#[test]
fn instances_are_secured() {
    let (mut op, call) = InstanceOp::create_pipe_instance(true);
    assert_eq!(call, InstanceCall::Secure);
    assert_eq!(op.step(InstanceReply::Secured(Ok(ATTRIBUTES))), create(0x4008_0003));
    assert_eq!(
        op.step(InstanceReply::Created(3)),
        InstanceCall::Finish { outcome: Ok(3), free_descriptor: Some(8192) }
    );
    let (mut op, _) = InstanceOp::create_pipe_instance(false);
    assert_eq!(
        op.step(InstanceReply::Secured(Err(IoError::Os(5)))),
        InstanceCall::Finish { outcome: Err(IoError::Os(5)), free_descriptor: None }
    );
    let (mut op, _) = InstanceOp::create_pipe_instance(false);
    assert_eq!(op.step(InstanceReply::Secured(Ok(ATTRIBUTES))), create(0x4000_0003));
    assert_eq!(op.step(InstanceReply::Created(-1)), InstanceCall::LastError);
    assert_eq!(
        op.step(InstanceReply::LastError(231)),
        InstanceCall::Finish { outcome: Err(IoError::Os(231)), free_descriptor: Some(8192) }
    );
}

#[test]
fn clients_are_let_in() {
    let (mut op, call) = StartOp::start_connect();
    assert_eq!(call, StartCall::Connect);
    assert_eq!(op.step(StartReply::Connected(0)), StartCall::LastError);
    assert_eq!(
        op.step(StartReply::LastError(ERROR_IO_PENDING)),
        StartCall::Finish(Ok(false))
    );
    let (mut op, _) = StartOp::start_connect();
    assert_eq!(op.step(StartReply::Connected(1)), StartCall::SetEvent);
    assert_eq!(op.step(StartReply::EventSet), StartCall::Finish(Ok(true)));
    let (mut op, _) = StartOp::start_connect();
    op.step(StartReply::Connected(0));
    assert_eq!(
        op.step(StartReply::LastError(ERROR_PIPE_CONNECTED)),
        StartCall::SetEvent
    );
    assert_eq!(op.step(StartReply::EventSet), StartCall::Finish(Ok(true)));
    let (mut op, _) = StartOp::start_connect();
    op.step(StartReply::Connected(0));
    assert_eq!(
        op.step(StartReply::LastError(232)),
        StartCall::Finish(Err(IoError::Os(232)))
    );
}

/// A listener that holds the instance 20 and the event 30.
fn listening(connected: bool) -> PipeListener {
    let (pipe, mut listener, call) = PipeListener::bind("monitor").unwrap();
    assert_eq!(pipe, to_wide("\\\\.\\pipe\\monitor"));
    assert_eq!(call, ListenerCall::CreateEvent);
    assert_eq!(
        listener.step(ListenerReply::Event(30)),
        ListenerCall::CreateInstance { first_instance: true }
    );
    assert_eq!(
        listener.step(ListenerReply::Instance(Ok(20))),
        ListenerCall::StartConnect { handle: 20, event: 30 }
    );
    assert_eq!(
        listener.step(ListenerReply::Started(Ok(connected))),
        ListenerCall::Bound {
            outcome: Ok(()),
            close_handle: INVALID_HANDLE_VALUE,
            close_event: 0,
        }
    );
    listener
}

#[test]
fn listener_that_cannot_be_set_up() {
    let (mut listener, _) = PipeListener::start();
    assert_eq!(listener.step(ListenerReply::Event(0)), ListenerCall::LastError);
    assert_eq!(
        listener.step(ListenerReply::LastError(8)),
        ListenerCall::Bound {
            outcome: Err(IoError::Os(8)),
            close_handle: INVALID_HANDLE_VALUE,
            close_event: 0,
        }
    );
    let (mut listener, _) = PipeListener::start();
    listener.step(ListenerReply::Event(30));
    listener.step(ListenerReply::Instance(Ok(20)));
    assert_eq!(
        listener.step(ListenerReply::Started(Err(IoError::Os(232)))),
        ListenerCall::Bound {
            outcome: Err(IoError::Os(232)),
            close_handle: 20,
            close_event: 30,
        }
    );
    assert_eq!(listener.close(), (None, None));
    let (mut listener, _) = PipeListener::start();
    listener.step(ListenerReply::Event(30));
    assert_eq!(
        listener.step(ListenerReply::Instance(Err(IoError::Os(5)))),
        ListenerCall::Bound {
            outcome: Err(IoError::Os(5)),
            close_handle: INVALID_HANDLE_VALUE,
            close_event: 0,
        }
    );
    assert_eq!(listener.close(), (None, None));
    assert!(!listener.is_listening());
}

#[test]
fn nobody_connects_in_time() {
    let mut listener = listening(false);
    let before = listening(false);
    assert_eq!(
        listener.accept_timeout_ms(200),
        ListenerCall::Wait { event: 30, timeout_ms: 200 }
    );
    assert_eq!(
        listener.step(ListenerReply::Waited(WAIT_TIMEOUT)),
        ListenerCall::Accepted(Ok(None))
    );
    assert_eq!(listener, before);
}

#[test]
fn client_gets_the_instance_it_connected_to() {
    let mut listener = listening(false);
    listener.accept_timeout_ms(200);
    assert_eq!(listener.step(ListenerReply::Waited(WAIT_OBJECT_0)), ListenerCall::Confirm { handle: 20 });
    assert_eq!(
        listener.step(ListenerReply::Confirmed(1)),
        ListenerCall::CreateInstance { first_instance: false }
    );
    assert_eq!(
        listener.step(ListenerReply::Instance(Ok(21))),
        ListenerCall::StartConnect { handle: 21, event: 30 }
    );
    assert_eq!(
        listener.step(ListenerReply::Started(Ok(true))),
        ListenerCall::Accepted(Ok(Some(PipeStream { handle: 20 })))
    );
    assert!(listener.is_listening());
    listener.accept_timeout_ms(200);
    assert_eq!(
        listener.step(ListenerReply::Waited(WAIT_OBJECT_0)),
        ListenerCall::CreateInstance { first_instance: false }
    );
    assert_eq!(
        listener.step(ListenerReply::Instance(Err(IoError::Os(231)))),
        ListenerCall::Accepted(Ok(Some(PipeStream { handle: 21 })))
    );
}

#[test]
fn early_client_needs_no_confirmation() {
    let mut listener = listening(true);
    listener.accept_timeout_ms(200);
    assert_eq!(
        listener.step(ListenerReply::Waited(WAIT_OBJECT_0)),
        ListenerCall::CreateInstance { first_instance: false }
    );
    assert_eq!(
        listener.step(ListenerReply::Instance(Err(IoError::Os(231)))),
        ListenerCall::Accepted(Ok(Some(PipeStream { handle: 20 })))
    );
    assert_eq!(listener.close(), (None, Some(30)));
    assert_eq!(listener.close(), (None, None));
}

/// A listener that holds no instance, for the next one could not be made.
fn unarmed() -> PipeListener {
    let mut listener = listening(true);
    listener.accept_timeout_ms(200);
    listener.step(ListenerReply::Waited(WAIT_OBJECT_0));
    listener.step(ListenerReply::Instance(Err(IoError::Os(231))));
    assert_eq!(
        listener.accept_timeout_ms(200),
        ListenerCall::CreateInstance { first_instance: false }
    );
    listener
}

#[test]
fn missing_instance_is_made_before_the_wait() {
    let mut listener = unarmed();
    assert_eq!(
        listener.step(ListenerReply::Instance(Ok(21))),
        ListenerCall::StartConnect { handle: 21, event: 30 }
    );
    assert_eq!(
        listener.step(ListenerReply::Started(Ok(true))),
        ListenerCall::Wait { event: 30, timeout_ms: 200 }
    );
    listener.step(ListenerReply::Waited(WAIT_OBJECT_0));
    assert_eq!(
        listener.step(ListenerReply::Instance(Err(IoError::Os(231)))),
        ListenerCall::Accepted(Ok(Some(PipeStream { handle: 21 })))
    );
}

#[test]
fn missing_instance_that_cannot_be_made() {
    let mut listener = unarmed();
    assert_eq!(
        listener.step(ListenerReply::Instance(Err(IoError::Os(231)))),
        ListenerCall::Accepted(Err(IoError::Os(231)))
    );
    let mut listener = unarmed();
    listener.step(ListenerReply::Instance(Ok(21)));
    assert_eq!(
        listener.step(ListenerReply::Started(Err(IoError::Os(232)))),
        ListenerCall::Accepted(Err(IoError::Os(232)))
    );
    assert_eq!(listener.close(), (Some(21), Some(30)));
}

#[test]
fn client_that_is_confirmed_by_an_error() {
    let mut listener = listening(false);
    listener.accept_timeout_ms(200);
    listener.step(ListenerReply::Waited(WAIT_OBJECT_0));
    assert_eq!(listener.step(ListenerReply::Confirmed(0)), ListenerCall::LastError);
    assert_eq!(
        listener.step(ListenerReply::LastError(ERROR_PIPE_CONNECTED)),
        ListenerCall::CreateInstance { first_instance: false }
    );
    listener.step(ListenerReply::Instance(Ok(21)));
    assert_eq!(
        listener.step(ListenerReply::Started(Err(IoError::Os(232)))),
        ListenerCall::Accepted(Ok(Some(PipeStream { handle: 20 })))
    );
    assert_eq!(listener.close(), (Some(21), Some(30)));
}

#[test]
fn accepting_goes_wrong() {
    let mut listener = listening(false);
    listener.accept_timeout_ms(200);
    assert_eq!(listener.step(ListenerReply::Waited(u32::MAX)), ListenerCall::LastError);
    assert_eq!(
        listener.step(ListenerReply::LastError(6)),
        ListenerCall::Accepted(Err(IoError::Os(6)))
    );
    listener.accept_timeout_ms(200);
    listener.step(ListenerReply::Waited(WAIT_OBJECT_0));
    listener.step(ListenerReply::Confirmed(0));
    assert_eq!(
        listener.step(ListenerReply::LastError(995)),
        ListenerCall::Accepted(Err(IoError::Os(995)))
    );
    assert_eq!(listener.close(), (Some(20), Some(30)));
}

fn finished(
    outcome: Result<SecurityAttributes, IoError>,
    free_text: Option<usize>,
    close_token: Option<isize>,
) -> SecurityCall {
    SecurityCall::Finish { outcome, free_text, close_token }
}

#[test]
fn descriptor_is_made() {
    let (mut op, call) = SecurityOp::owner_only_security_attributes();
    assert_eq!(call, SecurityCall::OpenToken { access: 8 });
    assert_eq!(
        op.step(SecurityReply::Opened { outcome: Ok(()), token: 44 }),
        SecurityCall::Measure { class: 1 }
    );
    assert_eq!(
        op.step(SecurityReply::Measured { length: 28 }),
        SecurityCall::Query { class: 1, length: 28 }
    );
    assert_eq!(op.step(SecurityReply::Queried(Ok(()))), SecurityCall::ToText);
    let sid: Vec<u16> = "S-1-5-18".encode_utf16().collect();
    assert_eq!(
        op.describe(Ok(()), 4096, &sid),
        (SecurityCall::Describe { revision: 1 }, to_wide("D:P(A;;GA;;;S-1-5-18)"))
    );
    assert_eq!(
        op.step(SecurityReply::Described { outcome: Ok(()), descriptor: 8192 }),
        finished(
            Ok(SecurityAttributes {
                length: 3 * std::mem::size_of::<usize>() as u32,
                descriptor: 8192,
                inherit_handle: 0,
            }),
            Some(4096),
            Some(44)
        )
    );
}

#[test]
fn failures_leave_nothing_open() {
    let error = IoError::Os(5);
    let (mut op, _) = SecurityOp::owner_only_security_attributes();
    assert_eq!(
        op.step(SecurityReply::Opened { outcome: Err(error), token: 0 }),
        finished(Err(error), None, None)
    );
    let (mut op, _) = SecurityOp::owner_only_security_attributes();
    op.step(SecurityReply::Opened { outcome: Ok(()), token: 44 });
    op.step(SecurityReply::Measured { length: 0 });
    assert_eq!(
        op.step(SecurityReply::Queried(Err(error))),
        finished(Err(error), None, Some(44))
    );
    let (mut op, _) = SecurityOp::owner_only_security_attributes();
    op.step(SecurityReply::Opened { outcome: Ok(()), token: 44 });
    op.step(SecurityReply::Measured { length: 28 });
    op.step(SecurityReply::Queried(Ok(())));
    assert_eq!(
        op.describe(Err(error), 0, &[]),
        (finished(Err(error), None, Some(44)), Vec::new())
    );
    let (mut op, _) = SecurityOp::owner_only_security_attributes();
    op.step(SecurityReply::Opened { outcome: Ok(()), token: -1 });
    op.step(SecurityReply::Measured { length: 28 });
    op.step(SecurityReply::Queried(Ok(())));
    op.step(SecurityReply::Converted { outcome: Ok(()), text: 4096 });
    assert_eq!(
        op.step(SecurityReply::Described { outcome: Err(error), descriptor: 0 }),
        finished(Err(error), Some(4096), None)
    );
}
