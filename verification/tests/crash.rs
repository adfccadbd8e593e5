use minidumper::crash::{decide, CrashCall, CrashInfo, CrashOp, CrashReply};
use minidumper::error::{IoError, LoopAction, ServerError};
use minidumper::platform::Platform;

fn context_bytes(pid: i32, tid: i32) -> Vec<u8> {
    let size = std::mem::size_of::<crash_context::CrashContext>();
    let mut bytes = vec![0u8; size];
    bytes[size - 8..size - 4].copy_from_slice(&pid.to_ne_bytes());
    bytes[size - 4..].copy_from_slice(&tid.to_ne_bytes());
    bytes
}

#[test]
fn crash_info_is_read_from_a_context() {
    let bytes = context_bytes(1234, 5678);
    let info = CrashInfo::read(&bytes).unwrap();
    assert_eq!(info.pid, 1234);
    assert_eq!(info.tid, 5678);
    assert_eq!(info.context.pid, 1234);
    assert_eq!(info.context.tid, 5678);
    assert_eq!(info.context.as_bytes(), &bytes[..]);
}

#[test]
fn crash_info_needs_the_size_of_a_context() {
    let mut bytes = context_bytes(1, 2);
    bytes.push(0);
    assert!(CrashInfo::read(&bytes).is_none());
    bytes.pop();
    bytes.pop();
    assert!(CrashInfo::read(&bytes).is_none());
    assert!(CrashInfo::read(&Vec::new()).is_none());
}

#[test]
fn only_the_process_itself_is_served() {
    assert_eq!(decide(Ok(Some(10)), Some(10)), Ok(()));
    assert_eq!(decide(Ok(Some(10)), Some(11)), Err(ServerError::UnknownClientPid));
    assert_eq!(decide(Ok(Some(u32::MAX)), Some(-1)), Ok(()));
}

#[test]
fn doubtful_requests_are_refused() {
    assert_eq!(decide(Ok(None), Some(10)), Err(ServerError::UnknownClientPid));
    assert_eq!(decide(Ok(None), None), Err(ServerError::UnknownClientPid));
    assert_eq!(
        decide(Ok(Some(10)), None),
        Err(ServerError::Io(IoError::IncorrectBufferSize))
    );
    assert_eq!(
        decide(Err(IoError::Os(9)), Some(10)),
        Err(ServerError::Io(IoError::Os(9)))
    );
}

#[test]
fn minidump_goes_to_the_file_on_linux() {
    let (mut op, call) = CrashOp::handle_crash_request(Platform::Linux, 7);
    assert_eq!(call, CrashCall::CreateFile);
    assert_eq!(op.step(CrashReply::FileCreated(Ok(true))), CrashCall::Dump { handle: None });
    assert_eq!(op.step(CrashReply::Dumped(Ok(()))), CrashCall::Write);
    assert_eq!(op.step(CrashReply::Written(Ok(()))), CrashCall::Flush);
    assert_eq!(
        op.step(CrashReply::Written(Ok(()))),
        CrashCall::NotifyCreated { dumped: Ok(()), has_file: true }
    );
    assert_eq!(
        op.step(CrashReply::Handler(LoopAction::Exit)),
        CrashCall::Finish(Ok(LoopAction::Exit))
    );
}

#[test]
fn minidump_stays_in_memory_without_a_file() {
    let (mut op, _) = CrashOp::handle_crash_request(Platform::MacOs, 7);
    assert_eq!(op.step(CrashReply::FileCreated(Ok(false))), CrashCall::Dump { handle: None });
    assert_eq!(
        op.step(CrashReply::Dumped(Ok(()))),
        CrashCall::NotifyCreated { dumped: Ok(()), has_file: false }
    );
    assert_eq!(
        op.step(CrashReply::Handler(LoopAction::Continue)),
        CrashCall::Finish(Ok(LoopAction::Continue))
    );
}

#[test]
fn handler_hears_of_a_failed_minidump() {
    let failed = Err(ServerError::Writer);
    let (mut op, _) = CrashOp::handle_crash_request(Platform::Linux, 7);
    assert_eq!(op.step(CrashReply::FileCreated(Ok(true))), CrashCall::Dump { handle: None });
    assert_eq!(op.step(CrashReply::Dumped(failed)), CrashCall::Write);
    assert_eq!(op.step(CrashReply::Written(Ok(()))), CrashCall::Flush);
    assert_eq!(
        op.step(CrashReply::Written(Ok(()))),
        CrashCall::NotifyCreated { dumped: failed, has_file: true }
    );
}

#[test]
fn no_file_to_give_is_an_error() {
    let error = ServerError::Io(IoError::Os(13));
    let (mut op, _) = CrashOp::handle_crash_request(Platform::Linux, 7);
    assert_eq!(op.step(CrashReply::FileCreated(Err(error))), CrashCall::Finish(Err(error)));
}

#[test]
fn minidump_on_windows() {
    let (mut op, _) = CrashOp::handle_crash_request(Platform::Windows, 77);
    assert_eq!(
        op.step(CrashReply::FileCreated(Ok(true))),
        CrashCall::ProcessHandle { pid: 77 }
    );
    assert_eq!(
        op.step(CrashReply::Handle(None)),
        CrashCall::PreDump { handle: 0, pid: 77 }
    );
    assert_eq!(op.step(CrashReply::Done), CrashCall::Dump { handle: None });
    assert_eq!(op.step(CrashReply::Dumped(Ok(()))), CrashCall::Write);
    let full = Err(ServerError::Io(IoError::Os(112)));
    assert_eq!(
        op.step(CrashReply::Written(full)),
        CrashCall::NotifyCreated { dumped: full, has_file: true }
    );
}

#[test]
fn nothing_is_written_of_a_failed_minidump_on_windows() {
    let failed = Err(ServerError::Writer);
    let (mut op, _) = CrashOp::handle_crash_request(Platform::Windows, 77);
    op.step(CrashReply::FileCreated(Ok(true)));
    assert_eq!(
        op.step(CrashReply::Handle(Some(40))),
        CrashCall::PreDump { handle: 40, pid: 77 }
    );
    assert_eq!(op.step(CrashReply::Done), CrashCall::Dump { handle: Some(40) });
    assert_eq!(
        op.step(CrashReply::Dumped(failed)),
        CrashCall::NotifyCreated { dumped: failed, has_file: true }
    );
}

#[test]
fn handler_hears_of_a_file_that_cannot_be_written() {
    let full = Err(ServerError::Io(IoError::Os(28)));
    for platform in [Platform::Linux, Platform::MacOs] {
        for dumped in [Ok(()), Err(ServerError::Writer)] {
            let (mut op, _) = CrashOp::handle_crash_request(platform, 7);
            op.step(CrashReply::FileCreated(Ok(true)));
            assert_eq!(op.step(CrashReply::Dumped(dumped)), CrashCall::Write);
            assert_eq!(
                op.step(CrashReply::Written(full)),
                CrashCall::NotifyCreated { dumped: full, has_file: true }
            );
            assert_eq!(
                op.step(CrashReply::Handler(LoopAction::Continue)),
                CrashCall::Finish(Ok(LoopAction::Continue))
            );
        }
    }
}

#[test]
fn handler_hears_of_a_file_that_cannot_be_flushed() {
    let full = Err(ServerError::Io(IoError::Os(28)));
    let (mut op, _) = CrashOp::handle_crash_request(Platform::Linux, 7);
    op.step(CrashReply::FileCreated(Ok(true)));
    op.step(CrashReply::Dumped(Ok(())));
    assert_eq!(op.step(CrashReply::Written(Ok(()))), CrashCall::Flush);
    assert_eq!(
        op.step(CrashReply::Written(full)),
        CrashCall::NotifyCreated { dumped: full, has_file: true }
    );
}
