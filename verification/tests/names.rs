use minidumper::crash::{CrashCall, CrashReply};
use minidumper::error::{IoError, ServerError};
use minidumper::pipe_name::{pipe_path, pipe_path_from};
use minidumper::pipe_server::PipeCall;
use minidumper::platform::Platform;
use minidumper::poll_server::Call;
use minidumper::security::owner_only_rights;
use minidumper::server::{
    MessageLoop, Server, SetupCall, SetupReply, SocketName, MAX_ABSTRACT_LEN, MAX_PATH_LEN,
};
use minidumper::wide::to_wide;
use minidumper::wire::ByteOrder;

fn wide(s: &str) -> Vec<u16> {
    s.encode_utf16().chain(std::iter::once(0)).collect()
}

#[test]
fn wide_strings_are_utf16_with_a_zero() {
    assert_eq!(to_wide(""), vec![0]);
    assert_eq!(to_wide("ab"), vec![97, 98, 0]);
    assert_eq!(to_wide("\u{1d11e}"), vec![0xd834, 0xdd1e, 0]);
    for s in ["pipe", "\u{e9}\u{ffff}\u{10000}\u{10ffff}", "\0x"] {
        assert_eq!(to_wide(s), wide(s));
    }
}

#[test]
fn wide_strings_come_back() {
    let s = "D:\u{20ac}\u{1f600}z";
    let units = to_wide(s);
    assert_eq!(String::from_utf16(&units[..units.len() - 1]).unwrap(), s);
}

#[test]
fn pipe_is_named_by_the_final_component() {
    assert_eq!(pipe_path_from("monitor"), Ok(wide("\\\\.\\pipe\\monitor")));
    assert_eq!(pipe_path_from("/tmp/a/monitor"), Ok(wide("\\\\.\\pipe\\monitor")));
    assert_eq!(pipe_path_from("tmp/monitor.sock"), Ok(wide("\\\\.\\pipe\\monitor.sock")));
    assert_eq!(pipe_path_from("/tmp/monitor/"), Ok(wide("\\\\.\\pipe\\monitor")));
    assert_eq!(pipe_path_from("/tmp/monitor/."), Ok(wide("\\\\.\\pipe\\monitor")));
    assert_eq!(pipe_path_from("./m"), Ok(wide("\\\\.\\pipe\\m")));
    assert_eq!(pipe_path_from("..m"), Ok(wide("\\\\.\\pipe\\..m")));
}

#[test]
fn full_path_names_the_same_pipe() {
    for (path, stem) in [
        ("C:\\Users\\me\\Temp\\monitor", "monitor"),
        ("C:/Users/me/Temp/monitor", "monitor"),
        ("c:monitor", "monitor"),
        ("1:monitor", "1:monitor"),
        ("\\:monitor", ":monitor"),
        ("temp\\monitor.", "monitor."),
        ("C:/temp\\a:b", "a:b"),
        ("C:\\temp\\.\\monitor\\.\\/", "monitor"),
        ("\\monitor", "monitor"),
    ] {
        assert_eq!(pipe_path_from(path), Ok(wide(&format!("\\\\.\\pipe\\{stem}"))));
    }
    for path in ["C:", "C:\\", "C:.", "C:..", "C:\\temp\\..", "\\", "\\."] {
        assert_eq!(pipe_path_from(path), Err(IoError::InvalidPipeName));
    }
}

#[test]
fn shares_and_devices_are_no_names() {
    for (path, stem) in [
        ("\\\\server\\share\\temp\\monitor", "monitor"),
        ("//server/share/monitor", "monitor"),
        ("\\\\server\\share\\monitor\\", "monitor"),
        ("\\\\.\\pipe\\monitor", "monitor"),
        ("\\\\?\\C:\\temp\\monitor", "monitor"),
        ("\\\\?\\UNC\\server\\share\\monitor", "monitor"),
        ("\\\\?\\disk\\temp/monitor", "temp/monitor"),
        ("\\\\server", "server"),
        ("\\\\server\\", "server"),
    ] {
        assert_eq!(pipe_path_from(path), Ok(wide(&format!("\\\\.\\pipe\\{stem}"))));
    }
    for path in [
        "\\\\server\\share",
        "\\\\server\\share\\",
        "\\\\.\\pipe",
        "\\\\?\\C:",
        "\\\\?\\C:\\",
        "\\\\?\\UNC\\server\\share",
        "\\\\?\\C:\\temp\\.",
        "\\\\",
    ] {
        assert_eq!(pipe_path_from(path), Err(IoError::InvalidPipeName));
    }
}

#[test]
fn pipes_with_different_names_are_different() {
    assert_ne!(pipe_path_from("/tmp/a"), pipe_path_from("/tmp/b"));
    assert_eq!(pipe_path_from("/tmp/a"), pipe_path_from("a"));
}

#[test]
fn pipe_needs_a_name() {
    for path in ["", "/", ".", "./", "..", "a/..", "/./", "a/../"] {
        assert_eq!(pipe_path_from(path), Err(IoError::InvalidPipeName));
    }
    assert_eq!(pipe_path(None), Err(IoError::InvalidPipeName));
    assert_eq!(pipe_path(Some("x")), Ok(wide("\\\\.\\pipe\\x")));
}

#[test]
fn rights_are_for_the_owner_only() {
    let sid: Vec<u16> = "S-1-5-21-1-2-3-1001".encode_utf16().collect();
    assert_eq!(owner_only_rights(&sid), wide("D:P(A;;GA;;;S-1-5-21-1-2-3-1001)"));
    assert_eq!(owner_only_rights(&[]), wide("D:P(A;;GA;;;)"));
}

#[test]
fn rights_replace_lone_surrogates() {
    let cases: [&[u16]; 6] = [
        &[0xd834, 0xdd1e, 0x6d],
        &[0xd800, 0x69],
        &[0xdc00],
        &[0xd800],
        &[0xd800, 0xd834, 0xdd1e],
        &[0xdc00, 0xd800, 0xdfff, 0xe000],
    ];
    for sid in cases {
        let text = format!("D:P(A;;GA;;;{})", String::from_utf16_lossy(sid));
        assert_eq!(owner_only_rights(sid), wide(&text));
    }
}

fn path(s: &str) -> SocketName {
    SocketName::Path(s.to_string())
}

fn abstract_name(s: &str) -> SocketName {
    SocketName::Abstract(s.to_string())
}

fn removed_then(platform: Platform, name: SocketName) -> (Server, SetupCall) {
    let (mut server, call) = Server::with_name(platform, name);
    assert_eq!(call, SetupCall::RemoveFile);
    let call = server.set_up(SetupReply::Removed);
    (server, call)
}

#[test]
fn socket_server_is_set_up() {
    let (mut server, call) = removed_then(Platform::Linux, path("/tmp/monitor.sock"));
    assert_eq!(call, SetupCall::Bind);
    assert!(!server.is_listening());
    assert_eq!(
        server.address().unwrap().as_pathname(),
        Some(std::path::Path::new("/tmp/monitor.sock"))
    );
    assert_eq!(server.set_up(SetupReply::Listener(Ok(()))), SetupCall::Finish(Ok(())));
    assert!(server.is_listening());
    assert_eq!(server.close(), Some("/tmp/monitor.sock".to_string()));
    assert_eq!(server.close(), None);
    assert!(!server.is_listening());
}

#[test]
fn socket_that_cannot_be_bound() {
    let (mut server, _) = removed_then(Platform::Linux, path("/tmp/monitor.sock"));
    assert_eq!(
        server.set_up(SetupReply::Listener(Err(IoError::Os(98)))),
        SetupCall::Finish(Err(ServerError::Io(IoError::Os(98))))
    );
    assert!(!server.is_listening());
    assert_eq!(server.close(), None);
}

#[test]
fn socket_paths_that_have_no_address() {
    let long = "x".repeat(MAX_PATH_LEN);
    assert_eq!(MAX_PATH_LEN, 108);
    assert_eq!(removed_then(Platform::Linux, path(&long)).1, SetupCall::Bind);
    let longer = "x".repeat(MAX_PATH_LEN + 1);
    let wide_chars = "\u{20ac}".repeat(37);
    for name in ["", "a\0b", &longer, &wide_chars] {
        assert_eq!(
            removed_then(Platform::Linux, path(name)).1,
            SetupCall::Finish(Err(ServerError::InvalidName))
        );
    }
}

#[test]
fn abstract_server_has_no_file() {
    let (mut server, call) = Server::with_name(Platform::Linux, abstract_name("monitor"));
    assert_eq!(call, SetupCall::Bind);
    assert_eq!(server.address().unwrap().as_abstract(), Some(&b"monitor"[..]));
    assert_eq!(server.set_up(SetupReply::Listener(Ok(()))), SetupCall::Finish(Ok(())));
    assert_eq!(server.close(), None);
}

#[test]
fn abstract_names_that_have_no_address() {
    assert_eq!(MAX_ABSTRACT_LEN, 107);
    for (name, call) in [
        ("".to_string(), SetupCall::Bind),
        ("a\0b".to_string(), SetupCall::Bind),
        ("x".repeat(107), SetupCall::Bind),
        ("x".repeat(108), SetupCall::Finish(Err(ServerError::InvalidName))),
    ] {
        assert_eq!(Server::with_name(Platform::Linux, abstract_name(&name)).1, call);
    }
}

#[test]
fn mac_server_has_a_port() {
    let (mut server, call) = removed_then(Platform::MacOs, path("/tmp/m"));
    assert_eq!(call, SetupCall::CreatePort);
    assert_eq!(server.set_up(SetupReply::Port(Ok(()))), SetupCall::Bind);
    assert_eq!(server.set_up(SetupReply::Listener(Ok(()))), SetupCall::SetNonblocking);
    assert_eq!(server.set_up(SetupReply::Listener(Ok(()))), SetupCall::Finish(Ok(())));
    assert!(server.address().is_none());
    assert_eq!(server.close(), Some("/tmp/m".to_string()));
}

#[test]
fn mac_server_can_fail_at_every_step() {
    assert_eq!(
        removed_then(Platform::MacOs, path("/tmp/\0m")).1,
        SetupCall::Finish(Err(ServerError::InvalidPortName))
    );
    let (mut server, _) = removed_then(Platform::MacOs, path("/tmp/m"));
    assert_eq!(
        server.set_up(SetupReply::Port(Err(ServerError::Port))),
        SetupCall::Finish(Err(ServerError::Port))
    );
    let (mut server, _) = removed_then(Platform::MacOs, path("/tmp/m"));
    server.set_up(SetupReply::Port(Ok(())));
    server.set_up(SetupReply::Listener(Ok(())));
    assert_eq!(
        server.set_up(SetupReply::Listener(Err(IoError::Os(25)))),
        SetupCall::Finish(Err(ServerError::Io(IoError::Os(25))))
    );
    assert_eq!(server.close(), None);
}

#[test]
fn pipe_server_is_set_up() {
    let (mut server, call) = removed_then(Platform::Windows, path("monitor"));
    assert_eq!(call, SetupCall::Bind);
    assert_eq!(server.set_up(SetupReply::Listener(Ok(()))), SetupCall::Finish(Ok(())));
    assert!(matches!(
        server.run(None, ByteOrder::Little),
        MessageLoop::Pipe(_, PipeCall::CheckShutdown)
    ));
    assert!(!server.is_listening());
    assert_eq!(server.close(), None);
}

#[test]
fn server_runs_once() {
    let (mut server, _) = removed_then(Platform::Linux, path("/tmp/m"));
    server.set_up(SetupReply::Listener(Ok(())));
    let MessageLoop::Poll(messages, call) = server.run(Some(5), ByteOrder::Little) else {
        panic!("not a loop on sockets");
    };
    assert_eq!(call, Call::CheckShutdown);
    assert_eq!(messages.clients(), 0);
    assert!(!server.is_listening());
    assert_eq!(server.close(), Some("/tmp/m".to_string()));
}

#[test]
fn server_handles_crashes_of_its_platform() {
    let (server, _) = removed_then(Platform::Linux, path("/tmp/m"));
    let (mut op, call) = server.handle_crash_request(31);
    assert_eq!(call, CrashCall::CreateFile);
    assert_eq!(op.step(CrashReply::FileCreated(Ok(false))), CrashCall::Dump { handle: None });
    let (server, _) = removed_then(Platform::Windows, path("m"));
    let (mut op, _) = server.handle_crash_request(31);
    assert_eq!(
        op.step(CrashReply::FileCreated(Ok(false))),
        CrashCall::ProcessHandle { pid: 31 }
    );
}
