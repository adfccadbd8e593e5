use minidumper::error::{last_error, win32_ok, IoError, ServerError};
use minidumper::wire::{
    crashed_pid, ByteOrder, DumpRequest, Header, Request, CRASH, CRASH_ACK, DUMP_REQUEST_SIZE,
    HEADER_SIZE, PING, PONG, USER,
};

#[test]
fn header_has_kind_before_size() {
    let header = Header { kind: 0x0102_0304, size: 0x0a0b_0c0d };
    assert_eq!(header.as_bytes(ByteOrder::Little), [4, 3, 2, 1, 0x0d, 0x0c, 0x0b, 0x0a]);
    assert_eq!(header.as_bytes(ByteOrder::Big), [1, 2, 3, 4, 0x0a, 0x0b, 0x0c, 0x0d]);
}

#[test]
fn header_is_read_back() {
    let kinds = [CRASH, CRASH_ACK, PING, PONG, USER, USER + 7, u32::MAX];
    let sizes = [0, 1, 255, 256, 65535, 65536, 16_777_216, u32::MAX];
    for order in [ByteOrder::Little, ByteOrder::Big] {
        for kind in kinds {
            for size in sizes {
                let header = Header { kind, size };
                let bytes = header.as_bytes(order);
                assert_eq!(Header::from_bytes(&bytes, order), Some(header));
            }
        }
    }
}

#[test]
fn header_needs_its_exact_length() {
    for len in 0..20usize {
        let bytes = vec![0u8; len];
        let header = Header::from_bytes(&bytes, ByteOrder::Little);
        assert_eq!(header.is_some(), len == HEADER_SIZE);
    }
}

#[test]
fn header_bytes_are_unique() {
    let one = Header { kind: 1, size: 256 };
    let other = Header { kind: 256, size: 1 };
    assert_ne!(one.as_bytes(ByteOrder::Little), other.as_bytes(ByteOrder::Little));
    let bytes = [9, 8, 7, 6, 5, 4, 3, 2];
    let read = Header::from_bytes(&bytes, ByteOrder::Big).unwrap();
    assert_eq!(read.as_bytes(ByteOrder::Big), bytes);
}

#[test]
fn requests_by_kind() {
    assert_eq!(Request::of(CRASH), Request::Crash);
    assert_eq!(Request::of(PING), Request::Ping);
    assert_eq!(Request::of(PONG), Request::Pong);
    assert_eq!(Request::of(USER), Request::User(0));
    assert_eq!(Request::of(USER + 3), Request::User(3));
    assert_eq!(Request::of(u32::MAX), Request::User(u32::MAX - 4));
}

#[test]
fn user_codes_come_back() {
    for code in [0, 1, 2, 666, u32::MAX - USER] {
        assert!(Request::is_known(USER + code));
        assert_eq!(Request::of(USER + code), Request::User(code));
    }
}

#[test]
fn acknowledgements_are_not_requests() {
    assert!(!Request::is_known(CRASH_ACK));
    for kind in [CRASH, PING, PONG, USER, u32::MAX] {
        assert!(Request::is_known(kind));
    }
}

#[test]
fn crashed_pid_is_the_first_number() {
    let body = [0x39, 0x30, 0, 0, 0xff, 0xff];
    assert_eq!(crashed_pid(&body, ByteOrder::Little), Ok(12345));
    assert_eq!(crashed_pid(&body, ByteOrder::Big), Ok(0x3930_0000));
    assert_eq!(crashed_pid(&body[..4], ByteOrder::Little), Ok(12345));
}

#[test]
fn crashed_pid_needs_four_bytes() {
    let body = [1u8, 2, 3];
    for len in 0..4usize {
        assert_eq!(
            crashed_pid(&body[..len.min(3)], ByteOrder::Little),
            Err(ServerError::Scroll { size: 4, len: len.min(3) })
        );
    }
}

fn request_bytes() -> Vec<u8> {
    let mut body = Vec::new();
    body.extend_from_slice(&0x0102_0304_0506_0708u64.to_le_bytes());
    body.extend_from_slice(&4321u32.to_le_bytes());
    body.extend_from_slice(&99u32.to_le_bytes());
    body.extend_from_slice(&(-1073741819i32).to_le_bytes());
    body
}

#[test]
fn dump_request_fields_follow_each_other() {
    let request = DumpRequest {
        exception_pointers: 0x0102_0304_0506_0708,
        process_id: 4321,
        thread_id: 99,
        exception_code: -1073741819,
    };
    let mut body = request_bytes();
    assert_eq!(body.len(), DUMP_REQUEST_SIZE);
    assert_eq!(DumpRequest::read(&body, ByteOrder::Little), Some(request));
    body.push(0xaa);
    assert_eq!(DumpRequest::read(&body, ByteOrder::Little), Some(request));
}

#[test]
fn dump_request_in_the_other_byte_order() {
    let mut body = Vec::new();
    body.extend_from_slice(&7u64.to_be_bytes());
    body.extend_from_slice(&8u32.to_be_bytes());
    body.extend_from_slice(&9u32.to_be_bytes());
    body.extend_from_slice(&10i32.to_be_bytes());
    assert_eq!(
        DumpRequest::read(&body, ByteOrder::Big),
        Some(DumpRequest {
            exception_pointers: 7,
            process_id: 8,
            thread_id: 9,
            exception_code: 10,
        })
    );
}

#[test]
fn dump_request_needs_all_its_bytes() {
    let body = request_bytes();
    for len in 0..body.len() {
        assert_eq!(DumpRequest::read(&body[..len], ByteOrder::Little), None);
    }
}

#[test]
fn last_error_is_a_number_of_the_system() {
    assert!(std::path::Path::new("/nowhere/at/all").metadata().is_err());
    let IoError::Os(code) = last_error() else {
        panic!("not an error of the system");
    };
    assert_eq!(Some(code), std::io::Error::last_os_error().raw_os_error());
    assert!(matches!(win32_ok(0), Err(IoError::Os(_))));
}

#[test]
fn win32_ok_reads_a_bool() {
    assert!(win32_ok(1).is_ok());
    assert!(win32_ok(-1).is_ok());
    assert!(win32_ok(i32::MIN).is_ok());
    assert!(matches!(win32_ok(0), Err(IoError::Os(_))));
}

#[test]
fn error_texts() {
    assert_eq!(IoError::InvalidPipeName.message(), Some("invalid pipe name"));
    assert_eq!(
        IoError::IncorrectBufferSize.message(),
        Some("client sent an incorrectly sized buffer")
    );
    assert_eq!(IoError::Os(5).message(), None);
    assert_eq!(IoError::Driver.message(), None);
    assert_eq!(IoError::from_code(5), IoError::Os(5));
    assert_eq!(IoError::from_code(u32::MAX), IoError::Os(-1));
    assert_eq!(IoError::from_number(Some(13)), IoError::Os(13));
    assert_eq!(IoError::from_number(None), IoError::Driver);
}
