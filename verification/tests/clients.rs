use minidumper::clients::{ClientConn, ClientTable, Wanted};
use minidumper::recv::{message_buffer, RecvCall, RecvReply};
use minidumper::wire::{ByteOrder, Header, PING, USER};

fn table(keys: usize) -> ClientTable {
    let mut table = ClientTable::new();
    for i in 0..keys {
        let key = table.reserve();
        table.push(key, (i as u128) * 10);
    }
    table
}

#[test]
fn keys_start_at_one_and_grow() {
    let mut table = ClientTable::new();
    assert_eq!(table.len(), 0);
    assert!(table.has_keys());
    assert_eq!(table.reserve(), 1);
    assert_eq!(table.reserve(), 2);
    table.push(2, 5);
    assert_eq!(table.get(0), ClientConn { key: 2, last_update: 5, pid: None });
}

#[test]
fn connections_are_found_by_key_and_by_process() {
    let mut table = table(3);
    table.announce(1, 500);
    table.announce(2, 500);
    assert_eq!(table.position(Wanted::Key(3)), Some(2));
    assert_eq!(table.position(Wanted::Key(4)), None);
    assert_eq!(table.position(Wanted::Key(0)), None);
    assert_eq!(table.position(Wanted::Pid(500)), Some(1));
    assert_eq!(table.position(Wanted::Pid(501)), None);
}

#[test]
fn last_connection_takes_the_place_of_a_removed_one() {
    let mut table = table(4);
    assert_eq!(table.remove(1).key, 2);
    assert_eq!(table.len(), 3);
    assert_eq!(table.get(0).key, 1);
    assert_eq!(table.get(1).key, 4);
    assert_eq!(table.get(2).key, 3);
    assert_eq!(table.reserve(), 5);
}

#[test]
fn messages_and_announcements_are_noted() {
    let mut table = table(2);
    table.touch(1, 99);
    table.announce(1, 7);
    assert_eq!(table.get(1), ClientConn { key: 2, last_update: 99, pid: Some(7) });
    assert_eq!(table.get(0), ClientConn { key: 1, last_update: 0, pid: None });
}

#[test]
fn silent_connections_are_reaped() {
    // The last messages came at 0, 10, 20, 30.
    let mut table = table(4);
    let keys = table.reap(&vec![35, 35, 35, 35], 15);
    assert_eq!(keys, vec![1, 2, 3]);
    assert_eq!(table.len(), 1);
    assert_eq!(table.get(0).key, 4);
}

#[test]
fn order_is_kept_by_reaping() {
    let mut table = table(4);
    table.touch(0, 100);
    let keys = table.reap(&vec![100, 100, 100, 100], 80);
    assert_eq!(keys, vec![2, 3]);
    assert_eq!(table.get(0).key, 1);
    assert_eq!(table.get(1).key, 4);
}

#[test]
fn clocks_may_go_back() {
    let mut table = table(2);
    table.touch(0, 1000);
    let keys = table.reap(&vec![1, 1], 1);
    assert_eq!(keys, Vec::<usize>::new());
    let keys = table.reap(&vec![1, 11], 0);
    assert_eq!(keys, vec![1, 2]);
}

fn client() -> ClientConn {
    ClientConn { key: 1, last_update: 0, pid: None }
}

#[test]
fn message_without_body_is_received() {
    let (mut op, call) = client().recv(ByteOrder::Little);
    assert_eq!(call, RecvCall::Peek);
    let bytes = Header { kind: PING, size: 0 }.as_bytes(ByteOrder::Little);
    assert_eq!(op.step(RecvReply::Peeked { len: Some(8), bytes }), RecvCall::TakeHeader);
    assert_eq!(op.step(RecvReply::Taken(true)), RecvCall::Finish(Some(PING)));
}

#[test]
fn message_with_body_is_received() {
    let (mut op, _) = client().recv(ByteOrder::Big);
    let bytes = Header { kind: USER + 2, size: 300 }.as_bytes(ByteOrder::Big);
    assert_eq!(
        op.step(RecvReply::Peeked { len: Some(8), bytes }),
        RecvCall::Allocate { size: 300 }
    );
    assert_eq!(op.step(RecvReply::Allocated), RecvCall::TakeMessage);
    assert_eq!(op.step(RecvReply::Taken(true)), RecvCall::Finish(Some(USER + 2)));
}

#[test]
fn closed_and_broken_sockets_give_no_message() {
    let bytes = [0u8; 8];
    let (mut op, _) = client().recv(ByteOrder::Little);
    assert_eq!(op.step(RecvReply::Peeked { len: Some(0), bytes }), RecvCall::Finish(None));
    let (mut op, _) = client().recv(ByteOrder::Little);
    assert_eq!(op.step(RecvReply::Peeked { len: None, bytes }), RecvCall::Finish(None));
    let (mut op, _) = client().recv(ByteOrder::Little);
    let bytes = Header { kind: PING, size: 0 }.as_bytes(ByteOrder::Little);
    op.step(RecvReply::Peeked { len: Some(8), bytes });
    assert_eq!(op.step(RecvReply::Taken(false)), RecvCall::Finish(None));
}

#[test]
fn short_peek_is_read_with_zeros() {
    let (mut op, _) = client().recv(ByteOrder::Little);
    let bytes = [PING as u8, 0, 0, 0, 0, 0, 0, 0];
    assert_eq!(op.step(RecvReply::Peeked { len: Some(1), bytes }), RecvCall::TakeHeader);
}

#[test]
fn buffers_are_cut_or_filled_up() {
    assert_eq!(message_buffer(vec![1, 2, 3], 5), vec![1, 2, 3, 0, 0]);
    assert_eq!(message_buffer(vec![1, 2, 3], 2), vec![1, 2]);
    assert_eq!(message_buffer(vec![], 0), Vec::<u8>::new());
}
