//! The messages of the IPC protocol, as bytes.
//!
//! A message is a [`Header`] followed by as many bytes as the header announces.
//! Both ends run on one machine and write integers in its byte order, so every
//! function that reads or writes an integer takes that order as a parameter.

use crate::error::ServerError;
use scroll::Pread;
use vstd::prelude::*;

verus! {

/// The kind of a message by which a client asks for a minidump of itself.
pub const CRASH: u32 = 0;

/// The kind of the reply to a [`CRASH`] message.
pub const CRASH_ACK: u32 = 1;

/// The kind of a message that asks for a [`PONG`].
pub const PING: u32 = 2;

/// The kind of the reply to a [`PING`] message.
pub const PONG: u32 = 3;

/// The first kind that is left to users: a message that a user sends with the
/// code `c` travels with the kind `USER + c`.
pub const USER: u32 = 4;

/// The number of bytes that a [`Header`] takes.
pub const HEADER_SIZE: usize = 8;

/// The number of bytes that a [`DumpRequest`] takes.
pub const DUMP_REQUEST_SIZE: usize = 20;

/// The order in which the bytes of an integer follow each other.
#[derive(Clone, Copy, Debug, PartialEq, Eq, Structural)]
pub enum ByteOrder {
    /// The least significant byte comes first.
    Little,
    /// The most significant byte comes first.
    Big,
}

/// The number whose digits in base 256 are `bytes`, the least significant first.
pub open spec fn little_endian(bytes: Seq<u8>) -> nat
    decreases bytes.len(),
{
    if bytes.len() == 0 {
        0
    } else {
        bytes.first() as nat + 256 * little_endian(bytes.drop_first())
    }
}

/// The number that `bytes` stand for in the byte order `order`.
pub open spec fn number(bytes: Seq<u8>, order: ByteOrder) -> nat {
    match order {
        ByteOrder::Little => little_endian(bytes),
        ByteOrder::Big => little_endian(bytes.reverse()),
    }
}

/// Four bytes, the least significant first, written out.
proof fn lemma_little_endian_of_four(bytes: Seq<u8>)
    requires
        bytes.len() == 4,
    ensures
        little_endian(bytes) == bytes[0] + 256 * bytes[1] + 65536 * bytes[2] + 16777216 * bytes[3],
{
    reveal_with_fuel(little_endian, 5);
    let rest = bytes.drop_first();
    assert(rest.drop_first().drop_first().drop_first().len() == 0);
}

/// Four bytes hold a number of 32 bits, and every such number once.
proof fn lemma_four_bytes(bytes: Seq<u8>, order: ByteOrder)
    requires
        bytes.len() == 4,
    ensures
        number(bytes, order) <= u32::MAX,
        order is Little ==> number(bytes, order) == bytes[0] + 256 * bytes[1] + 65536 * bytes[2]
            + 16777216 * bytes[3],
        order is Big ==> number(bytes, order) == bytes[3] + 256 * bytes[2] + 65536 * bytes[1]
            + 16777216 * bytes[0],
{
    match order {
        ByteOrder::Little => {
            lemma_little_endian_of_four(bytes);
        },
        ByteOrder::Big => {
            lemma_little_endian_of_four(bytes.reverse());
        },
    }
}

/// The last digit of a number in base 256, and what is left of it, are known by
/// the number.
proof fn lemma_last_digit(a: int, y: int, b: int, z: int)
    requires
        0 <= a < 256,
        0 <= b < 256,
        a + 256 * y == b + 256 * z,
    ensures
        a == b,
        y == z,
{
}

/// A number has its digits in base 256 in one way only.
proof fn lemma_digits(a: int, b: int, c: int, d: int, e: int, f: int, g: int, h: int)
    requires
        0 <= a < 256,
        0 <= b < 256,
        0 <= c < 256,
        0 <= e < 256,
        0 <= f < 256,
        0 <= g < 256,
        a + 256 * b + 65536 * c + 16777216 * d == e + 256 * f + 65536 * g + 16777216 * h,
    ensures
        a == e,
        b == f,
        c == g,
        d == h,
{
    lemma_last_digit(a, b + 256 * c + 65536 * d, e, f + 256 * g + 65536 * h);
    lemma_last_digit(b, c + 256 * d, f, g + 256 * h);
    lemma_last_digit(c, d, g, h);
}

/// Four bytes are known by the number that they stand for.
proof fn lemma_number_determines_bytes(one: Seq<u8>, other: Seq<u8>, order: ByteOrder)
    requires
        one.len() == 4,
        other.len() == 4,
        number(one, order) == number(other, order),
    ensures
        one == other,
{
    lemma_four_bytes(one, order);
    lemma_four_bytes(other, order);
    let (a, b, c, d) = (one[0] as int, one[1] as int, one[2] as int, one[3] as int);
    let (e, f, g, h) = (other[0] as int, other[1] as int, other[2] as int, other[3] as int);
    match order {
        ByteOrder::Little => lemma_digits(a, b, c, d, e, f, g, h),
        ByteOrder::Big => lemma_digits(d, c, b, a, h, g, f, e),
    }
    assert(one =~= other);
}

/// The four bytes of `value` in the byte order `order`.
fn u32_bytes(value: u32, order: ByteOrder) -> (bytes: [u8; 4])
    ensures
        number(bytes@, order) == value,
{
    let upper: u32 = value / 256;
    let high: u32 = upper / 256;
    let b0: u8 = (value % 256) as u8;
    let b1: u8 = (upper % 256) as u8;
    let b2: u8 = (high % 256) as u8;
    let b3: u8 = (high / 256) as u8;
    let bytes = match order {
        ByteOrder::Little => [b0, b1, b2, b3],
        ByteOrder::Big => [b3, b2, b1, b0],
    };
    proof {
        lemma_four_bytes(bytes@, order);
        assert(value == b0 + 256 * upper);
        assert(upper == b1 + 256 * high);
        assert(high == b2 + 256 * b3);
    }
    bytes
}

/// The number in the four bytes of `bytes` from `start` on.
fn u32_at(bytes: &[u8], start: usize, order: ByteOrder) -> (value: u32)
    requires
        start + 4 <= bytes@.len(),
    ensures
        value == number(bytes@.subrange(start as int, start + 4), order),
{
    proof {
        lemma_four_bytes(bytes@.subrange(start as int, start + 4), order);
    }
    let b0: u32 = bytes[start] as u32;
    let b1: u32 = bytes[start + 1] as u32;
    let b2: u32 = bytes[start + 2] as u32;
    let b3: u32 = bytes[start + 3] as u32;
    match order {
        ByteOrder::Little => b0 + 256 * b1 + 65536 * b2 + 16777216 * b3,
        ByteOrder::Big => b3 + 256 * b2 + 65536 * b1 + 16777216 * b0,
    }
}

/// What stands before the body of every message.
#[derive(Clone, Copy, Debug, PartialEq, Eq, Structural)]
pub struct Header {
    /// What the message is: [`CRASH`], [`PING`] and so on, or from [`USER`] on.
    pub kind: u32,
    /// How many bytes follow the header.
    pub size: u32,
}

impl Header {
    /// Whether `bytes` are this header, in the byte order `order`: the kind in
    /// the first four bytes and the size in the other four.
    pub open spec fn is_in(self, bytes: Seq<u8>, order: ByteOrder) -> bool {
        &&& bytes.len() == HEADER_SIZE
        &&& self.kind == number(bytes.subrange(0, 4), order)
        &&& self.size == number(bytes.subrange(4, 8), order)
    }

    /// The header in the first eight bytes of `bytes`, in the byte order `order`.
    pub open spec fn spec_in(bytes: Seq<u8>, order: ByteOrder) -> Header {
        Header {
            kind: number(bytes.subrange(0, 4), order) as u32,
            size: number(bytes.subrange(4, 8), order) as u32,
        }
    }

    /// The header of a message of this kind without a body.
    pub open spec fn spec_bare(kind: u32) -> Header {
        Header { kind, size: 0 }
    }

    /// The header of a message of this kind without a body.
    pub fn bare(kind: u32) -> (header: Header)
        ensures
            header == Header::spec_bare(kind),
    {
        Header { kind, size: 0 }
    }

    /// The header as bytes.
    pub fn as_bytes(&self, order: ByteOrder) -> (bytes: [u8; 8])
        ensures
            self.is_in(bytes@, order),
    {
        let kind = u32_bytes(self.kind, order);
        let size = u32_bytes(self.size, order);
        let bytes: [u8; 8] = [
            kind[0],
            kind[1],
            kind[2],
            kind[3],
            size[0],
            size[1],
            size[2],
            size[3],
        ];
        proof {
            assert(bytes@.subrange(0, 4) =~= kind@);
            assert(bytes@.subrange(4, 8) =~= size@);
        }
        bytes
    }

    /// Reads a header; there is one in every run of bytes of the right length,
    /// and in no other.
    pub fn from_bytes(buf: &[u8], order: ByteOrder) -> (header: Option<Header>)
        ensures
            header is Some <==> buf@.len() == HEADER_SIZE,
            header matches Some(h) ==> h.is_in(buf@, order) && h == Header::spec_in(buf@, order),
    {
        if buf.len() != HEADER_SIZE {
            return None;
        }
        Some(Header { kind: u32_at(buf, 0, order), size: u32_at(buf, 4, order) })
    }
}

/// A header is read back from the bytes it was written to, whatever the byte
/// order: no two headers share their bytes.
pub proof fn law_header_read_back(written: Header, read: Header, bytes: Seq<u8>, order: ByteOrder)
    requires
        written.is_in(bytes, order),
        read.is_in(bytes, order),
    ensures
        read == written,
{
}

/// A header has one form in each byte order: two runs of bytes that both are the
/// header are the same.
pub proof fn law_header_bytes_unique(
    header: Header,
    one: Seq<u8>,
    other: Seq<u8>,
    order: ByteOrder,
)
    requires
        header.is_in(one, order),
        header.is_in(other, order),
    ensures
        one == other,
{
    lemma_number_determines_bytes(one.subrange(0, 4), other.subrange(0, 4), order);
    lemma_number_determines_bytes(one.subrange(4, 8), other.subrange(4, 8), order);
    assert(one =~= one.subrange(0, 4) + one.subrange(4, 8));
    assert(other =~= other.subrange(0, 4) + other.subrange(4, 8));
}

/// What a received message asks for.
#[derive(Clone, Copy, Debug, PartialEq, Eq, Structural)]
pub enum Request {
    /// A minidump of the sender.
    Crash,
    /// A [`PONG`].
    Ping,
    /// Nothing: it is the answer to a [`PING`].
    Pong,
    /// That the handler be given the message under this code.
    User(u32),
}

impl Request {
    /// Whether the server has an answer to messages of this kind. A
    /// [`CRASH_ACK`] goes from server to client only.
    pub open spec fn known(kind: u32) -> bool {
        kind == CRASH || kind == PING || kind == PONG || kind >= USER
    }

    /// The kind under which this request travels.
    pub open spec fn kind(self) -> int {
        match self {
            Request::Crash => CRASH as int,
            Request::Ping => PING as int,
            Request::Pong => PONG as int,
            Request::User(code) => USER + code,
        }
    }

    /// The request of a message of this kind.
    pub open spec fn spec_of(kind: u32) -> Request {
        if kind == CRASH {
            Request::Crash
        } else if kind == PING {
            Request::Ping
        } else if kind == PONG {
            Request::Pong
        } else {
            Request::User((kind - USER) as u32)
        }
    }

    /// Whether the server has an answer to messages of this kind.
    pub fn is_known(kind: u32) -> (yes: bool)
        ensures
            yes == Request::known(kind),
    {
        kind == CRASH || kind == PING || kind == PONG || kind >= USER
    }

    /// The request of a message of this kind: the one that travels under it.
    pub fn of(kind: u32) -> (request: Request)
        requires
            Request::known(kind),
        ensures
            request == Request::spec_of(kind),
            request.kind() == kind,
    {
        if kind == CRASH {
            Request::Crash
        } else if kind == PING {
            Request::Ping
        } else if kind == PONG {
            Request::Pong
        } else {
            Request::User(kind - USER)
        }
    }
}

/// Users get back the codes that they sent under: a message sent with the code
/// `code` is delivered with that code, as long as its kind fits in 32 bits.
pub proof fn law_user_codes_come_back(code: u32, kind: u32)
    requires
        kind == USER + code,
    ensures
        Request::known(kind),
        Request::spec_of(kind) == Request::User(code),
{
}

/// The error of `scroll`, of which only that there is one counts here.
#[verifier::external_type_specification]
#[verifier::external_body]
pub struct ExScrollError(scroll::Error);

/// Calls `scroll::Pread::pread_with` for a `u32`: it reads the four bytes from
/// `offset` on in the order it is told, and fails when the bytes are not there.
#[verifier::external_body]
fn pread_u32(bytes: &[u8], offset: usize, order: ByteOrder) -> (value: Result<u32, scroll::Error>)
    ensures
        value is Ok <==> offset + 4 <= bytes@.len(),
        value matches Ok(v) ==> v == number(bytes@.subrange(offset as int, offset + 4), order),
{
    let endian = match order {
        ByteOrder::Little => scroll::Endian::Little,
        ByteOrder::Big => scroll::Endian::Big,
    };
    bytes.pread_with::<u32>(offset, endian)
}

/// Calls `scroll::Pread::pread_with` for a `u64`: it reads the eight bytes from
/// `offset` on in the order it is told, and fails when the bytes are not there.
#[verifier::external_body]
fn pread_u64(bytes: &[u8], offset: usize, order: ByteOrder) -> (value: Result<u64, scroll::Error>)
    ensures
        value is Ok <==> offset + 8 <= bytes@.len(),
        value matches Ok(v) ==> v == number(bytes@.subrange(offset as int, offset + 8), order),
{
    let endian = match order {
        ByteOrder::Little => scroll::Endian::Little,
        ByteOrder::Big => scroll::Endian::Big,
    };
    bytes.pread_with::<u64>(offset, endian)
}

/// The process id that a crash message of a client with a Mach port starts with.
pub fn crashed_pid(buffer: &[u8], order: ByteOrder) -> (pid: Result<u32, ServerError>)
    ensures
        match pid {
            Ok(p) => buffer@.len() >= 4 && p == number(buffer@.subrange(0, 4), order),
            Err(e) => buffer@.len() < 4 && e == (ServerError::Scroll { size: 4, len: buffer.len() }),
        },
{
    match pread_u32(buffer, 0, order) {
        Ok(pid) => Ok(pid),
        Err(_) => Err(ServerError::Scroll { size: 4, len: buffer.len() }),
    }
}

/// What a client on a pipe says of its crash.
#[derive(Clone, Copy, Debug, PartialEq, Eq, Structural)]
pub struct DumpRequest {
    /// The address of the exception pointers in the memory of the client.
    pub exception_pointers: u64,
    /// The process that crashed.
    pub process_id: u32,
    /// The thread that crashed.
    pub thread_id: u32,
    /// The code of the exception.
    pub exception_code: i32,
}

impl DumpRequest {
    /// Whether `bytes` begin with this request: its fields one after the other,
    /// with nothing between them.
    pub open spec fn is_at_start_of(self, bytes: Seq<u8>, order: ByteOrder) -> bool {
        &&& bytes.len() >= DUMP_REQUEST_SIZE
        &&& self.exception_pointers == number(bytes.subrange(0, 8), order)
        &&& self.process_id == number(bytes.subrange(8, 12), order)
        &&& self.thread_id == number(bytes.subrange(12, 16), order)
        &&& self.exception_code == (number(bytes.subrange(16, 20), order) as u32) as i32
    }

    /// Reads a request from the start of a message body; there is one in every
    /// body that is long enough.
    pub fn read(body: &[u8], order: ByteOrder) -> (request: Option<DumpRequest>)
        ensures
            request is Some <==> body@.len() >= DUMP_REQUEST_SIZE,
            request matches Some(r) ==> r.is_at_start_of(body@, order),
    {
        match (
            pread_u64(body, 0, order),
            pread_u32(body, 8, order),
            pread_u32(body, 12, order),
            pread_u32(body, 16, order),
        ) {
            (Ok(exception_pointers), Ok(process_id), Ok(thread_id), Ok(code)) => Some(
                DumpRequest {
                    exception_pointers,
                    process_id,
                    thread_id,
                    exception_code: code as i32,
                },
            ),
            _ => None,
        }
    }
}

/// Four bytes stand for the number that they are the digits of in base 256: the first
/// byte is the lowest digit in one byte order, and the highest in the other.
pub proof fn law_four_bytes_are_a_number(bytes: Seq<u8>)
    requires
        bytes.len() == 4,
    ensures
        number(bytes, ByteOrder::Little) == bytes[0] + 256 * bytes[1] + 65536 * bytes[2]
            + 16777216 * bytes[3],
        number(bytes, ByteOrder::Big) == bytes[3] + 256 * bytes[2] + 65536 * bytes[1] + 16777216
            * bytes[0],
        number(bytes, ByteOrder::Little) <= u32::MAX,
        number(bytes, ByteOrder::Big) <= u32::MAX,
{
    lemma_four_bytes(bytes, ByteOrder::Little);
    lemma_four_bytes(bytes, ByteOrder::Big);
}

/// One more byte is one more digit: the lowest in front where the lowest comes first, and
/// the lowest at the end where the highest does. Turning the bytes round turns the order
/// round.
pub proof fn law_a_byte_is_a_digit(bytes: Seq<u8>, digit: u8)
    ensures
        number(Seq::<u8>::empty(), ByteOrder::Little) == 0,
        number(Seq::<u8>::empty(), ByteOrder::Big) == 0,
        number(seq![digit] + bytes, ByteOrder::Little) == digit + 256 * number(
            bytes,
            ByteOrder::Little,
        ),
        number(bytes.push(digit), ByteOrder::Big) == digit + 256 * number(bytes, ByteOrder::Big),
        number(bytes.reverse(), ByteOrder::Big) == number(bytes, ByteOrder::Little),
{
    assert(Seq::<u8>::empty().reverse() =~= Seq::<u8>::empty());
    assert((seq![digit] + bytes).drop_first() =~= bytes);
    assert(bytes.push(digit).reverse() =~= seq![digit] + bytes.reverse());
    assert((seq![digit] + bytes.reverse()).drop_first() =~= bytes.reverse());
    assert(bytes.reverse().reverse() =~= bytes);
}

/// A header is its kind in four bytes, and its size in four more.
pub proof fn law_header_layout(header: Header, bytes: Seq<u8>)
    requires
        bytes.len() == 8,
    ensures
        header.is_in(bytes, ByteOrder::Little) <==> {
            &&& header.kind == bytes[0] + 256 * bytes[1] + 65536 * bytes[2] + 16777216 * bytes[3]
            &&& header.size == bytes[4] + 256 * bytes[5] + 65536 * bytes[6] + 16777216 * bytes[7]
        },
        header.is_in(bytes, ByteOrder::Big) <==> {
            &&& header.kind == bytes[3] + 256 * bytes[2] + 65536 * bytes[1] + 16777216 * bytes[0]
            &&& header.size == bytes[7] + 256 * bytes[6] + 65536 * bytes[5] + 16777216 * bytes[4]
        },
        Header::spec_in(bytes, ByteOrder::Little).is_in(bytes, ByteOrder::Little),
        Header::spec_in(bytes, ByteOrder::Big).is_in(bytes, ByteOrder::Big),
{
    law_four_bytes_are_a_number(bytes.subrange(0, 4));
    law_four_bytes_are_a_number(bytes.subrange(4, 8));
    let (kind, size) = (bytes.subrange(0, 4), bytes.subrange(4, 8));
    assert(kind[0] == bytes[0] && kind[1] == bytes[1] && kind[2] == bytes[2] && kind[3]
        == bytes[3]);
    assert(size[0] == bytes[4] && size[1] == bytes[5] && size[2] == bytes[6] && size[3]
        == bytes[7]);
}

/// Eight bytes are two halves of four bytes: the second half is the upper one where the
/// lowest byte comes first, and the lower one where it comes last.
pub proof fn law_eight_bytes_are_a_number(bytes: Seq<u8>)
    requires
        bytes.len() == 8,
    ensures
        number(bytes, ByteOrder::Little) == number(bytes.subrange(0, 4), ByteOrder::Little)
            + 0x1_0000_0000 * number(bytes.subrange(4, 8), ByteOrder::Little),
        number(bytes, ByteOrder::Big) == number(bytes.subrange(4, 8), ByteOrder::Big)
            + 0x1_0000_0000 * number(bytes.subrange(0, 4), ByteOrder::Big),
{
    lemma_halves(bytes);
    lemma_halves(bytes.reverse());
    assert(bytes.reverse().subrange(0, 4) =~= bytes.subrange(4, 8).reverse());
    assert(bytes.reverse().subrange(4, 8) =~= bytes.subrange(0, 4).reverse());
}

/// The halves of eight bytes, the lowest byte first.
proof fn lemma_halves(bytes: Seq<u8>)
    requires
        bytes.len() == 8,
    ensures
        little_endian(bytes) == little_endian(bytes.subrange(0, 4)) + 0x1_0000_0000 * little_endian(
            bytes.subrange(4, 8),
        ),
{
    let low = bytes.subrange(0, 4);
    let high = bytes.subrange(4, 8);
    law_four_bytes_are_a_number(low);
    let b1 = bytes.drop_first();
    let b2 = b1.drop_first();
    let b3 = b2.drop_first();
    let b4 = b3.drop_first();
    assert(b4 =~= high);
    assert(little_endian(b3) == bytes[3] + 256 * little_endian(high));
    assert(little_endian(b2) == bytes[2] + 256 * bytes[3] + 65536 * little_endian(high));
    assert(little_endian(b1) == bytes[1] + 256 * bytes[2] + 65536 * bytes[3] + 16777216
        * little_endian(high));
    assert(low[0] == bytes[0] && low[1] == bytes[1] && low[2] == bytes[2] && low[3] == bytes[3]);
}

/// A dump request is an address of eight bytes, and then three numbers of four bytes each,
/// of which the last one has a sign. Every body of twenty bytes or more begins with one, and
/// what follows does not matter.
pub proof fn law_dump_request_layout(request: DumpRequest, bytes: Seq<u8>)
    ensures
        request.is_at_start_of(bytes, ByteOrder::Little) <==> {
            &&& bytes.len() >= 20
            &&& request.exception_pointers == number(bytes.subrange(0, 8), ByteOrder::Little)
            &&& request.process_id == bytes[8] + 256 * bytes[9] + 65536 * bytes[10] + 16777216
                * bytes[11]
            &&& request.thread_id == bytes[12] + 256 * bytes[13] + 65536 * bytes[14] + 16777216
                * bytes[15]
            &&& request.exception_code == ((bytes[16] + 256 * bytes[17] + 65536 * bytes[18]
                + 16777216 * bytes[19]) as u32) as i32
        },
        request.is_at_start_of(bytes, ByteOrder::Big) <==> {
            &&& bytes.len() >= 20
            &&& request.exception_pointers == number(bytes.subrange(0, 8), ByteOrder::Big)
            &&& request.process_id == bytes[11] + 256 * bytes[10] + 65536 * bytes[9] + 16777216
                * bytes[8]
            &&& request.thread_id == bytes[15] + 256 * bytes[14] + 65536 * bytes[13] + 16777216
                * bytes[12]
            &&& request.exception_code == ((bytes[19] + 256 * bytes[18] + 65536 * bytes[17]
                + 16777216 * bytes[16]) as u32) as i32
        },
{
    if bytes.len() >= 20 {
        let (process, thread, code) = (
            bytes.subrange(8, 12),
            bytes.subrange(12, 16),
            bytes.subrange(16, 20),
        );
        law_four_bytes_are_a_number(process);
        law_four_bytes_are_a_number(thread);
        law_four_bytes_are_a_number(code);
        assert(process[0] == bytes[8] && process[1] == bytes[9] && process[2] == bytes[10]
            && process[3] == bytes[11]);
        assert(thread[0] == bytes[12] && thread[1] == bytes[13] && thread[2] == bytes[14]
            && thread[3] == bytes[15]);
        assert(code[0] == bytes[16] && code[1] == bytes[17] && code[2] == bytes[18] && code[3]
            == bytes[19]);
    }
}

/// Every kind of message asks for one thing: zero for a minidump, two for a pong, three
/// for nothing, and from four on for delivery under the code that is four less. The one
/// kind without an answer is one.
pub proof fn law_kinds_of_messages(kind: u32)
    ensures
        Request::known(kind) <==> kind != 1,
        kind == 0 ==> Request::spec_of(kind) == Request::Crash,
        kind == 2 ==> Request::spec_of(kind) == Request::Ping,
        kind == 3 ==> Request::spec_of(kind) == Request::Pong,
        kind >= 4 ==> Request::spec_of(kind) == Request::User((kind - 4) as u32),
        Header::spec_bare(kind) == (Header { kind, size: 0 }),
{
}

} // verus!
