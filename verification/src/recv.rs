//! Receiving one message from a socket.

use crate::clients::ClientConn;
use crate::wire::{ByteOrder, Header};
use vstd::prelude::*;

verus! {

/// What the driver of a [`RecvOp`] has to do next.
#[derive(Clone, Copy, Debug, PartialEq, Eq)]
pub enum RecvCall {
    /// Look at the first bytes that wait at the socket, without taking them, into
    /// a buffer of zeros of the size of a header.
    Peek,
    /// Take the header from the socket.
    TakeHeader,
    /// Ask the handler for a buffer, and make it ready with [`message_buffer`].
    Allocate { size: u32 },
    /// Take the header and the body from the socket, the body into the buffer.
    TakeMessage,
    /// Nothing more: here is the kind of the message, if one was received. Its
    /// body is in the buffer that was made ready, and empty if there is none.
    Finish(Option<u32>),
}

/// What came of a [`RecvCall`].
#[derive(Clone, Copy, Debug, PartialEq, Eq)]
pub enum RecvReply {
    /// How many bytes were there, if the socket could be looked at, and the bytes.
    Peeked { len: Option<usize>, bytes: [u8; 8] },
    /// There is a buffer now.
    Allocated,
    /// Whether the bytes could be taken.
    Taken(bool),
}

/// Which call the receiving waits for the outcome of.
#[derive(Clone, Copy, Debug, PartialEq, Eq)]
pub enum RecvPhase {
    /// [`RecvCall::Peek`].
    Peeking,
    /// [`RecvCall::Allocate`].
    Allocating { kind: u32 },
    /// [`RecvCall::TakeHeader`] or [`RecvCall::TakeMessage`].
    Taking { kind: u32 },
    /// Nothing: the message is there, or none will come.
    Finished,
}

/// Where the receiving of one message stands.
#[derive(Clone, Copy, Debug, PartialEq, Eq)]
pub struct RecvState {
    /// The byte order of the machine.
    pub order: ByteOrder,
    /// What the receiving waits for.
    pub phase: RecvPhase,
}

impl RecvState {
    /// The same receiving, in another phase.
    pub open spec fn at(self, phase: RecvPhase) -> RecvState {
        RecvState { phase, ..self }
    }

    /// Whether `reply` is an outcome of the call that is waited for.
    pub open spec fn fits(self, reply: RecvReply) -> bool {
        match self.phase {
            RecvPhase::Peeking => reply is Peeked,
            RecvPhase::Allocating { .. } => reply is Allocated,
            RecvPhase::Taking { .. } => reply is Taken,
            RecvPhase::Finished => false,
        }
    }

    /// What follows on the outcome `reply` of the call that is waited for.
    pub open spec fn next(self, reply: RecvReply) -> (RecvState, RecvCall) {
        match (self.phase, reply) {
            (RecvPhase::Peeking, RecvReply::Peeked { len: Some(len), bytes }) => {
                let header = Header::spec_in(bytes@, self.order);
                if len == 0 {
                    (self.at(RecvPhase::Finished), RecvCall::Finish(None))
                } else if header.size == 0 {
                    (self.at(RecvPhase::Taking { kind: header.kind }), RecvCall::TakeHeader)
                } else {
                    (
                        self.at(RecvPhase::Allocating { kind: header.kind }),
                        RecvCall::Allocate { size: header.size },
                    )
                }
            },
            (RecvPhase::Allocating { kind }, RecvReply::Allocated) => (
                self.at(RecvPhase::Taking { kind }),
                RecvCall::TakeMessage,
            ),
            (RecvPhase::Taking { kind }, RecvReply::Taken(true)) => (
                self.at(RecvPhase::Finished),
                RecvCall::Finish(Some(kind)),
            ),
            _ => (self.at(RecvPhase::Finished), RecvCall::Finish(None)),
        }
    }
}

/// The receiving of one message.
#[derive(Debug, PartialEq, Eq)]
pub struct RecvOp {
    state: RecvState,
}

impl View for RecvOp {
    type V = RecvState;

    closed spec fn view(&self) -> RecvState {
        self.state
    }
}

impl RecvOp {
    /// Takes the outcome of the call that is waited for, and says which call to
    /// make next.
    pub fn step(&mut self, reply: RecvReply) -> (call: RecvCall)
        requires
            old(self)@.fits(reply),
        ensures
            (final(self)@, call) == old(self)@.next(reply),
    {
        match (self.state.phase, reply) {
            (RecvPhase::Peeking, RecvReply::Peeked { len: Some(len), bytes }) => {
                if len != 0 {
                    if let Some(header) = Header::from_bytes(&bytes, self.state.order) {
                        if header.size == 0 {
                            self.state.phase = RecvPhase::Taking { kind: header.kind };
                            return RecvCall::TakeHeader;
                        }
                        self.state.phase = RecvPhase::Allocating { kind: header.kind };
                        return RecvCall::Allocate { size: header.size };
                    }
                }
                self.state.phase = RecvPhase::Finished;
                RecvCall::Finish(None)
            },
            (RecvPhase::Allocating { kind }, RecvReply::Allocated) => {
                self.state.phase = RecvPhase::Taking { kind };
                RecvCall::TakeMessage
            },
            (RecvPhase::Taking { kind }, RecvReply::Taken(true)) => {
                self.state.phase = RecvPhase::Finished;
                RecvCall::Finish(Some(kind))
            },
            _ => {
                self.state.phase = RecvPhase::Finished;
                RecvCall::Finish(None)
            },
        }
    }
}

impl ClientConn {
    /// Begins to receive a message from the client.
    pub fn recv(&self, order: ByteOrder) -> (started: (RecvOp, RecvCall))
        ensures
            started.0@ == (RecvState { order, phase: RecvPhase::Peeking }),
            started.1 == RecvCall::Peek,
    {
        (RecvOp { state: RecvState { order, phase: RecvPhase::Peeking } }, RecvCall::Peek)
    }
}

/// Makes a buffer ready for a body of `size` bytes: it is cut to that size, or
/// filled up to it with zeros.
pub fn message_buffer(buffer: Vec<u8>, size: u32) -> (ready: Vec<u8>)
    ensures
        ready@.len() == size,
        forall|i: int|
            0 <= i < size ==> #[trigger] ready@[i] == if i < buffer@.len() {
                buffer@[i]
            } else {
                0
            },
{
    let ghost given = buffer@;
    let mut ready = buffer;
    ready.resize(size as usize, 0);
    proof {
        assert forall|i: int| 0 <= i < size implies #[trigger] ready@[i] == if i < given.len() {
            given[i]
        } else {
            0
        } by {
            if size > given.len() && i < given.len() {
                assert(ready@.subrange(0, given.len() as int)[i] == given[i]);
            }
        }
    }
    ready
}

/// A message that is received is the one that waits at the socket: its kind is
/// in the header that was looked at, and as many bytes are made room for as that
/// header announces. A closed or broken socket gives no message.
pub proof fn law_message_is_the_one_announced(
    op: RecvState,
    len: Option<usize>,
    header: Header,
    bytes: [u8; 8],
    taken: bool,
)
    requires
        op.phase is Peeking,
        header.is_in(bytes@, op.order),
    ensures
        ({
            let (peeked, call) = op.next(RecvReply::Peeked { len, bytes });
            let (ready, second) = peeked.next(RecvReply::Allocated);
            let gone = len is None || len == Some(0usize);
            &&& gone ==> call == RecvCall::Finish(None)
            &&& !gone && header.size == 0 ==> {
                &&& call == RecvCall::TakeHeader
                &&& peeked.next(RecvReply::Taken(taken)).1 == RecvCall::Finish(
                    if taken {
                        Some(header.kind)
                    } else {
                        None
                    },
                )
            }
            &&& !gone && header.size > 0 ==> {
                &&& call == RecvCall::Allocate { size: header.size }
                &&& second == RecvCall::TakeMessage
                &&& ready.next(RecvReply::Taken(taken)).1 == RecvCall::Finish(
                    if taken {
                        Some(header.kind)
                    } else {
                        None
                    },
                )
            }
        }),
{
}

} // verus!
