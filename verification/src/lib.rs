//! The decision logic of a crash monitor: the server side of the IPC by which
//! a monitored process asks for a minidump of itself.
//!
//! Nothing here touches a socket, a pipe or a file. An operation that alternates system calls and
//! decisions is a state machine: it says which call to make next, its driver makes
//! the call and hands the outcome back. `next` is what a machine does, `step` does
//! it, and the proof functions called `law_..` state what holds of it whatever the
//! outcomes are.

pub mod clients;
pub mod connect;
pub mod crash;
pub mod error;
pub mod listener;
pub mod pipe_flow;
pub mod pipe_name;
pub mod pipe_server;
pub mod platform;
pub mod poll_flow;
pub mod poll_laws;
pub mod poll_server;
pub mod recv;
pub mod security;
pub mod server;
pub mod transfer;
pub mod wide;
pub mod wire;
