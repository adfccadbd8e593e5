//! The families of operating systems that a server runs on.

use vstd::prelude::*;

verus! {

/// A family of operating systems, by how clients reach a server on it.
#[derive(Clone, Copy, Debug, PartialEq, Eq, Structural)]
pub enum Platform {
    /// Linux and Android: sockets that vouch for the process at the other end.
    Linux,
    /// macOS: sockets for messages, and a Mach port for crashes.
    MacOs,
    /// Windows: named pipes.
    Windows,
}

} // verus!
