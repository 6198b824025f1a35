//! What an accessor reports instead of an answer.

use vstd::prelude::*;

verus! {

/// A status code that is not part of the known code space.
#[derive(Clone, Copy, Debug, PartialEq, Eq, Structural)]
pub struct ProtocolMismatch {
    /// The code as the connection reported it.
    pub code: i32,
}

/// The connection has no open socket.
#[derive(Clone, Copy, Debug, PartialEq, Eq, Structural)]
pub struct NoActiveSocket;

} // verus!
