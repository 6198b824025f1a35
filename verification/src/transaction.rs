//! Where a session stands relative to a transaction block.

use vstd::prelude::*;
use crate::errors::ProtocolMismatch;

verus! {

/// The in-transaction state of the server.
#[derive(Clone, Copy, Debug, PartialEq, Eq, Structural)]
pub enum Status {
    /// Outside any transaction block.
    Idle,
    /// A command is in progress.
    Active,
    /// Inside a valid transaction block.
    InTrans,
    /// Inside a failed transaction block.
    InError,
    /// The connection is bad and the state cannot be determined.
    Unknown,
}

/// The state that a transaction code stands for, if it stands for one.
pub open spec fn status_of(code: int) -> Option<Status> {
    if code == 0 {
        Some(Status::Idle)
    } else if code == 1 {
        Some(Status::Active)
    } else if code == 2 {
        Some(Status::InTrans)
    } else if code == 3 {
        Some(Status::InError)
    } else if code == 4 {
        Some(Status::Unknown)
    } else {
        None
    }
}

/// Whether `code` is one of the transaction codes.
pub open spec fn is_known_code(code: int) -> bool {
    0 <= code <= 4
}

/// What translating a transaction code gives: its state, or the code back
/// as a mismatch.
pub open spec fn translated(code: i32) -> Result<Status, ProtocolMismatch> {
    match status_of(code as int) {
        Some(status) => Ok(status),
        None => Err(ProtocolMismatch { code }),
    }
}

/// Maps a transaction code onto its state, and rejects any other code.
pub fn translate_transaction(code: i32) -> (result: Result<Status, ProtocolMismatch>)
    ensures
        result == translated(code),
        result is Ok <==> is_known_code(code as int),
{
    match code {
        0 => Ok(Status::Idle),
        1 => Ok(Status::Active),
        2 => Ok(Status::InTrans),
        3 => Ok(Status::InError),
        4 => Ok(Status::Unknown),
        _ => Err(ProtocolMismatch { code }),
    }
}

/// A code is known exactly when it stands for a state.
pub proof fn lemma_known_codes_are_translated(code: int)
    ensures
        is_known_code(code) <==> status_of(code) is Some,
{
}

/// Two different known codes never stand for the same state.
pub proof fn lemma_codes_stand_apart(first: int, second: int)
    requires
        is_known_code(first),
        is_known_code(second),
        first != second,
    ensures
        status_of(first) != status_of(second),
{
}

} // verus!
