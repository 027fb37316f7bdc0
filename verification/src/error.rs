//! What can go wrong, by kind.

use vstd::prelude::*;
use crate::protocol::Fault;

verus! {

/// Why a scratch database could not be set up or torn down.
#[derive(Clone, Copy, Debug, PartialEq, Eq, Structural)]
pub enum GuardError {
    /// The server could not be reached, or the pool is beyond use.
    Connectivity,
    /// A session statement failed on a new physical connection.
    ConnectionSetup,
    /// The database could not be created.
    Provisioning,
    /// The table could not be created in the new database.
    SchemaSetup,
    /// The database could not be dropped.
    Teardown,
}

/// Why the transactional operation failed.
#[derive(Clone, Copy, Debug, PartialEq, Eq, Structural)]
pub enum OperationError {
    /// The row that was looked for is not there.
    NotFound,
    /// A command failed at the server.
    Server(Fault),
}

/// The error of a pool that could not be opened or gave no connection.
pub open spec fn connection_error_of(fault: Fault) -> GuardError {
    if fault == Fault::SessionSetup {
        GuardError::ConnectionSetup
    } else {
        GuardError::Connectivity
    }
}

/// The error of a pool that could not be opened or gave no connection.
pub fn connection_error(fault: Fault) -> (e: GuardError)
    ensures
        e == connection_error_of(fault),
{
    match fault {
        Fault::SessionSetup => GuardError::ConnectionSetup,
        _ => GuardError::Connectivity,
    }
}

} // verus!
