use vstd::prelude::*;

verus! {

/// The bus operation that failed.
#[derive(Debug, Clone, Copy, PartialEq, Eq, Structural)]
pub enum Operation {
    /// Opening the system bus connection.
    Connect,
    /// Building the proxy for the unit's object path.
    BuildProxy,
    /// Opening the subscription to `ActiveState` changes.
    Subscribe,
    /// Reading the `ActiveState` property.
    ReadState,
    /// The subscription ended without delivering a change.
    Subscription,
}

/// The two kinds of failure of a monitor.
#[derive(Debug, Clone, Copy, PartialEq, Eq, Structural)]
pub enum Error {
    /// The service name holds a character outside ASCII.
    NotAscii,
    /// A bus operation failed; the monitor stops.
    Ipc(Operation),
}

} // verus!
