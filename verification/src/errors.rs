//! The error taxonomy of the controller: encoding failures and the transport
//! failures that the application maps onto it.

use vstd::prelude::*;

verus! {

/// Everything that can go wrong while encoding or sending a command.
#[derive(Clone, Copy, Debug, PartialEq, Eq, Structural)]
pub enum ControlError {
    /// No attached peripheral matches the expected vendor and product
    /// identifiers.
    DeviceNotFound,
    /// A write was attempted before a device was successfully opened.
    DeviceNotOpen,
    /// The transport's own write call failed.
    TransportWrite,
    /// The target hex string does not decode into complete byte pairs: its
    /// length is odd once the colons are removed, or it holds a character
    /// that is no hex digit.
    MalformedTarget,
    /// The argument payload does not fit in the 62 bytes a report offers.
    ArgumentOverflow,
}

} // verus!
