//! The ways in which a request is refused.

use vstd::prelude::*;

verus! {

/// An input that is refused before any state changes.
#[derive(Clone, Copy, Debug, PartialEq, Eq, Structural)]
pub enum ValidationError {
    /// The locator is under neither the http nor the https scheme.
    MalformedUri,
    /// The volume does not lie between zero and one.
    VolumeOutOfRange,
}

/// The queue holds nothing to hand out.
#[derive(Clone, Copy, Debug, PartialEq, Eq, Structural)]
pub struct Empty;

/// A summon or a leave that cannot be carried out.
#[derive(Clone, Copy, Debug, PartialEq, Eq, Structural)]
pub enum SessionError {
    /// The requester is in no voice channel.
    NotInChannel,
    /// There is no session to leave.
    NotConnected,
    /// The transport could not remove the old session or establish the new one.
    ConnectFailed,
}

} // verus!
