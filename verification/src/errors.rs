//! The driver's error taxonomy.  Every failure is surfaced to the caller at
//! once; nothing is retried or recovered inside the library.

use vstd::prelude::*;
use crate::endpoints::Direction;
use crate::endpoints::ProtocolType;

verus! {

/// What can go wrong between enumeration and a completed transfer.
///
/// `UnexpectedEndpoint` carries the offending direction and endpoint number;
/// `MissingEndpoint` names the channel and direction whose endpoint the
/// enumeration never produced.  Binding errors are fatal to session
/// construction; transfer errors leave the session as it was.
#[derive(Clone, Copy, Debug, PartialEq, Eq, Structural)]
pub enum FlirError {
    DeviceNotFound,
    InterfaceClaimFailed,
    UnexpectedEndpoint(Direction, u8),
    MissingEndpoint(ProtocolType, Direction),
    ControlTransferFailed,
    BulkTransferFailed,
}

} // verus!
