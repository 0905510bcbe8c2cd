//! The device's endpoint topology: directions, the three logical channels,
//! and the fixed numbering scheme that assigns each enumerated endpoint to a
//! channel slot.

use vstd::prelude::*;

verus! {

/// A single-direction USB data path: device-to-host (`In`) or
/// host-to-device (`Out`).
#[derive(Clone, Copy, Debug, PartialEq, Eq, Structural)]
pub enum Direction {
    In,
    Out,
}

/// The three logical channels multiplexed over the device's endpoints.
#[derive(Clone, Copy, Debug, PartialEq, Eq, Structural)]
pub enum ProtocolType {
    CONFIG,
    FILEIO,
    FRAME,
}

/// One enumerated endpoint, reduced to the fields the binder reads: the
/// device-assigned transfer address, the direction, and the endpoint number.
#[derive(Clone, Copy, Debug, PartialEq, Eq, Structural)]
pub struct EndpointRef {
    pub address: u8,
    pub direction: Direction,
    pub number: u8,
}

/// The channel served by an endpoint with the given direction and number,
/// under the device's fixed numbering scheme: IN 1 / OUT 2 carry CONFIG,
/// IN 3 / OUT 4 carry FILEIO, IN 5 / OUT 6 carry FRAME.  Any other pair is
/// foreign to this device.
pub open spec fn channel_of(direction: Direction, number: u8) -> Option<ProtocolType> {
    match direction {
        Direction::In => {
            if number == 1 {
                Some(ProtocolType::CONFIG)
            } else if number == 3 {
                Some(ProtocolType::FILEIO)
            } else if number == 5 {
                Some(ProtocolType::FRAME)
            } else {
                None
            }
        },
        Direction::Out => {
            if number == 2 {
                Some(ProtocolType::CONFIG)
            } else if number == 4 {
                Some(ProtocolType::FILEIO)
            } else if number == 6 {
                Some(ProtocolType::FRAME)
            } else {
                None
            }
        },
    }
}

/// The topology contract as an executable lookup: which channel an endpoint
/// with this direction and number serves, or `None` for a pair the device is
/// not supposed to expose.
pub fn channel_for(direction: Direction, number: u8) -> (r: Option<ProtocolType>)
    ensures
        r == channel_of(direction, number),
{
    match direction {
        Direction::In => {
            if number == 1 {
                Some(ProtocolType::CONFIG)
            } else if number == 3 {
                Some(ProtocolType::FILEIO)
            } else if number == 5 {
                Some(ProtocolType::FRAME)
            } else {
                None
            }
        },
        Direction::Out => {
            if number == 2 {
                Some(ProtocolType::CONFIG)
            } else if number == 4 {
                Some(ProtocolType::FILEIO)
            } else if number == 6 {
                Some(ProtocolType::FRAME)
            } else {
                None
            }
        },
    }
}

} // verus!
