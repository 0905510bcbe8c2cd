//! The live session: the three bound channels, the connection latch, the
//! per-channel armed flags, and the encodings of the control and bulk
//! transfers that the host stack is asked to perform.

use vstd::prelude::*;
use crate::endpoints::Direction;
use crate::endpoints::EndpointRef;
use crate::endpoints::ProtocolType;
use crate::errors::FlirError;

verus! {

/// Vendor id of the FLIR One camera; the resolver refuses any other device.
pub const FLIR_VENDOR_ID: u16 = 0x09CB;

/// Product id of the FLIR One camera.
pub const FLIR_PRODUCT_ID: u16 = 0x1996;

/// bmRequestType of the channel-toggle control transfer: host-to-device,
/// vendor, interface recipient.
pub const CONTROL_REQUEST_TYPE: u8 = 0x01;

/// bRequest code of the channel-toggle control transfer.
pub const CONTROL_REQUEST_TOGGLE: u8 = 11;

/// Timeout of a control transfer, in milliseconds.
pub const CONTROL_TIMEOUT_MS: u32 = 1000;

/// Timeout of a bulk transfer, in milliseconds; frame and file payloads may
/// need the sensor to finish a capture cycle.
pub const BULK_TIMEOUT_MS: u32 = 30000;

/// One logical channel: its device-to-host and host-to-device endpoints,
/// both assigned at bind time and immutable thereafter.
#[derive(Clone, Copy, Debug, PartialEq, Eq, Structural)]
pub struct Channel {
    pub read: EndpointRef,
    pub write: EndpointRef,
}

/// A bound session: each channel's endpoint pair, fixed at bind time,
/// together with the connection latch and the two armed flags.  The open
/// device handle stays with the caller; the session only decides.
#[derive(Clone, Copy, Debug, PartialEq, Eq, Structural)]
pub struct FlirOne {
    pub config: Channel,
    pub frame: Channel,
    pub fileio: Channel,
    pub connected: bool,
    pub expect_file_data: bool,
    pub expect_frame_data: bool,
}

impl FlirOne {
    /// Every channel holds its protocol-assigned endpoints: IN/OUT pairs
    /// (1,2) for CONFIG, (3,4) for FILEIO, (5,6) for FRAME.
    pub open spec fn wf(&self) -> bool {
        &&& self.config.read.direction == Direction::In && self.config.read.number == 1
        &&& self.config.write.direction == Direction::Out && self.config.write.number == 2
        &&& self.fileio.read.direction == Direction::In && self.fileio.read.number == 3
        &&& self.fileio.write.direction == Direction::Out && self.fileio.write.number == 4
        &&& self.frame.read.direction == Direction::In && self.frame.read.number == 5
        &&& self.frame.write.direction == Direction::Out && self.frame.write.number == 6
    }

    /// The endpoints of one session agree with those of another.
    pub open spec fn same_endpoints(&self, other: &FlirOne) -> bool {
        &&& self.config == other.config
        &&& self.frame == other.frame
        &&& self.fileio == other.fileio
    }

    /// The channel's device-to-host endpoint.
    pub open spec fn read_endpoint(&self, protocol_type: ProtocolType) -> EndpointRef {
        match protocol_type {
            ProtocolType::CONFIG => self.config.read,
            ProtocolType::FILEIO => self.fileio.read,
            ProtocolType::FRAME => self.frame.read,
        }
    }

    /// The channel's host-to-device endpoint.
    pub open spec fn write_endpoint(&self, protocol_type: ProtocolType) -> EndpointRef {
        match protocol_type {
            ProtocolType::CONFIG => self.config.write,
            ProtocolType::FILEIO => self.fileio.write,
            ProtocolType::FRAME => self.frame.write,
        }
    }
}

/// A vendor control transfer, fully encoded, ready for the host stack to
/// submit: setup fields, an empty data stage, and the timeout to enforce.
#[derive(Clone, Copy, Debug, PartialEq, Eq, Structural)]
pub struct ControlRequest {
    pub request_type: u8,
    pub request: u8,
    pub value: u16,
    pub index: u16,
    pub timeout_ms: u32,
}

/// A bulk transfer the host stack is asked to perform: the endpoint address
/// to move bytes on, and the timeout to enforce.  Buffer sizing stays with
/// the caller; a short read is not an error.
#[derive(Clone, Copy, Debug, PartialEq, Eq, Structural)]
pub struct BulkRequest {
    pub endpoint_address: u8,
    pub timeout_ms: u32,
}

/// How the host stack reports a submitted transfer back: completed with a
/// byte count (possibly short of the buffer), timed out, or failed on the
/// transport.
#[derive(Clone, Copy, Debug, PartialEq, Eq, Structural)]
pub enum TransferOutcome {
    Completed(usize),
    TimedOut,
    Failed,
}

/// The channel's protocol index in the control-transfer wire format:
/// CONFIG is 0, FILEIO is 1, FRAME is 2.
pub open spec fn channel_index(protocol_type: ProtocolType) -> u16 {
    match protocol_type {
        ProtocolType::CONFIG => 0,
        ProtocolType::FILEIO => 1,
        ProtocolType::FRAME => 2,
    }
}

/// The wire encoding of a channel toggle: bmRequestType 0x01, bRequest 11,
/// wValue 1 to start and 0 to stop, wIndex the channel's protocol index,
/// no data stage, one-second timeout.
pub open spec fn toggle_request(protocol_type: ProtocolType, start: bool) -> ControlRequest {
    ControlRequest {
        request_type: CONTROL_REQUEST_TYPE,
        request: CONTROL_REQUEST_TOGGLE,
        value: if start { 1 } else { 0 },
        index: channel_index(protocol_type),
        timeout_ms: CONTROL_TIMEOUT_MS,
    }
}

/// How `connect` changes the session and what transfer it requests: a no-op
/// on a connected session; otherwise the session latches connected, arms the
/// file channel, and asks for the FILEIO start toggle.
pub open spec fn connect_post(
    pre: FlirOne,
    post: FlirOne,
    r: Option<ControlRequest>,
) -> bool {
    if pre.connected {
        post == pre && r is None
    } else {
        &&& post.same_endpoints(&pre)
        &&& post.connected
        &&& post.expect_file_data
        &&& post.expect_frame_data == pre.expect_frame_data
        &&& r == Some(toggle_request(ProtocolType::FILEIO, true))
    }
}

/// The stop toggles that tearing a session down must request: one for each
/// armed channel, file channel first.
pub open spec fn disconnect_requests(s: FlirOne) -> Seq<ControlRequest> {
    let file: Seq<ControlRequest> = if s.expect_file_data {
        seq![toggle_request(ProtocolType::FILEIO, false)]
    } else {
        Seq::empty()
    };
    let frame: Seq<ControlRequest> = if s.expect_frame_data {
        seq![toggle_request(ProtocolType::FRAME, false)]
    } else {
        Seq::empty()
    };
    file + frame
}

impl FlirOne {
    /// Encode the control transfer that starts or stops data flow on the
    /// channel, and mark the intent to enable on the channel's armed flag
    /// before the transfer is submitted.  CONFIG carries no armed flag; the
    /// protocol never requires arming it.
    pub fn toggle_communication(&mut self, protocol_type: ProtocolType, start: bool) -> (r:
        ControlRequest)
        ensures
            r == toggle_request(protocol_type, start),
            final(self).same_endpoints(old(self)),
            final(self).connected == old(self).connected,
            final(self).expect_file_data == (old(self).expect_file_data
                || protocol_type is FILEIO),
            final(self).expect_frame_data == (old(self).expect_frame_data
                || protocol_type is FRAME),
    {
        let control_cmd: u16 = if start { 1 } else { 0 };
        let index: u16 = match protocol_type {
            ProtocolType::CONFIG => 0,
            ProtocolType::FILEIO => {
                self.expect_file_data = true;
                1
            },
            ProtocolType::FRAME => {
                self.expect_frame_data = true;
                2
            },
        };
        ControlRequest {
            request_type: CONTROL_REQUEST_TYPE,
            request: CONTROL_REQUEST_TOGGLE,
            value: control_cmd,
            index,
            timeout_ms: CONTROL_TIMEOUT_MS,
        }
    }

    /// Latch the session connected and request the FILEIO start toggle; a
    /// no-op on an already connected session.  Connecting implies file-channel
    /// readiness but never frame readiness: frame streaming is armed
    /// separately by the caller.
    pub fn connect(&mut self) -> (r: Option<ControlRequest>)
        ensures
            connect_post(*old(self), *final(self), r),
    {
        if !self.connected {
            self.connected = true;
            let req = self.toggle_communication(ProtocolType::FILEIO, true);
            Some(req)
        } else {
            None
        }
    }

    /// Tear the session down: request a stop toggle for every armed channel,
    /// disarm both flags, and release the connection latch.  The protocol
    /// itself leaves teardown open; disabling whatever was armed is the safer
    /// default.
    pub fn disconnect(&mut self) -> (r: Vec<ControlRequest>)
        ensures
            final(self).same_endpoints(old(self)),
            !final(self).connected,
            !final(self).expect_file_data,
            !final(self).expect_frame_data,
            r@ == disconnect_requests(*old(self)),
    {
        let mut requests: Vec<ControlRequest> = Vec::new();
        if self.expect_file_data {
            let req = self.toggle_communication(ProtocolType::FILEIO, false);
            requests.push(req);
        }
        if self.expect_frame_data {
            let req = self.toggle_communication(ProtocolType::FRAME, false);
            requests.push(req);
        }
        self.expect_file_data = false;
        self.expect_frame_data = false;
        self.connected = false;
        proof {
            assert(requests@ =~= disconnect_requests(*old(self)));
        }
        requests
    }

    /// Judge a control transfer's outcome: any completion succeeds, and any
    /// transport failure surfaces as `ControlTransferFailed`.  The session is
    /// left exactly as it was — the armed flags recorded the intent before
    /// submission and are never rolled back.
    pub fn control_transfer_result(&mut self, outcome: TransferOutcome) -> (r: Result<
        (),
        FlirError,
    >)
        ensures
            *final(self) == *old(self),
            outcome is Completed ==> r is Ok,
            !(outcome is Completed) ==> r == Err::<(), FlirError>(FlirError::ControlTransferFailed),
    {
        match outcome {
            TransferOutcome::Completed(_) => Ok(()),
            TransferOutcome::TimedOut => Err(FlirError::ControlTransferFailed),
            TransferOutcome::Failed => Err(FlirError::ControlTransferFailed),
        }
    }

    /// Encode a bulk read on the channel: its IN endpoint's address, with the
    /// thirty-second payload timeout.
    pub fn bulk_read_request(&self, protocol_type: ProtocolType) -> (r: BulkRequest)
        ensures
            r.endpoint_address == self.read_endpoint(protocol_type).address,
            r.timeout_ms == BULK_TIMEOUT_MS,
    {
        let endpoint = match protocol_type {
            ProtocolType::CONFIG => self.config.read,
            ProtocolType::FILEIO => self.fileio.read,
            ProtocolType::FRAME => self.frame.read,
        };
        BulkRequest { endpoint_address: endpoint.address, timeout_ms: BULK_TIMEOUT_MS }
    }

    /// Encode a bulk write on the channel: its OUT endpoint's address, with
    /// the thirty-second payload timeout.
    pub fn bulk_write_request(&self, protocol_type: ProtocolType) -> (r: BulkRequest)
        ensures
            r.endpoint_address == self.write_endpoint(protocol_type).address,
            r.timeout_ms == BULK_TIMEOUT_MS,
    {
        let endpoint = match protocol_type {
            ProtocolType::CONFIG => self.config.write,
            ProtocolType::FILEIO => self.fileio.write,
            ProtocolType::FRAME => self.frame.write,
        };
        BulkRequest { endpoint_address: endpoint.address, timeout_ms: BULK_TIMEOUT_MS }
    }

    /// Judge a bulk transfer's outcome: a completion yields its byte count —
    /// a short read is accepted, not an error — while a timeout or transport
    /// failure surfaces as `BulkTransferFailed`.  The session, its armed
    /// flags included, is unchanged either way; no channel is re-armed
    /// automatically.
    pub fn bulk_transfer_result(&mut self, outcome: TransferOutcome) -> (r: Result<
        usize,
        FlirError,
    >)
        ensures
            *final(self) == *old(self),
            (outcome matches TransferOutcome::Completed(n) ==> r == Ok::<usize, FlirError>(n)),
            !(outcome is Completed) ==> r == Err::<usize, FlirError>(FlirError::BulkTransferFailed),
    {
        match outcome {
            TransferOutcome::Completed(n) => Ok(n),
            TransferOutcome::TimedOut => Err(FlirError::BulkTransferFailed),
            TransferOutcome::Failed => Err(FlirError::BulkTransferFailed),
        }
    }
}

/// Connecting is idempotent: across two consecutive `connect` calls exactly
/// one FILEIO start toggle is requested when the session began disconnected,
/// and none at all when it began connected; the second call never requests a
/// transfer and never moves the session.
pub proof fn lemma_connect_idempotent(
    s0: FlirOne,
    s1: FlirOne,
    r1: Option<ControlRequest>,
    s2: FlirOne,
    r2: Option<ControlRequest>,
)
    requires
        connect_post(s0, s1, r1),
        connect_post(s1, s2, r2),
    ensures
        r2 is None,
        s2 == s1,
        !s0.connected ==> r1 == Some(toggle_request(ProtocolType::FILEIO, true)),
        s0.connected ==> r1 is None,
{
}

/// Refuse to bind any device other than the FLIR One: success exactly on its
/// vendor and product ids, `DeviceNotFound` otherwise.
pub fn check_device_identity(vendor_id: u16, product_id: u16) -> (r: Result<(), FlirError>)
    ensures
        r is Ok <==> (vendor_id == FLIR_VENDOR_ID && product_id == FLIR_PRODUCT_ID),
        !(vendor_id == FLIR_VENDOR_ID && product_id == FLIR_PRODUCT_ID) ==> r == Err::<
            (),
            FlirError,
        >(FlirError::DeviceNotFound),
{
    if vendor_id == FLIR_VENDOR_ID && product_id == FLIR_PRODUCT_ID {
        Ok(())
    } else {
        Err(FlirError::DeviceNotFound)
    }
}

} // verus!
