use flirone::binder::bind_endpoints;
use flirone::binder::FlirOneBuilder;
use flirone::endpoints::channel_for;
use flirone::endpoints::Direction;
use flirone::endpoints::EndpointRef;
use flirone::endpoints::ProtocolType;
use flirone::errors::FlirError;
use flirone::session::check_device_identity;
use flirone::session::FlirOne;
use flirone::session::TransferOutcome;
use flirone::session::BULK_TIMEOUT_MS;
use flirone::session::CONTROL_REQUEST_TOGGLE;
use flirone::session::CONTROL_REQUEST_TYPE;
use flirone::session::CONTROL_TIMEOUT_MS;
use flirone::session::FLIR_PRODUCT_ID;
use flirone::session::FLIR_VENDOR_ID;

fn ep(address: u8, direction: Direction, number: u8) -> EndpointRef {
    EndpointRef { address, direction, number }
}

fn valid_endpoints() -> Vec<EndpointRef> {
    vec![
        ep(0x81, Direction::In, 1),
        ep(0x02, Direction::Out, 2),
        ep(0x83, Direction::In, 3),
        ep(0x04, Direction::Out, 4),
        ep(0x85, Direction::In, 5),
        ep(0x06, Direction::Out, 6),
    ]
}

fn bound_session() -> FlirOne {
    bind_endpoints(&valid_endpoints()).unwrap()
}

#[test]
fn bind_valid_set_succeeds() {
    let f = bind_endpoints(&valid_endpoints()).unwrap();
    assert_eq!(f.config.read, ep(0x81, Direction::In, 1));
    assert_eq!(f.config.write, ep(0x02, Direction::Out, 2));
    assert_eq!(f.fileio.read, ep(0x83, Direction::In, 3));
    assert_eq!(f.fileio.write, ep(0x04, Direction::Out, 4));
    assert_eq!(f.frame.read, ep(0x85, Direction::In, 5));
    assert_eq!(f.frame.write, ep(0x06, Direction::Out, 6));
    assert!(!f.connected);
    assert!(!f.expect_file_data);
    assert!(!f.expect_frame_data);
}

#[test]
fn bind_ignores_enumeration_order() {
    let mut shuffled = valid_endpoints();
    shuffled.reverse();
    shuffled.swap(0, 3);
    shuffled.swap(1, 4);
    let a = bind_endpoints(&valid_endpoints()).unwrap();
    let b = bind_endpoints(&shuffled).unwrap();
    assert_eq!(a, b);
}

#[test]
fn bind_missing_each_slot_names_it() {
    let expected = [
        (0, ProtocolType::CONFIG, Direction::In),
        (1, ProtocolType::CONFIG, Direction::Out),
        (2, ProtocolType::FILEIO, Direction::In),
        (3, ProtocolType::FILEIO, Direction::Out),
        (4, ProtocolType::FRAME, Direction::In),
        (5, ProtocolType::FRAME, Direction::Out),
    ];
    for (skip, channel, direction) in expected {
        let mut endpoints = valid_endpoints();
        endpoints.remove(skip);
        let r = bind_endpoints(&endpoints);
        assert_eq!(r, Err(FlirError::MissingEndpoint(channel, direction)));
    }
}

#[test]
fn bind_empty_set_misses_config_read() {
    let r = bind_endpoints(&Vec::new());
    assert_eq!(
        r,
        Err(FlirError::MissingEndpoint(ProtocolType::CONFIG, Direction::In))
    );
}

#[test]
fn bind_missing_several_names_first_in_check_order() {
    // Only the CONFIG pair present: frame is reported before fileio.
    let endpoints = vec![ep(0x81, Direction::In, 1), ep(0x02, Direction::Out, 2)];
    let r = bind_endpoints(&endpoints);
    assert_eq!(
        r,
        Err(FlirError::MissingEndpoint(ProtocolType::FRAME, Direction::In))
    );
}

#[test]
fn bind_rejects_number_above_six() {
    let mut endpoints = valid_endpoints();
    endpoints.push(ep(0x87, Direction::In, 7));
    let r = bind_endpoints(&endpoints);
    assert_eq!(r, Err(FlirError::UnexpectedEndpoint(Direction::In, 7)));
}

#[test]
fn bind_rejects_number_zero() {
    let endpoints = vec![ep(0x00, Direction::Out, 0)];
    let r = bind_endpoints(&endpoints);
    assert_eq!(r, Err(FlirError::UnexpectedEndpoint(Direction::Out, 0)));
}

#[test]
fn bind_rejects_wrong_direction_for_number() {
    // Endpoint number 2 exists on this device, but only host-to-device.
    let endpoints = vec![ep(0x82, Direction::In, 2)];
    let r = bind_endpoints(&endpoints);
    assert_eq!(r, Err(FlirError::UnexpectedEndpoint(Direction::In, 2)));
}

#[test]
fn bind_reports_first_unexpected_endpoint() {
    let endpoints = vec![
        ep(0x81, Direction::In, 1),
        ep(0x88, Direction::Out, 8),
        ep(0x87, Direction::In, 7),
    ];
    let r = bind_endpoints(&endpoints);
    assert_eq!(r, Err(FlirError::UnexpectedEndpoint(Direction::Out, 8)));
}

#[test]
fn channel_table_matches_numbering_scheme() {
    assert_eq!(channel_for(Direction::In, 1), Some(ProtocolType::CONFIG));
    assert_eq!(channel_for(Direction::Out, 2), Some(ProtocolType::CONFIG));
    assert_eq!(channel_for(Direction::In, 3), Some(ProtocolType::FILEIO));
    assert_eq!(channel_for(Direction::Out, 4), Some(ProtocolType::FILEIO));
    assert_eq!(channel_for(Direction::In, 5), Some(ProtocolType::FRAME));
    assert_eq!(channel_for(Direction::Out, 6), Some(ProtocolType::FRAME));
    assert_eq!(channel_for(Direction::Out, 1), None);
    assert_eq!(channel_for(Direction::In, 6), None);
    assert_eq!(channel_for(Direction::In, 0), None);
    assert_eq!(channel_for(Direction::Out, 7), None);
}

#[test]
fn builder_fills_slots_one_by_one() {
    let r = FlirOneBuilder::new()
        .config_read(ep(0x81, Direction::In, 1))
        .config_write(ep(0x02, Direction::Out, 2))
        .frame_read(ep(0x85, Direction::In, 5))
        .frame_write(ep(0x06, Direction::Out, 6))
        .fileio_read(ep(0x83, Direction::In, 3))
        .fileio_write(ep(0x04, Direction::Out, 4))
        .build();
    let f = r.unwrap();
    assert_eq!(f.config.read.address, 0x81);
    assert_eq!(f.fileio.write.address, 0x04);
    assert!(!f.connected);
}

#[test]
fn builder_build_without_any_slot_fails() {
    let r = FlirOneBuilder::new().build();
    assert_eq!(
        r,
        Err(FlirError::MissingEndpoint(ProtocolType::CONFIG, Direction::In))
    );
}

#[test]
fn builder_build_missing_fileio_write_fails() {
    let r = FlirOneBuilder::new()
        .config_read(ep(0x81, Direction::In, 1))
        .config_write(ep(0x02, Direction::Out, 2))
        .frame_read(ep(0x85, Direction::In, 5))
        .frame_write(ep(0x06, Direction::Out, 6))
        .fileio_read(ep(0x83, Direction::In, 3))
        .build();
    assert_eq!(
        r,
        Err(FlirError::MissingEndpoint(ProtocolType::FILEIO, Direction::Out))
    );
}

#[test]
fn toggle_frame_start_encodes_value_one_index_two() {
    let mut f = bound_session();
    let req = f.toggle_communication(ProtocolType::FRAME, true);
    assert_eq!(req.request_type, CONTROL_REQUEST_TYPE);
    assert_eq!(req.request, CONTROL_REQUEST_TOGGLE);
    assert_eq!(req.value, 1);
    assert_eq!(req.index, 2);
    assert_eq!(req.timeout_ms, CONTROL_TIMEOUT_MS);
}

#[test]
fn toggle_frame_stop_encodes_value_zero_index_two() {
    let mut f = bound_session();
    let req = f.toggle_communication(ProtocolType::FRAME, false);
    assert_eq!(req.value, 0);
    assert_eq!(req.index, 2);
}

#[test]
fn toggle_config_encodes_index_zero_and_arms_nothing() {
    let mut f = bound_session();
    let req = f.toggle_communication(ProtocolType::CONFIG, true);
    assert_eq!(req.value, 1);
    assert_eq!(req.index, 0);
    assert!(!f.expect_file_data);
    assert!(!f.expect_frame_data);
}

#[test]
fn toggle_fileio_encodes_index_one_and_arms_file_channel() {
    let mut f = bound_session();
    let req = f.toggle_communication(ProtocolType::FILEIO, true);
    assert_eq!(req.value, 1);
    assert_eq!(req.index, 1);
    assert!(f.expect_file_data);
    assert!(!f.expect_frame_data);
}

#[test]
fn toggle_marks_intent_before_outcome_is_known() {
    // The armed flag records the intent to enable as soon as the transfer is
    // encoded, and a failed transfer does not roll it back.
    let mut f = bound_session();
    let _req = f.toggle_communication(ProtocolType::FRAME, true);
    assert!(f.expect_frame_data);
    let r = f.control_transfer_result(TransferOutcome::TimedOut);
    assert_eq!(r, Err(FlirError::ControlTransferFailed));
    assert!(f.expect_frame_data);
}

#[test]
fn connect_twice_requests_one_fileio_toggle() {
    let mut f = bound_session();
    let first = f.connect();
    let req = first.expect("first connect must request the FILEIO toggle");
    assert_eq!(req.request_type, CONTROL_REQUEST_TYPE);
    assert_eq!(req.request, CONTROL_REQUEST_TOGGLE);
    assert_eq!(req.value, 1);
    assert_eq!(req.index, 1);
    assert!(f.connected);
    assert!(f.expect_file_data);
    let second = f.connect();
    assert_eq!(second, None);
    assert!(f.connected);
}

#[test]
fn connect_arms_fileio_but_not_frame() {
    let mut f = bound_session();
    f.connect();
    assert!(f.expect_file_data);
    assert!(!f.expect_frame_data);
}

#[test]
fn control_transfer_completion_succeeds() {
    let mut f = bound_session();
    let r = f.control_transfer_result(TransferOutcome::Completed(0));
    assert_eq!(r, Ok(()));
}

#[test]
fn control_transfer_failure_surfaces() {
    let mut f = bound_session();
    assert_eq!(
        f.control_transfer_result(TransferOutcome::Failed),
        Err(FlirError::ControlTransferFailed)
    );
    assert_eq!(
        f.control_transfer_result(TransferOutcome::TimedOut),
        Err(FlirError::ControlTransferFailed)
    );
}

#[test]
fn bulk_read_request_uses_in_endpoint_and_long_timeout() {
    let f = bound_session();
    let config = f.bulk_read_request(ProtocolType::CONFIG);
    assert_eq!(config.endpoint_address, 0x81);
    assert_eq!(config.timeout_ms, BULK_TIMEOUT_MS);
    let frame = f.bulk_read_request(ProtocolType::FRAME);
    assert_eq!(frame.endpoint_address, 0x85);
    let fileio = f.bulk_read_request(ProtocolType::FILEIO);
    assert_eq!(fileio.endpoint_address, 0x83);
}

#[test]
fn bulk_write_request_uses_out_endpoint() {
    let f = bound_session();
    let config = f.bulk_write_request(ProtocolType::CONFIG);
    assert_eq!(config.endpoint_address, 0x02);
    assert_eq!(config.timeout_ms, BULK_TIMEOUT_MS);
    let fileio = f.bulk_write_request(ProtocolType::FILEIO);
    assert_eq!(fileio.endpoint_address, 0x04);
    let frame = f.bulk_write_request(ProtocolType::FRAME);
    assert_eq!(frame.endpoint_address, 0x06);
}

#[test]
fn short_read_is_accepted() {
    // 37 bytes arriving for a 4096-byte buffer is a success, not an error.
    let mut f = bound_session();
    let r = f.bulk_transfer_result(TransferOutcome::Completed(37));
    assert_eq!(r, Ok(37));
}

#[test]
fn bulk_timeout_fails_and_leaves_flags_alone() {
    let mut f = bound_session();
    f.connect();
    f.toggle_communication(ProtocolType::FRAME, true);
    let before = f;
    let r = f.bulk_transfer_result(TransferOutcome::TimedOut);
    assert_eq!(r, Err(FlirError::BulkTransferFailed));
    assert_eq!(f, before);
    assert!(f.expect_file_data);
    assert!(f.expect_frame_data);
}

#[test]
fn bulk_transport_error_fails() {
    let mut f = bound_session();
    let r = f.bulk_transfer_result(TransferOutcome::Failed);
    assert_eq!(r, Err(FlirError::BulkTransferFailed));
}

#[test]
fn disconnect_requests_stop_for_each_armed_channel() {
    let mut f = bound_session();
    f.connect();
    f.toggle_communication(ProtocolType::FRAME, true);
    let reqs = f.disconnect();
    assert_eq!(reqs.len(), 2);
    assert_eq!(reqs[0].value, 0);
    assert_eq!(reqs[0].index, 1);
    assert_eq!(reqs[1].value, 0);
    assert_eq!(reqs[1].index, 2);
    assert!(!f.connected);
    assert!(!f.expect_file_data);
    assert!(!f.expect_frame_data);
}

#[test]
fn disconnect_idle_session_requests_nothing() {
    let mut f = bound_session();
    let reqs = f.disconnect();
    assert!(reqs.is_empty());
    assert!(!f.connected);
}

#[test]
fn device_identity_accepts_only_the_flir_one() {
    assert_eq!(check_device_identity(FLIR_VENDOR_ID, FLIR_PRODUCT_ID), Ok(()));
    assert_eq!(
        check_device_identity(0x09CB, 0x1997),
        Err(FlirError::DeviceNotFound)
    );
    assert_eq!(
        check_device_identity(0x09CC, 0x1996),
        Err(FlirError::DeviceNotFound)
    );
    assert_eq!(
        check_device_identity(0x0000, 0x0000),
        Err(FlirError::DeviceNotFound)
    );
}
