use chron_dpi::codec::decode_config_response;
use chron_dpi::codec::decode_set_preset_ack;
use chron_dpi::codec::encode_query_command;
use chron_dpi::codec::encode_set_preset_command;
use chron_dpi::engine::MouseDevice;
use chron_dpi::error::ProtocolError;
use chron_dpi::mock::MockEvent;
use chron_dpi::mock::MockTransport;

/// A well-formed 64-byte configuration response: header echo at bytes 1..3,
/// presets little-endian at 6..16, active index at 4, flags at 31..37.
fn config_response(presets: [u16; 5], current_index: u8, flags: [u8; 6]) -> Vec<u8> {
    let mut data = vec![0u8; 64];
    data[1] = 0x06;
    data[2] = 0x00;
    data[4] = current_index;
    for (i, p) in presets.iter().enumerate() {
        let le = p.to_le_bytes();
        data[6 + 2 * i] = le[0];
        data[7 + 2 * i] = le[1];
    }
    data[31..37].copy_from_slice(&flags);
    data
}

#[test]
fn query_command_layout() {
    let cmd = encode_query_command();
    assert_eq!(cmd.len(), 64);
    assert_eq!(cmd[0], 0xB3);
    assert_eq!(cmd[1], 0x06);
    assert_eq!(cmd[2], 0x00);
    assert!(cmd[3..].iter().all(|&b| b == 0x00));
}

#[test]
fn set_preset_command_layout() {
    let cmd = encode_set_preset_command(2).unwrap();
    let expected = [
        0xB5, 0x40, 0x02, 0x02, 0x02, 0x90, 0x01, 0xB0, 0x04, 0x78, 0x05, 0xD0, 0x07, 0x88,
        0x13, 0x05, 0x00, 0x00, 0x00, 0x00, 0x00,
    ];
    assert_eq!(cmd, expected);
}

#[test]
fn set_preset_command_rejects_out_of_range() {
    match encode_set_preset_command(5) {
        Err(ProtocolError::InvalidPresetIndex { index }) => assert_eq!(index, 5),
        other => panic!("expected InvalidPresetIndex, got {:?}", other),
    }
}

#[test]
fn decode_yields_exact_presets() {
    let data = config_response([1000, 2000, 3000, 4000, 5000], 2, [1, 2, 3, 4, 5, 6]);
    let config = decode_config_response(data).unwrap();
    assert_eq!(config.presets, [1000, 2000, 3000, 4000, 5000]);
    assert_eq!(config.current_index, 2);
    assert_eq!(config.enabled_flags, [1, 2, 3, 4, 5, 6]);
}

#[test]
fn decode_rejects_short_buffer() {
    let data = vec![0u8; 36];
    match decode_config_response(data) {
        Err(ProtocolError::ShortResponse) => {}
        other => panic!("expected ShortResponse, got {:?}", other),
    }
}

#[test]
fn decode_rejects_bad_command_echo() {
    let mut data = config_response([1000, 2000, 3000, 4000, 5000], 0, [0; 6]);
    data[1] = 0x07;
    match decode_config_response(data) {
        Err(ProtocolError::InvalidResponseHeader { cmd, status }) => {
            assert_eq!(cmd, 0x07);
            assert_eq!(status, 0x00);
        }
        other => panic!("expected InvalidResponseHeader, got {:?}", other),
    }
}

#[test]
fn decode_rejects_bad_status() {
    let mut data = config_response([1000, 2000, 3000, 4000, 5000], 0, [0; 6]);
    data[2] = 0x01;
    match decode_config_response(data) {
        Err(ProtocolError::InvalidResponseHeader { cmd, status }) => {
            assert_eq!(cmd, 0x06);
            assert_eq!(status, 0x01);
        }
        other => panic!("expected InvalidResponseHeader, got {:?}", other),
    }
}

#[test]
fn ack_accepts_leading_b6() {
    let mut ack = vec![0u8; 20];
    ack[0] = 0xB6;
    assert!(decode_set_preset_ack(ack).is_ok());
}

#[test]
fn ack_rejects_all_zeros() {
    let ack = vec![0u8; 20];
    match decode_set_preset_ack(ack) {
        Err(ProtocolError::UnexpectedAcknowledgement { response }) => {
            assert_eq!(response, vec![0u8; 20]);
        }
        other => panic!("expected UnexpectedAcknowledgement, got {:?}", other),
    }
}

#[test]
fn ack_rejects_leading_b5() {
    let mut ack = vec![0u8; 20];
    ack[0] = 0xB5;
    match decode_set_preset_ack(ack) {
        Err(ProtocolError::UnexpectedAcknowledgement { response }) => {
            assert_eq!(response[0], 0xB5);
        }
        other => panic!("expected UnexpectedAcknowledgement, got {:?}", other),
    }
}

#[test]
fn ack_empty_is_no_response() {
    match decode_set_preset_ack(Vec::new()) {
        Err(ProtocolError::NoResponse) => {}
        other => panic!("expected NoResponse, got {:?}", other),
    }
}

#[test]
fn query_reads_configuration() {
    let mut transport = MockTransport::new();
    transport
        .responses
        .push(Some(config_response([800, 1600, 2400, 3200, 6400], 1, [0; 6])));
    let mut device = MouseDevice::new(transport);
    let config = device.get_dpi_config().unwrap();
    assert_eq!(config.presets, [800, 1600, 2400, 3200, 6400]);
    assert_eq!(config.current_index, 1);
}

#[test]
fn query_sends_three_times_before_reading() {
    let mut transport = MockTransport::new();
    transport
        .responses
        .push(Some(config_response([800, 1600, 2400, 3200, 6400], 0, [0; 6])));
    let mut device = MouseDevice::new(transport);
    device.get_dpi_config().unwrap();
    let events = &device.transport.events;
    assert_eq!(events.len(), 4);
    let expected_cmd = encode_query_command();
    for event in &events[..3] {
        match event {
            MockEvent::Write { report, written } => {
                assert_eq!(report, &expected_cmd);
                assert!(written.is_some());
            }
            other => panic!("expected a write, got {:?}", other),
        }
    }
    assert!(matches!(events[3], MockEvent::Read { .. }));
}

#[test]
fn query_sends_three_times_despite_write_errors() {
    let mut transport = MockTransport::new();
    transport.fail_writes = true;
    transport
        .responses
        .push(Some(config_response([800, 1600, 2400, 3200, 6400], 0, [0; 6])));
    let mut device = MouseDevice::new(transport);
    let config = device.get_dpi_config().unwrap();
    assert_eq!(config.presets, [800, 1600, 2400, 3200, 6400]);
    let events = &device.transport.events;
    assert_eq!(events.len(), 4);
    for event in &events[..3] {
        match event {
            MockEvent::Write { written, .. } => assert!(written.is_none()),
            other => panic!("expected a write, got {:?}", other),
        }
    }
    assert!(matches!(events[3], MockEvent::Read { .. }));
}

#[test]
fn query_timeout_is_no_response() {
    let mut device = MouseDevice::new(MockTransport::new());
    match device.get_dpi_config() {
        Err(ProtocolError::NoResponse) => {}
        other => panic!("expected NoResponse, got {:?}", other),
    }
}

#[test]
fn query_read_failure_is_transport_error() {
    let mut transport = MockTransport::new();
    transport.responses.push(None);
    let mut device = MouseDevice::new(transport);
    match device.get_dpi_config() {
        Err(ProtocolError::Transport) => {}
        other => panic!("expected Transport, got {:?}", other),
    }
}

#[test]
fn set_preset_rejects_index_five_without_io() {
    let mut device = MouseDevice::new(MockTransport::new());
    match device.set_active_dpi_preset(5) {
        Err(ProtocolError::InvalidPresetIndex { index }) => assert_eq!(index, 5),
        other => panic!("expected InvalidPresetIndex, got {:?}", other),
    }
    assert_eq!(device.transport.events.len(), 0);
}

#[test]
fn set_preset_rejects_index_255_without_io() {
    let mut device = MouseDevice::new(MockTransport::new());
    match device.set_active_dpi_preset(255) {
        Err(ProtocolError::InvalidPresetIndex { index }) => assert_eq!(index, 255),
        other => panic!("expected InvalidPresetIndex, got {:?}", other),
    }
    assert_eq!(device.transport.events.len(), 0);
}

#[test]
fn set_preset_drains_sends_once_and_accepts_ack() {
    let mut transport = MockTransport::new();
    let mut ack = vec![0u8; 20];
    ack[0] = 0xB6;
    transport.responses.push(Some(ack));
    let mut device = MouseDevice::new(transport);
    device.set_active_dpi_preset(3).unwrap();
    let events = &device.transport.events;
    assert_eq!(events.len(), 4);
    assert!(matches!(
        events[0],
        MockEvent::SetBlocking { blocking: false, accepted: true }
    ));
    assert!(matches!(events[1], MockEvent::Drain));
    match &events[2] {
        MockEvent::Write { report, written } => {
            assert_eq!(report, &encode_set_preset_command(3).unwrap());
            assert!(written.is_some());
        }
        other => panic!("expected a write, got {:?}", other),
    }
    assert!(matches!(events[3], MockEvent::Read { .. }));
}

#[test]
fn set_preset_rejected_ack_carries_buffer() {
    let mut transport = MockTransport::new();
    transport.responses.push(Some(vec![0u8; 20]));
    let mut device = MouseDevice::new(transport);
    match device.set_active_dpi_preset(0) {
        Err(ProtocolError::UnexpectedAcknowledgement { response }) => {
            assert_eq!(response, vec![0u8; 20]);
        }
        other => panic!("expected UnexpectedAcknowledgement, got {:?}", other),
    }
}

#[test]
fn set_preset_timeout_is_no_response() {
    let mut device = MouseDevice::new(MockTransport::new());
    match device.set_active_dpi_preset(0) {
        Err(ProtocolError::NoResponse) => {}
        other => panic!("expected NoResponse, got {:?}", other),
    }
}

#[test]
fn set_preset_write_failure_is_transport_error() {
    let mut transport = MockTransport::new();
    transport.fail_writes = true;
    let mut device = MouseDevice::new(transport);
    match device.set_active_dpi_preset(0) {
        Err(ProtocolError::Transport) => {}
        other => panic!("expected Transport, got {:?}", other),
    }
    assert_eq!(device.transport.events.len(), 3);
}

#[test]
fn set_preset_blocking_switch_failure_stops_early() {
    let mut transport = MockTransport::new();
    transport.fail_set_blocking = true;
    let mut device = MouseDevice::new(transport);
    match device.set_active_dpi_preset(0) {
        Err(ProtocolError::Transport) => {}
        other => panic!("expected Transport, got {:?}", other),
    }
    assert_eq!(device.transport.events.len(), 1);
    assert!(matches!(
        device.transport.events[0],
        MockEvent::SetBlocking { blocking: false, accepted: false }
    ));
}

#[test]
fn long_report_is_truncated_to_read_limit() {
    let mut transport = MockTransport::new();
    let mut ack = vec![0u8; 64];
    ack[0] = 0xB6;
    transport.responses.push(Some(ack));
    let mut device = MouseDevice::new(transport);
    device.set_active_dpi_preset(1).unwrap();
    match &device.transport.events[3] {
        MockEvent::Read { received: Some(data) } => assert_eq!(data.len(), 20),
        other => panic!("expected a successful read, got {:?}", other),
    }
}

#[test]
fn device_info_roundtrip() {
    let mut transport = MockTransport::new();
    transport.responses.push(Some(vec![0u8; 21]));
    let mut device = MouseDevice::new(transport);
    device.get_device_info().unwrap();
    let events = &device.transport.events;
    assert_eq!(events.len(), 2);
    match &events[0] {
        MockEvent::Write { report, .. } => {
            assert_eq!(report.len(), 21);
            assert_eq!(report[0], 0xB5);
            assert_eq!(report[1], 0x02);
            assert!(report[2..].iter().all(|&b| b == 0x00));
        }
        other => panic!("expected a write, got {:?}", other),
    }
}

#[test]
fn device_info_timeout_is_ok() {
    let mut device = MouseDevice::new(MockTransport::new());
    assert!(device.get_device_info().is_ok());
}

#[test]
fn device_info_write_failure_is_transport_error() {
    let mut transport = MockTransport::new();
    transport.fail_writes = true;
    let mut device = MouseDevice::new(transport);
    match device.get_device_info() {
        Err(ProtocolError::Transport) => {}
        other => panic!("expected Transport, got {:?}", other),
    }
    assert_eq!(device.transport.events.len(), 1);
}
