//! Whole transactions against scripted hardware: wire format, select-line
//! discipline, sequencer bracketing, capture offsets, error propagation.

use psx_controller::ControllerConfiguration;
use psx_controller::Device;
use psx_controller::Error;
use psx_controller::MockBus;
use psx_controller::MockPin;
use psx_controller::PlayStationPort;

/// Bit-reverses every byte: to or from wire order.
fn w(bytes: &[u8]) -> Vec<u8> {
    bytes.iter().map(|b| b.reverse_bits()).collect()
}

/// A 32-byte response frame in wire order.
fn scripted(tag: u8, ack: u8, payload: &[u8]) -> Vec<u8> {
    let mut r = vec![0u8; 32];
    r[0] = 0xff;
    r[1] = tag;
    r[2] = ack;
    r[3..3 + payload.len()].copy_from_slice(payload);
    w(&r)
}

/// The natural-order head of a recorded wire frame.
fn sent_head(frame: &[u8], len: usize) -> Vec<u8> {
    w(&frame[..len])
}

#[test]
fn new_port_deasserts_select() {
    let port = PlayStationPort::new(MockBus::new(Vec::new(), None), MockPin::new());
    let (_, pin) = port.free();
    assert!(pin.sits_high());
    assert_eq!(*pin.recorded_levels(), vec![true]);
}

#[test]
fn send_command_puts_wire_order_on_the_bus() {
    let mut port = PlayStationPort::new(MockBus::new(Vec::new(), None), MockPin::new());
    let mut buffer = vec![0u8; 8];
    let r = port.send_command(&[0x01, 0x42, 0x00], &mut buffer);
    assert!(r.is_ok());
    let (bus, pin) = port.free();
    let frames = bus.sent_frames();
    assert_eq!(frames.len(), 1);
    // 0x01 travels as 0x80: least-significant bit first on the wire.
    assert_eq!(frames[0], vec![0x80, 0x42, 0x00, 0, 0, 0, 0, 0]);
    assert!(pin.sits_high());
    assert_eq!(*pin.recorded_levels(), vec![true, false, true]);
}

#[test]
fn send_command_echoes_script_back_in_natural_order() {
    let script = vec![w(&[0xff, 0x41, 0x5a, 0xfe, 0xff])];
    let mut port = PlayStationPort::new(MockBus::new(script, None), MockPin::new());
    let mut buffer = vec![0u8; 5];
    let r = port.send_command(&[0x01, 0x42, 0x00], &mut buffer);
    assert!(r.is_ok());
    assert_eq!(buffer, vec![0xff, 0x41, 0x5a, 0xfe, 0xff]);
}

#[test]
fn send_command_round_trips_with_exact_length_buffer() {
    // With no scripted answer the bus leaves the sent bytes in place, so
    // the two bit-order corrections must hand the command itself back.
    let mut port = PlayStationPort::new(MockBus::new(Vec::new(), None), MockPin::new());
    let mut buffer = vec![0u8; 3];
    let r = port.send_command(&[0x01, 0x42, 0x00], &mut buffer);
    assert!(r.is_ok());
    assert_eq!(buffer, vec![0x01, 0x42, 0x00]);
}

#[test]
fn read_input_decodes_pressure_controller() {
    let script = vec![scripted(
        0x79,
        0x5a,
        &[0xff, 0xfe, 5, 6, 7, 8, 31, 32, 33, 34, 35, 36, 37, 38],
    )];
    let mut port = PlayStationPort::new(MockBus::new(script, None), MockPin::new());
    match port.read_input() {
        Ok(Device::DualShock2(ds2)) => {
            // The field is 0xfeff: only bit 8 is clear, the L2 button.
            assert!(ds2.buttons.l2());
            assert!(!ds2.buttons.left());
            assert_eq!(ds2.rx, 5);
            assert_eq!(ds2.ry, 6);
            assert_eq!(ds2.lx, 7);
            assert_eq!(ds2.ly, 8);
            assert_eq!(ds2.pressures, [31, 32, 33, 34, 35, 36, 37, 38]);
        }
        _ => panic!("expected a pressure-sensitive controller"),
    }
}

#[test]
fn read_input_classifies_scripted_controller() {
    let script = vec![scripted(0x41, 0x5a, &[0xfe, 0xff])];
    let mut port = PlayStationPort::new(MockBus::new(script, None), MockPin::new());
    match port.read_input() {
        Ok(Device::Classic(c)) => {
            assert!(c.buttons.select());
            assert!(!c.buttons.square());
        }
        _ => panic!("expected a classic controller"),
    }
    let (bus, pin) = port.free();
    assert_eq!(sent_head(&bus.sent_frames()[0], 3), vec![0x01, 0x42, 0x00]);
    assert!(pin.sits_high());
}

#[test]
fn read_input_reports_absent_device() {
    let script = vec![scripted(0xff, 0x00, &[])];
    let mut port = PlayStationPort::new(MockBus::new(script, None), MockPin::new());
    assert!(matches!(port.read_input(), Ok(Device::Absent)));
}

#[test]
fn read_input_rejects_missing_ack() {
    let script = vec![scripted(0x73, 0x00, &[0xff, 0xff, 1, 2, 3, 4])];
    let mut port = PlayStationPort::new(MockBus::new(script, None), MockPin::new());
    assert!(matches!(port.read_input(), Err(Error::BadResponse)));
}

#[test]
fn read_input_wraps_bus_error_and_releases_select() {
    let mut port = PlayStationPort::new(MockBus::new(Vec::new(), Some(0)), MockPin::new());
    assert!(matches!(port.read_input(), Err(Error::Spi(0))));
    let (_, pin) = port.free();
    // The select line does not stay low on the error path.
    assert!(pin.sits_high());
    assert_eq!(*pin.recorded_levels(), vec![true, false, true]);
}

#[test]
fn read_config_captures_fixed_offsets() {
    let script = vec![
        scripted(0xf3, 0x5a, &[]),
        // Read-status response: offsets 3 to 8 land in the status block.
        scripted(0xf3, 0x5a, &[1, 2, 3, 4, 5, 6]),
        // Read-constant responses: offsets 4 to 8 land in each block.
        scripted(0xf3, 0x5a, &[0, 11, 12, 13, 14, 15]),
        scripted(0xf3, 0x5a, &[0, 21, 22, 23, 24, 25]),
        scripted(0xf3, 0x5a, &[0, 31, 32, 33, 34, 35]),
        scripted(0xf3, 0x5a, &[0, 41, 42, 43, 44, 45]),
        scripted(0xf3, 0x5a, &[0, 51, 52, 53, 54, 55]),
        scripted(0xf3, 0x5a, &[]),
    ];
    let mut port = PlayStationPort::new(MockBus::new(script, None), MockPin::new());
    let config = port.read_config().ok().expect("read_config failed");
    assert_eq!(config.status, [1, 2, 3, 4, 5, 6]);
    assert_eq!(config.const1a, [11, 12, 13, 14, 15]);
    assert_eq!(config.const1b, [21, 22, 23, 24, 25]);
    assert_eq!(config.const2, [31, 32, 33, 34, 35]);
    assert_eq!(config.const3a, [41, 42, 43, 44, 45]);
    assert_eq!(config.const3b, [51, 52, 53, 54, 55]);
}

#[test]
fn read_config_brackets_reads_in_escape_mode() {
    // Unexpected tag bytes do not disturb the sequence: the sequencer never
    // classifies, it only captures fixed ranges.
    let script = vec![scripted(0x12, 0x00, &[9, 9, 9, 9, 9, 9]); 8];
    let mut port = PlayStationPort::new(MockBus::new(script, None), MockPin::new());
    assert!(port.read_config().is_ok());
    let (bus, pin) = port.free();
    let frames = bus.sent_frames();
    assert_eq!(frames.len(), 8);
    for frame in frames {
        assert_eq!(frame.len(), 32);
    }
    assert_eq!(sent_head(&frames[0], 5), vec![0x01, 0x43, 0x00, 0x01, 0x00]);
    assert_eq!(
        sent_head(&frames[1], 9),
        vec![0x01, 0x45, 0x00, 0x5a, 0x5a, 0x5a, 0x5a, 0x5a, 0x5a]
    );
    assert_eq!(
        sent_head(&frames[2], 9),
        vec![0x01, 0x46, 0x00, 0x00, 0x5a, 0x5a, 0x5a, 0x5a, 0x5a]
    );
    assert_eq!(
        sent_head(&frames[3], 9),
        vec![0x01, 0x46, 0x00, 0x01, 0x5a, 0x5a, 0x5a, 0x5a, 0x5a]
    );
    assert_eq!(
        sent_head(&frames[4], 9),
        vec![0x01, 0x47, 0x00, 0x00, 0x5a, 0x5a, 0x5a, 0x5a, 0x5a]
    );
    assert_eq!(
        sent_head(&frames[5], 9),
        vec![0x01, 0x4c, 0x00, 0x00, 0x5a, 0x5a, 0x5a, 0x5a, 0x5a]
    );
    assert_eq!(
        sent_head(&frames[6], 9),
        vec![0x01, 0x4c, 0x00, 0x01, 0x5a, 0x5a, 0x5a, 0x5a, 0x5a]
    );
    assert_eq!(sent_head(&frames[7], 5), vec![0x01, 0x43, 0x00, 0x00, 0x00]);
    // One assertion of the select line per transaction, released each time.
    let mut expected_levels = vec![true];
    for _ in 0..8 {
        expected_levels.push(false);
        expected_levels.push(true);
    }
    assert_eq!(*pin.recorded_levels(), expected_levels);
}

#[test]
fn read_config_aborts_on_bus_error() {
    let mut port = PlayStationPort::new(MockBus::new(Vec::new(), Some(2)), MockPin::new());
    assert!(matches!(port.read_config(), Err(2)));
    let (bus, pin) = port.free();
    // Enter escape mode, read status, and the failed read: three exchanges.
    assert_eq!(bus.sent_frames().len(), 3);
    assert!(pin.sits_high());
}

#[test]
fn enable_pressure_issues_expected_sequence() {
    let mut port = PlayStationPort::new(MockBus::new(Vec::new(), None), MockPin::new());
    assert!(port.enable_pressure().is_ok());
    let (bus, pin) = port.free();
    let frames = bus.sent_frames();
    assert_eq!(frames.len(), 6);
    assert_eq!(sent_head(&frames[0], 3), vec![0x01, 0x42, 0x00]);
    assert_eq!(sent_head(&frames[1], 5), vec![0x01, 0x43, 0x00, 0x01, 0x00]);
    assert_eq!(
        sent_head(&frames[2], 9),
        vec![0x01, 0x44, 0x00, 0x01, 0x00, 0x00, 0x00, 0x00, 0x00]
    );
    assert_eq!(
        sent_head(&frames[3], 9),
        vec![0x01, 0x40, 0x00, 0x00, 0x02, 0x00, 0x00, 0x00, 0x00]
    );
    assert_eq!(
        sent_head(&frames[4], 9),
        vec![0x01, 0x4f, 0x00, 0xff, 0xff, 0x03, 0x00, 0x00, 0x00]
    );
    assert_eq!(sent_head(&frames[5], 5), vec![0x01, 0x43, 0x00, 0x00, 0x00]);
    assert!(pin.sits_high());
}

#[test]
fn enable_pressure_stops_at_first_bus_error() {
    let mut port = PlayStationPort::new(MockBus::new(Vec::new(), Some(1)), MockPin::new());
    assert!(matches!(port.enable_pressure(), Err(1)));
    let (bus, pin) = port.free();
    assert_eq!(bus.sent_frames().len(), 2);
    assert!(pin.sits_high());
}

#[test]
fn bus_error_converts_into_spi_error() {
    let e: Error<usize> = Error::from(7);
    assert!(matches!(e, Error::Spi(7)));
}

#[test]
fn default_configuration_is_all_zero() {
    let config = ControllerConfiguration::default();
    assert_eq!(config.status, [0; 6]);
    assert_eq!(config.const1a, [0; 5]);
    assert_eq!(config.const1b, [0; 5]);
    assert_eq!(config.const2, [0; 5]);
    assert_eq!(config.const3a, [0; 5]);
    assert_eq!(config.const3b, [0; 5]);
}
