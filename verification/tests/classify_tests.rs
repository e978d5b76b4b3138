//! Classification of poll responses: tag table, acknowledge validation.

use psx_controller::Device;
use psx_controller::HasStandardButtons;
use psx_controller::interpret_poll_response;

/// A 32-byte poll response: idle byte, tag, acknowledge, then the payload.
fn response(tag: u8, ack: u8, payload: &[u8]) -> Vec<u8> {
    let mut r = vec![0u8; 32];
    r[0] = 0xff;
    r[1] = tag;
    r[2] = ack;
    r[3..3 + payload.len()].copy_from_slice(payload);
    r
}

#[test]
fn classify_absent() {
    let r = interpret_poll_response(&response(0xff, 0x5a, &[]));
    assert!(matches!(r, Some(Device::Absent)));
}

#[test]
fn classify_absent_ignores_ack() {
    // An absent device is reported whatever the acknowledge byte holds.
    let r = interpret_poll_response(&response(0xff, 0x00, &[]));
    assert!(matches!(r, Some(Device::Absent)));
}

#[test]
fn classify_configuration_mode() {
    let r = interpret_poll_response(&response(0xf3, 0x5a, &[]));
    assert!(matches!(r, Some(Device::ConfigurationMode)));
}

#[test]
fn classify_classic() {
    let r = interpret_poll_response(&response(0xc1, 0x5a, &[0xfe, 0xff]));
    match r {
        Some(Device::Classic(c)) => assert!(c.buttons().select()),
        _ => panic!("expected a classic controller"),
    }
}

#[test]
fn classify_dualshock_digital_as_classic() {
    let r = interpret_poll_response(&response(0x41, 0x5a, &[0xff, 0x7f]));
    match r {
        Some(Device::Classic(c)) => assert!(c.buttons().square()),
        _ => panic!("expected a classic controller"),
    }
}

#[test]
fn classify_dualshock() {
    let r = interpret_poll_response(&response(0x73, 0x5a, &[0xff, 0xff, 11, 22, 33, 44]));
    match r {
        Some(Device::DualShock(ds)) => {
            assert_eq!(ds.rx, 11);
            assert_eq!(ds.ry, 22);
            assert_eq!(ds.lx, 33);
            assert_eq!(ds.ly, 44);
        }
        _ => panic!("expected a dual-analog controller"),
    }
}

#[test]
fn classify_dualshock2() {
    let payload = [
        0xff, 0xff, 1, 2, 3, 4, 91, 92, 93, 94, 95, 96, 97, 98,
    ];
    let r = interpret_poll_response(&response(0x79, 0x5a, &payload));
    match r {
        Some(Device::DualShock2(ds2)) => {
            assert_eq!(ds2.rx, 1);
            assert_eq!(ds2.ry, 2);
            assert_eq!(ds2.lx, 3);
            assert_eq!(ds2.ly, 4);
            assert_eq!(ds2.pressures, [91, 92, 93, 94, 95, 96, 97, 98]);
        }
        _ => panic!("expected a pressure-sensitive controller"),
    }
}

#[test]
fn classify_unknown_tag() {
    let r = interpret_poll_response(&response(0x12, 0x5a, &[]));
    assert!(matches!(r, Some(Device::Unknown)));
}

#[test]
fn missing_ack_rejected_for_any_tag() {
    // Any non-absent classification must fail without the acknowledge byte,
    // whatever the tag said.
    for tag in [0xf3u8, 0xc1, 0x41, 0x73, 0x79, 0x12] {
        let r = interpret_poll_response(&response(tag, 0x00, &[0xff, 0xff]));
        assert!(matches!(r, None), "tag {:#x} accepted a bad acknowledge", tag);
    }
}
