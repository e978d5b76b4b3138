//! Payload decoding and button accessors.

use psx_controller::Classic;
use psx_controller::DualShock;
use psx_controller::DualShock2;
use psx_controller::GuitarHero;
use psx_controller::HasStandardButtons;

#[test]
fn union_test() {
    // Again, buttons are active low, hence 'fe' and '7f'
    let payload = vec![0xfe, 0x7f, 0x00, 0x00, 0x00, 0xff];
    let ds = DualShock::from_payload(&payload);

    assert!(ds.buttons.select() == true);
    assert!(ds.buttons.square() == true);
    assert!(ds.lx == 0);
    assert!(ds.ly == 255);
}

#[test]
fn all_buttons_released() {
    let c = Classic::from_payload(&vec![0xff, 0xff]);
    let b = c.buttons();
    assert!(!b.select());
    assert!(!b.l3());
    assert!(!b.r3());
    assert!(!b.start());
    assert!(!b.up());
    assert!(!b.right());
    assert!(!b.down());
    assert!(!b.left());
    assert!(!b.l2());
    assert!(!b.r2());
    assert!(!b.l1());
    assert!(!b.r1());
    assert!(!b.triangle());
    assert!(!b.circle());
    assert!(!b.cross());
    assert!(!b.square());
    assert_eq!(b.bits(), 0xffff);
}

#[test]
fn all_buttons_pressed() {
    let c = Classic::from_payload(&vec![0x00, 0x00]);
    let b = c.buttons();
    assert!(b.select());
    assert!(b.l3());
    assert!(b.r3());
    assert!(b.start());
    assert!(b.up());
    assert!(b.right());
    assert!(b.down());
    assert!(b.left());
    assert!(b.l2());
    assert!(b.r2());
    assert!(b.l1());
    assert!(b.r1());
    assert!(b.triangle());
    assert!(b.circle());
    assert!(b.cross());
    assert!(b.square());
    assert_eq!(b.bits(), 0x0000);
}

#[test]
fn single_buttons_by_bit() {
    // Each case clears exactly one bit of the active-low field.
    let cases: [(u16, usize); 16] = [
        (0x0001, 0),
        (0x0002, 1),
        (0x0004, 2),
        (0x0008, 3),
        (0x0010, 4),
        (0x0020, 5),
        (0x0040, 6),
        (0x0080, 7),
        (0x0100, 8),
        (0x0200, 9),
        (0x0400, 10),
        (0x0800, 11),
        (0x1000, 12),
        (0x2000, 13),
        (0x4000, 14),
        (0x8000, 15),
    ];
    for (mask, which) in cases {
        let field = !mask;
        let payload = vec![(field & 0xff) as u8, (field >> 8) as u8];
        let b = Classic::from_payload(&payload).buttons();
        let read = [
            b.select(),
            b.l3(),
            b.r3(),
            b.start(),
            b.up(),
            b.right(),
            b.down(),
            b.left(),
            b.l2(),
            b.r2(),
            b.l1(),
            b.r1(),
            b.triangle(),
            b.circle(),
            b.cross(),
            b.square(),
        ];
        for (i, pressed) in read.iter().enumerate() {
            assert_eq!(*pressed, i == which, "bit {} read {}", which, i);
        }
    }
}

#[test]
fn dualshock2_payload_fields() {
    let payload = vec![
        0xfb, 0xff, 10, 20, 30, 40, 1, 2, 3, 4, 5, 6, 7, 8,
    ];
    let ds2 = DualShock2::from_payload(&payload);
    assert!(ds2.buttons().r3());
    assert_eq!(ds2.rx, 10);
    assert_eq!(ds2.ry, 20);
    assert_eq!(ds2.lx, 30);
    assert_eq!(ds2.ly, 40);
    assert_eq!(ds2.pressures, [1, 2, 3, 4, 5, 6, 7, 8]);
}

#[test]
fn guitar_payload_fields() {
    let payload = vec![0x12, 0x34, 0, 0, 0, 0x77];
    let gh = GuitarHero::from_payload(&payload);
    assert_eq!(gh.buttons, 0x3412);
    assert_eq!(gh.whammy, 0x77);
}
