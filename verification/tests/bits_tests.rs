//! The bit-order adapter: known reversals and the round trip.

use psx_controller::flip;

#[test]
fn flip_known_values() {
    let mut v = vec![0x01, 0x80, 0xff, 0x00, 0x42, 0xa5];
    flip(&mut v);
    assert_eq!(v, vec![0x80, 0x01, 0xff, 0x00, 0x42, 0xa5]);
}

#[test]
fn flip_twice_restores_buffer() {
    let original: Vec<u8> = (0u16..256).map(|b| b as u8).collect();
    let mut v = original.clone();
    flip(&mut v);
    flip(&mut v);
    assert_eq!(v, original);
}

#[test]
fn flip_agrees_with_bit_reversal() {
    for b in 0u16..256 {
        let mut v = vec![b as u8];
        flip(&mut v);
        assert_eq!(v[0], (b as u8).reverse_bits());
    }
}
