//! Controller variants and their payloads. A poll response carries a
//! three-byte header (idle byte, tag byte, acknowledge byte) followed by a
//! payload whose shape depends on the tag byte. The payload always starts
//! with a 16-bit active-low button field; analog variants append stick and
//! pressure bytes. Payloads are decoded field by field from fixed offsets,
//! never by reinterpreting storage.

use vstd::prelude::*;

verus! {

/// The 16-bit little-endian word formed by two payload bytes.
pub open spec fn word(lo: u8, hi: u8) -> u16 {
    (lo as u16) | ((hi as u16) << 8)
}

/// The digital buttons of the gamepad, one bit per button. A bit that is 0
/// means the button is pressed (the field is active-low); a variant that
/// lacks a physical button for some bit carries that bit permanently 1.
#[derive(Clone, Copy)]
pub struct GamepadButtons {
    pub(crate) data: u16,
}

impl View for GamepadButtons {
    type V = u16;

    closed spec fn view(&self) -> u16 {
        self.data
    }
}

/// A collection of helper functions to take the button bitfield and make
/// them more ergonomic to use. Buttons are active low, so each accessor
/// compares its bit to zero.
impl GamepadButtons {
    /// A button on the controller
    pub fn select(&self) -> (r: bool)
        ensures
            r == (self@ & 0x0001 == 0),
    {
        self.data & 0x0001 == 0
    }

    /// A button on the controller
    pub fn l3(&self) -> (r: bool)
        ensures
            r == (self@ & 0x0002 == 0),
    {
        self.data & 0x0002 == 0
    }

    /// A button on the controller
    pub fn r3(&self) -> (r: bool)
        ensures
            r == (self@ & 0x0004 == 0),
    {
        self.data & 0x0004 == 0
    }

    /// A button on the controller
    pub fn start(&self) -> (r: bool)
        ensures
            r == (self@ & 0x0008 == 0),
    {
        self.data & 0x0008 == 0
    }

    /// A button on the controller
    pub fn up(&self) -> (r: bool)
        ensures
            r == (self@ & 0x0010 == 0),
    {
        self.data & 0x0010 == 0
    }

    /// A button on the controller
    pub fn right(&self) -> (r: bool)
        ensures
            r == (self@ & 0x0020 == 0),
    {
        self.data & 0x0020 == 0
    }

    /// A button on the controller
    pub fn down(&self) -> (r: bool)
        ensures
            r == (self@ & 0x0040 == 0),
    {
        self.data & 0x0040 == 0
    }

    /// A button on the controller
    pub fn left(&self) -> (r: bool)
        ensures
            r == (self@ & 0x0080 == 0),
    {
        self.data & 0x0080 == 0
    }

    /// A button on the controller
    pub fn l2(&self) -> (r: bool)
        ensures
            r == (self@ & 0x0100 == 0),
    {
        self.data & 0x0100 == 0
    }

    /// A button on the controller
    pub fn r2(&self) -> (r: bool)
        ensures
            r == (self@ & 0x0200 == 0),
    {
        self.data & 0x0200 == 0
    }

    /// A button on the controller
    pub fn l1(&self) -> (r: bool)
        ensures
            r == (self@ & 0x0400 == 0),
    {
        self.data & 0x0400 == 0
    }

    /// A button on the controller
    pub fn r1(&self) -> (r: bool)
        ensures
            r == (self@ & 0x0800 == 0),
    {
        self.data & 0x0800 == 0
    }

    /// A button on the controller
    pub fn triangle(&self) -> (r: bool)
        ensures
            r == (self@ & 0x1000 == 0),
    {
        self.data & 0x1000 == 0
    }

    /// A button on the controller
    pub fn circle(&self) -> (r: bool)
        ensures
            r == (self@ & 0x2000 == 0),
    {
        self.data & 0x2000 == 0
    }

    /// A button on the controller
    pub fn cross(&self) -> (r: bool)
        ensures
            r == (self@ & 0x4000 == 0),
    {
        self.data & 0x4000 == 0
    }

    /// A button on the controller
    pub fn square(&self) -> (r: bool)
        ensures
            r == (self@ & 0x8000 == 0),
    {
        self.data & 0x8000 == 0
    }

    /// The raw value of the buttons on the controller. Useful for aggregate
    /// functions.
    pub fn bits(&self) -> (r: u16)
        ensures
            r == self@,
    {
        self.data
    }
}

/// Many controllers have the same set of buttons (Square, Circle, L3, R1,
/// and so on). The devices that do have these buttons implement this trait.
/// Despite the original controller not having L3 and R3, they are brought
/// out regardless and just considered unpressable.
pub trait HasStandardButtons {
    /// The raw button field of the device.
    spec fn button_bits(&self) -> u16;

    /// A copy of the device's button field.
    fn buttons(&self) -> (r: GamepadButtons)
        ensures
            r@ == self.button_bits(),
    ;
}

/// Represents the classic controller: a button field and nothing more.
pub struct Classic {
    /// Standard buttons (Cross, Circle, L3, Start)
    pub buttons: GamepadButtons,
}

/// A classic payload decoded from the given bytes: the button field and
/// nothing more.
pub open spec fn classic_matches(c: Classic, p: Seq<u8>) -> bool {
    c.buttons@ == word(p[0], p[1])
}

impl Classic {
    /// Decodes a classic payload from the head of the given bytes.
    pub fn from_payload(p: &Vec<u8>) -> (c: Classic)
        requires
            p@.len() >= 2,
        ensures
            classic_matches(c, p@),
    {
        Classic { buttons: GamepadButtons { data: (p[0] as u16) | ((p[1] as u16) << 8) } }
    }
}

impl HasStandardButtons for Classic {
    open spec fn button_bits(&self) -> u16 {
        self.buttons@
    }

    fn buttons(&self) -> (r: GamepadButtons) {
        GamepadButtons { data: self.buttons.data }
    }
}

/// Represents the dual-analog controller: the button field followed by the
/// four stick bytes.
pub struct DualShock {
    /// Standard buttons (Cross, Circle, L3, Start)
    pub buttons: GamepadButtons,
    /// Right analog stick, left and right
    pub rx: u8,
    /// Right analog stick, up and down
    pub ry: u8,
    /// Left analog stick, left and right
    pub lx: u8,
    /// Left analog stick, up and down
    pub ly: u8,
}

/// A dual-analog payload decoded from the given bytes: the button field in
/// bytes 0 and 1, then right-stick X and Y, then left-stick X and Y.
pub open spec fn dualshock_matches(d: DualShock, p: Seq<u8>) -> bool {
    &&& d.buttons@ == word(p[0], p[1])
    &&& d.rx == p[2]
    &&& d.ry == p[3]
    &&& d.lx == p[4]
    &&& d.ly == p[5]
}

impl DualShock {
    /// Decodes a dual-analog payload from the head of the given bytes.
    pub fn from_payload(p: &Vec<u8>) -> (d: DualShock)
        requires
            p@.len() >= 6,
        ensures
            dualshock_matches(d, p@),
    {
        DualShock {
            buttons: GamepadButtons { data: (p[0] as u16) | ((p[1] as u16) << 8) },
            rx: p[2],
            ry: p[3],
            lx: p[4],
            ly: p[5],
        }
    }
}

impl HasStandardButtons for DualShock {
    open spec fn button_bits(&self) -> u16 {
        self.buttons@
    }

    fn buttons(&self) -> (r: GamepadButtons) {
        GamepadButtons { data: self.buttons.data }
    }
}

/// Represents the pressure-sensitive controller: the button field, the four
/// stick bytes, and eight per-button pressure readings.
pub struct DualShock2 {
    /// Standard buttons (Cross, Circle, L3, Start)
    pub buttons: GamepadButtons,
    /// Right analog stick, left and right
    pub rx: u8,
    /// Right analog stick, up and down
    pub ry: u8,
    /// Left analog stick, left and right
    pub lx: u8,
    /// Left analog stick, up and down
    pub ly: u8,
    /// List of possible pressure readings from the buttons
    pub pressures: [u8; 8],
}

/// A pressure-sensitive payload decoded from the given bytes: the
/// dual-analog layout followed by the eight pressure bytes.
pub open spec fn dualshock2_matches(d: DualShock2, p: Seq<u8>) -> bool {
    &&& d.buttons@ == word(p[0], p[1])
    &&& d.rx == p[2]
    &&& d.ry == p[3]
    &&& d.lx == p[4]
    &&& d.ly == p[5]
    &&& forall|i: int| 0 <= i < 8 ==> d.pressures@[i] == p[6 + i]
}

impl DualShock2 {
    /// Decodes a pressure-sensitive payload from the head of the given bytes.
    pub fn from_payload(p: &Vec<u8>) -> (d: DualShock2)
        requires
            p@.len() >= 14,
        ensures
            dualshock2_matches(d, p@),
    {
        DualShock2 {
            buttons: GamepadButtons { data: (p[0] as u16) | ((p[1] as u16) << 8) },
            rx: p[2],
            ry: p[3],
            lx: p[4],
            ly: p[5],
            pressures: [p[6], p[7], p[8], p[9], p[10], p[11], p[12], p[13]],
        }
    }
}

impl HasStandardButtons for DualShock2 {
    open spec fn button_bits(&self) -> u16 {
        self.buttons@
    }

    fn buttons(&self) -> (r: GamepadButtons) {
        GamepadButtons { data: self.buttons.data }
    }
}

/// Represents a guitar controller. Its button word uses different semantics
/// from the standard set, and the tag byte alone cannot tell it apart from a
/// dual-analog controller, so the classifier never selects this shape; the
/// definition is retained for callers that disambiguate by other means.
pub struct GuitarHero {
    /// The buttons, currently not mapped
    pub buttons: u16,
    /// Padding bytes between the button word and the whammy byte
    pub padding: [u8; 3],
    /// The whammy bar's current position
    pub whammy: u8,
}

/// A guitar payload decoded from the given bytes: the button word, three
/// padding bytes, then the whammy byte.
pub open spec fn guitar_matches(g: GuitarHero, p: Seq<u8>) -> bool {
    &&& g.buttons == word(p[0], p[1])
    &&& forall|i: int| 0 <= i < 3 ==> g.padding@[i] == p[2 + i]
    &&& g.whammy == p[5]
}

impl GuitarHero {
    /// Decodes a guitar payload from the head of the given bytes.
    pub fn from_payload(p: &Vec<u8>) -> (g: GuitarHero)
        requires
            p@.len() >= 6,
        ensures
            guitar_matches(g, p@),
    {
        GuitarHero {
            buttons: (p[0] as u16) | ((p[1] as u16) << 8),
            padding: [p[2], p[3], p[4]],
            whammy: p[5],
        }
    }
}

} // verus!
