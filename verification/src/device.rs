//! Device classification. The second byte of a poll response (the tag byte)
//! says which controller variant produced the frame; the third byte must
//! hold the acknowledge value for every variant except an absent device.

use vstd::prelude::*;

use crate::gamepad::Classic;
use crate::gamepad::DualShock;
use crate::gamepad::DualShock2;
use crate::gamepad::GuitarHero;
use crate::gamepad::classic_matches;
use crate::gamepad::dualshock2_matches;
use crate::gamepad::dualshock_matches;

verus! {

/// Acknowledgement byte expected in the third byte of every response from a
/// present device.
pub const ACK_BYTE: u8 = 0x5a;

/// Length of the command and response header.
pub const HEADER_LEN: usize = 3;

/// Tag byte: controller missing.
pub const CONTROLLER_NOT_PRESENT: u8 = 0xff;

/// Tag byte: original controller, SCPH-1080.
pub const CONTROLLER_CLASSIC: u8 = 0xc1;

/// Tag byte: DualShock in digital mode.
pub const CONTROLLER_DUALSHOCK_DIGITAL: u8 = 0x41;

/// Tag byte: DualShock in analog mode.
pub const CONTROLLER_DUALSHOCK_ANALOG: u8 = 0x73;

/// Tag byte: DualShock 2.
pub const CONTROLLER_DUALSHOCK_PRESSURE: u8 = 0x79;

/// Tag byte: configuration mode.
pub const CONTROLLER_CONFIGURATION: u8 = 0xf3;

/// Possible devices that can be returned by the poll command to the
/// controller. The variant is re-derived from the tag byte on every poll and
/// never cached.
pub enum Device {
    /// No device answered the poll
    Absent,
    /// A controller type not in the known tag table
    Unknown,
    /// The controller is waiting for configuration data. Users of the
    /// library should never need to see this state.
    ConfigurationMode,
    /// Original controller that shipped with the PlayStation. Only contains
    /// regular buttons. DualShock 1 and 2 can emulate this mode.
    Classic(Classic),
    /// Controller with two analog sticks
    DualShock(DualShock),
    /// Controller with two analog sticks and pressure-sensitive buttons
    DualShock2(DualShock2),
    /// Guitar controller; never selected by the classifier because its tag
    /// byte collides with the dual-analog controller
    GuitarHero(GuitarHero),
}

/// What interpreting a poll response must yield. `None` stands for a
/// structurally invalid frame: a present device that did not acknowledge.
/// For every response exactly one outcome satisfies this predicate, so it
/// pins the classifier down completely:
/// tag 0xFF gives Absent with the acknowledge byte ignored; any other tag
/// with a bad acknowledge byte is rejected; otherwise 0xF3 gives
/// configuration mode, 0xC1 and 0x41 give Classic, 0x73 gives DualShock,
/// 0x79 gives DualShock2, and anything else gives Unknown, with each
/// payload decoded from the bytes after the header.
pub open spec fn poll_outcome(resp: Seq<u8>, r: Option<Device>) -> bool {
    match r {
        Option::None => resp[1] != CONTROLLER_NOT_PRESENT && resp[2] != ACK_BYTE,
        Option::Some(d) => match d {
            Device::Absent => resp[1] == CONTROLLER_NOT_PRESENT,
            Device::ConfigurationMode => resp[1] == CONTROLLER_CONFIGURATION && resp[2]
                == ACK_BYTE,
            Device::Classic(c) => (resp[1] == CONTROLLER_CLASSIC || resp[1]
                == CONTROLLER_DUALSHOCK_DIGITAL) && resp[2] == ACK_BYTE && classic_matches(
                c,
                resp.skip(HEADER_LEN as int),
            ),
            Device::DualShock(d1) => resp[1] == CONTROLLER_DUALSHOCK_ANALOG && resp[2] == ACK_BYTE
                && dualshock_matches(d1, resp.skip(HEADER_LEN as int)),
            Device::DualShock2(d2) => resp[1] == CONTROLLER_DUALSHOCK_PRESSURE && resp[2]
                == ACK_BYTE && dualshock2_matches(d2, resp.skip(HEADER_LEN as int)),
            Device::GuitarHero(g) => false,
            Device::Unknown => resp[2] == ACK_BYTE && resp[1] != CONTROLLER_NOT_PRESENT && resp[1]
                != CONTROLLER_CONFIGURATION && resp[1] != CONTROLLER_CLASSIC && resp[1]
                != CONTROLLER_DUALSHOCK_DIGITAL && resp[1] != CONTROLLER_DUALSHOCK_ANALOG && resp[1]
                != CONTROLLER_DUALSHOCK_PRESSURE,
        },
    }
}

/// Acknowledge validation: whenever a device other than an absent one
/// answered and the acknowledge byte is wrong, the response is rejected,
/// whatever the tag byte said.
pub proof fn lemma_missing_ack_rejected(resp: Seq<u8>, r: Option<Device>)
    requires
        poll_outcome(resp, r),
        resp[1] != CONTROLLER_NOT_PRESENT,
        resp[2] != ACK_BYTE,
    ensures
        r is None,
{
}

/// Classifies a poll response and decodes its payload. Returns `None` when
/// a present device failed to acknowledge the poll; every tag byte outside
/// the known table yields `Device::Unknown` rather than a failure.
pub fn interpret_poll_response(resp: &Vec<u8>) -> (r: Option<Device>)
    requires
        resp@.len() >= 17,
    ensures
        poll_outcome(resp@, r),
{
    let tag = resp[1];
    if tag == CONTROLLER_NOT_PRESENT {
        return Option::Some(Device::Absent);
    }
    if resp[2] != ACK_BYTE {
        return Option::None;
    }
    let payload = tail_from(resp, HEADER_LEN);
    if tag == CONTROLLER_CONFIGURATION {
        Option::Some(Device::ConfigurationMode)
    } else if tag == CONTROLLER_CLASSIC || tag == CONTROLLER_DUALSHOCK_DIGITAL {
        Option::Some(Device::Classic(Classic::from_payload(&payload)))
    } else if tag == CONTROLLER_DUALSHOCK_ANALOG {
        Option::Some(Device::DualShock(DualShock::from_payload(&payload)))
    } else if tag == CONTROLLER_DUALSHOCK_PRESSURE {
        Option::Some(Device::DualShock2(DualShock2::from_payload(&payload)))
    } else {
        Option::Some(Device::Unknown)
    }
}

/// Copies the bytes of `v` from `start` onward into a fresh vector.
fn tail_from(v: &Vec<u8>, start: usize) -> (r: Vec<u8>)
    requires
        start <= v@.len(),
    ensures
        r@ == v@.skip(start as int),
{
    let mut r: Vec<u8> = Vec::new();
    let mut i: usize = start;
    while i < v.len()
        invariant
            start <= i <= v@.len(),
            r@ =~= v@.subrange(start as int, i as int),
        decreases v@.len() - i,
    {
        r.push(v[i]);
        i = i + 1;
    }
    assert(r@ =~= v@.skip(start as int));
    r
}

} // verus!
