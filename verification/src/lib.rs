//! Driver for the PlayStation accessory port: a synchronous serial bus that
//! carries fixed-format command frames to a game controller and returns
//! response frames describing which controller variant is attached and what
//! state its buttons and sticks are in.

mod bits;
mod device;
mod gamepad;
mod mock;
mod port;
mod protocol;

pub use mock::MockBus;
pub use mock::MockPin;

pub use port::ControllerConfiguration;
pub use port::DuplexTransfer;
pub use port::Error;
pub use port::LoggedBus;
pub use port::LoggedPin;
pub use port::PlayStationPort;
pub use port::PortEvent;
pub use port::SelectPin;
pub use port::all_zero;
pub use port::lemma_discipline_extends;
pub use port::select_disciplined;
pub use port::transaction_events;

pub use protocol::MESSAGE_MAX_LENGTH;
pub use protocol::config_commands;
pub use protocol::enter_escape_cmd;
pub use protocol::exit_escape_cmd;
pub use protocol::init_pressure_cmd;
pub use protocol::overwrite_prefix;
pub use protocol::poll_cmd;
pub use protocol::pressure_commands;
pub use protocol::read_const1a_cmd;
pub use protocol::read_const1b_cmd;
pub use protocol::read_const2_cmd;
pub use protocol::read_const3a_cmd;
pub use protocol::read_const3b_cmd;
pub use protocol::read_status_cmd;
pub use protocol::response_format_cmd;
pub use protocol::sends;
pub use protocol::set_mode_cmd;
pub use protocol::transcript_follows;
pub use protocol::zero_buffer;
pub use protocol::zero_padded;

pub use device::ACK_BYTE;
pub use device::CONTROLLER_CLASSIC;
pub use device::CONTROLLER_CONFIGURATION;
pub use device::CONTROLLER_DUALSHOCK_ANALOG;
pub use device::CONTROLLER_DUALSHOCK_DIGITAL;
pub use device::CONTROLLER_DUALSHOCK_PRESSURE;
pub use device::CONTROLLER_NOT_PRESENT;
pub use device::Device;
pub use device::HEADER_LEN;
pub use device::interpret_poll_response;
pub use device::poll_outcome;

pub use gamepad::Classic;
pub use gamepad::DualShock;
pub use gamepad::DualShock2;
pub use gamepad::GamepadButtons;
pub use gamepad::GuitarHero;
pub use gamepad::HasStandardButtons;
pub use gamepad::classic_matches;
pub use gamepad::dualshock2_matches;
pub use gamepad::dualshock_matches;
pub use gamepad::guitar_matches;
pub use gamepad::word;

pub use bits::flip;
pub use bits::lemma_rev8_involution;
pub use bits::lemma_wire_involution;
pub use bits::rev8;
pub use bits::wire;
pub use device::lemma_missing_ack_rejected;
