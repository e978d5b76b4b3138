//! The command catalog: the fixed byte sequences of every supported
//! operation, and the vocabulary used to describe what a transaction puts on
//! the wire. Every command starts with the device-address byte 0x01 and the
//! command code in byte 1.

use vstd::prelude::*;

use crate::bits::wire;

verus! {

/// The maximum length of a message from a controller.
pub const MESSAGE_MAX_LENGTH: usize = 32;

/// Command to poll buttons.
pub open spec fn poll_cmd() -> Seq<u8> {
    seq![0x01u8, 0x42u8, 0x00u8]
}

/// Command to enter escape mode.
pub open spec fn enter_escape_cmd() -> Seq<u8> {
    seq![0x01u8, 0x43u8, 0x00u8, 0x01u8, 0x00u8]
}

/// Command to exit escape mode.
pub open spec fn exit_escape_cmd() -> Seq<u8> {
    seq![0x01u8, 0x43u8, 0x00u8, 0x00u8, 0x00u8]
}

/// Command to set the response format; asks for the full payload.
pub open spec fn response_format_cmd() -> Seq<u8> {
    seq![0x01u8, 0x4fu8, 0x00u8, 0xffu8, 0xffu8, 0x03u8, 0x00u8, 0x00u8, 0x00u8]
}

/// Command to initialize pressure readings.
pub open spec fn init_pressure_cmd() -> Seq<u8> {
    seq![0x01u8, 0x40u8, 0x00u8, 0x00u8, 0x02u8, 0x00u8, 0x00u8, 0x00u8, 0x00u8]
}

/// Command to set the major mode (analog rather than digital).
pub open spec fn set_mode_cmd() -> Seq<u8> {
    seq![0x01u8, 0x44u8, 0x00u8, 0x01u8, 0x00u8, 0x00u8, 0x00u8, 0x00u8, 0x00u8]
}

/// Command to read extended status.
pub open spec fn read_status_cmd() -> Seq<u8> {
    seq![0x01u8, 0x45u8, 0x00u8, 0x5au8, 0x5au8, 0x5au8, 0x5au8, 0x5au8, 0x5au8]
}

/// Command to read constant 1 at address 00.
pub open spec fn read_const1a_cmd() -> Seq<u8> {
    seq![0x01u8, 0x46u8, 0x00u8, 0x00u8, 0x5au8, 0x5au8, 0x5au8, 0x5au8, 0x5au8]
}

/// Command to read constant 1 at address 01.
pub open spec fn read_const1b_cmd() -> Seq<u8> {
    seq![0x01u8, 0x46u8, 0x00u8, 0x01u8, 0x5au8, 0x5au8, 0x5au8, 0x5au8, 0x5au8]
}

/// Command to read constant 2 at address 00.
pub open spec fn read_const2_cmd() -> Seq<u8> {
    seq![0x01u8, 0x47u8, 0x00u8, 0x00u8, 0x5au8, 0x5au8, 0x5au8, 0x5au8, 0x5au8]
}

/// Command to read constant 3 at address 00.
pub open spec fn read_const3a_cmd() -> Seq<u8> {
    seq![0x01u8, 0x4cu8, 0x00u8, 0x00u8, 0x5au8, 0x5au8, 0x5au8, 0x5au8, 0x5au8]
}

/// Command to read constant 3 at address 01.
pub open spec fn read_const3b_cmd() -> Seq<u8> {
    seq![0x01u8, 0x4cu8, 0x00u8, 0x01u8, 0x5au8, 0x5au8, 0x5au8, 0x5au8, 0x5au8]
}

/// The commands that `enable_pressure` issues, in order: a poll to wake the
/// device, then the configuration steps bracketed by enter and exit escape
/// mode.
pub open spec fn pressure_commands() -> Seq<Seq<u8>> {
    seq![
        poll_cmd(),
        enter_escape_cmd(),
        set_mode_cmd(),
        init_pressure_cmd(),
        response_format_cmd(),
        exit_escape_cmd(),
    ]
}

/// The commands that `read_config` issues, in order: the six reads
/// bracketed by enter and exit escape mode.
pub open spec fn config_commands() -> Seq<Seq<u8>> {
    seq![
        enter_escape_cmd(),
        read_status_cmd(),
        read_const1a_cmd(),
        read_const1b_cmd(),
        read_const2_cmd(),
        read_const3a_cmd(),
        read_const3b_cmd(),
        exit_escape_cmd(),
    ]
}

/// The buffer as it stands after the command is copied over its head.
pub open spec fn overwrite_prefix(dst: Seq<u8>, src: Seq<u8>) -> Seq<u8> {
    src + dst.skip(src.len() as int)
}

/// An all-zero transaction buffer of full length.
pub open spec fn zero_buffer() -> Seq<u8> {
    Seq::new(MESSAGE_MAX_LENGTH as nat, |i: int| 0u8)
}

/// A command padded with zeroes to the full buffer length.
pub open spec fn zero_padded(cmd: Seq<u8>) -> Seq<u8> {
    overwrite_prefix(zero_buffer(), cmd)
}

/// One bus exchange, as the bus transcript records it: the bytes that went
/// out and the bytes that came back, both still in wire (bit-reversed) order.
/// The exchange carried the given command when the buffer was of full length
/// and its head was the command's wire form.
pub open spec fn sends(e: (Seq<u8>, Seq<u8>), cmd: Seq<u8>) -> bool {
    &&& e.0.len() == MESSAGE_MAX_LENGTH
    &&& e.1.len() == MESSAGE_MAX_LENGTH
    &&& e.0.take(cmd.len() as int) == wire(cmd)
}

/// The exchanges carried the given commands, in order. Holds of a partial
/// transcript too: a sequence that stopped after any prefix of the commands.
pub open spec fn transcript_follows(entries: Seq<(Seq<u8>, Seq<u8>)>, cmds: Seq<Seq<u8>>) -> bool {
    &&& entries.len() <= cmds.len()
    &&& forall|i: int| 0 <= i < entries.len() ==> sends(#[trigger] entries[i], cmds[i])
}

/// Builds the poll command.
pub(crate) fn build_poll() -> (v: Vec<u8>)
    ensures
        v@ == poll_cmd(),
{
    let mut v: Vec<u8> = Vec::new();
    v.push(0x01);
    v.push(0x42);
    v.push(0x00);
    assert(v@ =~= poll_cmd());
    v
}

/// Builds the enter-escape-mode or exit-escape-mode command.
pub(crate) fn build_escape(enter: bool) -> (v: Vec<u8>)
    ensures
        enter ==> v@ == enter_escape_cmd(),
        !enter ==> v@ == exit_escape_cmd(),
{
    let mut v: Vec<u8> = Vec::new();
    v.push(0x01);
    v.push(0x43);
    v.push(0x00);
    v.push(if enter { 0x01 } else { 0x00 });
    v.push(0x00);
    assert(enter ==> v@ =~= enter_escape_cmd());
    assert(!enter ==> v@ =~= exit_escape_cmd());
    v
}

/// Builds one of the nine-byte commands: the header, two argument bytes,
/// and a five-byte tail of one repeated filler byte.
fn build_nine(code: u8, arg0: u8, arg1: u8, filler: u8) -> (v: Vec<u8>)
    ensures
        v@ == seq![0x01u8, code, 0x00u8, arg0, arg1, filler, filler, filler, filler],
{
    let mut v: Vec<u8> = Vec::new();
    v.push(0x01);
    v.push(code);
    v.push(0x00);
    v.push(arg0);
    v.push(arg1);
    v.push(filler);
    v.push(filler);
    v.push(filler);
    v.push(filler);
    assert(v@ =~= seq![0x01u8, code, 0x00u8, arg0, arg1, filler, filler, filler, filler]);
    v
}

/// Builds the set-response-format command.
pub(crate) fn build_response_format() -> (v: Vec<u8>)
    ensures
        v@ == response_format_cmd(),
{
    let mut v: Vec<u8> = Vec::new();
    v.push(0x01);
    v.push(0x4f);
    v.push(0x00);
    v.push(0xff);
    v.push(0xff);
    v.push(0x03);
    v.push(0x00);
    v.push(0x00);
    v.push(0x00);
    assert(v@ =~= response_format_cmd());
    v
}

/// Builds the initialize-pressure command.
pub(crate) fn build_init_pressure() -> (v: Vec<u8>)
    ensures
        v@ == init_pressure_cmd(),
{
    let v = build_nine(0x40, 0x00, 0x02, 0x00);
    assert(v@ =~= init_pressure_cmd());
    v
}

/// Builds the set-major-mode command.
pub(crate) fn build_set_mode() -> (v: Vec<u8>)
    ensures
        v@ == set_mode_cmd(),
{
    let v = build_nine(0x44, 0x01, 0x00, 0x00);
    assert(v@ =~= set_mode_cmd());
    v
}

/// Builds the read-status command.
pub(crate) fn build_read_status() -> (v: Vec<u8>)
    ensures
        v@ == read_status_cmd(),
{
    let v = build_nine(0x45, 0x5a, 0x5a, 0x5a);
    assert(v@ =~= read_status_cmd());
    v
}

/// Builds a read-constant command: the read code and the address byte.
pub(crate) fn build_read_const(code: u8, address: u8) -> (v: Vec<u8>)
    ensures
        v@ == seq![0x01u8, code, 0x00u8, address, 0x5au8, 0x5au8, 0x5au8, 0x5au8, 0x5au8],
{
    let v = build_nine(code, address, 0x5a, 0x5a);
    assert(v@ =~= seq![0x01u8, code, 0x00u8, address, 0x5au8, 0x5au8, 0x5au8, 0x5au8, 0x5au8]);
    v
}

/// A buffer whose head was overwritten with a command puts the command's
/// wire form at the head of the wire.
pub proof fn lemma_prefix_on_wire(dst: Seq<u8>, cmd: Seq<u8>)
    requires
        cmd.len() <= dst.len(),
    ensures
        wire(overwrite_prefix(dst, cmd)).len() == dst.len(),
        wire(overwrite_prefix(dst, cmd)).take(cmd.len() as int) == wire(cmd),
{
    assert(wire(overwrite_prefix(dst, cmd)).take(cmd.len() as int) =~= wire(cmd));
}

} // verus!
