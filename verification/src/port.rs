//! The port: the transaction primitive and the command sequencers.
//!
//! A transaction copies a command over the head of a reusable buffer, takes
//! the buffer to wire form (every byte bit-reversed), asserts the select
//! line low, performs one full-duplex exchange in which the same storage
//! receives the response, deasserts the select line, and restores natural
//! bit order. The select line is low only for the one exchange and is
//! driven high again even when the exchange fails.
//!
//! The two collaborator capabilities — the duplex transfer and the select
//! line — are consumed through the `DuplexTransfer` and `SelectPin` traits.
//! The port wraps each in a transcript keeper (`LoggedBus`, `LoggedPin`)
//! that records, in verified code, every exchange performed and every level
//! the line was driven to; every contract of the port is stated over those
//! transcripts.

use vstd::prelude::*;

use crate::bits::flip;
use crate::bits::wire;
use crate::device::Device;
use crate::device::interpret_poll_response;
use crate::device::poll_outcome;
use crate::protocol::MESSAGE_MAX_LENGTH;
use crate::protocol::build_escape;
use crate::protocol::build_init_pressure;
use crate::protocol::build_poll;
use crate::protocol::build_read_const;
use crate::protocol::build_read_status;
use crate::protocol::build_response_format;
use crate::protocol::build_set_mode;
use crate::protocol::config_commands;
use crate::protocol::lemma_prefix_on_wire;
use crate::protocol::overwrite_prefix;
use crate::protocol::poll_cmd;
use crate::protocol::pressure_commands;
use crate::protocol::sends;
use crate::protocol::transcript_follows;
use crate::protocol::zero_buffer;
use crate::protocol::zero_padded;

verus! {

/// A blocking full-duplex exchange over the serial bus: the buffer's bytes
/// are sent as they stand and the same storage receives the bytes that came
/// back, so the buffer keeps its length. This is a capability the driver
/// consumes, not something it implements: a hardware abstraction layer's
/// SPI peripheral stands behind it, and the one promise made here — the
/// length is preserved — is what a full-duplex word exchange does.
pub trait DuplexTransfer {
    /// The error the underlying transfer can fail with.
    type BusError;

    /// Exchanges the buffer's bytes for the device's answer, in place,
    /// blocking until done. The buffer keeps its length; its contents after
    /// a failed exchange are unspecified.
    fn transfer(&mut self, buffer: &mut Vec<u8>) -> (r: Result<(), Self::BusError>)
        ensures
            final(buffer)@.len() == old(buffer)@.len(),
    ;
}

/// A digital output pin: the second capability the driver consumes. The
/// driver uses it exclusively for the chip-select line.
pub trait SelectPin {
    /// Drives the pin high, deselecting the device.
    fn set_high(&mut self);

    /// Drives the pin low, selecting the device.
    fn set_low(&mut self);
}

/// The serial bus with its transcript: every exchange performed, as a pair
/// of the bytes that went out and the bytes that came in, both in wire
/// order, and beside it the outcome each exchange came back with. The
/// transcript is kept here, beside the raw capability, so that it is
/// maintained by verified code whatever the capability does.
pub struct LoggedBus<SPI: DuplexTransfer> {
    dev: SPI,
    history: Ghost<Seq<(Seq<u8>, Seq<u8>)>>,
    results: Ghost<Seq<Result<(), SPI::BusError>>>,
}

impl<SPI: DuplexTransfer> LoggedBus<SPI> {
    /// Every exchange this bus has performed, in order of occurrence.
    pub closed spec fn log(&self) -> Seq<(Seq<u8>, Seq<u8>)> {
        self.history@
    }

    /// The outcome of every exchange, in the same order: the result each
    /// transfer came back with, the error value included.
    pub closed spec fn results(&self) -> Seq<Result<(), SPI::BusError>> {
        self.results@
    }

    /// A fresh transcript around a raw transfer capability.
    fn new(dev: SPI) -> (bus: Self)
        ensures
            bus.log() == Seq::<(Seq<u8>, Seq<u8>)>::empty(),
            bus.results() == Seq::<Result<(), SPI::BusError>>::empty(),
    {
        LoggedBus { dev, history: Ghost(Seq::empty()), results: Ghost(Seq::empty()) }
    }

    /// One exchange, recorded: whether or not it succeeds, the transcript
    /// grows by exactly the bytes sent and the bytes that now sit in the
    /// buffer, and the outcome log by exactly the result handed back.
    fn transfer(&mut self, buffer: &mut Vec<u8>) -> (r: Result<(), SPI::BusError>)
        ensures
            final(buffer)@.len() == old(buffer)@.len(),
            final(self).log() == old(self).log().push((old(buffer)@, final(buffer)@)),
            final(self).results() == old(self).results().push(r),
    {
        let ghost sent = buffer@;
        let r = self.dev.transfer(buffer);
        self.history = Ghost(self.history@.push((sent, buffer@)));
        self.results = Ghost(self.results@.push(r));
        r
    }

    /// Releases the raw capability.
    fn release(self) -> SPI {
        self.dev
    }
}

/// The select line with its transcript: every level the line has been
/// driven to, in order, and the level it was driven to last. As with the
/// bus, the transcript is maintained by verified code.
pub struct LoggedPin<CS> {
    pin: CS,
    high: Ghost<bool>,
    levels: Ghost<Seq<bool>>,
}

impl<CS: SelectPin> LoggedPin<CS> {
    /// Every level the line has been driven to, in order: `true` for high.
    pub closed spec fn log(&self) -> Seq<bool> {
        self.levels@
    }

    /// Whether the line was last driven high (deasserted).
    pub closed spec fn is_high(&self) -> bool {
        self.high@
    }

    /// A fresh transcript around a raw pin, not yet driven anywhere.
    fn new(pin: CS) -> (r: Self)
        ensures
            r.log() == Seq::<bool>::empty(),
            !r.is_high(),
    {
        LoggedPin { pin, high: Ghost(false), levels: Ghost(Seq::empty()) }
    }

    /// Drives the line high, deselecting the device.
    fn set_high(&mut self)
        ensures
            final(self).is_high(),
            final(self).log() == old(self).log().push(true),
    {
        self.pin.set_high();
        self.high = Ghost(true);
        self.levels = Ghost(self.levels@.push(true));
    }

    /// Drives the line low, selecting the device.
    fn set_low(&mut self)
        ensures
            !final(self).is_high(),
            final(self).log() == old(self).log().push(false),
    {
        self.pin.set_low();
        self.high = Ghost(false);
        self.levels = Ghost(self.levels@.push(false));
    }

    /// Releases the raw pin.
    fn release(self) -> CS {
        self.pin
    }
}

/// One thing the port did to the hardware, in the joint order it did it:
/// the select line driven to a level, or one duplex exchange (the bytes
/// sent and the bytes received, in wire order).
pub enum PortEvent {
    /// The select line was driven to this level: `true` for high.
    Select(bool),
    /// One duplex exchange was performed.
    Exchange((Seq<u8>, Seq<u8>)),
}

/// The select-line discipline: every exchange happens strictly between a
/// drive low and a drive high of its own, and the line is driven low for
/// nothing else. So the line is low only strictly between the start and the
/// end of one exchange, and is never left low.
pub open spec fn select_disciplined(events: Seq<PortEvent>) -> bool {
    &&& forall|i: int|
        0 <= i < events.len() && (#[trigger] events[i]) is Exchange ==> 0 < i && events[i - 1]
            == PortEvent::Select(false) && i + 1 < events.len() && events[i + 1]
            == PortEvent::Select(true)
    &&& forall|i: int|
        0 <= i < events.len() && (#[trigger] events[i]) == PortEvent::Select(false) ==> i + 1
            < events.len() && events[i + 1] is Exchange
}

/// The three events of one whole transaction around the given exchange.
pub open spec fn transaction_events(e: (Seq<u8>, Seq<u8>)) -> Seq<PortEvent> {
    seq![PortEvent::Select(false), PortEvent::Exchange(e), PortEvent::Select(true)]
}

/// A disciplined history stays disciplined when a whole transaction is
/// appended to it, provided it does not end on a drive low — which a
/// disciplined history never does, since a drive low is always followed by
/// an exchange.
pub proof fn lemma_discipline_extends(events: Seq<PortEvent>, e: (Seq<u8>, Seq<u8>))
    requires
        select_disciplined(events),
    ensures
        select_disciplined(events + transaction_events(e)),
{
    let whole = events + transaction_events(e);
    let n = events.len() as int;
    assert forall|i: int| 0 <= i < whole.len() && (#[trigger] whole[i]) is Exchange implies 0 < i
        && whole[i - 1] == PortEvent::Select(false) && i + 1 < whole.len() && whole[i + 1]
        == PortEvent::Select(true) by {
        if i < n {
            assert(whole[i] == events[i]);
            assert(whole[i - 1] == events[i - 1]);
            assert(whole[i + 1] == events[i + 1]);
        } else {
            assert(i == n + 1);
        }
    }
    assert forall|i: int|
        0 <= i < whole.len() && (#[trigger] whole[i]) == PortEvent::Select(false) implies i + 1
        < whole.len() && whole[i + 1] is Exchange by {
        if i < n {
            assert(whole[i] == events[i]);
            assert(whole[i + 1] == events[i + 1]);
        } else {
            assert(i == n);
        }
    }
}

/// Errors that can arise from trying to communicate with the controller.
pub enum Error<E> {
    /// Late collision. Part of the error taxonomy, but no operation raises
    /// it: no detection path for bus contention exists in this design.
    LateCollision,
    /// Something responded badly: a present device did not acknowledge.
    BadResponse,
    /// The underlying bus transfer failed; carried unchanged.
    Spi(E),
}

impl<E> From<E> for Error<E> {
    /// Wraps a bus error, so that `?` can carry one out of a caller that
    /// returns this error type.
    fn from(e: E) -> (r: Self) {
        Error::Spi(e)
    }
}

impl<E> vstd::std_specs::convert::FromSpecImpl<E> for Error<E> {
    open spec fn obeys_from_spec() -> bool {
        true
    }

    open spec fn from_spec(e: E) -> Self {
        Error::Spi(e)
    }
}

/// True when every byte of the sequence is zero.
pub open spec fn all_zero(s: Seq<u8>) -> bool {
    forall|i: int| 0 <= i < s.len() ==> s[i] == 0
}

/// Holds information about the controller's configuration and constants,
/// as captured by `read_config`. All blocks are zero until that procedure
/// fills them.
pub struct ControllerConfiguration {
    /// The controller's current status and *perhaps* its generation
    pub status: [u8; 6],
    /// Unknown constant
    pub const1a: [u8; 5],
    /// Unknown constant
    pub const1b: [u8; 5],
    /// Unknown constant
    pub const2: [u8; 5],
    /// Unknown constant
    pub const3a: [u8; 5],
    /// Unknown constant
    pub const3b: [u8; 5],
}

impl Default for ControllerConfiguration {
    /// An all-zero configuration: what every block holds before
    /// `read_config` has run.
    fn default() -> (c: Self)
        ensures
            all_zero(c.status@) && c.status@.len() == 6,
            all_zero(c.const1a@) && c.const1a@.len() == 5,
            all_zero(c.const1b@) && c.const1b@.len() == 5,
            all_zero(c.const2@) && c.const2@.len() == 5,
            all_zero(c.const3a@) && c.const3a@.len() == 5,
            all_zero(c.const3b@) && c.const3b@.len() == 5,
    {
        ControllerConfiguration {
            status: [0u8; 6],
            const1a: [0u8; 5],
            const1b: [0u8; 5],
            const2: [0u8; 5],
            const3a: [0u8; 5],
            const3b: [0u8; 5],
        }
    }
}

/// The main event! Create a port using a serial bus and a select line and
/// start commanding controllers. The port owns both handles exclusively, so
/// transactions happen strictly one at a time, in program order.
pub struct PlayStationPort<SPI: DuplexTransfer, CS> {
    dev: LoggedBus<SPI>,
    select: LoggedPin<CS>,
    events: Ghost<Seq<PortEvent>>,
}

/// Captures the six status bytes of a read-status response: response
/// offsets 3 to 8.
fn capture_status(buffer: &Vec<u8>, Ghost(e): Ghost<(Seq<u8>, Seq<u8>)>) -> (b: [u8; 6])
    requires
        buffer@.len() == MESSAGE_MAX_LENGTH,
        buffer@ == wire(e.1),
    ensures
        b@ == wire(e.1).subrange(3, 9),
{
    let b: [u8; 6] = [buffer[3], buffer[4], buffer[5], buffer[6], buffer[7], buffer[8]];
    assert(b@ =~= buffer@.subrange(3, 9));
    b
}

/// Captures the five constant bytes of a read-constant response: response
/// offsets 4 to 8.
fn capture_const(buffer: &Vec<u8>, Ghost(e): Ghost<(Seq<u8>, Seq<u8>)>) -> (b: [u8; 5])
    requires
        buffer@.len() == MESSAGE_MAX_LENGTH,
        buffer@ == wire(e.1),
    ensures
        b@ == wire(e.1).subrange(4, 9),
{
    let b: [u8; 5] = [buffer[4], buffer[5], buffer[6], buffer[7], buffer[8]];
    assert(b@ =~= buffer@.subrange(4, 9));
    b
}

/// A fresh all-zero transaction buffer of full message length.
fn zeroed_buffer() -> (v: Vec<u8>)
    ensures
        v@ == zero_buffer(),
{
    let mut v: Vec<u8> = Vec::new();
    let mut i: usize = 0;
    while i < MESSAGE_MAX_LENGTH
        invariant
            i <= MESSAGE_MAX_LENGTH,
            v@.len() == i,
            all_zero(v@),
        decreases MESSAGE_MAX_LENGTH - i,
    {
        v.push(0u8);
        i = i + 1;
    }
    assert(v@ =~= zero_buffer());
    v
}

impl<SPI: DuplexTransfer, CS: SelectPin> PlayStationPort<SPI, CS> {
    /// Every exchange the port's bus has performed (see `LoggedBus::log`).
    pub closed spec fn bus_log(&self) -> Seq<(Seq<u8>, Seq<u8>)> {
        self.dev.log()
    }

    /// The outcome of every exchange of `bus_log`, in the same order: the
    /// result each transfer came back with, the error value included.
    pub closed spec fn bus_results(&self) -> Seq<Result<(), SPI::BusError>> {
        self.dev.results()
    }

    /// Every level the port's select line has been driven to.
    pub closed spec fn pin_log(&self) -> Seq<bool> {
        self.select.log()
    }

    /// Whether the select line sits high (no transaction in progress).
    pub closed spec fn select_high(&self) -> bool {
        self.select.is_high()
    }

    /// Everything the port has done to the hardware, in the one order it
    /// did it: select-line drives and exchanges interleaved.
    pub closed spec fn event_log(&self) -> Seq<PortEvent> {
        self.events@
    }

    /// Create a new device to talk over the PlayStation's controller port.
    /// Disables the controller (select line high) before any transaction.
    pub fn new(spi: SPI, select: CS) -> (port: Self)
        ensures
            port.select_high(),
            port.bus_log() == Seq::<(Seq<u8>, Seq<u8>)>::empty(),
            port.bus_results() == Seq::<Result<(), SPI::BusError>>::empty(),
            port.pin_log() == Seq::<bool>::empty().push(true),
            port.event_log() == seq![PortEvent::Select(true)],
            select_disciplined(port.event_log()),
    {
        let mut select = LoggedPin::new(select);
        select.set_high();  // Disable controller for now

        let ghost initial_events: Seq<PortEvent> = seq![PortEvent::Select(true)];
        let port = PlayStationPort {
            dev: LoggedBus::new(spi),
            select,
            events: Ghost(initial_events),
        };
        assert(select_disciplined(port.event_log())) by {
            assert(forall|i: int|
                0 <= i < port.event_log().len() ==> (#[trigger] port.event_log()[i])
                    == PortEvent::Select(true));
        };
        port
    }

    /// Releases the port and hands back the bus and the select line.
    pub fn free(self) -> (SPI, CS) {
        (self.dev.release(), self.select.release())
    }

    /// Sends a command to the underlying hardware and provides the
    /// response: one whole transaction. The command lands at the head of
    /// `result`, whose previous contents beyond it are sent along and then
    /// overwritten by the response; bit order is corrected on both sides of
    /// the exchange. The select line is asserted exactly once, around the
    /// exchange alone, and is released even when the exchange fails. The
    /// result is the exchange's own outcome: a failure is handed back
    /// unchanged, never retried.
    pub fn send_command(&mut self, command: &[u8], result: &mut Vec<u8>) -> (r: Result<
        (),
        SPI::BusError,
    >)
        requires
            command@.len() <= old(result)@.len(),
            old(result)@.len() <= MESSAGE_MAX_LENGTH,
        ensures
            final(result)@.len() == old(result)@.len(),
            final(self).select_high(),
            final(self).pin_log() == old(self).pin_log().push(false).push(true),
            final(self).bus_log().len() == old(self).bus_log().len() + 1,
            final(self).bus_log().drop_last() == old(self).bus_log(),
            final(self).bus_log().last().0 == wire(overwrite_prefix(old(result)@, command@)),
            final(self).bus_log().last().1.len() == old(result)@.len(),
            final(self).bus_results() == old(self).bus_results().push(r),
            final(self).event_log() == old(self).event_log() + transaction_events(
                final(self).bus_log().last(),
            ),
            select_disciplined(old(self).event_log()) ==> select_disciplined(
                final(self).event_log(),
            ),
            r is Ok ==> final(result)@ == wire(final(self).bus_log().last().1),
    {
        let cmdlen = command.len();
        let mut i: usize = 0;
        while i < cmdlen
            invariant
                i <= cmdlen,
                cmdlen == command@.len(),
                cmdlen <= result@.len(),
                result@.len() == old(result)@.len(),
                forall|j: int| 0 <= j < i ==> result@[j] == command@[j],
                forall|j: int| i <= j < result@.len() ==> result@[j] == old(result)@[j],
            decreases cmdlen - i,
        {
            result.set(i, command[i]);
            i = i + 1;
        }
        assert(result@ =~= overwrite_prefix(old(result)@, command@));

        // Because not all hardware supports least-significant-bit-first
        // mode, we flip the bits ourselves
        flip(result);
        self.select.set_low();
        self.events = Ghost(self.events@.push(PortEvent::Select(false)));

        let ghost sent_wire = result@;
        let r = self.dev.transfer(result);
        self.events = Ghost(self.events@.push(PortEvent::Exchange((sent_wire, result@))));

        self.select.set_high();
        self.events = Ghost(self.events@.push(PortEvent::Select(true)));

        proof {
            let entry = self.bus_log().last();
            assert(self.events@ =~= old(self).events@ + transaction_events(entry));
            if select_disciplined(old(self).event_log()) {
                lemma_discipline_extends(old(self).event_log(), entry);
            }
        }

        match &r {
            Result::Ok(_) => {
                flip(result);
            },
            Result::Err(_) => (),
        }
        r
    }

    /// One sequencer step: sends the command that stands next in `cmds`
    /// (given how many exchanges past `base` the log already holds) and
    /// extends the transcript accordingly. A sequencer stops at the first
    /// failure, so every outcome past `base_results` so far is a success;
    /// the step keeps that shape: all new outcomes but possibly the last
    /// are successes, and the last is exactly what this step returns.
    fn step(
        &mut self,
        command: &Vec<u8>,
        buffer: &mut Vec<u8>,
        Ghost(base): Ghost<Seq<(Seq<u8>, Seq<u8>)>>,
        Ghost(base_results): Ghost<Seq<Result<(), SPI::BusError>>>,
        Ghost(cmds): Ghost<Seq<Seq<u8>>>,
    ) -> (r: Result<(), SPI::BusError>)
        requires
            old(self).bus_log().len() >= base.len(),
            old(self).bus_log().take(base.len() as int) == base,
            old(self).bus_results().len() >= base_results.len(),
            old(self).bus_results().take(base_results.len() as int) == base_results,
            old(self).bus_results().len() - base_results.len() == old(self).bus_log().len()
                - base.len(),
            forall|i: int|
                base_results.len() <= i < old(self).bus_results().len() ==> (#[trigger] old(self).bus_results()[i]) is Ok,
            transcript_follows(old(self).bus_log().skip(base.len() as int), cmds),
            old(self).bus_log().len() - base.len() < cmds.len(),
            command@ == cmds[old(self).bus_log().len() - base.len()],
            command@.len() <= MESSAGE_MAX_LENGTH,
            old(buffer)@.len() == MESSAGE_MAX_LENGTH,
        ensures
            final(buffer)@.len() == MESSAGE_MAX_LENGTH,
            final(self).select_high(),
            final(self).bus_log().len() == old(self).bus_log().len() + 1,
            final(self).bus_log().drop_last() == old(self).bus_log(),
            forall|i: int|
                0 <= i < old(self).bus_log().len() ==> final(self).bus_log()[i] == old(
                    self,
                ).bus_log()[i],
            final(self).bus_log().take(base.len() as int) == base,
            final(self).bus_log().skip(base.len() as int) == old(self).bus_log().skip(
                base.len() as int,
            ).push(final(self).bus_log().last()),
            transcript_follows(final(self).bus_log().skip(base.len() as int), cmds),
            sends(final(self).bus_log().last(), command@),
            final(self).bus_results().len() == old(self).bus_results().len() + 1,
            final(self).bus_results().drop_last() == old(self).bus_results(),
            final(self).bus_results().take(base_results.len() as int) == base_results,
            final(self).bus_results().last() == r,
            forall|i: int|
                base_results.len() <= i < final(self).bus_results().len() - 1 ==> (
                #[trigger] final(self).bus_results()[i]) is Ok,
            select_disciplined(old(self).event_log()) ==> select_disciplined(
                final(self).event_log(),
            ),
            r is Ok ==> final(buffer)@ == wire(final(self).bus_log().last().1),
    {
        let ghost buffer_before = buffer@;
        let r = self.send_command(command.as_slice(), buffer);
        proof {
            lemma_prefix_on_wire(buffer_before, command@);
            assert(self.bus_results().take(base_results.len() as int) =~= self.bus_results()
                .drop_last().take(base_results.len() as int));
            let lg = self.bus_log();
            let prev = lg.drop_last();
            assert(lg.take(base.len() as int) =~= prev.take(base.len() as int));
            assert(lg.skip(base.len() as int) =~= prev.skip(base.len() as int).push(lg.last()));
            let entries = lg.skip(base.len() as int);
            assert(forall|i: int|
                0 <= i < entries.len() - 1 ==> sends(
                    #[trigger] entries[i],
                    cmds[i],
                ));
            assert(entries[entries.len() - 1] == lg.last());
        }
        r
    }

    /// Configure the controller to set it to pressure-sensitive mode. This
    /// will also enable analog mode on dual-analog controllers. Issues the
    /// commands of `pressure_commands` in order — a wake-up poll, then the
    /// mode setup bracketed by enter and exit escape mode — and succeeds
    /// exactly when all six exchanges do. The first bus failure aborts the
    /// sequence: it is propagated unchanged and nothing is issued after it.
    /// No intermediate response is validated.
    pub fn enable_pressure(&mut self) -> (r: Result<(), SPI::BusError>)
        ensures
            final(self).select_high(),
            final(self).bus_log().take(old(self).bus_log().len() as int) == old(self).bus_log(),
            final(self).bus_log().len() > old(self).bus_log().len(),
            transcript_follows(
                final(self).bus_log().skip(old(self).bus_log().len() as int),
                pressure_commands(),
            ),
            select_disciplined(old(self).event_log()) ==> select_disciplined(
                final(self).event_log(),
            ),
            final(self).bus_results().take(old(self).bus_results().len() as int) == old(self).bus_results(),
            final(self).bus_results().len() - old(self).bus_results().len() == final(self).bus_log().len() - old(self).bus_log().len(),
            (match r {
                Result::Ok(_) => final(self).bus_log().len() == old(self).bus_log().len() + 6
                    && forall|i: int|
                    old(self).bus_results().len() <= i < final(self).bus_results().len() ==> (
                    #[trigger] final(self).bus_results()[i]) is Ok,
                Result::Err(e) => final(self).bus_results().last() == Result::<(), SPI::BusError>::Err(e) && forall|i: int|
                    old(self).bus_results().len() <= i < final(self).bus_results().len() - 1 ==> (
                    #[trigger] final(self).bus_results()[i]) is Ok,
            }),
    {
        let ghost base = self.bus_log();
        let ghost base_results = self.bus_results();
        let mut buffer = zeroed_buffer();
        let ghost cmds = pressure_commands();
        proof {
            assert(self.bus_log().take(base.len() as int) =~= base);
            assert(self.bus_log().skip(base.len() as int) =~= Seq::<(Seq<u8>, Seq<u8>)>::empty());
            assert(self.bus_results().take(base_results.len() as int) =~= base_results);
        }

        // Wake up the controller if needed
        let cmd = build_poll();
        match self.step(&cmd, &mut buffer, Ghost(base), Ghost(base_results), Ghost(cmds)) {
            Result::Ok(_) => (),
            Result::Err(e) => {
                return Result::Err(e);
            },
        }

        let cmd = build_escape(true);
        match self.step(&cmd, &mut buffer, Ghost(base), Ghost(base_results), Ghost(cmds)) {
            Result::Ok(_) => (),
            Result::Err(e) => {
                return Result::Err(e);
            },
        }
        let cmd = build_set_mode();
        match self.step(&cmd, &mut buffer, Ghost(base), Ghost(base_results), Ghost(cmds)) {
            Result::Ok(_) => (),
            Result::Err(e) => {
                return Result::Err(e);
            },
        }
        let cmd = build_init_pressure();
        match self.step(&cmd, &mut buffer, Ghost(base), Ghost(base_results), Ghost(cmds)) {
            Result::Ok(_) => (),
            Result::Err(e) => {
                return Result::Err(e);
            },
        }
        let cmd = build_response_format();
        match self.step(&cmd, &mut buffer, Ghost(base), Ghost(base_results), Ghost(cmds)) {
            Result::Ok(_) => (),
            Result::Err(e) => {
                return Result::Err(e);
            },
        }
        let cmd = build_escape(false);
        match self.step(&cmd, &mut buffer, Ghost(base), Ghost(base_results), Ghost(cmds)) {
            Result::Ok(_) => (),
            Result::Err(e) => {
                return Result::Err(e);
            },
        }

        Result::Ok(())
    }

    /// Read various parameters from the controller including its current
    /// status. Issues the commands of `config_commands` in order — the six
    /// reads bracketed by enter and exit escape mode — and captures fixed
    /// byte ranges of the read responses: response bytes 3 to 8 into the
    /// status block, response bytes 4 to 8 into each constant block. The
    /// configuration is returned exactly when all eight exchanges succeed;
    /// the first bus failure aborts the sequence, is propagated unchanged,
    /// and nothing is issued after it.
    #[verifier::rlimit(100)]
    pub fn read_config(&mut self) -> (r: Result<ControllerConfiguration, SPI::BusError>)
        ensures
            final(self).select_high(),
            final(self).bus_log().take(old(self).bus_log().len() as int) == old(self).bus_log(),
            final(self).bus_log().len() > old(self).bus_log().len(),
            transcript_follows(
                final(self).bus_log().skip(old(self).bus_log().len() as int),
                config_commands(),
            ),
            select_disciplined(old(self).event_log()) ==> select_disciplined(
                final(self).event_log(),
            ),
            final(self).bus_results().take(old(self).bus_results().len() as int) == old(self).bus_results(),
            final(self).bus_results().len() - old(self).bus_results().len() == final(self).bus_log().len() - old(self).bus_log().len(),
            (match r {
                Result::Ok(_) => forall|i: int|
                    old(self).bus_results().len() <= i < final(self).bus_results().len() ==> (
                    #[trigger] final(self).bus_results()[i]) is Ok,
                Result::Err(e) => final(self).bus_results().last() == Result::<(), SPI::BusError>::Err(e) && forall|i: int|
                    old(self).bus_results().len() <= i < final(self).bus_results().len() - 1 ==> (
                    #[trigger] final(self).bus_results()[i]) is Ok,
            }),
            (match r {
                Result::Ok(config) => {
                    &&& final(self).bus_log().len() == old(self).bus_log().len() + 8
                    &&& config.status@ == wire(
                        final(self).bus_log()[old(self).bus_log().len() + 1 as int].1,
                    ).subrange(3, 9)
                    &&& config.const1a@ == wire(
                        final(self).bus_log()[old(self).bus_log().len() + 2 as int].1,
                    ).subrange(4, 9)
                    &&& config.const1b@ == wire(
                        final(self).bus_log()[old(self).bus_log().len() + 3 as int].1,
                    ).subrange(4, 9)
                    &&& config.const2@ == wire(
                        final(self).bus_log()[old(self).bus_log().len() + 4 as int].1,
                    ).subrange(4, 9)
                    &&& config.const3a@ == wire(
                        final(self).bus_log()[old(self).bus_log().len() + 5 as int].1,
                    ).subrange(4, 9)
                    &&& config.const3b@ == wire(
                        final(self).bus_log()[old(self).bus_log().len() + 6 as int].1,
                    ).subrange(4, 9)
                },
                Result::Err(_) => true,
            }),
    {
        let ghost base = self.bus_log();
        let ghost base_results = self.bus_results();
        let mut buffer = zeroed_buffer();
        let ghost cmds = config_commands();
        proof {
            assert(self.bus_log().take(base.len() as int) =~= base);
            assert(self.bus_log().skip(base.len() as int) =~= Seq::<(Seq<u8>, Seq<u8>)>::empty());
            assert(self.bus_results().take(base_results.len() as int) =~= base_results);
        }

        let cmd = build_escape(true);
        match self.step(&cmd, &mut buffer, Ghost(base), Ghost(base_results), Ghost(cmds)) {
            Result::Ok(_) => (),
            Result::Err(e) => {
                return Result::Err(e);
            },
        }

        let cmd = build_read_status();
        match self.step(&cmd, &mut buffer, Ghost(base), Ghost(base_results), Ghost(cmds)) {
            Result::Ok(_) => (),
            Result::Err(e) => {
                return Result::Err(e);
            },
        }
        let ghost e1 = self.bus_log().last();
        let status = capture_status(&buffer, Ghost(e1));

        let cmd = build_read_const(0x46, 0x00);
        match self.step(&cmd, &mut buffer, Ghost(base), Ghost(base_results), Ghost(cmds)) {
            Result::Ok(_) => (),
            Result::Err(e) => {
                return Result::Err(e);
            },
        }
        let ghost e2 = self.bus_log().last();
        let const1a = capture_const(&buffer, Ghost(e2));

        let cmd = build_read_const(0x46, 0x01);
        match self.step(&cmd, &mut buffer, Ghost(base), Ghost(base_results), Ghost(cmds)) {
            Result::Ok(_) => (),
            Result::Err(e) => {
                return Result::Err(e);
            },
        }
        let ghost e3 = self.bus_log().last();
        let const1b = capture_const(&buffer, Ghost(e3));

        let cmd = build_read_const(0x47, 0x00);
        match self.step(&cmd, &mut buffer, Ghost(base), Ghost(base_results), Ghost(cmds)) {
            Result::Ok(_) => (),
            Result::Err(e) => {
                return Result::Err(e);
            },
        }
        let ghost e4 = self.bus_log().last();
        let const2 = capture_const(&buffer, Ghost(e4));

        let cmd = build_read_const(0x4c, 0x00);
        match self.step(&cmd, &mut buffer, Ghost(base), Ghost(base_results), Ghost(cmds)) {
            Result::Ok(_) => (),
            Result::Err(e) => {
                return Result::Err(e);
            },
        }
        let ghost e5 = self.bus_log().last();
        let const3a = capture_const(&buffer, Ghost(e5));

        let cmd = build_read_const(0x4c, 0x01);
        match self.step(&cmd, &mut buffer, Ghost(base), Ghost(base_results), Ghost(cmds)) {
            Result::Ok(_) => (),
            Result::Err(e) => {
                return Result::Err(e);
            },
        }
        let ghost e6 = self.bus_log().last();
        let const3b = capture_const(&buffer, Ghost(e6));

        let cmd = build_escape(false);
        match self.step(&cmd, &mut buffer, Ghost(base), Ghost(base_results), Ghost(cmds)) {
            Result::Ok(_) => (),
            Result::Err(e) => {
                return Result::Err(e);
            },
        }

        proof {
            let n = base.len() as int;
            let entries = self.bus_log().skip(n);
            assert(entries[1] == e1);
            assert(entries[2] == e2);
            assert(entries[3] == e3);
            assert(entries[4] == e4);
            assert(entries[5] == e5);
            assert(entries[6] == e6);
            assert(self.bus_log()[n + 1] == entries[1]);
            assert(self.bus_log()[n + 2] == entries[2]);
            assert(self.bus_log()[n + 3] == entries[3]);
            assert(self.bus_log()[n + 4] == entries[4]);
            assert(self.bus_log()[n + 5] == entries[5]);
            assert(self.bus_log()[n + 6] == entries[6]);
        }
        Result::Ok(
            ControllerConfiguration { status, const1a, const1b, const2, const3a, const3b },
        )
    }

    /// Ask the controller for input states. Issues one poll transaction and
    /// classifies the response: an absent device is reported as such with
    /// the acknowledge byte ignored; any present device that fails to
    /// acknowledge is a bad response; otherwise the tag byte selects the
    /// variant and the payload is decoded from the bytes after the header.
    /// A bus failure surfaces, wrapped, before classification is attempted.
    pub fn read_input(&mut self) -> (r: Result<Device, Error<SPI::BusError>>)
        ensures
            final(self).select_high(),
            final(self).pin_log() == old(self).pin_log().push(false).push(true),
            final(self).bus_log().len() == old(self).bus_log().len() + 1,
            final(self).bus_log().drop_last() == old(self).bus_log(),
            final(self).bus_log().last().0 == wire(zero_padded(poll_cmd())),
            final(self).bus_log().last().1.len() == MESSAGE_MAX_LENGTH,
            final(self).bus_results().len() == old(self).bus_results().len() + 1,
            final(self).bus_results().drop_last() == old(self).bus_results(),
            final(self).event_log() == old(self).event_log() + transaction_events(
                final(self).bus_log().last(),
            ),
            select_disciplined(old(self).event_log()) ==> select_disciplined(
                final(self).event_log(),
            ),
            (match r {
                Result::Ok(d) => final(self).bus_results().last() is Ok && poll_outcome(
                    wire(final(self).bus_log().last().1),
                    Option::Some(d),
                ),
                Result::Err(Error::BadResponse) => final(self).bus_results().last() is Ok
                    && poll_outcome(wire(final(self).bus_log().last().1), Option::None),
                Result::Err(Error::Spi(e)) => final(self).bus_results().last() == Result::<(), SPI::BusError>::Err(e),
                Result::Err(Error::LateCollision) => false,
            }),
    {
        let mut buffer = zeroed_buffer();
        let cmd = build_poll();

        match self.send_command(cmd.as_slice(), &mut buffer) {
            Result::Ok(_) => (),
            Result::Err(e) => {
                return Result::Err(Error::Spi(e));
            },
        }

        match interpret_poll_response(&buffer) {
            Option::Some(device) => Result::Ok(device),
            Option::None => Result::Err(Error::BadResponse),
        }
    }
}

} // verus!
