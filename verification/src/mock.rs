//! Scripted stand-ins for the two hardware capabilities. They exist so the
//! driver can be exercised without a controller on the other end of the
//! wire: the bus answers each exchange from a prepared script and keeps the
//! frames it was handed, and the pin records every level it was driven to.
//! Both are verified against the capability traits, so nothing about the
//! port needs to be taken on trust to run it against them.

use vstd::prelude::*;

use crate::port::DuplexTransfer;
use crate::port::SelectPin;

verus! {

/// Copies the bytes of a vector into a fresh vector.
fn copy_bytes(v: &Vec<u8>) -> (r: Vec<u8>)
    ensures
        r@ == v@,
{
    let mut r: Vec<u8> = Vec::new();
    let mut i: usize = 0;
    while i < v.len()
        invariant
            i <= v@.len(),
            r@ =~= v@.take(i as int),
        decreases v@.len() - i,
    {
        r.push(v[i]);
        i = i + 1;
    }
    assert(r@ =~= v@);
    r
}

/// A select line that remembers every level it was driven to.
pub struct MockPin {
    levels: Vec<bool>,
}

impl MockPin {
    /// Every level the pin has been driven to, in order: `true` for high.
    pub closed spec fn driven_levels(&self) -> Seq<bool> {
        self.levels@
    }

    /// A fresh pin, still undriven and sitting low.
    pub fn new() -> (pin: Self)
        ensures
            pin.driven_levels() == Seq::<bool>::empty(),
    {
        let pin = MockPin { levels: Vec::new() };
        assert(pin.driven_levels() =~= Seq::<bool>::empty());
        pin
    }

    /// Every level the pin has been driven to, in order: `true` for high.
    pub fn recorded_levels(&self) -> (r: &Vec<bool>)
        ensures
            r@ == self.driven_levels(),
    {
        &self.levels
    }

    /// Whether the pin sits high right now: the last level driven, or low
    /// for a pin never driven anywhere.
    pub fn sits_high(&self) -> (r: bool)
        ensures
            r == (self.driven_levels().len() > 0 && self.driven_levels().last()),
    {
        if self.levels.len() == 0 {
            false
        } else {
            self.levels[self.levels.len() - 1]
        }
    }
}

impl SelectPin for MockPin {
    fn set_high(&mut self) {
        self.levels.push(true);
    }

    fn set_low(&mut self) {
        self.levels.push(false);
    }
}

/// A bus that answers each exchange from a prepared script. Exchange number
/// `k` overwrites the buffer's head with the bytes of the `k`-th scripted
/// answer (a script shorter than the buffer leaves the tail as sent; a
/// missing entry leaves the whole buffer as sent), or fails with the
/// exchange number when `k` is the designated failing exchange. Every
/// buffer handed in is kept, as handed in, for later inspection.
pub struct MockBus {
    script: Vec<Vec<u8>>,
    cursor: usize,
    fail_at: Option<usize>,
    sent: Vec<Vec<u8>>,
}

impl MockBus {
    /// The prepared answers, one byte sequence per exchange.
    pub closed spec fn script_bytes(&self) -> Seq<Seq<u8>> {
        Seq::new(self.script@.len(), |i: int| self.script@[i]@)
    }

    /// The buffers handed in so far, exactly as they were handed in: the
    /// wire form of everything sent.
    pub closed spec fn sent_bytes(&self) -> Seq<Seq<u8>> {
        Seq::new(self.sent@.len(), |i: int| self.sent@[i]@)
    }

    /// The number of the next exchange: how many have happened, until the
    /// count saturates.
    pub closed spec fn next_exchange(&self) -> usize {
        self.cursor
    }

    /// The exchange that is scripted to fail, if any.
    pub closed spec fn failure_point(&self) -> Option<usize> {
        self.fail_at
    }

    /// How many exchanges the bus has been asked to perform.
    pub closed spec fn exchanges(&self) -> nat {
        self.sent@.len()
    }

    /// A fresh bus that will answer from `script` and fail at the exchange
    /// numbered by `fail_at`, if any.
    pub fn new(script: Vec<Vec<u8>>, fail_at: Option<usize>) -> (bus: Self)
        ensures
            bus.exchanges() == 0,
            bus.sent_bytes() == Seq::<Seq<u8>>::empty(),
            bus.next_exchange() == 0,
            bus.failure_point() == fail_at,
            bus.script_bytes().len() == script@.len(),
            forall|i: int| 0 <= i < script@.len() ==> bus.script_bytes()[i] == script@[i]@,
    {
        let bus = MockBus { script, cursor: 0, fail_at, sent: Vec::new() };
        assert(bus.sent_bytes() =~= Seq::<Seq<u8>>::empty());
        bus
    }

    /// The buffers handed to the bus so far, exactly as they were handed
    /// in: the wire form of everything sent.
    pub fn sent_frames(&self) -> (r: &Vec<Vec<u8>>)
        ensures
            r@.len() == self.exchanges(),
            r@.len() == self.sent_bytes().len(),
            forall|i: int| 0 <= i < r@.len() ==> r@[i]@ == self.sent_bytes()[i],
    {
        &self.sent
    }
}

impl DuplexTransfer for MockBus {
    type BusError = usize;

    fn transfer(&mut self, buffer: &mut Vec<u8>) -> (r: Result<(), usize>)
        ensures
            final(self).script_bytes() == old(self).script_bytes(),
            final(self).failure_point() == old(self).failure_point(),
            final(self).sent_bytes() == old(self).sent_bytes().push(old(buffer)@),
            old(self).next_exchange() < usize::MAX ==> final(self).next_exchange()
                == old(self).next_exchange() + 1,
            r == (if old(self).failure_point() == Option::Some(old(self).next_exchange()) {
                Result::<(), usize>::Err(old(self).next_exchange())
            } else {
                Result::<(), usize>::Ok(())
            }),
            r is Err ==> final(buffer)@ == old(buffer)@,
            r is Ok && old(self).next_exchange() >= old(self).script_bytes().len()
                ==> final(buffer)@ == old(buffer)@,
            r is Ok && old(self).next_exchange() < old(self).script_bytes().len()
                ==> forall|j: int|
                    0 <= j < old(buffer)@.len() ==> final(buffer)@[j] == (if j < old(
                        self,
                    ).script_bytes()[old(self).next_exchange() as int].len() {
                        old(self).script_bytes()[old(self).next_exchange() as int][j]
                    } else {
                        old(buffer)@[j]
                    }),
    {
        let ghost sent_bytes = buffer@;
        let frame = copy_bytes(buffer);
        self.sent.push(frame);
        assert(self.sent_bytes() =~= old(self).sent_bytes().push(sent_bytes));

        let k = self.cursor;
        if k < usize::MAX {
            self.cursor = k + 1;
        }

        let failing = match self.fail_at {
            Option::Some(f) => f == k,
            Option::None => false,
        };
        if failing {
            return Result::Err(k);
        }

        if k < self.script.len() {
            let n = if self.script[k].len() < buffer.len() {
                self.script[k].len()
            } else {
                buffer.len()
            };
            let mut i: usize = 0;
            while i < n
                invariant
                    i <= n,
                    k < self.script@.len(),
                    n <= buffer@.len(),
                    n <= self.script@[k as int]@.len(),
                    n == if self.script@[k as int]@.len() < sent_bytes.len() {
                        self.script@[k as int]@.len()
                    } else {
                        sent_bytes.len()
                    },
                    buffer@.len() == sent_bytes.len(),
                    forall|j: int| 0 <= j < i ==> buffer@[j] == self.script@[k as int]@[j],
                    forall|j: int| i <= j < buffer@.len() ==> buffer@[j] == sent_bytes[j],
                decreases n - i,
            {
                let b = self.script[k][i];
                buffer.set(i, b);
                i = i + 1;
            }
        }

        Result::Ok(())
    }
}

} // verus!
