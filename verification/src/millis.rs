//! Free-running millisecond timebase.
//!
//! A periodic hardware interrupt fires every `TICK_MICROS` microseconds and
//! calls [`Timebase::tick`]. Because the tick period does not divide one
//! millisecond evenly, the tick carries the sub-millisecond remainder in an
//! accumulator instead of rounding it away, so the long-run count stays
//! close to true elapsed time. The counter wraps silently at its width;
//! callers work modulo the wrap by design.
//!
//! The counter is wider than the machine's atomic read width, so the board
//! glue that shares one `Timebase` between the interrupt handler and the
//! main loop must suspend interrupts around [`Timebase::read`] (restoring
//! the prior interrupt-enable state afterward) to avoid a torn read; the
//! accounting itself is modeled here on a value owned by one caller.

use vstd::prelude::*;

verus! {

/// Period of the hardware tick, in microseconds.
pub const TICK_MICROS: u32 = 1024;

/// Microseconds per counted millisecond.
pub const MICROS_PER_MILLI: u32 = 1000;

/// Elapsed-milliseconds counter with a sub-millisecond remainder.
pub struct Timebase {
    millis: u32,
    frac_micros: u16,
}

/// One hardware tick, relating the counter before to the counter after:
/// the accounted time advances by exactly `TICK_MICROS` microseconds,
/// wrapping once the millisecond counter passes its width.
pub open spec fn ticked(pre: Timebase, post: Timebase) -> bool {
    if pre.total_micros() + TICK_MICROS < 0x1_0000_0000 * (MICROS_PER_MILLI as int) {
        post.total_micros() == pre.total_micros() + TICK_MICROS
    } else {
        post.total_micros() == pre.total_micros() + TICK_MICROS - 0x1_0000_0000
            * (MICROS_PER_MILLI as int)
    }
}

impl Timebase {
    /// Whole milliseconds counted so far.
    pub closed spec fn millis(self) -> u32 {
        self.millis
    }

    /// Microseconds counted beyond the last whole millisecond.
    pub closed spec fn frac_micros(self) -> u16 {
        self.frac_micros
    }

    /// Total accounted time in microseconds.
    pub open spec fn total_micros(self) -> int {
        self.millis() * (MICROS_PER_MILLI as int) + self.frac_micros()
    }

    pub open spec fn wf(self) -> bool {
        self.frac_micros() < MICROS_PER_MILLI
    }

    /// A counter at zero. The board glue configures the periodic interrupt
    /// source; this must happen once, before any read.
    pub fn new() -> (t: Timebase)
        ensures
            t.wf(),
            t.millis() == 0u32,
            t.frac_micros() == 0u16,
    {
        Timebase { millis: 0, frac_micros: 0 }
    }

    /// One tick of the interrupt handler: a whole millisecond plus the
    /// period's remainder, carried over once it grows to a millisecond.
    pub fn tick(&mut self)
        requires
            old(self).wf(),
        ensures
            final(self).wf(),
            ticked(*old(self), *final(self)),
    {
        self.millis = self.millis.wrapping_add(TICK_MICROS / MICROS_PER_MILLI);
        self.frac_micros = self.frac_micros + (TICK_MICROS % MICROS_PER_MILLI) as u16;
        if self.frac_micros >= MICROS_PER_MILLI as u16 {
            self.frac_micros = self.frac_micros - MICROS_PER_MILLI as u16;
            self.millis = self.millis.wrapping_add(1);
        }
    }

    /// Current elapsed milliseconds. Wraparound is not a fault: consumers
    /// reduce the value with modulo arithmetic.
    pub fn read(&self) -> (ms: u32)
        ensures
            ms == self.millis(),
    {
        self.millis
    }
}

/// The counter read is non-decreasing from one tick to the next, except
/// where the tick crosses the counter's wraparound boundary.
pub proof fn lemma_tick_monotonic(pre: Timebase, post: Timebase)
    requires
        pre.wf(),
        post.wf(),
        ticked(pre, post),
    ensures
        pre.millis() <= post.millis() || pre.total_micros() + TICK_MICROS >= 0x1_0000_0000
            * (MICROS_PER_MILLI as int),
{
}

/// Across any two reads with ticks between them, none of which crosses the
/// wraparound boundary, the counter never decreases: the later read is at
/// least the earlier one.
pub proof fn lemma_run_monotonic(ts: Seq<Timebase>)
    requires
        ts.len() >= 1,
        forall|k: int| 0 <= k < ts.len() ==> (#[trigger] ts[k]).wf(),
        forall|k: int| 0 <= k < ts.len() - 1 ==> ticked(#[trigger] ts[k], ts[k + 1]),
        forall|k: int|
            0 <= k < ts.len() - 1 ==> (#[trigger] ts[k]).total_micros() + TICK_MICROS
                < 0x1_0000_0000 * (MICROS_PER_MILLI as int),
    ensures
        ts[0].millis() <= ts[ts.len() - 1].millis(),
    decreases ts.len(),
{
    if ts.len() >= 2 {
        lemma_tick_monotonic(ts[0], ts[1]);
        let rest = ts.subrange(1, ts.len() as int);
        assert(forall|k: int| 0 <= k < rest.len() ==> #[trigger] rest[k] == ts[k + 1]);
        lemma_run_monotonic(rest);
        assert(rest[rest.len() - 1] == ts[ts.len() - 1]);
    }
}

} // verus!
