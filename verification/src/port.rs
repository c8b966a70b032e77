//! The transport binding: everything the protocol needs from the embedding
//! environment, stated as one capability trait. A port owns the SPI bus
//! endpoint, the chip-select and reset output pins, the busy input pin, and
//! a blocking millisecond delay source, and accounts for every action it
//! performs in a ghost trace. The bus must run in SPI mode 0 (idle-low
//! clock, capture on the first transition); that is a fixed requirement of
//! the chip, not a configurable default.

use vstd::prelude::*;

use crate::trace::Event;

verus! {

/// Capabilities the command protocol requires: pin edges, delays, one-way
/// writes and full-duplex transfers, and a busy-line read. `SpiError` is the
/// transport's native fault type, `PinError` the pins' one.
///
/// Every operation says exactly how it extends the trace: on success it
/// appends its own event, on failure it leaves the trace unchanged (the
/// action did not take effect). Busy reads are observations and never appear
/// in the trace. The ghost `busy_budget` bounds how many more busy polls may
/// still report busy, which models the chip eventually finishing the
/// previous command; an implementation that cannot bound this must fail the
/// read instead of reporting busy forever.
pub trait Port<SpiError, PinError>: Sized {
    /// Every pin, delay, and bus action performed so far, in order. The
    /// default leaves it unspecified, for ports that live outside the
    /// verified world; a verified port overrides it.
    open spec fn trace(&self) -> Seq<Event> {
        arbitrary()
    }

    /// Ghost bound on how many more busy polls may still report busy. The
    /// default leaves it unspecified; a verified port overrides it.
    open spec fn busy_budget(&self) -> nat {
        arbitrary()
    }

    /// Assert chip select (drive the line low).
    fn cs_low(&mut self) -> (r: Result<(), PinError>)
        ensures
            r is Ok ==> final(self).trace() == old(self).trace().push(Event::CsLow),
            r is Err ==> final(self).trace() == old(self).trace(),
    ;

    /// Deassert chip select (drive the line high).
    fn cs_high(&mut self) -> (r: Result<(), PinError>)
        ensures
            r is Ok ==> final(self).trace() == old(self).trace().push(Event::CsHigh),
            r is Err ==> final(self).trace() == old(self).trace(),
    ;

    /// Drive the reset/shutdown line low.
    fn reset_low(&mut self) -> (r: Result<(), PinError>)
        ensures
            r is Ok ==> final(self).trace() == old(self).trace().push(Event::RstLow),
            r is Err ==> final(self).trace() == old(self).trace(),
    ;

    /// Release the reset/shutdown line (drive it high).
    fn reset_high(&mut self) -> (r: Result<(), PinError>)
        ensures
            r is Ok ==> final(self).trace() == old(self).trace().push(Event::RstHigh),
            r is Err ==> final(self).trace() == old(self).trace(),
    ;

    /// Block for `ms` milliseconds.
    fn delay_ms(&mut self, ms: u32)
        ensures
            final(self).trace() == old(self).trace().push(Event::DelayMs(ms)),
    ;

    /// Shift `data` out over the bus, reading nothing back.
    fn write(&mut self, data: &Vec<u8>) -> (r: Result<(), SpiError>)
        ensures
            r is Ok ==> final(self).trace() == old(self).trace().push(Event::Write(data@)),
            r is Err ==> final(self).trace() == old(self).trace(),
    ;

    /// Full-duplex transfer: shift `data` out and replace it in place with
    /// the bytes shifted in. The buffer keeps its length either way.
    fn transfer(&mut self, data: &mut Vec<u8>) -> (r: Result<(), SpiError>)
        ensures
            final(data)@.len() == old(data)@.len(),
            r is Ok ==> final(self).trace() == old(self).trace().push(
                Event::Transfer(old(data)@, final(data)@),
            ),
            r is Err ==> final(self).trace() == old(self).trace(),
    ;

    /// Read the busy line: `Ok(true)` while the chip is still processing the
    /// previous command, `Ok(false)` once it is ready. Never touches the
    /// trace; each busy report consumes budget.
    fn busy(&mut self) -> (r: Result<bool, PinError>)
        ensures
            final(self).trace() == old(self).trace(),
            r matches Ok(true) ==> final(self).busy_budget() < old(self).busy_budget(),
    ;
}

} // verus!
