//! The device handle and the command protocol proper: the power-on reset
//! sequence, the busy-line wait discipline, chip-select-scoped command
//! writes and reads, and the status query. Every operation's effect on the
//! hardware is pinned down as an exact trace shape over [`Event`]s, for
//! every outcome, success or fault.

use vstd::prelude::*;

use crate::port::Port;
use crate::trace::{
    cs_balanced, read_fault_pin, read_fault_spi, read_frame, reset_frame, reset_partial_frame,
    write_fault_pin, write_fault_spi, write_frame, Event, RESET_BOOT_MS, RESET_HOLD_MS,
};

verus! {

/// The chip's "get status" opcode.
pub const RADIO_GET_STATUS: u8 = 0xc0;

/// Unified error domain: every fallible protocol operation fails with
/// exactly one of these two kinds, lifting the transport's or the pins'
/// native fault at its point of origin. No operation leaks an untagged
/// transport- or pin-specific error, and no third kind exists.
#[derive(Debug, Clone, PartialEq)]
pub enum Sx128xError<SpiError, PinError> {
    /// A bus transfer or write failed.
    Spi(SpiError),
    /// A digital pin operation (chip select, reset, or busy line) failed.
    Pin(PinError),
}

/// Construction-time settings. Currently empty; reserved as the sole
/// configuration input of [`Sx128x::new`].
pub struct Settings {}

impl Default for Settings {
    fn default() -> (r: Self)
        ensures
            r == (Settings {}),
    {
        Settings {}
    }
}

/// Opaque token standing for the chip-specific configuration state that the
/// external collaborator layer owns. The protocol layer never looks inside
/// it; it only holds it on the collaborator's behalf, created lazily.
pub struct RadioHandle {}

/// The device handle: exclusive owner of the transport port (bus, chip
/// select, reset and busy pins, delay source), of the lazily created
/// chip-state token, and of an optional last-error slot for faults surfaced
/// from contexts without a direct error return path.
pub struct Sx128x<P, SpiError, PinError> {
    port: P,
    c: Option<RadioHandle>,
    err: Option<Sx128xError<SpiError, PinError>>,
}

impl<P, SpiError, PinError> Sx128x<P, SpiError, PinError> where P: Port<SpiError, PinError> {
    /// The trace of everything this handle's port has done to the hardware.
    pub closed spec fn trace(&self) -> Seq<Event> {
        self.port.trace()
    }

    /// The port, for specification purposes.
    pub closed spec fn spec_port(&self) -> P {
        self.port
    }

    /// Whether the chip-state token has been created.
    pub closed spec fn has_radio_handle(&self) -> bool {
        self.c is Some
    }

    /// The content of the last-error slot.
    pub closed spec fn stashed_error(&self) -> Option<Sx128xError<SpiError, PinError>> {
        self.err
    }

    /// Trace growth of this call, relative to the trace at entry.
    pub open spec fn appended(pre: Seq<Event>, post: Seq<Event>) -> Seq<Event> {
        post.skip(pre.len() as int)
    }

    /// Builds the handle, takes exclusive ownership of the port, and resets
    /// the chip, leaving it idle and responsive. Chip-specific modem
    /// configuration and calibration belong to the collaborator layer and
    /// are not performed here. Fails only if a reset pin toggle fails, with
    /// the pin kind.
    pub fn new(port: P, _settings: Settings) -> (r: Result<Self, Sx128xError<SpiError, PinError>>)
        ensures
            r matches Ok(d) ==> {
                &&& d.trace() == port.trace() + reset_frame()
                &&& !d.has_radio_handle()
                &&& d.stashed_error() is None
            },
            r matches Err(e) ==> e matches Sx128xError::Pin(_),
    {
        let mut dev = Sx128x { port, c: None, err: None };
        match dev.reset() {
            Ok(()) => Ok(dev),
            Err(e) => Err(e),
        }
    }

    /// Hardware reset: drive the reset line low, hold it briefly, release
    /// it, then wait for the chip's boot sequence. The only operation
    /// permitted while the chip is in an unknown state; it never touches the
    /// busy line and produces no bus traffic. On success the trace grows by
    /// exactly [`reset_frame`]; a pin fault leaves either no new events or
    /// the partial frame of a reset that died releasing the line.
    pub fn reset(&mut self) -> (r: Result<(), Sx128xError<SpiError, PinError>>)
        ensures
            final(self).has_radio_handle() == old(self).has_radio_handle(),
            final(self).stashed_error() == old(self).stashed_error(),
            r is Ok ==> final(self).trace() == old(self).trace() + reset_frame(),
            r matches Err(e) ==> {
                &&& e matches Sx128xError::Pin(_)
                &&& (final(self).trace() == old(self).trace() || final(self).trace()
                    == old(self).trace() + reset_partial_frame())
            },
            cs_balanced(Self::appended(old(self).trace(), final(self).trace())),
    {
        match self.port.reset_low() {
            Ok(()) => {}
            Err(e) => {
                proof {
                    assert(Self::appended(old(self).trace(), self.trace())
                        =~= Seq::<Event>::empty());
                }
                return Err(Sx128xError::Pin(e));
            }
        }
        self.port.delay_ms(RESET_HOLD_MS);
        match self.port.reset_high() {
            Ok(()) => {}
            Err(e) => {
                proof {
                    assert(self.port.trace() =~= old(self).port.trace() + reset_partial_frame());
                    crate::trace::lemma_reset_frame_silent();
                    assert(Self::appended(old(self).trace(), self.trace())
                        =~= reset_partial_frame());
                }
                return Err(Sx128xError::Pin(e));
            }
        }
        self.port.delay_ms(RESET_BOOT_MS);
        proof {
            assert(self.port.trace() =~= old(self).port.trace() + reset_frame());
            crate::trace::lemma_reset_frame_silent();
            assert(Self::appended(old(self).trace(), self.trace()) =~= reset_frame());
        }
        Ok(())
    }

    /// Busy-line wait discipline: polls the busy input until the chip
    /// reports ready. Not a public operation but the mandatory first step
    /// baked into every command; produces no trace events. Fails with the
    /// pin kind if the read itself faults, so a busy-line fault never causes
    /// bus traffic.
    pub(crate) fn wait_not_busy(&mut self) -> (r: Result<(), Sx128xError<SpiError, PinError>>)
        ensures
            final(self).trace() == old(self).trace(),
            final(self).has_radio_handle() == old(self).has_radio_handle(),
            final(self).stashed_error() == old(self).stashed_error(),
            r matches Err(e) ==> e matches Sx128xError::Pin(_),
    {
        loop
            invariant
                self.port.trace() == old(self).port.trace(),
                self.c == old(self).c,
                self.err == old(self).err,
            decreases self.port.busy_budget(),
        {
            match self.port.busy() {
                Ok(true) => {}
                Ok(false) => {
                    return Ok(());
                }
                Err(e) => {
                    return Err(Sx128xError::Pin(e));
                }
            }
        }
    }

    /// Command write: waits for the busy line, then inside one chip-select
    /// window shifts out the opcode followed by the payload as a single
    /// write. The window is closed on every exit path; a bus fault is
    /// reported as the transport kind only after chip select is back high.
    pub fn cmd_write(&mut self, command: u8, data: &Vec<u8>) -> (r: Result<
        (),
        Sx128xError<SpiError, PinError>,
    >)
        ensures
            final(self).has_radio_handle() == old(self).has_radio_handle(),
            final(self).stashed_error() == old(self).stashed_error(),
            r is Ok ==> final(self).trace() == old(self).trace() + write_frame(command, data@),
            r matches Err(Sx128xError::Spi(_)) ==> write_fault_spi(
                old(self).trace(),
                final(self).trace(),
            ),
            r matches Err(Sx128xError::Pin(_)) ==> write_fault_pin(
                old(self).trace(),
                final(self).trace(),
                command,
                data@,
            ),
            !(r matches Err(Sx128xError::Pin(_))) ==> cs_balanced(
                Self::appended(old(self).trace(), final(self).trace()),
            ),
    {
        match self.wait_not_busy() {
            Ok(()) => {}
            Err(e) => {
                proof {
                    assert(Self::appended(old(self).trace(), self.trace())
                        =~= Seq::<Event>::empty());
                }
                return Err(e);
            }
        }
        match self.port.cs_low() {
            Ok(()) => {}
            Err(e) => {
                return Err(Sx128xError::Pin(e));
            }
        }
        let mut buf: Vec<u8> = Vec::new();
        buf.push(command);
        let mut i: usize = 0;
        while i < data.len()
            invariant
                i <= data.len(),
                buf@ == seq![command] + data@.take(i as int),
            decreases data.len() - i,
        {
            buf.push(data[i]);
            proof {
                assert(buf@ =~= seq![command] + data@.take(i + 1 as int));
            }
            i = i + 1;
        }
        proof {
            assert(data@.take(data@.len() as int) =~= data@);
        }
        let wrote = self.port.write(&buf);
        match self.port.cs_high() {
            Ok(()) => {}
            Err(e) => {
                proof {
                    if wrote is Ok {
                        assert(self.port.trace() =~= old(self).port.trace() + seq![
                            Event::CsLow,
                            Event::Write(seq![command] + data@),
                        ]);
                    }
                }
                return Err(Sx128xError::Pin(e));
            }
        }
        match wrote {
            Ok(()) => {
                proof {
                    assert(self.port.trace() =~= old(self).port.trace() + write_frame(
                        command,
                        data@,
                    ));
                    crate::trace::lemma_write_frame_balanced(command, data@);
                    assert(Self::appended(old(self).trace(), self.trace()) =~= write_frame(
                        command,
                        data@,
                    ));
                }
                Ok(())
            }
            Err(e) => {
                proof {
                    assert(self.port.trace() =~= old(self).port.trace() + seq![
                        Event::CsLow,
                        Event::CsHigh,
                    ]);
                    crate::trace::lemma_cs_pair_balanced();
                    assert(Self::appended(old(self).trace(), self.trace()) =~= seq![
                        Event::CsLow,
                        Event::CsHigh,
                    ]);
                }
                Err(Sx128xError::Spi(e))
            }
        }
    }

    /// Command read: waits for the busy line, then inside one chip-select
    /// window shifts out the opcode and one placeholder status byte (zero,
    /// per the chip's convention of echoing status before data) as a single
    /// write, and fills `data` in place by a full-duplex transfer. The
    /// window is closed on every exit path; a bus fault is reported as the
    /// transport kind only after chip select is back high. The buffer keeps
    /// its length on every outcome.
    pub fn cmd_read(&mut self, command: u8, data: &mut Vec<u8>) -> (r: Result<
        (),
        Sx128xError<SpiError, PinError>,
    >)
        ensures
            final(self).has_radio_handle() == old(self).has_radio_handle(),
            final(self).stashed_error() == old(self).stashed_error(),
            final(data)@.len() == old(data)@.len(),
            r is Ok ==> final(self).trace() == old(self).trace() + read_frame(
                command,
                old(data)@,
                final(data)@,
            ),
            r matches Err(Sx128xError::Spi(_)) ==> read_fault_spi(
                old(self).trace(),
                final(self).trace(),
                command,
            ),
            r matches Err(Sx128xError::Pin(_)) ==> read_fault_pin(
                old(self).trace(),
                final(self).trace(),
                command,
            ),
            !(r matches Err(Sx128xError::Pin(_))) ==> cs_balanced(
                Self::appended(old(self).trace(), final(self).trace()),
            ),
    {
        match self.wait_not_busy() {
            Ok(()) => {}
            Err(e) => {
                proof {
                    assert(Self::appended(old(self).trace(), self.trace())
                        =~= Seq::<Event>::empty());
                }
                return Err(e);
            }
        }
        match self.port.cs_low() {
            Ok(()) => {}
            Err(e) => {
                return Err(Sx128xError::Pin(e));
            }
        }
        let mut header: Vec<u8> = Vec::new();
        header.push(command);
        header.push(0u8);
        proof {
            assert(header@ =~= seq![command, 0u8]);
        }
        match self.port.write(&header) {
            Ok(()) => {}
            Err(e) => {
                match self.port.cs_high() {
                    Ok(()) => {
                        proof {
                            assert(self.port.trace() =~= old(self).port.trace() + seq![
                                Event::CsLow,
                                Event::CsHigh,
                            ]);
                            crate::trace::lemma_cs_pair_balanced();
                            assert(Self::appended(old(self).trace(), self.trace()) =~= seq![
                                Event::CsLow,
                                Event::CsHigh,
                            ]);
                        }
                        return Err(Sx128xError::Spi(e));
                    }
                    Err(pe) => {
                        return Err(Sx128xError::Pin(pe));
                    }
                }
            }
        }
        let transferred = self.port.transfer(data);
        match self.port.cs_high() {
            Ok(()) => {}
            Err(e) => {
                proof {
                    if transferred is Ok {
                        assert(self.port.trace() =~= old(self).port.trace() + seq![
                            Event::CsLow,
                            Event::Write(seq![command, 0u8]),
                            Event::Transfer(old(data)@, data@),
                        ]);
                    } else {
                        assert(self.port.trace() =~= old(self).port.trace() + seq![
                            Event::CsLow,
                            Event::Write(seq![command, 0u8]),
                        ]);
                    }
                }
                return Err(Sx128xError::Pin(e));
            }
        }
        match transferred {
            Ok(()) => {
                proof {
                    assert(self.port.trace() =~= old(self).port.trace() + read_frame(
                        command,
                        old(data)@,
                        data@,
                    ));
                    crate::trace::lemma_read_frame_balanced(command, old(data)@, data@);
                    assert(Self::appended(old(self).trace(), self.trace()) =~= read_frame(
                        command,
                        old(data)@,
                        data@,
                    ));
                }
                Ok(())
            }
            Err(e) => {
                proof {
                    assert(self.port.trace() =~= old(self).port.trace() + seq![
                        Event::CsLow,
                        Event::Write(seq![command, 0u8]),
                        Event::CsHigh,
                    ]);
                    crate::trace::lemma_read_fault_frame_balanced(command);
                    assert(Self::appended(old(self).trace(), self.trace()) =~= seq![
                        Event::CsLow,
                        Event::Write(seq![command, 0u8]),
                        Event::CsHigh,
                    ]);
                }
                Err(Sx128xError::Spi(e))
            }
        }
    }

    /// Status query: a command read of the "get status" opcode with a
    /// one-byte buffer, returning that byte. The canonical shape every
    /// higher-level accessor follows: busy wait, one chip-select window,
    /// opcode plus placeholder, duplex transfer.
    pub fn status(&mut self) -> (r: Result<u8, Sx128xError<SpiError, PinError>>)
        ensures
            final(self).has_radio_handle() == old(self).has_radio_handle(),
            final(self).stashed_error() == old(self).stashed_error(),
            r matches Ok(b) ==> final(self).trace() == old(self).trace() + read_frame(
                RADIO_GET_STATUS,
                seq![0u8],
                seq![b],
            ),
            r matches Err(Sx128xError::Spi(_)) ==> read_fault_spi(
                old(self).trace(),
                final(self).trace(),
                RADIO_GET_STATUS,
            ),
            r matches Err(Sx128xError::Pin(_)) ==> read_fault_pin(
                old(self).trace(),
                final(self).trace(),
                RADIO_GET_STATUS,
            ),
            !(r matches Err(Sx128xError::Pin(_))) ==> cs_balanced(
                Self::appended(old(self).trace(), final(self).trace()),
            ),
    {
        let mut d: Vec<u8> = Vec::new();
        d.push(0u8);
        proof {
            assert(d@ =~= seq![0u8]);
        }
        match self.cmd_read(RADIO_GET_STATUS, &mut d) {
            Ok(()) => {
                proof {
                    assert(d@ =~= seq![d@[0]]);
                }
                Ok(d[0])
            }
            Err(e) => Err(e),
        }
    }

    /// Stash a deferred fault in the last-error slot, for contexts where a
    /// direct error return is not plumbed through. Overwrites any earlier
    /// stashed fault; touches no hardware.
    pub fn stash_error(&mut self, e: Sx128xError<SpiError, PinError>)
        ensures
            final(self).trace() == old(self).trace(),
            final(self).has_radio_handle() == old(self).has_radio_handle(),
            final(self).stashed_error() == Some(e),
    {
        self.err = Some(e);
    }

    /// Check-and-clear accessor for the last-error slot: hands back the
    /// stashed fault, if any, and leaves the slot empty.
    pub fn take_error(&mut self) -> (r: Option<Sx128xError<SpiError, PinError>>)
        ensures
            final(self).trace() == old(self).trace(),
            final(self).has_radio_handle() == old(self).has_radio_handle(),
            r == old(self).stashed_error(),
            final(self).stashed_error() is None,
    {
        self.err.take()
    }

    /// Borrow the port, e.g. to inspect what a recording port observed.
    pub fn port_ref(&self) -> (r: &P)
        ensures
            *r == self.spec_port(),
    {
        &self.port
    }
}

} // verus!
