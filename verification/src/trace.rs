//! Ghost model of everything the driver does to the hardware: pin edges,
//! blocking delays, and bus accesses, in the order they happen. The
//! contracts of the protocol operations are stated as exact trace shapes,
//! and the chip-select discipline is a predicate over traces.

use vstd::prelude::*;

verus! {

/// One observable action on the transport: a chip-select or reset pin edge,
/// a blocking millisecond delay, a one-way bus write, or a full-duplex bus
/// transfer (bytes shifted out, bytes shifted in). Busy-line reads are
/// observations, not actions, and do not appear in the trace.
pub enum Event {
    CsLow,
    CsHigh,
    RstLow,
    RstHigh,
    DelayMs(u32),
    Write(Seq<u8>),
    Transfer(Seq<u8>, Seq<u8>),
}

/// Milliseconds the reset line is held low.
pub const RESET_HOLD_MS: u32 = 1;

/// Milliseconds granted to the chip's boot sequence after the reset line is
/// released.
pub const RESET_BOOT_MS: u32 = 10;

/// The exact pin/delay trace of a completed hardware reset: reset line low,
/// a short hold, reset line high, a longer boot delay. No bus traffic and no
/// chip-select activity.
pub open spec fn reset_frame() -> Seq<Event> {
    seq![
        Event::RstLow,
        Event::DelayMs(RESET_HOLD_MS),
        Event::RstHigh,
        Event::DelayMs(RESET_BOOT_MS),
    ]
}

/// The trace left by a reset that failed when releasing the reset line: the
/// line went low and the hold delay elapsed, but the line was not seen high.
pub open spec fn reset_partial_frame() -> Seq<Event> {
    seq![Event::RstLow, Event::DelayMs(RESET_HOLD_MS)]
}

/// The bus trace of a successful command write: one chip-select window in
/// which the opcode and the payload go out as a single write.
pub open spec fn write_frame(op: u8, payload: Seq<u8>) -> Seq<Event> {
    seq![Event::CsLow, Event::Write(seq![op] + payload), Event::CsHigh]
}

/// The bus trace of a successful command read: one chip-select window in
/// which the opcode and one placeholder status byte (always zero) go out as a
/// single write, then a full-duplex transfer fills the caller's buffer.
pub open spec fn read_frame(op: u8, sent: Seq<u8>, received: Seq<u8>) -> Seq<Event> {
    seq![
        Event::CsLow,
        Event::Write(seq![op, 0u8]),
        Event::Transfer(sent, received),
        Event::CsHigh,
    ]
}

/// The trace shape of a command write that failed in the bus itself: the
/// write faulted, and the chip-select window was still closed before
/// returning.
pub open spec fn write_fault_spi(pre: Seq<Event>, post: Seq<Event>) -> bool {
    post == pre + seq![Event::CsLow, Event::CsHigh]
}

/// Trace shapes of a command write that failed in a pin operation: the busy
/// poll or chip-select assertion faulted before any bus traffic, or the
/// chip-select release itself faulted inside the window.
pub open spec fn write_fault_pin(pre: Seq<Event>, post: Seq<Event>, op: u8, payload: Seq<u8>) -> bool {
    ||| post == pre
    ||| post == pre.push(Event::CsLow)
    ||| post == pre + seq![Event::CsLow, Event::Write(seq![op] + payload)]
}

/// Trace shapes of a command read that failed in the bus itself: the command
/// write or the data transfer faulted, and the chip-select window was still
/// closed before returning.
pub open spec fn read_fault_spi(pre: Seq<Event>, post: Seq<Event>, op: u8) -> bool {
    ||| post == pre + seq![Event::CsLow, Event::CsHigh]
    ||| post == pre + seq![Event::CsLow, Event::Write(seq![op, 0u8]), Event::CsHigh]
}

/// Trace shapes of a command read that failed in a pin operation: the busy
/// poll or chip-select assertion faulted before any bus traffic, or the
/// chip-select release faulted at some point inside the window.
pub open spec fn read_fault_pin(pre: Seq<Event>, post: Seq<Event>, op: u8) -> bool {
    ||| post == pre
    ||| post == pre.push(Event::CsLow)
    ||| post == pre + seq![Event::CsLow, Event::Write(seq![op, 0u8])]
    ||| exists|sent: Seq<u8>, received: Seq<u8>|
            post == pre + seq![
                Event::CsLow,
                Event::Write(seq![op, 0u8]),
                Event::Transfer(sent, received),
            ]
}

/// A trace has no bus traffic at all.
pub open spec fn bus_silent(t: Seq<Event>) -> bool {
    forall|i: int|
        0 <= i < t.len() ==> !((#[trigger] t[i]) is Write) && !(t[i] is Transfer)
}

/// Runs the chip-select discipline over a trace, starting with the line
/// deasserted when `low` is false. Returns the final line state, or `None`
/// if the trace asserts an already-asserted line or deasserts an
/// already-deasserted one.
pub open spec fn cs_run(t: Seq<Event>, low: bool) -> Option<bool>
    decreases t.len(),
{
    if t.len() == 0 {
        Some(low)
    } else {
        match cs_run(t.drop_last(), low) {
            None => None,
            Some(m) => match t.last() {
                Event::CsLow => if !m { Some(true) } else { None },
                Event::CsHigh => if m { Some(false) } else { None },
                _ => Some(m),
            },
        }
    }
}

/// The chip-select discipline: starting deasserted, low and high transitions
/// alternate strictly and the line ends deasserted — so the number of low
/// transitions equals the number of high transitions.
pub open spec fn cs_balanced(t: Seq<Event>) -> bool {
    cs_run(t, false) == Some(false)
}

/// `cs_run` distributes over concatenation: running the discipline over
/// `a + b` is running it over `a`, then over `b` from where `a` left off.
pub proof fn lemma_cs_run_concat(a: Seq<Event>, b: Seq<Event>, start: bool)
    requires
        cs_run(a, start) is Some,
    ensures
        cs_run(a + b, start) == cs_run(b, cs_run(a, start)->0),
    decreases b.len(),
{
    if b.len() == 0 {
        assert(a + b =~= a);
    } else {
        lemma_cs_run_concat(a, b.drop_last(), start);
        assert((a + b).drop_last() =~= a + b.drop_last());
        assert((a + b).last() == b.last());
    }
}

/// Law (chip-select discipline composes): a trace made of chip-select
/// balanced segments is itself balanced. Together with the per-command
/// contracts, any sequence of command writes and reads keeps low and high
/// transitions equal in number and strictly alternating.
pub proof fn lemma_cs_balanced_concat(a: Seq<Event>, b: Seq<Event>)
    requires
        cs_balanced(a),
        cs_balanced(b),
    ensures
        cs_balanced(a + b),
{
    lemma_cs_run_concat(a, b, false);
}


/// A successful command-write frame is chip-select balanced.
pub proof fn lemma_write_frame_balanced(op: u8, payload: Seq<u8>)
    ensures
        cs_balanced(write_frame(op, payload)),
{
    reveal_with_fuel(cs_run, 5);
    let t = write_frame(op, payload);
    assert(t.drop_last() =~= seq![Event::CsLow, Event::Write(seq![op] + payload)]);
    assert(t.drop_last().drop_last() =~= seq![Event::CsLow]);
    assert(seq![Event::CsLow].drop_last() =~= Seq::<Event>::empty());
}

/// An empty chip-select window — asserted and released with no bus traffic
/// in between, the trace a command leaves when its first bus access faults —
/// is balanced.
pub proof fn lemma_cs_pair_balanced()
    ensures
        cs_balanced(seq![Event::CsLow, Event::CsHigh]),
{
    reveal_with_fuel(cs_run, 4);
    let t = seq![Event::CsLow, Event::CsHigh];
    assert(t.drop_last() =~= seq![Event::CsLow]);
    assert(seq![Event::CsLow].drop_last() =~= Seq::<Event>::empty());
}

/// The window left by a command read whose data transfer faulted — opcode
/// and placeholder went out, chip select was still released — is balanced.
pub proof fn lemma_read_fault_frame_balanced(op: u8)
    ensures
        cs_balanced(seq![Event::CsLow, Event::Write(seq![op, 0u8]), Event::CsHigh]),
{
    reveal_with_fuel(cs_run, 5);
    let t = seq![Event::CsLow, Event::Write(seq![op, 0u8]), Event::CsHigh];
    assert(t.drop_last() =~= seq![Event::CsLow, Event::Write(seq![op, 0u8])]);
    assert(t.drop_last().drop_last() =~= seq![Event::CsLow]);
    assert(seq![Event::CsLow].drop_last() =~= Seq::<Event>::empty());
}

/// A successful command-read frame is chip-select balanced.
pub proof fn lemma_read_frame_balanced(op: u8, sent: Seq<u8>, received: Seq<u8>)
    ensures
        cs_balanced(read_frame(op, sent, received)),
{
    reveal_with_fuel(cs_run, 6);
    let t = read_frame(op, sent, received);
    assert(t.drop_last() =~= seq![
        Event::CsLow,
        Event::Write(seq![op, 0u8]),
        Event::Transfer(sent, received),
    ]);
    assert(t.drop_last().drop_last() =~= seq![Event::CsLow, Event::Write(seq![op, 0u8])]);
    assert(t.drop_last().drop_last().drop_last() =~= seq![Event::CsLow]);
    assert(seq![Event::CsLow].drop_last() =~= Seq::<Event>::empty());
}

/// A reset frame touches no chip-select line and is therefore balanced, and
/// it carries no bus traffic; the same holds of the partial frame left by a
/// failed reset.
pub proof fn lemma_reset_frame_silent()
    ensures
        cs_balanced(reset_frame()),
        cs_balanced(reset_partial_frame()),
        bus_silent(reset_frame()),
        bus_silent(reset_partial_frame()),
{
    reveal_with_fuel(cs_run, 6);
    let t = reset_frame();
    assert(t.drop_last() =~= seq![Event::RstLow, Event::DelayMs(RESET_HOLD_MS), Event::RstHigh]);
    assert(t.drop_last().drop_last() =~= reset_partial_frame());
    assert(reset_partial_frame().drop_last() =~= seq![Event::RstLow]);
    assert(seq![Event::RstLow].drop_last() =~= Seq::<Event>::empty());
}

/// Law (reset idempotence): two successful resets in a row append two
/// identical frames, each the exact frame a single reset appends.
pub proof fn lemma_reset_idempotent(t0: Seq<Event>, t1: Seq<Event>, t2: Seq<Event>)
    requires
        t1 == t0 + reset_frame(),
        t2 == t1 + reset_frame(),
    ensures
        t1.skip(t0.len() as int) == t2.skip(t1.len() as int),
        t1.skip(t0.len() as int) == reset_frame(),
        t2 == t0 + (reset_frame() + reset_frame()),
{
    assert(t1.skip(t0.len() as int) =~= reset_frame());
    assert(t2.skip(t1.len() as int) =~= reset_frame());
    assert(t2 =~= t0 + (reset_frame() + reset_frame()));
}

/// Law (write/read round trip): a command write of opcode `op` with payload
/// `payload`, followed by a command read of the same opcode, appends two
/// independently framed segments; the read's command bytes are exactly
/// `[op, 0]` — no payload byte of the write leaks into the read's
/// placeholder — and the combined segment keeps the chip-select discipline.
pub proof fn lemma_round_trip(
    t0: Seq<Event>,
    op: u8,
    payload: Seq<u8>,
    sent: Seq<u8>,
    received: Seq<u8>,
)
    ensures
        ({
            let t1 = t0 + write_frame(op, payload);
            let t2 = t1 + read_frame(op, sent, received);
            &&& t2.skip(t1.len() as int) == read_frame(op, sent, received)
            &&& t1.skip(t0.len() as int) == write_frame(op, payload)
            &&& read_frame(op, sent, received)[1] == Event::Write(seq![op, 0u8])
            &&& cs_balanced(write_frame(op, payload) + read_frame(op, sent, received))
        }),
{
    let t1 = t0 + write_frame(op, payload);
    let t2 = t1 + read_frame(op, sent, received);
    assert(t2.skip(t1.len() as int) =~= read_frame(op, sent, received));
    assert(t1.skip(t0.len() as int) =~= write_frame(op, payload));
    lemma_write_frame_balanced(op, payload);
    lemma_read_frame_balanced(op, sent, received);
    lemma_cs_balanced_concat(write_frame(op, payload), read_frame(op, sent, received));
}

} // verus!
