//! A recording port for tests: it performs no I/O, logs every action it is
//! asked to perform, answers transfers with a configurable byte, reports
//! busy a configurable number of times, and can be told to fault in any
//! single primitive. Its ghost trace is, provably, the view of its log, so
//! a test that inspects the log observes exactly the trace the contracts
//! speak of.

use vstd::prelude::*;

use crate::port::Port;
use crate::trace::Event;

verus! {

/// The fault payload a failing mock primitive reports.
pub const MOCK_FAULT: u8 = 0xee;

/// One recorded action, the executable mirror of [`Event`].
#[derive(Debug, Clone, PartialEq, Eq)]
pub enum MockOp {
    CsLow,
    CsHigh,
    RstLow,
    RstHigh,
    DelayMs(u32),
    Write(Vec<u8>),
    Transfer(Vec<u8>, Vec<u8>),
}

/// The trace event a recorded action stands for.
pub open spec fn op_view(op: MockOp) -> Event {
    match op {
        MockOp::CsLow => Event::CsLow,
        MockOp::CsHigh => Event::CsHigh,
        MockOp::RstLow => Event::RstLow,
        MockOp::RstHigh => Event::RstHigh,
        MockOp::DelayMs(ms) => Event::DelayMs(ms),
        MockOp::Write(data) => Event::Write(data@),
        MockOp::Transfer(sent, received) => Event::Transfer(sent@, received@),
    }
}

/// The trace a whole log stands for, action by action.
pub open spec fn log_view(log: Seq<MockOp>) -> Seq<Event>
    decreases log.len(),
{
    if log.len() == 0 {
        Seq::empty()
    } else {
        log_view(log.drop_last()).push(op_view(log.last()))
    }
}

/// Recording one more action appends its event to the trace.
proof fn lemma_log_view_push(log: Seq<MockOp>, op: MockOp)
    ensures
        log_view(log.push(op)) == log_view(log).push(op_view(op)),
{
    assert(log.push(op).drop_last() =~= log);
    assert(log.push(op).last() == op);
}

/// A port that records instead of driving hardware. All fields are public
/// so a test can arrange responses and faults directly:
/// * `log` — every action performed so far, in order;
/// * `rx_byte` — the byte the mock shifts in for each transferred byte;
/// * `busy_polls` — how many busy reads still report busy before ready;
/// * `fail_*` — make the corresponding primitive fault with [`MOCK_FAULT`]
///   instead of acting.
pub struct MockPort {
    pub log: Vec<MockOp>,
    pub rx_byte: u8,
    pub busy_polls: u32,
    pub fail_cs_low: bool,
    pub fail_cs_high: bool,
    pub fail_reset_low: bool,
    pub fail_reset_high: bool,
    pub fail_write: bool,
    pub fail_transfer: bool,
    pub fail_busy: bool,
}

impl MockPort {
    /// A quiet mock: empty log, ready at once, answers zero bytes, and
    /// never faults.
    pub fn new() -> (r: MockPort)
        ensures
            r.log@ == Seq::<MockOp>::empty(),
            r.trace() == Seq::<Event>::empty(),
            r.rx_byte == 0u8,
            r.busy_polls == 0u32,
            !r.fail_cs_low && !r.fail_cs_high && !r.fail_reset_low && !r.fail_reset_high
                && !r.fail_write && !r.fail_transfer && !r.fail_busy,
    {
        MockPort {
            log: Vec::new(),
            rx_byte: 0,
            busy_polls: 0,
            fail_cs_low: false,
            fail_cs_high: false,
            fail_reset_low: false,
            fail_reset_high: false,
            fail_write: false,
            fail_transfer: false,
            fail_busy: false,
        }
    }

    /// Record one action, keeping the trace in step with the log.
    fn record(&mut self, op: MockOp)
        ensures
            final(self).log@ == old(self).log@.push(op),
            final(self).trace() == old(self).trace().push(op_view(op)),
            final(self).rx_byte == old(self).rx_byte,
            final(self).busy_polls == old(self).busy_polls,
    {
        proof {
            lemma_log_view_push(self.log@, op);
        }
        self.log.push(op);
    }
}

impl Port<u8, u8> for MockPort {
    open spec fn trace(&self) -> Seq<Event> {
        log_view(self.log@)
    }

    open spec fn busy_budget(&self) -> nat {
        self.busy_polls as nat
    }

    fn cs_low(&mut self) -> (r: Result<(), u8>) {
        if self.fail_cs_low {
            Err(MOCK_FAULT)
        } else {
            self.record(MockOp::CsLow);
            Ok(())
        }
    }

    fn cs_high(&mut self) -> (r: Result<(), u8>) {
        if self.fail_cs_high {
            Err(MOCK_FAULT)
        } else {
            self.record(MockOp::CsHigh);
            Ok(())
        }
    }

    fn reset_low(&mut self) -> (r: Result<(), u8>) {
        if self.fail_reset_low {
            Err(MOCK_FAULT)
        } else {
            self.record(MockOp::RstLow);
            Ok(())
        }
    }

    fn reset_high(&mut self) -> (r: Result<(), u8>) {
        if self.fail_reset_high {
            Err(MOCK_FAULT)
        } else {
            self.record(MockOp::RstHigh);
            Ok(())
        }
    }

    fn delay_ms(&mut self, ms: u32) {
        self.record(MockOp::DelayMs(ms));
    }

    fn write(&mut self, data: &Vec<u8>) -> (r: Result<(), u8>) {
        if self.fail_write {
            Err(MOCK_FAULT)
        } else {
            let mut sent: Vec<u8> = Vec::new();
            let mut i: usize = 0;
            while i < data.len()
                invariant
                    i <= data.len(),
                    sent@ == data@.take(i as int),
                decreases data.len() - i,
            {
                sent.push(data[i]);
                proof {
                    assert(sent@ =~= data@.take(i + 1 as int));
                }
                i = i + 1;
            }
            proof {
                assert(data@.take(data@.len() as int) =~= data@);
            }
            self.record(MockOp::Write(sent));
            Ok(())
        }
    }

    fn transfer(&mut self, data: &mut Vec<u8>) -> (r: Result<(), u8>) {
        if self.fail_transfer {
            Err(MOCK_FAULT)
        } else {
            let n: usize = data.len();
            let mut received: Vec<u8> = Vec::new();
            let mut logged: Vec<u8> = Vec::new();
            let mut i: usize = 0;
            while i < n
                invariant
                    i <= n,
                    received@.len() == i,
                    received@ == logged@,
                    forall|j: int| 0 <= j < i ==> received@[j] == self.rx_byte,
                decreases n - i,
            {
                received.push(self.rx_byte);
                logged.push(self.rx_byte);
                i = i + 1;
            }
            let mut sent = received;
            core::mem::swap(data, &mut sent);
            self.record(MockOp::Transfer(sent, logged));
            Ok(())
        }
    }

    fn busy(&mut self) -> (r: Result<bool, u8>) {
        if self.fail_busy {
            Err(MOCK_FAULT)
        } else if self.busy_polls > 0 {
            self.busy_polls = self.busy_polls - 1;
            Ok(true)
        } else {
            Ok(false)
        }
    }
}

} // verus!
