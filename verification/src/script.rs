//! A scripted bus and delay: verified implementations of the driver's two
//! capabilities that answer from a fixed script and log everything they are
//! asked to do. They let the driver run without hardware, and let tests hold
//! its wire traffic, byte for byte, against expectations.

use vstd::prelude::*;

use crate::bus::{BusEvent, CameraBus, DelaySource};

verus! {

/// One recorded bus operation, as plain values that tests can compare.
#[derive(Debug, Clone, PartialEq, Eq)]
pub enum LogEntry {
    /// A plain write and the bytes it carried.
    Write(Vec<u8>),
    /// A full-duplex transfer: the bytes sent, then the bytes received.
    Transfer(Vec<u8>, Vec<u8>),
    /// A transaction was opened.
    Start,
    /// A transaction was closed.
    End,
}

impl View for LogEntry {
    type V = BusEvent;

    open spec fn view(&self) -> BusEvent {
        match self {
            LogEntry::Write(data) => BusEvent::Write { data: data@ },
            LogEntry::Transfer(sent, received) => BusEvent::Transfer {
                sent: sent@,
                received: received@,
            },
            LogEntry::Start => BusEvent::Start,
            LogEntry::End => BusEvent::End,
        }
    }
}

/// The transcript a log stands for.
pub open spec fn log_view(log: Seq<LogEntry>) -> Seq<BusEvent> {
    log.map_values(|e: LogEntry| e@)
}

/// Appending one entry to a log appends its event to the transcript.
proof fn lemma_log_view_push(log: Seq<LogEntry>, e: LogEntry)
    ensures
        log_view(log.push(e)) == log_view(log).push(e@),
{
    assert(log_view(log.push(e)) =~= log_view(log).push(e@));
}

/// A scripted collaborator's failure value: the script had no fitting
/// answer left.
#[derive(Debug, Clone, Copy, PartialEq, Eq, Structural)]
pub struct ScriptFault;

/// Copies a byte slice into a fresh vector.
fn copy_bytes(src: &[u8]) -> (r: Vec<u8>)
    ensures
        r@ == src@,
{
    let mut r: Vec<u8> = Vec::new();
    let mut k: usize = 0;
    while k < src.len()
        invariant
            k <= src@.len(),
            r@.len() == k,
            forall|t: int| 0 <= t < k ==> r@[t] == src@[t],
        decreases src@.len() - k,
    {
        r.push(src[k]);
        k = k + 1;
    }
    proof {
        assert(r@ =~= src@);
    }
    r
}

/// A bus that answers each transfer with the next response of a fixed
/// script — provided its length is what the transfer asks for — and fails
/// once the script runs out. Every operation carried is appended to
/// [`log`](ScriptBus::log).
pub struct ScriptBus {
    /// The responses still to be handed out, consumed front to back.
    pub responses: Vec<Vec<u8>>,
    /// How many responses have been handed out already.
    pub cursor: usize,
    /// Everything the bus has carried, oldest first.
    pub log: Vec<LogEntry>,
}

impl ScriptBus {
    /// A bus that will answer transfers with `responses`, in order.
    pub fn new(responses: Vec<Vec<u8>>) -> (r: Self)
        ensures
            r.events() == Seq::<BusEvent>::empty(),
    {
        let r = ScriptBus { responses, cursor: 0, log: Vec::new() };
        proof {
            assert(r.events() =~= Seq::<BusEvent>::empty());
        }
        r
    }
}

impl CameraBus for ScriptBus {
    type BusError = ScriptFault;

    open spec fn events(&self) -> Seq<BusEvent> {
        log_view(self.log@)
    }

    fn write(&mut self, data: &[u8]) -> (r: Result<(), ScriptFault>) {
        let entry = LogEntry::Write(copy_bytes(data));
        proof {
            assert(entry@ =~= (BusEvent::Write { data: data@ }));
            lemma_log_view_push(self.log@, entry);
        }
        self.log.push(entry);
        Ok(())
    }

    fn transfer(&mut self, sent: &[u8], read_len: usize) -> (r: Result<Vec<u8>, ScriptFault>) {
        if self.cursor < self.responses.len() {
            if self.responses[self.cursor].len() == read_len {
                let payload = copy_bytes(self.responses[self.cursor].as_slice());
                let logged = copy_bytes(payload.as_slice());
                let entry = LogEntry::Transfer(copy_bytes(sent), logged);
                self.cursor = self.cursor + 1;
                proof {
                    assert(entry@ =~= (BusEvent::Transfer { sent: sent@, received: payload@ }));
                    lemma_log_view_push(self.log@, entry);
                }
                self.log.push(entry);
                return Ok(payload);
            }
        }
        Err(ScriptFault)
    }

    fn begin_transaction(&mut self) {
        proof {
            lemma_log_view_push(self.log@, LogEntry::Start);
        }
        self.log.push(LogEntry::Start);
    }

    fn end_transaction(&mut self) {
        proof {
            lemma_log_view_push(self.log@, LogEntry::End);
        }
        self.log.push(LogEntry::End);
    }
}

/// A delay that sleeps by recording the request: every sleep is appended to
/// [`log`](ScriptDelay::log). A bounded budget makes it fail once the budget
/// is spent, for exercising the driver's timing-failure paths.
pub struct ScriptDelay {
    /// Sleeps left before the delay starts failing; `None` never fails.
    pub budget: Option<usize>,
    /// Every sleep performed, in microseconds, oldest first.
    pub log: Vec<u32>,
}

impl ScriptDelay {
    /// A delay that always succeeds.
    pub fn new() -> (r: Self)
        ensures
            r.sleeps() == Seq::<u32>::empty(),
    {
        ScriptDelay { budget: None, log: Vec::new() }
    }

    /// A delay that succeeds `budget` times and fails afterwards.
    pub fn with_budget(budget: usize) -> (r: Self)
        ensures
            r.sleeps() == Seq::<u32>::empty(),
    {
        ScriptDelay { budget: Some(budget), log: Vec::new() }
    }
}

impl DelaySource for ScriptDelay {
    type DelayError = ScriptFault;

    open spec fn sleeps(&self) -> Seq<u32> {
        self.log@
    }

    fn delay_us(&mut self, us: u32) -> (r: Result<(), ScriptFault>) {
        if let Some(n) = self.budget {
            if n == 0 {
                return Err(ScriptFault);
            }
            self.budget = Some(n - 1);
        }
        self.log.push(us);
        Ok(())
    }
}

} // verus!
