//! Byte capture in interrupt context and foreground digestion of the
//! captured bytes into routed protocol events.
use vstd::prelude::*;
use crate::buffer::{Buffer, BUFFER_CAPACITY};
use crate::protocol::{destination_of, route, Destination, Response};
use crate::queue::{NotificationQueue, ResponseQueue, NOTIFICATION_CAPACITY, RESPONSE_CAPACITY};

verus! {

/// The digest counter after one more digest: it wraps to zero past `u32::MAX`.
pub open spec fn next_count(c: u32) -> u32 {
    if c == u32::MAX {
        0
    } else {
        (c + 1) as u32
    }
}

/// Diagnostic state that external monitors read: a heartbeat counter of
/// digest calls and a flag raised when a timeout fired.
pub struct Diagnostics {
    digest_counter: u32,
    timeout_triggered: bool,
}

impl Diagnostics {
    pub closed spec fn counter(&self) -> u32 {
        self.digest_counter
    }

    pub closed spec fn timed_out(&self) -> bool {
        self.timeout_triggered
    }

    /// Counter at zero, no timeout.
    pub fn new() -> (d: Diagnostics)
        ensures
            d.counter() == 0,
            !d.timed_out(),
    {
        Diagnostics { digest_counter: 0, timeout_triggered: false }
    }

    /// Counter at the given value, no timeout.
    pub fn with_counter(start: u32) -> (d: Diagnostics)
        ensures
            d.counter() == start,
            !d.timed_out(),
    {
        Diagnostics { digest_counter: start, timeout_triggered: false }
    }

    pub fn digest_counter(&self) -> (c: u32)
        ensures
            c == self.counter(),
    {
        self.digest_counter
    }

    pub fn timeout_triggered(&self) -> (t: bool)
        ensures
            t == self.timed_out(),
    {
        self.timeout_triggered
    }

    pub fn set_timeout_triggered(&mut self, t: bool)
        ensures
            final(self).timed_out() == t,
            final(self).counter() == old(self).counter(),
    {
        self.timeout_triggered = t;
    }

    /// Advances the counter by one, wrapping to zero past `u32::MAX`.
    pub fn increment_counter(&mut self)
        ensures
            final(self).counter() == next_count(old(self).counter()),
            final(self).timed_out() == old(self).timed_out(),
    {
        if self.digest_counter == u32::MAX {
            self.digest_counter = 0;
        } else {
            self.digest_counter = self.digest_counter + 1;
        }
    }
}

/// One outcome of the non-blocking read of the receive line.
#[derive(Debug, Clone, Copy, PartialEq, Eq)]
pub enum RxEvent {
    /// A byte arrived.
    Byte(u8),
    /// No byte is waiting.
    WouldBlock,
    /// A transient line error; reading goes on.
    LineError,
}

/// What the interrupt routine does after one read outcome.
#[derive(Debug, Clone, Copy, PartialEq, Eq)]
pub enum IsrStep {
    /// Read the line again.
    ReadAgain,
    /// The line is drained: return successfully.
    Idle,
    /// The buffer is full: return this byte as the error.
    Overflow(u8),
}

/// What the parser made of the unparsed bytes.
#[derive(Debug, Clone, PartialEq, Eq)]
pub enum ParseOutcome {
    /// A response was recognised in the first `consumed` bytes.
    Parsed { response: Response, consumed: usize },
    /// More bytes are needed; nothing is consumed.
    Incomplete,
    /// The first `discarded` bytes cannot start a response and are dropped.
    Malformed { discarded: usize },
}

/// How many bytes an outcome removes from the front of the buffer.
pub open spec fn consumed_by(p: ParseOutcome) -> nat {
    match p {
        ParseOutcome::Parsed { consumed, .. } => consumed as nat,
        ParseOutcome::Incomplete => 0,
        ParseOutcome::Malformed { discarded } => discarded as nat,
    }
}

/// What one digest did with the parsed response, for the log.
#[derive(Debug, Clone, PartialEq, Eq)]
pub enum Digested {
    /// Nothing was recognised, or the empty response.
    Idle,
    /// The response went into the named queue.
    Enqueued(Destination),
    /// The named queue was full; the response was dropped.
    Dropped(Destination, Response),
    /// A control-plane event: it is only logged.
    Logged(Response),
}

/// The byte-capture and digestion pipeline.
pub struct Ingress {
    buffer: Buffer,
    diagnostics: Diagnostics,
    /// Every byte accepted from the line, oldest first.
    accepted: Ghost<Seq<u8>>,
    /// Every byte removed from the buffer by the parser, oldest first.
    handed: Ghost<Seq<u8>>,
}

impl Ingress {
    pub closed spec fn unparsed(&self) -> Seq<u8> {
        self.buffer@
    }

    pub closed spec fn received(&self) -> Seq<u8> {
        self.accepted@
    }

    pub closed spec fn parsed(&self) -> Seq<u8> {
        self.handed@
    }

    pub closed spec fn diag(&self) -> Diagnostics {
        self.diagnostics
    }

    /// The bytes taken from the line are exactly those handed to the parser
    /// followed by those still waiting, in order, within the buffer's bound.
    pub closed spec fn wf(&self) -> bool {
        &&& self.buffer.wf()
        &&& self.accepted@ == self.handed@ + self.buffer@
    }

    pub fn new(diagnostics: Diagnostics) -> (ing: Ingress)
        ensures
            ing.wf(),
            ing.unparsed() == Seq::<u8>::empty(),
            ing.received() == Seq::<u8>::empty(),
            ing.parsed() == Seq::<u8>::empty(),
            ing.diag() == diagnostics,
    {
        Ingress {
            buffer: Buffer::new(),
            diagnostics,
            accepted: Ghost(Seq::empty()),
            handed: Ghost(Seq::empty()),
        }
    }

    pub fn diagnostics(&self) -> (d: &Diagnostics)
        ensures
            *d == self.diag(),
    {
        &self.diagnostics
    }

    pub fn set_timeout_triggered(&mut self, t: bool)
        requires
            old(self).wf(),
        ensures
            final(self).wf(),
            final(self).unparsed().len() <= BUFFER_CAPACITY,
            final(self).diag().timed_out() == t,
            final(self).diag().counter() == old(self).diag().counter(),
            final(self).unparsed() == old(self).unparsed(),
            final(self).received() == old(self).received(),
            final(self).parsed() == old(self).parsed(),
    {
        self.diagnostics.set_timeout_triggered(t);
    }

    /// The bytes waiting for the parser, oldest first.
    pub fn unparsed_bytes(&self) -> (s: &[u8])
        ensures
            s@ == self.unparsed(),
    {
        self.buffer.as_slice()
    }

    /// Handles one outcome of the receive line's non-blocking read, from
    /// interrupt context: a byte is appended, or handed back as the error
    /// when the buffer is full; a line error is skipped; an empty line ends
    /// the routine. The queues are never touched here.
    pub fn isr(&mut self, event: RxEvent) -> (step: IsrStep)
        requires
            old(self).wf(),
        ensures
            final(self).wf(),
            final(self).unparsed().len() <= BUFFER_CAPACITY,
            final(self).diag() == old(self).diag(),
            final(self).parsed() == old(self).parsed(),
            match event {
                RxEvent::Byte(b) => if old(self).unparsed().len() < BUFFER_CAPACITY {
                    &&& step == IsrStep::ReadAgain
                    &&& final(self).unparsed() == old(self).unparsed().push(b)
                    &&& final(self).received() == old(self).received().push(b)
                } else {
                    &&& step == IsrStep::Overflow(b)
                    &&& final(self).unparsed() == old(self).unparsed()
                    &&& final(self).received() == old(self).received()
                },
                RxEvent::WouldBlock => {
                    &&& step == IsrStep::Idle
                    &&& final(self).unparsed() == old(self).unparsed()
                    &&& final(self).received() == old(self).received()
                },
                RxEvent::LineError => {
                    &&& step == IsrStep::ReadAgain
                    &&& final(self).unparsed() == old(self).unparsed()
                    &&& final(self).received() == old(self).received()
                },
            },
    {
        match event {
            RxEvent::Byte(b) => {
                match self.buffer.write(b) {
                    Ok(()) => {
                        proof {
                            self.accepted@ = self.accepted@.push(b);
                            assert(self.accepted@ == self.handed@ + self.buffer@);
                        }
                        IsrStep::ReadAgain
                    },
                    Err(e) => IsrStep::Overflow(e),
                }
            },
            RxEvent::WouldBlock => IsrStep::Idle,
            RxEvent::LineError => IsrStep::ReadAgain,
        }
    }
    /// One foreground digestion cycle: bumps the digest counter, removes from
    /// the buffer the bytes that the parser consumed, and routes a recognised
    /// response by its class. A full queue drops the response and reports it;
    /// nothing blocks and nothing is retried.
    pub fn digest(
        &mut self,
        outcome: ParseOutcome,
        responses: &mut ResponseQueue,
        notifications: &mut NotificationQueue,
    ) -> (d: Digested)
        requires
            old(self).wf(),
            consumed_by(outcome) <= old(self).unparsed().len(),
        ensures
            final(self).wf(),
            final(self).unparsed().len() <= BUFFER_CAPACITY,
            final(self).diag().counter() == next_count(old(self).diag().counter()),
            final(self).diag().timed_out() == old(self).diag().timed_out(),
            final(self).received() == old(self).received(),
            final(self).unparsed() == old(self).unparsed().skip(consumed_by(outcome) as int),
            final(self).parsed() == old(self).parsed() + old(self).unparsed().take(consumed_by(outcome) as int),
            match outcome {
                ParseOutcome::Parsed { response, .. } => match destination_of(response) {
                    Destination::ResponseQueue => {
                        &&& *final(notifications) == *old(notifications)
                        &&& if old(responses)@.len() < RESPONSE_CAPACITY {
                            &&& d == Digested::Enqueued(Destination::ResponseQueue)
                            &&& final(responses)@ == old(responses)@.push(response)
                        } else {
                            &&& d == Digested::Dropped(Destination::ResponseQueue, response)
                            &&& final(responses)@ == old(responses)@
                        }
                    },
                    Destination::NotificationQueue => {
                        &&& *final(responses) == *old(responses)
                        &&& if old(notifications)@.len() < NOTIFICATION_CAPACITY {
                            &&& d == Digested::Enqueued(Destination::NotificationQueue)
                            &&& final(notifications)@ == old(notifications)@.push(response)
                        } else {
                            &&& d == Digested::Dropped(Destination::NotificationQueue, response)
                            &&& final(notifications)@ == old(notifications)@
                        }
                    },
                    Destination::LogOnly => {
                        &&& d == Digested::Logged(response)
                        &&& *final(responses) == *old(responses)
                        &&& *final(notifications) == *old(notifications)
                    },
                    Destination::Ignore => {
                        &&& d == Digested::Idle
                        &&& *final(responses) == *old(responses)
                        &&& *final(notifications) == *old(notifications)
                    },
                },
                _ => {
                    &&& d == Digested::Idle
                    &&& *final(responses) == *old(responses)
                    &&& *final(notifications) == *old(notifications)
                },
            },
    {
        self.diagnostics.increment_counter();
        let n: usize = match &outcome {
            ParseOutcome::Parsed { consumed, .. } => *consumed,
            ParseOutcome::Incomplete => 0,
            ParseOutcome::Malformed { discarded } => *discarded,
        };
        proof {
            self.handed@ = self.handed@ + self.buffer@.take(n as int);
        }
        self.buffer.consume(n);
        proof {
            assert(old(self).buffer@ =~= old(self).buffer@.take(n as int) + old(self).buffer@.skip(n as int));
            assert(self.accepted@ =~= self.handed@ + self.buffer@);
        }
        match outcome {
            ParseOutcome::Parsed { response, .. } => {
                match route(&response) {
                    Destination::ResponseQueue => match responses.enqueue(response) {
                        Ok(()) => Digested::Enqueued(Destination::ResponseQueue),
                        Err(r) => Digested::Dropped(Destination::ResponseQueue, r),
                    },
                    Destination::NotificationQueue => match notifications.enqueue(response) {
                        Ok(()) => Digested::Enqueued(Destination::NotificationQueue),
                        Err(r) => Digested::Dropped(Destination::NotificationQueue, r),
                    },
                    Destination::LogOnly => Digested::Logged(response),
                    Destination::Ignore => Digested::Idle,
                }
            },
            _ => Digested::Idle,
        }
    }
}

/// The digest counter runs through every `u32` in turn: each step adds one
/// modulo 2^32, so `u32::MAX` is followed by zero and no value is skipped or
/// repeated.
pub proof fn lemma_counter_wraparound(c: u32)
    ensures
        next_count(c) as int == (c as int + 1) % 0x1_0000_0000,
        forall|a: u32, b: u32| next_count(a) == next_count(b) ==> a == b,
{
}

/// Every byte accepted from the line is either already handed to the parser
/// or still waiting in the buffer, once and in arrival order; the buffer
/// never holds more than its capacity.
pub proof fn lemma_bytes_conserved(ing: Ingress)
    requires
        ing.wf(),
    ensures
        ing.received() == ing.parsed() + ing.unparsed(),
        ing.unparsed().len() <= BUFFER_CAPACITY,
{
}

/// Bytes accepted while the parser consumed nothing are appended to the
/// unparsed bytes unchanged: none is lost, reordered or duplicated.
pub proof fn lemma_no_byte_loss(before: Ingress, after: Ingress, bytes: Seq<u8>)
    requires
        before.wf(),
        after.wf(),
        after.received() == before.received() + bytes,
        after.parsed() == before.parsed(),
    ensures
        after.unparsed() == before.unparsed() + bytes,
{
    let p = before.parsed();
    assert(p + after.unparsed() == p + (before.unparsed() + bytes));
    assert((p + after.unparsed()).skip(p.len() as int) =~= after.unparsed());
    assert((p + (before.unparsed() + bytes)).skip(p.len() as int) =~= before.unparsed() + bytes);
}

} // verus!
