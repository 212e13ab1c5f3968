//! The duplex relay session: two byte pumps, one shared shutdown signal,
//! one optional log sink.
//!
//! A session pairs one connection with one local endpoint. The outbound
//! pump forwards units read from the local source to the connection; the
//! inbound pump forwards chunks read from the connection to the local sink,
//! polling with a bounded wait so it can observe the shutdown signal. The
//! front end runs the two pumps as real threads and reports every event to
//! one [`RelaySession`] behind a lock; the session's specification machine
//! ([`step`]) is the single definition of what each event does, and the
//! session-wide laws are proved over runs of that machine.

use vstd::prelude::*;

use crate::logsink::LogSink;
use crate::logsink::LogView;
use crate::logsink::tee_step;
use crate::signal::ShutdownSignal;

verus! {

/// The abstract state of one relay session.
#[verifier::ext_equal]
pub struct SessionView {
    /// The outbound pump (local source to connection) has exited.
    pub outbound_done: bool,
    /// The inbound pump (connection to local sink) has exited.
    pub inbound_done: bool,
    /// The shared shutdown signal.
    pub shutdown: bool,
    /// Both pumps were joined and the connection was shut down.
    pub closed: bool,
    /// The log sink's state.
    pub log: LogView,
    /// The chunks delivered to the connection sink, in order.
    pub sent_out: Seq<Seq<u8>>,
    /// The chunks delivered to the local sink, in order.
    pub sent_in: Seq<Seq<u8>>,
}

/// One observable event in a relay session, as reported by a pump.
pub enum Event {
    /// The local source produced one unit (a line with its newline, or a
    /// raw chunk) and the connection write completed; `quit` says whether
    /// the unit was the quit command, which only the terminal source can
    /// produce.
    OutboundUnit { data: Seq<u8>, quit: bool },
    /// The outbound pump exited: local end-of-stream, a failed local read,
    /// or a failed connection write.
    OutboundEnd,
    /// The inbound pump reached its poll boundary (loop top or bounded-wait
    /// timeout) and checked the shutdown signal.
    InboundPoll,
    /// The connection produced a non-empty chunk and the local write
    /// completed.
    InboundChunk { data: Seq<u8> },
    /// The inbound pump exited: the peer closed (zero-byte read) or a read
    /// or local write failed.
    InboundEnd,
    /// Both pumps were joined; the connection is shut down in both
    /// directions.
    Close,
}

/// The session phase, derived from the pump and teardown state.
pub enum Phase {
    /// Both pumps are running.
    Active,
    /// At least one pump has exited; the other runs on until it reaches its
    /// own termination condition.
    Terminating,
    /// Both pumps joined and the connection shut down.
    Closed,
}

/// The phase a session state is in. The connection handshake that precedes
/// a session is the front end's concern: a session exists only once the
/// connection is usable, so it starts `Active`.
pub open spec fn phase(s: SessionView) -> Phase {
    if s.closed {
        Phase::Closed
    } else if !s.outbound_done && !s.inbound_done {
        Phase::Active
    } else {
        Phase::Terminating
    }
}

/// A fresh session: both pumps running, signal unset, nothing forwarded or
/// logged.
pub open spec fn init(log_enabled: bool) -> SessionView {
    SessionView {
        outbound_done: false,
        inbound_done: false,
        shutdown: false,
        closed: false,
        log: (LogView { enabled: log_enabled, records: Seq::empty() }),
        sent_out: Seq::empty(),
        sent_in: Seq::empty(),
    }
}

/// The outbound pump may still produce events.
pub open spec fn outbound_live(s: SessionView) -> bool {
    !s.outbound_done && !s.closed
}

/// The inbound pump may still produce events.
pub open spec fn inbound_live(s: SessionView) -> bool {
    !s.inbound_done && !s.closed
}

/// Teardown is due: both pumps have exited and the connection is still up.
pub open spec fn close_enabled(s: SessionView) -> bool {
    s.outbound_done && s.inbound_done && !s.closed
}

/// Which events a state admits. The pumps never act after exiting, a chunk
/// is only reported when bytes actually arrived, and teardown happens once,
/// after both pumps joined.
pub open spec fn enabled(s: SessionView, e: Event) -> bool {
    match e {
        Event::OutboundUnit { .. } => outbound_live(s),
        Event::OutboundEnd => outbound_live(s),
        Event::InboundPoll => inbound_live(s),
        Event::InboundChunk { data } => inbound_live(s) && data.len() > 0,
        Event::InboundEnd => inbound_live(s),
        Event::Close => close_enabled(s),
    }
}

/// The session state after one event.
///
/// An outbound unit is forwarded and tee'd; the quit command additionally
/// raises the shutdown signal and ends the outbound pump. A poll ends the
/// inbound pump exactly when the signal is set. An inbound chunk is
/// forwarded and tee'd. Either pump's end-of-stream or error ends that pump
/// alone; nothing cancels the sibling pump except the signal pathway.
pub open spec fn step(s: SessionView, e: Event) -> SessionView {
    match e {
        Event::OutboundUnit { data, quit } => SessionView {
            outbound_done: quit,
            shutdown: s.shutdown || quit,
            log: tee_step(s.log, false, data),
            sent_out: s.sent_out.push(data),
            ..s
        },
        Event::OutboundEnd => SessionView { outbound_done: true, ..s },
        Event::InboundPoll => SessionView { inbound_done: s.inbound_done || s.shutdown, ..s },
        Event::InboundChunk { data } => SessionView {
            log: tee_step(s.log, true, data),
            sent_in: s.sent_in.push(data),
            ..s
        },
        Event::InboundEnd => SessionView { inbound_done: true, ..s },
        Event::Close => SessionView { closed: true, ..s },
    }
}

/// The state after a whole sequence of events.
pub open spec fn run(s: SessionView, evs: Seq<Event>) -> SessionView
    decreases evs.len(),
{
    if evs.len() == 0 {
        s
    } else {
        run(step(s, evs.first()), evs.drop_first())
    }
}

/// Every event of the sequence is admitted by the state it meets.
pub open spec fn valid_run(s: SessionView, evs: Seq<Event>) -> bool
    decreases evs.len(),
{
    evs.len() == 0 || (enabled(s, evs.first()) && valid_run(step(s, evs.first()), evs.drop_first()))
}

/// What `run` reports when the session is over.
pub enum RelayOutcome {
    /// The session ended; the relay reports nothing richer.
    Ended,
}

/// The verified state of one live relay session.
///
/// The front end holds one of these per session (behind a lock, since both
/// pump threads report to it) and calls one method per event. Every method
/// is the executable image of [`step`] on the corresponding [`Event`].
pub struct RelaySession {
    outbound_done: bool,
    inbound_done: bool,
    shutdown: ShutdownSignal,
    closed: bool,
    log: LogSink,
    sent_out: Ghost<Seq<Seq<u8>>>,
    sent_in: Ghost<Seq<Seq<u8>>>,
}

impl View for RelaySession {
    type V = SessionView;

    closed spec fn view(&self) -> SessionView {
        SessionView {
            outbound_done: self.outbound_done,
            inbound_done: self.inbound_done,
            shutdown: self.shutdown@,
            closed: self.closed,
            log: self.log@,
            sent_out: self.sent_out@,
            sent_in: self.sent_in@,
        }
    }
}

impl RelaySession {
    /// Begin a session: the connection is established and both pumps start.
    pub fn new(log_enabled: bool) -> (s: Self)
        ensures
            s@ == init(log_enabled),
    {
        let s = RelaySession {
            outbound_done: false,
            inbound_done: false,
            shutdown: ShutdownSignal::new(),
            closed: false,
            log: LogSink::new(log_enabled),
            sent_out: Ghost(Seq::empty()),
            sent_in: Ghost(Seq::empty()),
        };
        proof {
            assert(s@ =~~= init(log_enabled));
        }
        s
    }

    /// The outbound pump forwarded one unit to the connection. `quit` says
    /// the unit was the quit command: the signal is raised and the pump
    /// exits.
    pub fn outbound_unit(&mut self, data: &Vec<u8>, quit: bool)
        requires
            outbound_live(old(self)@),
        ensures
            final(self)@ == step(old(self)@, (Event::OutboundUnit { data: data@, quit })),
    {
        let ghost pre = self@;
        self.log.tee(false, data);
        self.sent_out = Ghost(self.sent_out@.push(data@));
        if quit {
            self.shutdown.set();
            self.outbound_done = true;
        }
        proof {
            assert(self@ =~~= step(pre, (Event::OutboundUnit { data: data@, quit })));
        }
    }

    /// The outbound pump exited on local end-of-stream or an I/O error.
    pub fn outbound_end(&mut self)
        requires
            outbound_live(old(self)@),
        ensures
            final(self)@ == step(old(self)@, Event::OutboundEnd),
    {
        let ghost pre = self@;
        self.outbound_done = true;
        proof {
            assert(self@ =~~= step(pre, Event::OutboundEnd));
        }
    }

    /// The inbound pump checked the shutdown signal at its poll boundary.
    /// Returns whether the pump must stop, which it does exactly when the
    /// signal is set.
    pub fn inbound_poll(&mut self) -> (stop: bool)
        requires
            inbound_live(old(self)@),
        ensures
            final(self)@ == step(old(self)@, Event::InboundPoll),
            stop == old(self)@.shutdown,
    {
        let ghost pre = self@;
        let stop = self.shutdown.is_set();
        if stop {
            self.inbound_done = true;
        }
        proof {
            assert(self@ =~~= step(pre, Event::InboundPoll));
        }
        stop
    }

    /// The inbound pump forwarded one non-empty chunk to the local sink.
    pub fn inbound_chunk(&mut self, data: &Vec<u8>)
        requires
            inbound_live(old(self)@),
            data@.len() > 0,
        ensures
            final(self)@ == step(old(self)@, (Event::InboundChunk { data: data@ })),
    {
        let ghost pre = self@;
        self.log.tee(true, data);
        self.sent_in = Ghost(self.sent_in@.push(data@));
        proof {
            assert(self@ =~~= step(pre, (Event::InboundChunk { data: data@ })));
        }
    }

    /// The inbound pump exited: the peer closed or a read or write failed.
    pub fn inbound_end(&mut self)
        requires
            inbound_live(old(self)@),
        ensures
            final(self)@ == step(old(self)@, Event::InboundEnd),
    {
        let ghost pre = self@;
        self.inbound_done = true;
        proof {
            assert(self@ =~~= step(pre, Event::InboundEnd));
        }
    }

    /// Both pumps were joined and the connection shut down in both
    /// directions. The session is over.
    pub fn close(&mut self) -> (outcome: RelayOutcome)
        requires
            close_enabled(old(self)@),
        ensures
            final(self)@ == step(old(self)@, Event::Close),
            phase(final(self)@) is Closed,
    {
        let ghost pre = self@;
        self.closed = true;
        proof {
            assert(self@ =~~= step(pre, Event::Close));
        }
        RelayOutcome::Ended
    }

    /// Whether the shutdown signal has been raised.
    pub fn shutdown_requested(&self) -> (r: bool)
        ensures
            r == self@.shutdown,
    {
        self.shutdown.is_set()
    }

    /// Whether the outbound pump has exited.
    pub fn outbound_finished(&self) -> (r: bool)
        ensures
            r == self@.outbound_done,
    {
        self.outbound_done
    }

    /// Whether the inbound pump has exited.
    pub fn inbound_finished(&self) -> (r: bool)
        ensures
            r == self@.inbound_done,
    {
        self.inbound_done
    }

    /// Whether the session has been closed.
    pub fn is_closed(&self) -> (r: bool)
        ensures
            r == self@.closed,
    {
        self.closed
    }

    /// Whether this session tees traffic to a log.
    pub fn log_enabled(&self) -> (r: bool)
        ensures
            r == self@.log.enabled,
    {
        self.log.is_enabled()
    }
}

} // verus!
