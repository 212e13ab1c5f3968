//! Session-wide guarantees of the relay, proved over runs of the event
//! machine in [`crate::relay`].

use vstd::prelude::*;

use crate::logsink::LogRecord;
use crate::relay::Event;
use crate::relay::Phase;
use crate::relay::SessionView;
use crate::relay::close_enabled;
use crate::relay::inbound_live;
use crate::relay::init;
use crate::relay::outbound_live;
use crate::relay::phase;
use crate::relay::run;
use crate::relay::step;
use crate::relay::valid_run;

verus! {

/// The units the local source fed into the session, in order.
pub open spec fn outbound_units(evs: Seq<Event>) -> Seq<Seq<u8>>
    decreases evs.len(),
{
    if evs.len() == 0 {
        Seq::empty()
    } else {
        let rest = outbound_units(evs.drop_first());
        match evs.first() {
            Event::OutboundUnit { data, .. } => seq![data] + rest,
            _ => rest,
        }
    }
}

/// The chunks the connection fed into the session, in order.
pub open spec fn inbound_chunks(evs: Seq<Event>) -> Seq<Seq<u8>>
    decreases evs.len(),
{
    if evs.len() == 0 {
        Seq::empty()
    } else {
        let rest = inbound_chunks(evs.drop_first());
        match evs.first() {
            Event::InboundChunk { data } => seq![data] + rest,
            _ => rest,
        }
    }
}

/// The log records a run appends when logging is enabled: one tagged record
/// per forwarded chunk, in event order.
pub open spec fn tagged_records(evs: Seq<Event>) -> Seq<LogRecord>
    decreases evs.len(),
{
    if evs.len() == 0 {
        Seq::empty()
    } else {
        let rest = tagged_records(evs.drop_first());
        match evs.first() {
            Event::OutboundUnit { data, .. } => seq![(LogRecord { incoming: false, payload: data })]
                + rest,
            Event::InboundChunk { data } => seq![(LogRecord { incoming: true, payload: data })]
                + rest,
            _ => rest,
        }
    }
}

/// The payloads of the outgoing (`>> `) records of a log, in order.
pub open spec fn outgoing_payloads(records: Seq<LogRecord>) -> Seq<Seq<u8>>
    decreases records.len(),
{
    if records.len() == 0 {
        Seq::empty()
    } else {
        let rest = outgoing_payloads(records.drop_first());
        if records.first().incoming {
            rest
        } else {
            seq![records.first().payload] + rest
        }
    }
}

/// The payloads of the incoming (`<< `) records of a log, in order.
pub open spec fn incoming_payloads(records: Seq<LogRecord>) -> Seq<Seq<u8>>
    decreases records.len(),
{
    if records.len() == 0 {
        Seq::empty()
    } else {
        let rest = incoming_payloads(records.drop_first());
        if records.first().incoming {
            seq![records.first().payload] + rest
        } else {
            rest
        }
    }
}

/// Byte fidelity: over any admissible run, the chunks delivered to the
/// connection sink are exactly the units read from the local source, in
/// order, with no loss, duplication or reordering — and symmetrically for
/// the connection-to-local direction. The concatenations therefore agree
/// byte for byte.
pub proof fn lemma_byte_fidelity(s: SessionView, evs: Seq<Event>)
    requires
        valid_run(s, evs),
    ensures
        run(s, evs).sent_out == s.sent_out + outbound_units(evs),
        run(s, evs).sent_in == s.sent_in + inbound_chunks(evs),
        run(s, evs).sent_out.flatten() == (s.sent_out + outbound_units(evs)).flatten(),
    decreases evs.len(),
{
    if evs.len() == 0 {
        assert(s.sent_out + outbound_units(evs) =~= s.sent_out);
        assert(s.sent_in + inbound_chunks(evs) =~= s.sent_in);
    } else {
        let e = evs.first();
        let s1 = step(s, e);
        lemma_byte_fidelity(s1, evs.drop_first());
        assert(s1.sent_out + outbound_units(evs.drop_first()) =~= s.sent_out + outbound_units(
            evs,
        ));
        assert(s1.sent_in + inbound_chunks(evs.drop_first()) =~= s.sent_in + inbound_chunks(evs));
    }
}

/// Byte fidelity from the start of a session.
pub proof fn lemma_byte_fidelity_from_start(log_enabled: bool, evs: Seq<Event>)
    requires
        valid_run(init(log_enabled), evs),
    ensures
        run(init(log_enabled), evs).sent_out == outbound_units(evs),
        run(init(log_enabled), evs).sent_in == inbound_chunks(evs),
{
    lemma_byte_fidelity(init(log_enabled), evs);
    assert(init(log_enabled).sent_out + outbound_units(evs) =~= outbound_units(evs));
    assert(init(log_enabled).sent_in + inbound_chunks(evs) =~= inbound_chunks(evs));
}

/// Log completeness and tagging: logging stays enabled or disabled for the
/// whole run; when enabled, the log gains exactly one whole record per
/// forwarded chunk, tagged with its direction, in event order; when
/// disabled, nothing is ever recorded.
pub proof fn lemma_log_records(s: SessionView, evs: Seq<Event>)
    requires
        valid_run(s, evs),
    ensures
        run(s, evs).log.enabled == s.log.enabled,
        s.log.enabled ==> run(s, evs).log.records == s.log.records + tagged_records(evs),
        !s.log.enabled ==> run(s, evs).log.records == s.log.records,
    decreases evs.len(),
{
    if evs.len() == 0 {
        assert(s.log.records + tagged_records(evs) =~= s.log.records);
    } else {
        let e = evs.first();
        let s1 = step(s, e);
        lemma_log_records(s1, evs.drop_first());
        if s.log.enabled {
            assert(s1.log.records + tagged_records(evs.drop_first()) =~= s.log.records
                + tagged_records(evs));
        }
    }
}

/// Given N outgoing and M incoming chunks, the log holds exactly N records
/// tagged `>> ` and M tagged `<< `, whose payloads are those chunks, whole
/// and in order.
pub proof fn lemma_log_tagging(evs: Seq<Event>)
    ensures
        outgoing_payloads(tagged_records(evs)) == outbound_units(evs),
        incoming_payloads(tagged_records(evs)) == inbound_chunks(evs),
        outgoing_payloads(tagged_records(evs)).len() == outbound_units(evs).len(),
        incoming_payloads(tagged_records(evs)).len() == inbound_chunks(evs).len(),
    decreases evs.len(),
{
    if evs.len() == 0 {
    } else {
        lemma_log_tagging(evs.drop_first());
        match evs.first() {
            Event::OutboundUnit { data, .. } => {
                let rec = LogRecord { incoming: false, payload: data };
                let rest = tagged_records(evs.drop_first());
                assert((seq![rec] + rest).drop_first() =~= rest);
                assert(outgoing_payloads(seq![rec] + rest) =~= outbound_units(evs));
                assert(incoming_payloads(seq![rec] + rest) =~= inbound_chunks(evs));
            },
            Event::InboundChunk { data } => {
                let rec = LogRecord { incoming: true, payload: data };
                let rest = tagged_records(evs.drop_first());
                assert((seq![rec] + rest).drop_first() =~= rest);
                assert(outgoing_payloads(seq![rec] + rest) =~= outbound_units(evs));
                assert(incoming_payloads(seq![rec] + rest) =~= inbound_chunks(evs));
            },
            _ => {},
        }
    }
}

/// With logging disabled, nothing is recorded over any run, regardless of
/// traffic volume.
pub proof fn lemma_no_logging_when_disabled(evs: Seq<Event>)
    requires
        valid_run(init(false), evs),
    ensures
        run(init(false), evs).log.records == Seq::<LogRecord>::empty(),
{
    lemma_log_records(init(false), evs);
}

/// The shutdown signal is never lowered: once set, it stays set for the
/// rest of the run.
pub proof fn lemma_shutdown_monotone(s: SessionView, evs: Seq<Event>)
    requires
        s.shutdown,
    ensures
        run(s, evs).shutdown,
    decreases evs.len(),
{
    if evs.len() > 0 {
        lemma_shutdown_monotone(step(s, evs.first()), evs.drop_first());
    }
}

/// Quit triggers bounded shutdown: when the local source produces the quit
/// command, the outbound pump exits at once with the signal raised, and the
/// inbound pump exits at its very next poll boundary — within one poll
/// interval — even if the peer sends nothing further.
pub proof fn lemma_quit_bounded_shutdown(s: SessionView, data: Seq<u8>)
    requires
        outbound_live(s),
    ensures
        ({
            let s1 = step(s, (Event::OutboundUnit { data, quit: true }));
            &&& s1.outbound_done
            &&& s1.shutdown
            &&& inbound_live(s1) ==> step(s1, Event::InboundPoll).inbound_done
        }),
{
}

/// Peer close terminates both pumps: end-of-stream on the connection ends
/// the inbound pump without touching the outbound pump, which is never
/// forcibly interrupted; once the outbound pump reaches its own termination
/// condition, teardown is enabled and the session reaches `Closed`.
pub proof fn lemma_peer_close_terminates(s: SessionView)
    requires
        inbound_live(s),
    ensures
        ({
            let s1 = step(s, Event::InboundEnd);
            &&& s1.inbound_done
            &&& s1.outbound_done == s.outbound_done
            &&& s1.outbound_done ==> close_enabled(s1) && phase(step(s1, Event::Close)) is Closed
            &&& !s1.outbound_done ==> {
                let s2 = step(s1, Event::OutboundEnd);
                close_enabled(s2) && phase(step(s2, Event::Close)) is Closed
            }
        }),
{
}

} // verus!
