//! The optional log sink that tees both traffic directions.
//!
//! Each forwarded chunk is appended as one record: a three-byte direction
//! marker (`>> ` outgoing, `<< ` incoming) followed by the chunk's raw
//! bytes, with no further delimiter. A record is written whole: chunks are
//! never split or merged. When logging is disabled the sink records nothing.

use vstd::prelude::*;

verus! {

/// One tee'd chunk: its direction and its exact payload bytes.
#[verifier::ext_equal]
pub struct LogRecord {
    /// `true` for connection-to-local traffic (`<< `), `false` for
    /// local-to-connection traffic (`>> `).
    pub incoming: bool,
    /// The chunk exactly as forwarded.
    pub payload: Seq<u8>,
}

/// The abstract state of a log sink: whether it logs at all, and the
/// records appended so far, in order.
#[verifier::ext_equal]
pub struct LogView {
    pub enabled: bool,
    pub records: Seq<LogRecord>,
}

/// The three marker bytes that precede a record's payload.
pub open spec fn marker_bytes(incoming: bool) -> Seq<u8> {
    if incoming {
        seq![60u8, 60u8, 32u8]  // "<< "
    } else {
        seq![62u8, 62u8, 32u8]  // ">> "
    }
}

/// The bytes one record contributes to the log file.
pub open spec fn record_render(r: LogRecord) -> Seq<u8> {
    marker_bytes(r.incoming) + r.payload
}

/// The whole log file: every record's bytes, in append order.
pub open spec fn log_render(records: Seq<LogRecord>) -> Seq<u8>
    decreases records.len(),
{
    if records.len() == 0 {
        Seq::empty()
    } else {
        record_render(records.first()) + log_render(records.drop_first())
    }
}

/// Appending one record extends the log file by exactly that record's
/// bytes, whole: a concurrent tee can never split or interleave into a
/// chunk's payload, because the file only ever grows record by record.
pub proof fn lemma_log_render_push(records: Seq<LogRecord>, r: LogRecord)
    ensures
        log_render(records.push(r)) == log_render(records) + record_render(r),
    decreases records.len(),
{
    let p = records.push(r);
    if records.len() == 0 {
        assert(p.first() == r);
        assert(p.drop_first() =~= Seq::<LogRecord>::empty());
        assert(log_render(p.drop_first()) == Seq::<u8>::empty());
        assert(log_render(p) =~= log_render(records) + record_render(r));
    } else {
        assert(p.first() == records.first());
        assert(p.drop_first() =~= records.drop_first().push(r));
        lemma_log_render_push(records.drop_first(), r);
        assert(log_render(p) == record_render(records.first()) + log_render(p.drop_first()));
        assert(log_render(p) =~= log_render(records) + record_render(r));
    }
}

/// The exact bytes a tee appends to the log file for one chunk.
pub fn record_bytes(incoming: bool, payload: &Vec<u8>) -> (r: Vec<u8>)
    ensures
        r@ == record_render((LogRecord { incoming, payload: payload@ })),
{
    let mut r: Vec<u8> = Vec::new();
    if incoming {
        r.push(60u8);
        r.push(60u8);
        r.push(32u8);
    } else {
        r.push(62u8);
        r.push(62u8);
        r.push(32u8);
    }
    let mut i: usize = 0;
    while i < payload.len()
        invariant
            0 <= i <= payload.len(),
            r@ == marker_bytes(incoming) + payload@.subrange(0, i as int),
        decreases payload.len() - i,
    {
        r.push(payload[i]);
        i = i + 1;
        proof {
            assert(r@ =~= marker_bytes(incoming) + payload@.subrange(0, i as int));
        }
    }
    proof {
        assert(payload@.subrange(0, payload@.len() as int) =~= payload@);
        assert(r@ =~= record_render((LogRecord { incoming, payload: payload@ })));
    }
    r
}

/// The session's record of what was tee'd to the log.
///
/// The front end owns the real file handle; for every chunk it forwards, it
/// appends exactly the bytes that [`record_bytes`] returns, so the file's
/// contents are [`log_render`] of this sink's records.
pub struct LogSink {
    enabled: bool,
    records: Ghost<Seq<LogRecord>>,
}

impl View for LogSink {
    type V = LogView;

    closed spec fn view(&self) -> LogView {
        LogView { enabled: self.enabled, records: self.records@ }
    }
}

/// The log state after teeing one chunk: a record is appended when the sink
/// is enabled, and nothing changes when it is not.
pub open spec fn tee_step(log: LogView, incoming: bool, payload: Seq<u8>) -> LogView {
    if log.enabled {
        LogView { enabled: log.enabled, records: log.records.push((LogRecord { incoming, payload })) }
    } else {
        log
    }
}

impl LogSink {
    /// A fresh sink with nothing recorded. A disabled sink never records.
    pub fn new(enabled: bool) -> (s: Self)
        ensures
            s@ == (LogView { enabled, records: Seq::empty() }),
    {
        LogSink { enabled, records: Ghost(Seq::empty()) }
    }

    /// Whether this sink logs at all.
    pub fn is_enabled(&self) -> (r: bool)
        ensures
            r == self@.enabled,
    {
        self.enabled
    }

    /// Record one forwarded chunk, whole, in append order.
    pub fn tee(&mut self, incoming: bool, payload: &Vec<u8>)
        ensures
            final(self)@ == tee_step(old(self)@, incoming, payload@),
    {
        let ghost pre = self@;
        if self.enabled {
            self.records = Ghost(self.records@.push((LogRecord { incoming, payload: payload@ })));
        }
        proof {
            assert(self@ =~~= tee_step(pre, incoming, payload@));
        }
    }
}

} // verus!
