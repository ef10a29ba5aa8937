//! The logic of the concrete sinks: where the forwarding sink posts each
//! signal, which count field a `sink_accepted` event names, and the record
//! log a recording sink keeps.

use vstd::prelude::*;
use crate::ports::SinkRecord;

verus! {

/// The stub sink: accepts every record after logging one
/// `sink_accepted` line; its probe always succeeds.
#[derive(Debug, Default, Clone, Copy)]
pub struct StubSink;

/// The text without its trailing `/` characters.
pub open spec fn trim_trailing_slashes(s: Seq<char>) -> Seq<char>
    decreases s.len(),
{
    if s.len() > 0 && s.last() == '/' {
        trim_trailing_slashes(s.drop_last())
    } else {
        s
    }
}

/// The URL the forwarding sink posts a signal to:
/// `{endpoint without trailing slashes}/v1/{signal}`.
pub open spec fn forwarding_url_spec(endpoint: Seq<char>, signal: Seq<char>) -> Seq<char> {
    trim_trailing_slashes(endpoint) + "/v1/"@ + signal
}

/// The full URL posted to for an OTLP signal; `http://host/` and
/// `http://host` give the same URL.
pub fn forwarding_url(endpoint: &str, signal: &str) -> (u: String)
    ensures
        u@ == forwarding_url_spec(endpoint@, signal@),
{
    let ghost s = endpoint@;
    let mut end: usize = endpoint.unicode_len();
    assert(s.subrange(0, end as int) =~= s);
    while end > 0 && endpoint.get_char(end - 1) == '/'
        invariant
            s == endpoint@,
            end <= s.len(),
            trim_trailing_slashes(s.subrange(0, end as int)) == trim_trailing_slashes(s),
        decreases end,
    {
        assert(s.subrange(0, end as int).drop_last() =~= s.subrange(0, end - 1));
        end = end - 1;
    }
    assert(s.subrange(0, end as int) == trim_trailing_slashes(s.subrange(0, end as int)));
    let mut u = String::from_str(endpoint.substring_char(0, end));
    u.append("/v1/");
    u.append(signal);
    u
}

/// The count field a `sink_accepted` event names for each signal.
pub open spec fn count_field_spec(record: SinkRecord) -> Seq<char> {
    match record {
        SinkRecord::Logs(_) => "record_count"@,
        SinkRecord::Traces(_) => "span_count"@,
        SinkRecord::Metrics(_) => "data_point_count"@,
    }
}

/// The count field of a `sink_accepted` event: `record_count` for logs,
/// `span_count` for traces, `data_point_count` for metrics.
pub fn count_field(record: &SinkRecord) -> (f: &'static str)
    ensures
        f@ == count_field_spec(*record),
{
    match record {
        SinkRecord::Logs(_) => "record_count",
        SinkRecord::Traces(_) => "span_count",
        SinkRecord::Metrics(_) => "data_point_count",
    }
}

/// The records a recording sink has accepted, in arrival order.
#[derive(Debug)]
pub struct RecordingSink<R> {
    records: Vec<R>,
}

impl<R> View for RecordingSink<R> {
    type V = Seq<R>;

    closed spec fn view(&self) -> Seq<R> {
        self.records@
    }
}

impl<R> RecordingSink<R> {
    /// A sink that has recorded nothing.
    pub fn new() -> (s: RecordingSink<R>)
        ensures
            s@ == Seq::<R>::empty(),
    {
        RecordingSink { records: Vec::new() }
    }

    /// Record an accepted record.
    pub fn accept(&mut self, record: R)
        ensures
            final(self)@ == old(self)@.push(record),
    {
        self.records.push(record);
    }

    /// Take every record so far, in arrival order, leaving none.
    pub fn drain(&mut self) -> (taken: Vec<R>)
        ensures
            taken@ == old(self)@,
            final(self)@ == Seq::<R>::empty(),
    {
        let mut taken: Vec<R> = Vec::new();
        std::mem::swap(&mut taken, &mut self.records);
        taken
    }

    /// How many records are held.
    pub fn len(&self) -> (n: usize)
        ensures
            n == self@.len(),
    {
        self.records.len()
    }

    /// True when no record is held.
    pub fn is_empty(&self) -> (b: bool)
        ensures
            b == (self@.len() == 0),
    {
        self.records.len() == 0
    }
}

/// A trailing `/` on the endpoint does not change the posted URL.
pub proof fn lemma_trailing_slash_is_ignored(endpoint: Seq<char>, signal: Seq<char>)
    ensures
        forwarding_url_spec(endpoint.push('/'), signal) == forwarding_url_spec(endpoint, signal),
{
    assert(endpoint.push('/').drop_last() =~= endpoint);
}

} // verus!
