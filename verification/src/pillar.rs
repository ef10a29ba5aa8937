//! The records the storage pillars persist: log records and spans, with
//! their attributes folded into string maps.

use vstd::prelude::*;
use crate::text::str_eq;

verus! {

/// The map an entry list stands for: each entry in order, a later entry
/// for a key replacing an earlier one.
pub open spec fn entries_map(s: Seq<(String, String)>) -> Map<Seq<char>, Seq<char>>
    decreases s.len(),
{
    if s.len() == 0 {
        Map::empty()
    } else {
        entries_map(s.drop_last()).insert(s.last().0@, s.last().1@)
    }
}

/// A string-to-string attribute map in which a later insert for a key
/// replaces the earlier value.
#[derive(Debug)]
pub struct AttributeMap {
    entries: Vec<(String, String)>,
}

impl View for AttributeMap {
    type V = Map<Seq<char>, Seq<char>>;

    closed spec fn view(&self) -> Map<Seq<char>, Seq<char>> {
        entries_map(self.entries@)
    }
}

proof fn lemma_entries_map_empty_iff(s: Seq<(String, String)>)
    ensures
        (s.len() == 0) <==> entries_map(s).dom().len() == 0,
        entries_map(s).dom().finite(),
    decreases s.len(),
{
    if s.len() > 0 {
        lemma_entries_map_empty_iff(s.drop_last());
        let m = entries_map(s.drop_last());
        assert(entries_map(s).dom().contains(s.last().0@));
    }
}

impl AttributeMap {
    /// An empty map.
    pub fn new() -> (m: AttributeMap)
        ensures
            m@ == Map::<Seq<char>, Seq<char>>::empty(),
    {
        AttributeMap { entries: Vec::new() }
    }

    /// Insert `value` under `key`, replacing any earlier value.
    pub fn insert(&mut self, key: String, value: String)
        ensures
            final(self)@ == old(self)@.insert(key@, value@),
    {
        let ghost before = self.entries@;
        self.entries.push((key, value));
        assert(self.entries@.drop_last() =~= before);
    }

    /// The value under `key`, if any.
    pub fn get(&self, key: &str) -> (r: Option<&str>)
        ensures
            match r {
                Some(v) => self@.dom().contains(key@) && self@[key@] == v@,
                None => !self@.dom().contains(key@),
            },
    {
        let mut found: Option<usize> = None;
        let mut i: usize = 0;
        while i < self.entries.len()
            invariant
                i <= self.entries@.len(),
                match found {
                    Some(j) => j < i && entries_map(self.entries@.subrange(0, i as int)).dom().contains(
                        key@,
                    ) && entries_map(self.entries@.subrange(0, i as int))[key@]
                        == self.entries@[j as int].1@,
                    None => !entries_map(self.entries@.subrange(0, i as int)).dom().contains(key@),
                },
            decreases self.entries@.len() - i,
        {
            assert(self.entries@.subrange(0, (i + 1) as int).drop_last() =~= self.entries@.subrange(
                0,
                i as int,
            ));
            if str_eq(self.entries[i].0.as_str(), key) {
                found = Some(i);
            }
            i = i + 1;
        }
        assert(self.entries@.subrange(0, self.entries@.len() as int) =~= self.entries@);
        match found {
            Some(j) => Some(self.entries[j].1.as_str()),
            None => None,
        }
    }

    /// True when no key is mapped.
    pub fn is_empty(&self) -> (b: bool)
        ensures
            b == (self@.dom().len() == 0),
    {
        proof {
            lemma_entries_map_empty_iff(self.entries@);
        }
        self.entries.len() == 0
    }

    /// The entries in insertion order; folding them in order gives the map.
    pub fn entries(&self) -> (r: &Vec<(String, String)>)
        ensures
            entries_map(r@) == self@,
    {
        &self.entries
    }

    /// A copy of the map.
    pub fn duplicate(&self) -> (r: AttributeMap)
        ensures
            r@ == self@,
    {
        let mut out: Vec<(String, String)> = Vec::new();
        let mut i: usize = 0;
        while i < self.entries.len()
            invariant
                i <= self.entries@.len(),
                entries_map(out@) == entries_map(self.entries@.subrange(0, i as int)),
                out@.len() == i,
            decreases self.entries@.len() - i,
        {
            let k = self.entries[i].0.clone();
            let v = self.entries[i].1.clone();
            let ghost before = out@;
            out.push((k, v));
            assert(out@.drop_last() =~= before);
            assert(self.entries@.subrange(0, (i + 1) as int).drop_last() =~= self.entries@.subrange(
                0,
                i as int,
            ));
            i = i + 1;
        }
        assert(self.entries@.subrange(0, self.entries@.len() as int) =~= self.entries@);
        AttributeMap { entries: out }
    }
}

/// A 16-byte trace identifier.
#[derive(Debug, Clone, PartialEq, Eq)]
pub struct TraceId(pub Vec<u8>);

/// An 8-byte span identifier.
#[derive(Debug, Clone, PartialEq, Eq)]
pub struct SpanId(pub Vec<u8>);

/// The kind of a span.
#[derive(Debug, Clone, Copy, PartialEq, Eq, Structural)]
pub enum SpanKind {
    Unspecified,
    Internal,
    Server,
    Client,
    Producer,
    Consumer,
}

/// The status code of a span: unset, OK (written `Success`), or error.
#[derive(Debug, Clone, Copy, PartialEq, Eq, Structural)]
pub enum StatusCode {
    Unset,
    Success,
    Error,
}

/// The status of a span: a code and a message.
#[derive(Debug)]
pub struct SpanStatus {
    pub code: StatusCode,
    pub message: String,
}

/// An event recorded on a span.
#[derive(Debug)]
pub struct SpanEvent {
    pub time_unix_nano: u64,
    pub name: String,
    pub attributes: AttributeMap,
}

/// A link from a span to another span.
#[derive(Debug)]
pub struct SpanLink {
    pub trace_id: TraceId,
    pub span_id: SpanId,
    pub attributes: AttributeMap,
}

/// A span as the trace pillar stores it.
#[derive(Debug)]
pub struct Span {
    pub trace_id: TraceId,
    pub span_id: SpanId,
    pub parent_span_id: Option<SpanId>,
    pub name: String,
    pub kind: SpanKind,
    pub start_time_unix_nano: u64,
    pub end_time_unix_nano: u64,
    pub status: SpanStatus,
    pub attributes: AttributeMap,
    pub resource_attributes: AttributeMap,
    pub events: Vec<SpanEvent>,
    pub links: Vec<SpanLink>,
}

/// An OTLP severity number.
#[derive(Debug, Clone, Copy, PartialEq, Eq, Structural)]
pub struct SeverityNumber(pub i32);

/// A log record as the log pillar stores it.
#[derive(Debug)]
pub struct LogRecord {
    pub observed_time_unix_nano: u64,
    pub severity_number: SeverityNumber,
    pub severity_text: String,
    pub body: String,
    pub attributes: AttributeMap,
    pub resource_attributes: AttributeMap,
    pub trace_id: Option<Vec<u8>>,
    pub span_id: Option<Vec<u8>>,
}

} // verus!
