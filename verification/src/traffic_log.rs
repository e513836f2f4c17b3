//! The log of request cycles that the interceptor observed, in the order in
//! which they were completed.

use vstd::prelude::*;
use vstd::slice::slice_to_vec;
use vstd::std_specs::cmp::PartialEqSpecImpl;

verus! {

/// The head of a request: method, target and headers in their order.
#[derive(Debug)]
pub struct RequestHead {
    pub method: String,
    pub uri: String,
    pub headers: Vec<(String, String)>,
}

/// The head of a response: status and headers in their order.
#[derive(Debug)]
pub struct ResponseHead {
    pub status: u16,
    pub headers: Vec<(String, String)>,
}

/// One observed exchange: both heads, both bodies, and the times, in
/// milliseconds since the epoch, at which the request came in and the
/// response was complete.
#[derive(Debug)]
pub struct RequestCycle {
    pub timestamp_in: i64,
    pub request_head: RequestHead,
    pub request_body: Vec<u8>,
    pub timestamp_out: i64,
    pub response_head: ResponseHead,
    pub response_body: Vec<u8>,
}

/// A header as plain text.
pub struct Header {
    pub name: Seq<char>,
    pub value: Seq<char>,
}

/// A [`RequestHead`] as plain values.
pub struct RequestHeadView {
    pub method: Seq<char>,
    pub uri: Seq<char>,
    pub headers: Seq<Header>,
}

/// A [`ResponseHead`] as plain values.
pub struct ResponseHeadView {
    pub status: u16,
    pub headers: Seq<Header>,
}

/// A [`RequestCycle`] as plain values.
pub struct Cycle {
    pub timestamp_in: i64,
    pub request_head: RequestHeadView,
    pub request_body: Seq<u8>,
    pub timestamp_out: i64,
    pub response_head: ResponseHeadView,
    pub response_body: Seq<u8>,
}

/// One header as plain text.
pub open spec fn header_of(pair: (String, String)) -> Header {
    Header { name: pair.0@, value: pair.1@ }
}

/// Headers as plain text, in their order.
pub open spec fn headers_of(pairs: Seq<(String, String)>) -> Seq<Header> {
    pairs.map_values(|pair: (String, String)| header_of(pair))
}

/// Cycles as plain values, in their order.
pub open spec fn cycles_of(cycles: Seq<RequestCycle>) -> Seq<Cycle> {
    cycles.map_values(|cycle: RequestCycle| cycle@)
}

impl View for RequestHead {
    type V = RequestHeadView;

    open spec fn view(&self) -> RequestHeadView {
        RequestHeadView {
            method: self.method@,
            uri: self.uri@,
            headers: headers_of(self.headers@),
        }
    }
}

impl View for ResponseHead {
    type V = ResponseHeadView;

    open spec fn view(&self) -> ResponseHeadView {
        ResponseHeadView { status: self.status, headers: headers_of(self.headers@) }
    }
}

impl View for RequestCycle {
    type V = Cycle;

    open spec fn view(&self) -> Cycle {
        Cycle {
            timestamp_in: self.timestamp_in,
            request_head: self.request_head@,
            request_body: self.request_body@,
            timestamp_out: self.timestamp_out,
            response_head: self.response_head@,
            response_body: self.response_body@,
        }
    }
}

impl PartialEq for RequestCycle {
    /// Two cycles are the same cycle when their requests came in at the same
    /// time.
    fn eq(&self, other: &Self) -> (same: bool) {
        self.timestamp_in == other.timestamp_in
    }
}

impl PartialEqSpecImpl for RequestCycle {
    open spec fn obeys_eq_spec() -> bool {
        true
    }

    open spec fn eq_spec(&self, other: &Self) -> bool {
        self.timestamp_in == other.timestamp_in
    }
}

/// Copies headers.
pub fn copy_headers(headers: &Vec<(String, String)>) -> (copy: Vec<(String, String)>)
    ensures
        headers_of(copy@) == headers_of(headers@),
{
    let mut copy: Vec<(String, String)> = Vec::new();
    let mut i: usize = 0;
    while i < headers.len()
        invariant
            i <= headers@.len(),
            copy@.len() == i,
            forall|j: int| 0 <= j < i ==> header_of(#[trigger] copy@[j]) == header_of(headers@[j]),
        decreases headers@.len() - i,
    {
        let name = headers[i].0.clone();
        let value = headers[i].1.clone();
        copy.push((name, value));
        i = i + 1;
    }
    assert(headers_of(copy@) =~= headers_of(headers@));
    copy
}

impl RequestHead {
    /// A copy of this head.
    pub fn copy(&self) -> (copy: RequestHead)
        ensures
            copy@ == self@,
    {
        RequestHead {
            method: self.method.clone(),
            uri: self.uri.clone(),
            headers: copy_headers(&self.headers),
        }
    }
}

impl ResponseHead {
    /// A copy of this head.
    pub fn copy(&self) -> (copy: ResponseHead)
        ensures
            copy@ == self@,
    {
        ResponseHead { status: self.status, headers: copy_headers(&self.headers) }
    }
}

impl RequestCycle {
    /// A copy of this cycle.
    pub fn copy(&self) -> (copy: RequestCycle)
        ensures
            copy@ == self@,
    {
        RequestCycle {
            timestamp_in: self.timestamp_in,
            request_head: self.request_head.copy(),
            request_body: slice_to_vec(self.request_body.as_slice()),
            timestamp_out: self.timestamp_out,
            response_head: self.response_head.copy(),
            response_body: slice_to_vec(self.response_body.as_slice()),
        }
    }
}

/// The observed cycles, oldest completion first. Cycles are only ever added
/// at the end.
#[derive(Debug)]
pub struct TrafficLog {
    pub requests: Vec<RequestCycle>,
}

impl View for TrafficLog {
    type V = Seq<Cycle>;

    open spec fn view(&self) -> Seq<Cycle> {
        cycles_of(self.requests@)
    }
}

/// Whether cycles stand in the order of their completion.
pub open spec fn in_completion_order(cycles: Seq<Cycle>) -> bool {
    forall|i: int, j: int|
        0 <= i <= j < cycles.len() ==> (#[trigger] cycles[i]).timestamp_out <= (
        #[trigger] cycles[j]).timestamp_out
}

impl TrafficLog {
    /// An empty log.
    pub fn new() -> (log: TrafficLog)
        ensures
            log@ == Seq::<Cycle>::empty(),
    {
        let log = TrafficLog { requests: Vec::new() };
        assert(log@ =~= Seq::<Cycle>::empty());
        log
    }

    /// Adds a completed cycle at the end of the log. A log in completion
    /// order stays so if the cycle was completed no earlier than the last
    /// one in it.
    pub fn append(&mut self, cycle: RequestCycle)
        ensures
            final(self)@ == old(self)@.push(cycle@),
            in_completion_order(old(self)@) && (old(self)@.len() > 0 ==> old(
                self,
            )@.last().timestamp_out <= cycle.timestamp_out) ==> in_completion_order(final(self)@),
    {
        proof {
            if in_completion_order(self@) && (self@.len() > 0 ==> self@.last().timestamp_out
                <= cycle.timestamp_out) {
                lemma_append_keeps_order(self@, cycle@);
            }
        }
        self.requests.push(cycle);
        assert(self@ =~= old(self)@.push(cycle@));
    }

    /// The number of cycles in the log.
    pub fn len(&self) -> (n: usize)
        ensures
            n == self@.len(),
    {
        self.requests.len()
    }

    /// A copy of the log as it stands.
    pub fn snapshot(&self) -> (copy: TrafficLog)
        ensures
            copy@ == self@,
    {
        let mut requests: Vec<RequestCycle> = Vec::new();
        let mut i: usize = 0;
        while i < self.requests.len()
            invariant
                i <= self.requests@.len(),
                requests@.len() == i,
                forall|j: int| 0 <= j < i ==> (#[trigger] requests@[j])@ == self.requests@[j]@,
            decreases self.requests@.len() - i,
        {
            requests.push(self.requests[i].copy());
            i = i + 1;
        }
        let copy = TrafficLog { requests };
        assert(copy@ =~= self@);
        copy
    }
}

/// A log in completion order stays so when a cycle is added that was
/// completed no earlier than the last one in it.
pub proof fn lemma_append_keeps_order(log: Seq<Cycle>, cycle: Cycle)
    requires
        in_completion_order(log),
        log.len() > 0 ==> log.last().timestamp_out <= cycle.timestamp_out,
    ensures
        in_completion_order(log.push(cycle)),
{
    let after = log.push(cycle);
    assert forall|i: int, j: int| 0 <= i <= j < after.len() implies (#[trigger] after[i]).timestamp_out
        <= (#[trigger] after[j]).timestamp_out by {
        if j < log.len() {
            assert(after[i] == log[i]);
            assert(after[j] == log[j]);
        } else if i < log.len() {
            assert(after[i] == log[i]);
            assert(log[i].timestamp_out <= log[log.len() - 1].timestamp_out);
        }
    }
}

/// Adding a cycle changes no cycle that is in the log.
pub proof fn lemma_append_keeps_cycles(log: Seq<Cycle>, cycle: Cycle, at: int)
    requires
        0 <= at < log.len(),
    ensures
        log.push(cycle).len() == log.len() + 1,
        log.push(cycle)[at] == log[at],
        log.push(cycle).last() == cycle,
{
}

} // verus!
