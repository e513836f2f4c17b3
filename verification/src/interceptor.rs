//! The interceptor of an agent in HTTP mode: it sits between the tunnel and
//! the exposed service, forwards each request to the service and records the
//! whole exchange once the response is complete.

use vstd::prelude::*;
use vstd::string::{StrSliceExecFns, StringExecFns};
use crate::error::ErrorKind;
use crate::text::{decimal_text, port_text, same_ignoring_ascii_case, str_eq_ignore_ascii_case};
use crate::traffic_log::{
    headers_of, Cycle, Header, RequestCycle, RequestHead, RequestHeadView,
    ResponseHead, ResponseHeadView, TrafficLog,
};

verus! {

/// The port on which the interceptor listens.
pub const INTERCEPTOR_PORT: u16 = 6190;

/// The most bytes of a body that the inspector displays.
pub const MAX_BODY_LEN: usize = 100000;

/// `chrono::Utc::now`, as milliseconds since the epoch. Nothing is known of
/// the clock's reading.
#[verifier::external_body]
fn now_millis() -> (millis: i64) {
    chrono::Utc::now().timestamp_millis()
}

/// Whether a header frames the body on one hop, and so is not forwarded:
/// `Content-Length` or `Transfer-Encoding`, in any case of letters.
pub open spec fn is_framing_header(name: Seq<char>) -> bool {
    same_ignoring_ascii_case(name, "content-length"@) || same_ignoring_ascii_case(
        name,
        "transfer-encoding"@,
    )
}

/// The headers that are forwarded: all but the framing headers, in their
/// order.
pub open spec fn forwarded(headers: Seq<Header>) -> Seq<Header>
    decreases headers.len(),
{
    if headers.len() == 0 {
        Seq::empty()
    } else if is_framing_header(headers.last().name) {
        forwarded(headers.drop_last())
    } else {
        forwarded(headers.drop_last()).push(headers.last())
    }
}

/// Whether a header frames the body on one hop.
pub fn is_framing(name: &str) -> (framing: bool)
    ensures
        framing == is_framing_header(name@),
{
    str_eq_ignore_ascii_case(name, "content-length") || str_eq_ignore_ascii_case(
        name,
        "transfer-encoding",
    )
}

/// The headers of a response as they are forwarded.
pub fn forwarded_headers(headers: &Vec<(String, String)>) -> (kept: Vec<(String, String)>)
    ensures
        headers_of(kept@) == forwarded(headers_of(headers@)),
        forall|i: int| 0 <= i < kept@.len() ==> !is_framing_header((#[trigger] kept@[i]).0@),
{
    let ghost all = headers_of(headers@);
    let mut kept: Vec<(String, String)> = Vec::new();
    let mut i: usize = 0;
    assert(all.take(0) =~= Seq::<Header>::empty());
    assert(headers_of(kept@) =~= Seq::<Header>::empty());
    while i < headers.len()
        invariant
            i <= headers@.len(),
            all == headers_of(headers@),
            headers_of(kept@) == forwarded(all.take(i as int)),
        decreases headers@.len() - i,
    {
        let ghost before = headers_of(kept@);
        proof {
            let next = all.take(i + 1);
            assert(next.drop_last() =~= all.take(i as int));
            assert(next.last() == all[i as int]);
        }
        if !is_framing(headers[i].0.as_str()) {
            let name = headers[i].0.clone();
            let value = headers[i].1.clone();
            kept.push((name, value));
            assert(headers_of(kept@) =~= before.push(all[i as int]));
        }
        i = i + 1;
    }
    assert(all.take(i as int) =~= all);
    proof {
        lemma_forwarded_has_no_framing(all);
        assert forall|j: int| 0 <= j < kept@.len() implies !is_framing_header(
            (#[trigger] kept@[j]).0@,
        ) by {
            assert(headers_of(kept@)[j].name == kept@[j].0@);
        }
    }
    kept
}

/// Forwarded headers hold neither `Content-Length` nor `Transfer-Encoding`,
/// and each of them is one of the headers that came.
pub proof fn lemma_forwarded_has_no_framing(headers: Seq<Header>)
    ensures
        forall|i: int|
            0 <= i < forwarded(headers).len() ==> !is_framing_header(
                (#[trigger] forwarded(headers)[i]).name,
            ) && headers.contains(forwarded(headers)[i]),
        forwarded(headers).len() <= headers.len(),
    decreases headers.len(),
{
    if headers.len() > 0 {
        let front = headers.drop_last();
        lemma_forwarded_has_no_framing(front);
        assert forall|i: int| 0 <= i < forwarded(headers).len() implies !is_framing_header(
            (#[trigger] forwarded(headers)[i]).name,
        ) && headers.contains(forwarded(headers)[i]) by {
            if i < forwarded(front).len() {
                let h = forwarded(front)[i];
                assert(front.contains(h));
                let j = choose|j: int| 0 <= j < front.len() && front[j] == h;
                assert(headers[j] == h);
            } else {
                assert(headers[headers.len() - 1] == headers.last());
            }
        }
    }
}

/// Stripping the framing headers a second time changes nothing.
pub proof fn lemma_forwarded_idempotent(headers: Seq<Header>)
    ensures
        forwarded(forwarded(headers)) == forwarded(headers),
    decreases headers.len(),
{
    if headers.len() > 0 {
        lemma_forwarded_idempotent(headers.drop_last());
        let front = forwarded(headers.drop_last());
        if !is_framing_header(headers.last().name) {
            assert(front.push(headers.last()).drop_last() =~= front);
        }
    }
}

/// Every header that is not a framing header is forwarded.
pub proof fn lemma_forwarded_keeps_others(headers: Seq<Header>, at: int)
    requires
        0 <= at < headers.len(),
        !is_framing_header(headers[at].name),
    ensures
        forwarded(headers).contains(headers[at]),
    decreases headers.len(),
{
    let front = headers.drop_last();
    if at == headers.len() - 1 {
        assert(forwarded(headers).last() == headers[at]);
        assert(forwarded(headers)[forwarded(headers).len() - 1] == headers[at]);
    } else {
        assert(front[at] == headers[at]);
        lemma_forwarded_keeps_others(front, at);
        let j = choose|j: int| 0 <= j < forwarded(front).len() && forwarded(front)[j] == front[at];
        assert(forwarded(headers)[j] == headers[at]);
    }
}

/// The address of the exposed service for a request's path and query.
pub open spec fn target_uri_text(port: u16, path_and_query: Seq<char>) -> Seq<char> {
    let base = "http://127.0.0.1:"@ + decimal_text(port as nat);
    if path_and_query.len() > 0 && path_and_query[0] == '/' {
        base + path_and_query
    } else {
        base + seq!['/'] + path_and_query
    }
}

/// Rewrites a request's target to the exposed service on the loopback
/// interface, keeping path and query.
pub fn target_uri(port: u16, path_and_query: &str) -> (uri: String)
    ensures
        uri@ == target_uri_text(port, path_and_query@),
{
    proof {
        reveal_strlit("/");
    }
    let mut uri = String::from_str("http://127.0.0.1:");
    let digits = port_text(port);
    uri.append(digits.as_str());
    let rooted = path_and_query.unicode_len() > 0 && path_and_query.get_char(0) == '/';
    if !rooted {
        uri.append("/");
    }
    uri.append(path_and_query);
    uri
}

/// An answer that the interceptor gives in place of the service's.
#[derive(Debug)]
pub struct ErrorReply {
    pub status: u16,
    pub body: String,
}

/// The status with which a failed request is answered: a malformed target
/// and an unreadable body are the client's fault, a refused connection means
/// that the service is not there, and anything else is an internal error.
pub open spec fn status_of(kind: ErrorKind) -> u16 {
    match kind {
        ErrorKind::UpstreamBadUri => 400,
        ErrorKind::UpstreamBodyRead => 400,
        ErrorKind::UpstreamRefused => 404,
        _ => 500,
    }
}

/// The answer to a request that failed.
pub fn error_reply(kind: ErrorKind) -> (reply: ErrorReply)
    ensures
        reply.status == status_of(kind),
        reply.body@ == kind.reason_text(),
{
    let status: u16 = match kind {
        ErrorKind::UpstreamBadUri => 400,
        ErrorKind::UpstreamBodyRead => 400,
        ErrorKind::UpstreamRefused => 404,
        _ => 500,
    };
    ErrorReply { status, body: kind.reason() }
}

/// How many bytes of a body the inspector displays.
pub fn display_len(body_len: usize) -> (shown: usize)
    ensures
        shown == if body_len <= MAX_BODY_LEN {
            body_len
        } else {
            MAX_BODY_LEN
        },
{
    if body_len <= MAX_BODY_LEN {
        body_len
    } else {
        MAX_BODY_LEN
    }
}

/// Whether the inspector marks a body as cut short.
pub fn is_truncated(body_len: usize) -> (cut: bool)
    ensures
        cut == (body_len >= MAX_BODY_LEN),
{
    body_len >= MAX_BODY_LEN
}

/// Adds bytes at the end of a buffer.
pub fn append_bytes(buffer: &mut Vec<u8>, bytes: &[u8])
    ensures
        final(buffer)@ == old(buffer)@ + bytes@,
{
    let mut i: usize = 0;
    assert(bytes@.take(0) =~= Seq::<u8>::empty());
    assert(buffer@ =~= old(buffer)@ + bytes@.take(0));
    while i < bytes.len()
        invariant
            i <= bytes@.len(),
            buffer@ == old(buffer)@ + bytes@.take(i as int),
        decreases bytes@.len() - i,
    {
        buffer.push(bytes[i]);
        i = i + 1;
        assert(buffer@ =~= old(buffer)@ + bytes@.take(i as int));
    }
    assert(bytes@.take(i as int) =~= bytes@);
}

/// What the interceptor has seen of the exchange that is under way.
#[derive(Debug)]
pub struct MyCtx {
    /// When the request came in, in milliseconds since the epoch.
    pub timestamp_in: Option<i64>,
    pub request_head: Option<RequestHead>,
    pub request_body: Vec<u8>,
    /// Kept as it is given: the time of completion goes to the log with the
    /// cycle.
    pub timestamp_out: Option<i64>,
    pub response_head: Option<ResponseHead>,
    pub response_body: Vec<u8>,
}

/// A [`MyCtx`] as plain values.
pub struct Capture {
    pub timestamp_in: Option<i64>,
    pub request_head: Option<RequestHeadView>,
    pub request_body: Seq<u8>,
    pub timestamp_out: Option<i64>,
    pub response_head: Option<ResponseHeadView>,
    pub response_body: Seq<u8>,
}

impl View for MyCtx {
    type V = Capture;

    open spec fn view(&self) -> Capture {
        Capture {
            timestamp_in: self.timestamp_in,
            request_head: match self.request_head {
                Some(head) => Some(head@),
                None => None,
            },
            request_body: self.request_body@,
            timestamp_out: self.timestamp_out,
            response_head: match self.response_head {
                Some(head) => Some(head@),
                None => None,
            },
            response_body: self.response_body@,
        }
    }
}

/// The capture of an exchange of which nothing was seen yet.
pub open spec fn empty_capture() -> Capture {
    Capture {
        timestamp_in: None,
        request_head: None,
        request_body: Seq::empty(),
        timestamp_out: None,
        response_head: None,
        response_body: Seq::empty(),
    }
}

/// Whether both heads of the exchange and the time of the request are
/// known.
pub open spec fn is_complete(capture: Capture) -> bool {
    capture.timestamp_in is Some && capture.request_head is Some && capture.response_head is Some
}

/// The cycle that a complete capture makes when its response ends at
/// `timestamp_out` with the last bytes `chunk`.
pub open spec fn cycle_of(capture: Capture, chunk: Seq<u8>, timestamp_out: i64) -> Cycle {
    Cycle {
        timestamp_in: capture.timestamp_in.unwrap(),
        request_head: capture.request_head.unwrap(),
        request_body: capture.request_body,
        timestamp_out,
        response_head: capture.response_head.unwrap(),
        response_body: capture.response_body + chunk,
    }
}

/// The capture after a piece of the response body: the piece is added to the
/// body, and a complete exchange that ends is handed over, which leaves the
/// capture without heads and bodies.
pub open spec fn capture_after_body(capture: Capture, chunk: Seq<u8>, end_of_stream: bool)
    -> Capture {
    if end_of_stream && is_complete(capture) {
        Capture {
            request_head: None,
            request_body: Seq::empty(),
            response_head: None,
            response_body: Seq::empty(),
            ..capture
        }
    } else {
        Capture { response_body: capture.response_body + chunk, ..capture }
    }
}

/// The log after a piece of the response body: a complete exchange that ends
/// is added as one cycle; nothing else is ever recorded.
pub open spec fn log_after_body(
    log: Seq<Cycle>,
    capture: Capture,
    chunk: Seq<u8>,
    end_of_stream: bool,
    timestamp_out: i64,
) -> Seq<Cycle> {
    if end_of_stream && is_complete(capture) {
        log.push(cycle_of(capture, chunk, timestamp_out))
    } else {
        log
    }
}

/// The bytes of an optional piece of a body.
pub open spec fn chunk_bytes(chunk: Option<&[u8]>) -> Seq<u8> {
    match chunk {
        Some(bytes) => bytes@,
        None => Seq::empty(),
    }
}

impl MyCtx {
    /// The capture of an exchange of which nothing was seen yet.
    pub fn new() -> (capture: MyCtx)
        ensures
            capture@ == empty_capture(),
    {
        MyCtx {
            timestamp_in: None,
            request_head: None,
            request_body: Vec::new(),
            timestamp_out: None,
            response_head: None,
            response_body: Vec::new(),
        }
    }

    /// Records a request that came in now.
    pub fn on_request(&mut self, head: RequestHead, body: Option<Vec<u8>>)
        ensures
            exists|timestamp_in: i64|
                final(self)@ == request_recorded(old(self)@, timestamp_in, head@, body),
    {
        let now = now_millis();
        self.on_request_at(now, head, body);
    }

    /// Records a request that came in at `timestamp_in`: its head, and its
    /// body where it has one.
    pub fn on_request_at(&mut self, timestamp_in: i64, head: RequestHead, body: Option<Vec<u8>>)
        ensures
            final(self)@ == request_recorded(old(self)@, timestamp_in, head@, body),
    {
        self.timestamp_in = Some(timestamp_in);
        match body {
            Some(bytes) => {
                self.request_body = bytes;
            },
            None => {},
        }
        self.request_head = Some(head);
    }

    /// Records the head of the response as the service sent it.
    pub fn on_response_head(&mut self, head: ResponseHead)
        ensures
            final(self)@ == (Capture { response_head: Some(head@), ..old(self)@ }),
    {
        self.response_head = Some(head);
    }

    /// Records a piece of the response body that arrived now.
    pub fn on_response_body(
        &mut self,
        chunk: Option<&[u8]>,
        end_of_stream: bool,
        log: &mut TrafficLog,
    ) -> (recorded: bool)
        ensures
            recorded == (end_of_stream && is_complete(old(self)@)),
            final(self)@ == capture_after_body(old(self)@, chunk_bytes(chunk), end_of_stream),
            exists|timestamp_out: i64|
                final(log)@ == log_after_body(
                    old(log)@,
                    old(self)@,
                    chunk_bytes(chunk),
                    end_of_stream,
                    timestamp_out,
                ),
    {
        let now = now_millis();
        self.on_response_body_at(chunk, end_of_stream, now, log)
    }

    /// Records a piece of the response body. With the last piece of a
    /// complete exchange, which ends at `timestamp_out`, the exchange is
    /// added to the log as one cycle. An exchange of which a head is missing
    /// is never recorded.
    pub fn on_response_body_at(
        &mut self,
        chunk: Option<&[u8]>,
        end_of_stream: bool,
        timestamp_out: i64,
        log: &mut TrafficLog,
    ) -> (recorded: bool)
        ensures
            recorded == (end_of_stream && is_complete(old(self)@)),
            final(self)@ == capture_after_body(old(self)@, chunk_bytes(chunk), end_of_stream),
            final(log)@ == log_after_body(
                old(log)@,
                old(self)@,
                chunk_bytes(chunk),
                end_of_stream,
                timestamp_out,
            ),
    {
        match chunk {
            Some(bytes) => {
                append_bytes(&mut self.response_body, bytes);
            },
            None => {
                assert(self.response_body@ + Seq::<u8>::empty() =~= self.response_body@);
            },
        }
        if !end_of_stream {
            return false;
        }
        let timestamp_in = match self.timestamp_in {
            Some(t) => t,
            None => {
                return false;
            },
        };
        if self.request_head.is_none() || self.response_head.is_none() {
            return false;
        }
        let request_head = self.request_head.take().unwrap();
        let response_head = self.response_head.take().unwrap();
        let mut request_body: Vec<u8> = Vec::new();
        let mut response_body: Vec<u8> = Vec::new();
        std::mem::swap(&mut self.request_body, &mut request_body);
        std::mem::swap(&mut self.response_body, &mut response_body);
        log.append(
            RequestCycle {
                timestamp_in,
                request_head,
                request_body,
                timestamp_out,
                response_head,
                response_body,
            },
        );
        true
    }
}

/// The capture once a request is recorded.
pub open spec fn request_recorded(
    capture: Capture,
    timestamp_in: i64,
    head: RequestHeadView,
    body: Option<Vec<u8>>,
) -> Capture {
    Capture {
        timestamp_in: Some(timestamp_in),
        request_head: Some(head),
        request_body: match body {
            Some(bytes) => bytes@,
            None => capture.request_body,
        },
        ..capture
    }
}

} // verus!
