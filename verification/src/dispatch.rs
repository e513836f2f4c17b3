//! The public HTTP front of a server: which tunnel a request is for, and
//! what is answered where no tunnel takes it.

use vstd::prelude::*;
use vstd::string::{StrSliceExecFns, StringExecFns};
use crate::registry::ClientRegistry;
use crate::tunnel_id::{uuid_text_value, TunnelId};

verus! {

/// The status of the answer to a request for a tunnel that is not there.
pub const STATUS_NOT_FOUND: u16 = 404;

/// The status of the answer to a request that could not be forwarded.
pub const STATUS_INTERNAL_SERVER_ERROR: u16 = 500;

/// The status of the answer that the default handler gives.
pub const STATUS_OK: u16 = 200;

/// Where the first dot of a host name stands, or its length if it has none.
pub open spec fn first_dot(host: Seq<char>) -> int
    decreases host.len(),
{
    if host.len() == 0 || host[0] == '.' {
        0
    } else {
        1 + first_dot(host.skip(1))
    }
}

/// The left-most label of a host name: what stands before its first dot.
pub open spec fn leftmost_label(host: Seq<char>) -> Seq<char> {
    host.take(first_dot(host))
}

/// The first dot stands within the host name, and no dot stands before it.
pub proof fn lemma_first_dot(host: Seq<char>)
    ensures
        0 <= first_dot(host) <= host.len(),
        first_dot(host) < host.len() ==> host[first_dot(host)] == '.',
        forall|i: int| 0 <= i < first_dot(host) ==> host[i] != '.',
    decreases host.len(),
{
    if host.len() == 0 || host[0] == '.' {
    } else {
        let rest = host.skip(1);
        lemma_first_dot(rest);
        assert forall|i: int| 0 <= i < first_dot(host) implies host[i] != '.' by {
            if i > 0 {
                assert(host[i] == rest[i - 1]);
            }
        }
        if first_dot(host) < host.len() {
            assert(host[first_dot(host)] == rest[first_dot(rest)]);
        }
    }
}

/// The place that ends a dot-free prefix at a dot or at the end is the first
/// dot.
pub proof fn lemma_first_dot_is(host: Seq<char>, at: int)
    requires
        0 <= at <= host.len(),
        forall|i: int| 0 <= i < at ==> host[i] != '.',
        at < host.len() ==> host[at] == '.',
    ensures
        first_dot(host) == at,
{
    lemma_first_dot(host);
    let d = first_dot(host);
    if d < at {
        assert(host[d] != '.');
    }
    if at < d {
        assert(host[at] != '.');
    }
}

/// What is done with a public request.
#[derive(Debug)]
pub enum Route {
    /// The host names no tunnel: the default handler answers.
    Default,
    /// The host names a tunnel that is not registered.
    NotFound,
    /// The request is forwarded to the session's listener.
    Forward { target: String },
}

/// A [`Route`] with its target as plain text.
pub enum RouteView {
    Default,
    NotFound,
    Forward { target: Seq<char> },
}

impl View for Route {
    type V = RouteView;

    open spec fn view(&self) -> RouteView {
        match *self {
            Route::Default => RouteView::Default,
            Route::NotFound => RouteView::NotFound,
            Route::Forward { target } => RouteView::Forward { target: target@ },
        }
    }
}

/// The address that requests for a registered listener are forwarded to.
pub open spec fn forward_target(addr: Seq<char>) -> Seq<char> {
    "http://"@ + addr
}

/// The route of a request whose host's left-most label reads as `label`: no
/// identifier leads to the default handler, an identifier that is not
/// registered to "not found", a registered one to its listener.
pub open spec fn route_of(label: Option<u128>, registry: Map<u128, Seq<char>>) -> RouteView {
    match label {
        None => RouteView::Default,
        Some(value) => if registry.contains_key(value) {
            RouteView::Forward { target: forward_target(registry[value]) }
        } else {
            RouteView::NotFound
        },
    }
}

/// An answer that the front gives by itself.
#[derive(Debug)]
pub struct Reply {
    pub status: u16,
    pub body: String,
}

/// The left-most label of a host name.
pub fn host_label(host: &str) -> (label: &str)
    ensures
        label@ == leftmost_label(host@),
{
    let n = host.unicode_len();
    let mut i: usize = 0;
    while i < n
        invariant
            i <= n,
            n == host@.len(),
            forall|j: int| 0 <= j < i ==> host@[j] != '.',
        ensures
            i < n ==> host@[i as int] == '.',
        decreases n - i,
    {
        if host.get_char(i) == '.' {
            break;
        }
        i = i + 1;
    }
    proof {
        lemma_first_dot_is(host@, i as int);
    }
    let label = host.substring_char(0, i);
    assert(label@ =~= leftmost_label(host@));
    label
}

/// The tunnel that a host name stands for: its left-most label read as an
/// identifier.
pub fn resolve_uuid_from_host(host: &str) -> (id: Option<TunnelId>)
    ensures
        id == TunnelId::from_parsed(uuid_text_value(leftmost_label(host@))),
{
    TunnelId::parse(host_label(host))
}

/// The route of a request for the tunnel `id`, if its host named one.
pub fn route_for(id: Option<TunnelId>, registry: &ClientRegistry) -> (route: Route)
    ensures
        route@ == route_of(
            match id {
                Some(t) => Some(t.value),
                None => None,
            },
            registry@,
        ),
{
    match id {
        None => Route::Default,
        Some(id) => match registry.lookup(id) {
            Some(addr) => Route::Forward {
                target: String::from_str("http://").concat(addr.as_str()),
            },
            None => Route::NotFound,
        },
    }
}

/// The route of a request by its host name.
pub fn route(host: &str, registry: &ClientRegistry) -> (route: Route)
    ensures
        route@ == route_of(uuid_text_value(leftmost_label(host@)), registry@),
{
    route_for(resolve_uuid_from_host(host), registry)
}

/// The answer to a request for a tunnel that is not registered.
pub fn not_found_reply() -> (reply: Reply)
    ensures
        reply.status == 404,
        reply.body@ == "No active client found\n"@,
{
    Reply { status: STATUS_NOT_FOUND, body: String::from_str("No active client found\n") }
}

/// The answer to a request that could not be forwarded: no body.
pub fn proxy_failure_reply() -> (reply: Reply)
    ensures
        reply.status == 500,
        reply.body@ == Seq::<char>::empty(),
{
    Reply { status: STATUS_INTERNAL_SERVER_ERROR, body: String::new() }
}

/// The answer of the default handler.
pub fn default_reply() -> (reply: Reply)
    ensures
        reply.status == 200,
        reply.body@ == "This is a storm grok server: hosts that name no tunnel end here\n"@,
{
    Reply {
        status: STATUS_OK,
        body: String::from_str("This is a storm grok server: hosts that name no tunnel end here\n"),
    }
}

/// A host whose left-most label names a tunnel that is not registered is
/// answered with "not found", whatever else is registered.
pub proof fn lemma_unknown_tunnel_not_found(label: u128, registry: Map<u128, Seq<char>>)
    requires
        !registry.contains_key(label),
    ensures
        route_of(Some(label), registry) == RouteView::NotFound,
{
}

} // verus!
