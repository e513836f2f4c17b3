//! The search for a free port: candidates are tried in rising order until
//! one can be bound.

use vstd::prelude::*;
use crate::error::ErrorKind;

verus! {

/// The first port a server tries for a session's listener.
pub const SERVER_FIRST_PORT: u16 = 1025;

/// The first port an agent tries for its local socket.
pub const AGENT_FIRST_PORT: u16 = 6001;

/// The end of the candidates: the first port that is never tried.
pub const PORT_END: u16 = 65535;

/// How an attempt to bind a port ended.
#[derive(Clone, Copy, Debug, PartialEq, Eq, Structural)]
pub enum BindResult {
    /// The port is bound.
    Bound,
    /// The port is in use.
    InUse,
    /// Binding failed for another reason.
    Failed,
}

/// What a search asks for, or ends with.
#[derive(Clone, Copy, Debug, PartialEq, Eq, Structural)]
pub enum ProbeAction {
    /// Try to bind this port.
    Try(u16),
    /// The search is over: this port is bound.
    Found(u16),
    /// The search is over without a port.
    GiveUp(ErrorKind),
}

/// A search for a free port, at the candidate that is being tried.
#[derive(Clone, Copy, Debug, PartialEq, Eq, Structural)]
pub struct PortProbe {
    pub current: u16,
}

/// What a search does with the candidate `port`: try it, or give up where
/// the candidates have run out.
pub open spec fn attempt(port: int) -> ProbeAction {
    if port < PORT_END {
        ProbeAction::Try(port as u16)
    } else {
        ProbeAction::GiveUp(ErrorKind::PortExhaustion)
    }
}

/// What follows the attempt on `current`: a bound port ends the search, a
/// port in use leads to the next candidate, any other failure is fatal.
pub open spec fn after_attempt(current: u16, result: BindResult) -> ProbeAction {
    match result {
        BindResult::Bound => ProbeAction::Found(current),
        BindResult::InUse => attempt(current + 1),
        BindResult::Failed => ProbeAction::GiveUp(ErrorKind::BridgeIo),
    }
}

/// What a search from `first` asks for after the given results, one for each
/// attempt it has asked for so far.
pub open spec fn search(first: u16, results: Seq<BindResult>) -> ProbeAction
    decreases results.len(),
{
    if results.len() == 0 {
        attempt(first as int)
    } else {
        match search(first, results.drop_last()) {
            ProbeAction::Try(port) => after_attempt(port, results.last()),
            over => over,
        }
    }
}

impl PortProbe {
    /// Starts a search at `first`.
    pub fn start(first: u16) -> (begun: (PortProbe, ProbeAction))
        ensures
            begun.1 == attempt(first as int),
            begun.1 is Try ==> begun.0.current == first,
    {
        if first < PORT_END {
            (PortProbe { current: first }, ProbeAction::Try(first))
        } else {
            (PortProbe { current: first }, ProbeAction::GiveUp(ErrorKind::PortExhaustion))
        }
    }

    /// Goes on after the attempt on the current candidate.
    pub fn step(self, result: BindResult) -> (next: (PortProbe, ProbeAction))
        requires
            self.current < PORT_END,
        ensures
            next.1 == after_attempt(self.current, result),
            next.1 matches ProbeAction::Try(port) ==> next.0.current == port && port
                == self.current + 1,
    {
        match result {
            BindResult::Bound => (self, ProbeAction::Found(self.current)),
            BindResult::InUse => {
                if self.current + 1 < PORT_END {
                    (PortProbe { current: self.current + 1 }, ProbeAction::Try(self.current + 1))
                } else {
                    (self, ProbeAction::GiveUp(ErrorKind::PortExhaustion))
                }
            },
            BindResult::Failed => (self, ProbeAction::GiveUp(ErrorKind::BridgeIo)),
        }
    }
}

/// While every port so far was in use, the search tries the next one, and it
/// gives up once the candidates have run out.
pub proof fn lemma_search_while_in_use(first: u16, results: Seq<BindResult>)
    requires
        forall|i: int| 0 <= i < results.len() ==> results[i] == BindResult::InUse,
    ensures
        search(first, results) == attempt(
            if first + results.len() < PORT_END {
                first + results.len()
            } else {
                PORT_END as int
            },
        ),
    decreases results.len(),
{
    if results.len() > 0 {
        let front = results.drop_last();
        assert forall|i: int| 0 <= i < front.len() implies front[i] == BindResult::InUse by {
            assert(front[i] == results[i]);
        }
        lemma_search_while_in_use(first, front);
        assert(results.last() == results[results.len() - 1]);
    }
}

/// The search finds the lowest candidate that is not in use: after `taken`
/// ports in use, the port that is bound next is `first + taken`.
pub proof fn lemma_search_finds_lowest_free(first: u16, taken: nat)
    requires
        first + taken < PORT_END,
    ensures
        search(first, Seq::new(taken, |i: int| BindResult::InUse).push(BindResult::Bound))
            == ProbeAction::Found((first + taken) as u16),
{
    let in_use = Seq::new(taken, |i: int| BindResult::InUse);
    lemma_search_while_in_use(first, in_use);
    assert(in_use.push(BindResult::Bound).drop_last() =~= in_use);
}

/// A search whose every candidate is in use ends with port exhaustion.
pub proof fn lemma_search_exhausts(first: u16, results: Seq<BindResult>)
    requires
        forall|i: int| 0 <= i < results.len() ==> results[i] == BindResult::InUse,
        first + results.len() >= PORT_END,
    ensures
        search(first, results) == ProbeAction::GiveUp(ErrorKind::PortExhaustion),
{
    lemma_search_while_in_use(first, results);
}

} // verus!
