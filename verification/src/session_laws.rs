//! What holds of every run of a server session.

use vstd::prelude::*;
use crate::error::HANDSHAKE_ERROR_CODE;
use crate::handshake::{request_bytes, response_len, MAX_REQUEST_LEN};
use crate::mode::Mode;
use crate::session::{
    bind_host_of, registered_id, transition, Action, Event, Phase, World,
};

verus! {

/// One step of a run: what happened, and the world it happened in.
pub struct Step {
    pub event: Event,
    pub world: World,
}

/// Where a run stands, with the number of times the response got through to
/// the agent and the number of times the connection was closed with the
/// handshake's error code.
pub struct Tally {
    pub phase: Phase,
    pub written: nat,
    pub refused: nat,
}

/// Whether the handshake is under way: the connection is accepted and
/// neither has the response got through nor is the session over.
pub open spec fn in_handshake(phase: Phase) -> bool {
    phase is AwaitingRequest || phase is AwaitingListener || phase is AwaitingVerdict
        || phase is Registered
}

/// Whether the handshake has not got as far as registering the session.
pub open spec fn before_registration(phase: Phase) -> bool {
    phase is AwaitingRequest || phase is AwaitingListener || phase is AwaitingVerdict
}

/// Whether with this event the response has got through to the agent.
pub open spec fn writes_back(phase: Phase, event: Event) -> bool {
    phase is Registered && event is ResponseSent
}

/// Whether an action closes the connection with the handshake's error code.
pub open spec fn closes_with_error(action: Action) -> bool {
    action matches Action::Close { code, .. } && code == HANDSHAKE_ERROR_CODE
}

/// The one or zero that a condition counts for.
pub open spec fn count(condition: bool) -> nat {
    if condition {
        1
    } else {
        0
    }
}

/// Where a session that starts in `phase` stands after the given steps.
pub open spec fn run(phase: Phase, steps: Seq<Step>) -> Tally
    decreases steps.len(),
{
    if steps.len() == 0 {
        Tally { phase, written: 0, refused: 0 }
    } else {
        let before = run(phase, steps.drop_last());
        let step = steps.last();
        let outcome = transition(before.phase, step.event, step.world);
        Tally {
            phase: outcome.phase,
            written: before.written + count(writes_back(before.phase, step.event)),
            refused: before.refused + count(closes_with_error(outcome.action)),
        }
    }
}

/// One step of a handshake under way either goes on with the handshake, or
/// ends it in exactly one of two ways: the response has got through, or the
/// connection is closed with error code 1.
pub proof fn lemma_handshake_step(phase: Phase, event: Event, world: World)
    requires
        in_handshake(phase),
    ensures
        ({
            let outcome = transition(phase, event, world);
            if in_handshake(outcome.phase) {
                !writes_back(phase, event) && !closes_with_error(outcome.action)
            } else {
                &&& writes_back(phase, event) != closes_with_error(outcome.action)
                &&& writes_back(phase, event) ==> outcome.phase is Steady
                &&& closes_with_error(outcome.action) ==> outcome.phase is Closed
                    || outcome.phase is Rejected
            }
        }),
{
}

/// Once the handshake is over it stays over: no later step writes a response
/// back, closes with the handshake's error code or takes the handshake up
/// again.
pub proof fn lemma_settled_step(phase: Phase, event: Event, world: World)
    requires
        !in_handshake(phase),
        !(phase is Incoming),
    ensures
        ({
            let outcome = transition(phase, event, world);
            &&& !in_handshake(outcome.phase)
            &&& !(outcome.phase is Incoming)
            &&& !writes_back(phase, event)
            &&& !closes_with_error(outcome.action)
        }),
{
}

/// Of every accepted connection exactly one holds once its handshake is
/// over, whatever happens and in whatever order: the response has got
/// through to the agent, or the connection was closed with error code 1.
/// While the handshake is under way neither has happened.
pub proof fn lemma_handshake_totality(steps: Seq<Step>)
    ensures
        ({
            let tally = run(Phase::AwaitingRequest, steps);
            &&& !(tally.phase is Incoming)
            &&& in_handshake(tally.phase) ==> tally.written == 0 && tally.refused == 0
            &&& !in_handshake(tally.phase) ==> tally.written + tally.refused == 1
            &&& tally.written == 1 ==> tally.phase is Steady || tally.phase is HeartbeatLost
                || tally.phase is Closed
        }),
    decreases steps.len(),
{
    if steps.len() > 0 {
        lemma_handshake_totality(steps.drop_last());
        let before = run(Phase::AwaitingRequest, steps.drop_last());
        let step = steps.last();
        if in_handshake(before.phase) {
            lemma_handshake_step(before.phase, step.event, step.world);
        } else {
            lemma_settled_step(before.phase, step.event, step.world);
        }
    }
}

/// A handshake that is refused before the session is registered leaves the
/// registry as it was.
pub proof fn lemma_refusal_registers_nothing(phase: Phase, event: Event, world: World)
    requires
        before_registration(phase),
        closes_with_error(transition(phase, event, world).action),
    ensures
        transition(phase, event, world).registry == world.registry,
{
}

/// A session that gets registered is found in the registry under its
/// identifier, with the address of the listener that was bound for it.
pub proof fn lemma_registered_is_listed(phase: Phase, event: Event, world: World)
    requires
        registered_id(phase) is None,
        registered_id(transition(phase, event, world).phase) is Some,
    ensures
        ({
            let outcome = transition(phase, event, world);
            let id = registered_id(outcome.phase).unwrap();
            &&& before_registration(phase)
            &&& event matches Event::ListenerBound { port, addr } ==> outcome.registry.contains_key(
                id.value,
            ) && outcome.registry[id.value] == addr
            &&& phase matches Phase::AwaitingVerdict { mode, port, addr }
                ==> outcome.registry.contains_key(id.value) && outcome.registry[id.value] == addr
        }),
{
}

/// A registered session keeps its identifier for as long as it is
/// registered, and the step that ends it takes the identifier out of the
/// registry: looking it up then finds nothing.
pub proof fn lemma_departure_deregisters(phase: Phase, event: Event, world: World)
    requires
        registered_id(phase) is Some,
    ensures
        ({
            let outcome = transition(phase, event, world);
            let id = registered_id(phase).unwrap();
            &&& registered_id(outcome.phase) is Some ==> registered_id(outcome.phase) == Some(id)
                && outcome.registry == world.registry
            &&& registered_id(outcome.phase) is None ==> !outcome.registry.contains_key(id.value)
        }),
{
}

/// A server reads from an agent's request the mode that the agent asked
/// for and the token that it sent, and goes on to bind the listener of that
/// mode, provided that mode byte and token fit the limit.
pub proof fn lemma_server_reads_agent_request(mode: Mode, token: Seq<u8>, world: World)
    requires
        token.len() < MAX_REQUEST_LEN,
    ensures
        transition(Phase::AwaitingRequest, Event::RequestRead(request_bytes(mode, token)), world)
            .phase == (Phase::AwaitingListener { mode, token }),
        transition(Phase::AwaitingRequest, Event::RequestRead(request_bytes(mode, token)), world)
            .action == (Action::BindListener { host: bind_host_of(mode) }),
{
    crate::handshake::lemma_request_round_trip(mode, token);
}

/// The response that a session is registered with has the length that the
/// mode of its request calls for: two bytes for TCP, sixteen for HTTP.
pub proof fn lemma_registered_response_length(phase: Phase, event: Event, world: World)
    requires
        registered_id(phase) is None,
        transition(phase, event, world).phase is Registered,
    ensures
        ({
            let outcome = transition(phase, event, world);
            &&& outcome.action is SendResponse
            &&& outcome.phase matches Phase::Registered { mode, id }
            &&& outcome.action matches Action::SendResponse { bytes }
            &&& bytes.len() == response_len(mode)
            &&& phase matches Phase::AwaitingListener { mode: asked, .. } ==> asked == mode
            &&& phase matches Phase::AwaitingVerdict { mode: asked, .. } ==> asked == mode
        }),
{
    let outcome = transition(phase, event, world);
    match outcome.phase {
        Phase::Registered { mode, id } => {
            crate::tunnel_id::lemma_be_bytes_len(id.value as nat, 16);
            match phase {
                Phase::AwaitingListener { mode: m, token } => {
                    match event {
                        Event::ListenerBound { port, addr } => {
                            crate::tunnel_id::lemma_be_bytes_len(port as nat, 2);
                        },
                        _ => {},
                    }
                },
                Phase::AwaitingVerdict { mode: m, port, addr } => {
                    crate::tunnel_id::lemma_be_bytes_len(port as nat, 2);
                },
                _ => {},
            }
        },
        _ => {},
    }
}

} // verus!
