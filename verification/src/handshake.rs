//! The handshake wire format between agent and server, and the heartbeat
//! payload.
//!
//! An agent opens one bidirectional stream and sends one mode byte followed
//! by its token. The server answers on the same stream: two big-endian bytes
//! with the public port in TCP mode, the sixteen bytes of the tunnel
//! identifier in HTTP mode.

use vstd::prelude::*;
use crate::error::ErrorKind;
use crate::mode::{byte_of_mode, mode_of_byte, Mode};
use crate::tunnel_id::{
    be_bytes, be_value, decode_be, encode_be, lemma_be_bytes_len, lemma_be_value_bound,
    lemma_be_value_of_bytes, lemma_byte_limits, TunnelId,
};

verus! {

/// The most bytes a handshake request may hold: mode byte and token.
pub const MAX_REQUEST_LEN: usize = 8192;

/// The most bytes an agent reads of a handshake response.
pub const MAX_RESPONSE_LEN: usize = 16;

/// The most bytes an agent reads from a unidirectional stream.
pub const MAX_UNI_PAYLOAD_LEN: usize = 100;

/// Seconds between two heartbeats of a session.
pub const HEARTBEAT_INTERVAL_SECS: u64 = 4;

/// The heartbeat payload: the ASCII bytes of `ping`.
pub open spec fn ping_bytes() -> Seq<u8> {
    seq![0x70u8, 0x69u8, 0x6eu8, 0x67u8]
}

/// A handshake request as the server reads it.
#[derive(Debug)]
pub struct Request {
    pub mode: Mode,
    pub token: Vec<u8>,
}

/// What a handshake response tells the agent.
#[derive(Clone, Copy, Debug, PartialEq, Eq, Structural)]
pub enum Endpoint {
    /// The public TCP port that reaches the agent.
    Port(u16),
    /// The identifier under which public HTTP requests reach the agent.
    Tunnel(TunnelId),
}

/// The bytes of a request for `mode` that carries `token`.
pub open spec fn request_bytes(mode: Mode, token: Seq<u8>) -> Seq<u8> {
    seq![byte_of_mode(mode)] + token
}

/// Whether a byte string is accepted as a request: it holds at least the
/// mode byte and is no longer than the limit.
pub open spec fn request_well_formed(bytes: Seq<u8>) -> bool {
    1 <= bytes.len() <= MAX_REQUEST_LEN
}

/// The bytes of the response to a session in `mode` with the given listener
/// port and identifier.
pub open spec fn response_bytes(mode: Mode, port: u16, id: TunnelId) -> Seq<u8> {
    match mode {
        Mode::Tcp => be_bytes(port as nat, 2),
        Mode::Http => id.wire(),
    }
}

/// The length of the response in a mode.
pub open spec fn response_len(mode: Mode) -> nat {
    match mode {
        Mode::Tcp => 2,
        Mode::Http => 16,
    }
}

/// What a response means to an agent that asked for `mode`, if it has the
/// length that the mode calls for.
pub open spec fn endpoint_of(mode: Mode, bytes: Seq<u8>) -> Option<Endpoint> {
    if bytes.len() != response_len(mode) {
        None
    } else {
        match mode {
            Mode::Tcp => Some(Endpoint::Port(be_value(bytes) as u16)),
            Mode::Http => Some(Endpoint::Tunnel(TunnelId { value: be_value(bytes) as u128 })),
        }
    }
}

/// The request an agent sends: the mode byte, then the token.
pub fn encode_request(mode: Mode, token: &[u8]) -> (bytes: Vec<u8>)
    ensures
        bytes@ == request_bytes(mode, token@),
{
    let mut bytes: Vec<u8> = Vec::new();
    bytes.push(mode.to_byte());
    let mut i: usize = 0;
    while i < token.len()
        invariant
            i <= token@.len(),
            bytes@ == seq![byte_of_mode(mode)] + token@.take(i as int),
        decreases token@.len() - i,
    {
        bytes.push(token[i]);
        i = i + 1;
        assert(bytes@ =~= seq![byte_of_mode(mode)] + token@.take(i as int));
    }
    assert(token@.take(i as int) =~= token@);
    bytes
}

/// Reads a request. An empty request and one over the limit are malformed;
/// of any other the first byte selects the mode and the rest is the token.
pub fn parse_request(bytes: &[u8]) -> (request: Result<Request, ErrorKind>)
    ensures
        request is Ok <==> request_well_formed(bytes@),
        request matches Ok(r) ==> r.mode == mode_of_byte(bytes@[0]) && r.token@ == bytes@.skip(1),
        request matches Err(kind) ==> kind == ErrorKind::HandshakeMalformed,
{
    if bytes.len() < 1 || bytes.len() > MAX_REQUEST_LEN {
        return Err(ErrorKind::HandshakeMalformed);
    }
    let mode = Mode::from_byte(bytes[0]);
    let mut token: Vec<u8> = Vec::new();
    let mut i: usize = 1;
    while i < bytes.len()
        invariant
            1 <= i <= bytes@.len(),
            token@ == bytes@.subrange(1, i as int),
        decreases bytes@.len() - i,
    {
        token.push(bytes[i]);
        i = i + 1;
        assert(token@ =~= bytes@.subrange(1, i as int));
    }
    assert(bytes@.subrange(1, i as int) =~= bytes@.skip(1));
    Ok(Request { mode, token })
}

/// The response a server writes once a session is registered.
pub fn encode_response(mode: Mode, port: u16, id: TunnelId) -> (bytes: Vec<u8>)
    ensures
        bytes@ == response_bytes(mode, port, id),
        bytes@.len() == response_len(mode),
{
    proof {
        lemma_be_bytes_len(port as nat, 2);
        lemma_be_bytes_len(id.value as nat, 16);
    }
    match mode {
        Mode::Tcp => encode_be(port as u128, 2),
        Mode::Http => id.to_bytes(),
    }
}

/// Reads a response as an agent that asked for `mode`: two bytes are a port,
/// sixteen bytes a tunnel identifier, anything else is malformed.
pub fn parse_response(mode: Mode, bytes: &[u8]) -> (endpoint: Result<Endpoint, ErrorKind>)
    ensures
        endpoint is Ok <==> bytes@.len() == response_len(mode),
        endpoint matches Ok(e) ==> Some(e) == endpoint_of(mode, bytes@),
        endpoint matches Err(kind) ==> kind == ErrorKind::HandshakeMalformed,
{
    match mode {
        Mode::Tcp => {
            if bytes.len() != 2 {
                return Err(ErrorKind::HandshakeMalformed);
            }
            let value = decode_be(bytes);
            proof {
                lemma_be_value_bound(bytes@);
                lemma_byte_limits();
            }
            Ok(Endpoint::Port(value as u16))
        },
        Mode::Http => {
            match TunnelId::from_bytes(bytes) {
                Some(id) => Ok(Endpoint::Tunnel(id)),
                None => Err(ErrorKind::HandshakeMalformed),
            }
        },
    }
}

/// The payload a server writes on each heartbeat stream.
pub fn heartbeat_payload() -> (bytes: Vec<u8>)
    ensures
        bytes@ == ping_bytes(),
{
    let mut bytes: Vec<u8> = Vec::new();
    bytes.push(0x70);
    bytes.push(0x69);
    bytes.push(0x6e);
    bytes.push(0x67);
    assert(bytes@ =~= ping_bytes());
    bytes
}

/// Whether a payload read from a unidirectional stream is a heartbeat.
pub fn is_heartbeat(payload: &[u8]) -> (ping: bool)
    ensures
        ping == (payload@ == ping_bytes()),
{
    if payload.len() != 4 {
        return false;
    }
    let ping = payload[0] == 0x70 && payload[1] == 0x69 && payload[2] == 0x6e && payload[3]
        == 0x67;
    if ping {
        assert(payload@ =~= ping_bytes());
    }
    ping
}

/// A response is two bytes long exactly when the request's mode byte is
/// `0x74`, and sixteen bytes long exactly when it is any other byte.
pub proof fn lemma_response_length_by_mode_byte(mode_byte: u8, port: u16, id: TunnelId)
    ensures
        response_bytes(mode_of_byte(mode_byte), port, id).len() == 2 <==> mode_byte == 0x74,
        response_bytes(mode_of_byte(mode_byte), port, id).len() == 16 <==> mode_byte != 0x74,
{
    lemma_be_bytes_len(port as nat, 2);
    lemma_be_bytes_len(id.value as nat, 16);
}

/// A server reads from a well-formed request exactly the mode and the token
/// that the agent put in.
pub proof fn lemma_request_round_trip(mode: Mode, token: Seq<u8>)
    ensures
        request_bytes(mode, token).len() == token.len() + 1,
        mode_of_byte(request_bytes(mode, token)[0]) == mode,
        request_bytes(mode, token).skip(1) == token,
{
    assert(request_bytes(mode, token).skip(1) =~= token);
}

/// An agent reads from a response exactly the port, or the identifier, that
/// the server put in.
pub proof fn lemma_response_round_trip(mode: Mode, port: u16, id: TunnelId)
    ensures
        mode == Mode::Tcp ==> endpoint_of(mode, response_bytes(mode, port, id)) == Some(
            Endpoint::Port(port),
        ),
        mode == Mode::Http ==> endpoint_of(mode, response_bytes(mode, port, id)) == Some(
            Endpoint::Tunnel(id),
        ),
{
    lemma_byte_limits();
    lemma_be_bytes_len(port as nat, 2);
    lemma_be_bytes_len(id.value as nat, 16);
    lemma_be_value_of_bytes(port as nat, 2);
    lemma_be_value_of_bytes(id.value as nat, 16);
}

} // verus!
