//! The kinds of failure a tunnel can meet, and what each is called towards
//! the peer.

use vstd::prelude::*;
use vstd::string::StringExecFns;

verus! {

/// The application error code with which a failed handshake resets the
/// stream and closes the connection.
pub const HANDSHAKE_ERROR_CODE: u32 = 1;

/// What went wrong in a session, a bridge or an intercepted request.
#[derive(Clone, Copy, Debug, PartialEq, Eq, Structural)]
pub enum ErrorKind {
    HandshakeTimeout,
    HandshakeMalformed,
    AuthMissingKid,
    AuthUnknownKid,
    AuthInvalidSignature,
    AuthUnauthorized,
    PortExhaustion,
    BridgeIo,
    QuicTransport,
    UpstreamRefused,
    UpstreamBadUri,
    UpstreamBodyRead,
}

impl ErrorKind {
    /// The text that names this kind of failure to the peer.
    pub open spec fn reason_text(self) -> Seq<char> {
        match self {
            ErrorKind::HandshakeTimeout => "Timed out while waiting for the handshake"@,
            ErrorKind::HandshakeMalformed => "Malformed handshake"@,
            ErrorKind::AuthMissingKid => "No kid found in token header"@,
            ErrorKind::AuthUnknownKid => "No valid DecodingKey found for this kid"@,
            ErrorKind::AuthInvalidSignature => "Failed to decode token"@,
            ErrorKind::AuthUnauthorized => "This token is not authorized!"@,
            ErrorKind::PortExhaustion => "internal server error, could not find free port for you"@,
            ErrorKind::BridgeIo => "Encountered error while bridging streams"@,
            ErrorKind::QuicTransport => "Encountered error on the quic connection"@,
            ErrorKind::UpstreamRefused => "Could not connect to the target service"@,
            ErrorKind::UpstreamBadUri => "Malformed target uri"@,
            ErrorKind::UpstreamBodyRead => "Could not read the body"@,
        }
    }

    /// The text that names this kind of failure to the peer.
    pub fn reason(self) -> (text: String)
        ensures
            text@ == self.reason_text(),
    {
        match self {
            ErrorKind::HandshakeTimeout => String::from_str(
                "Timed out while waiting for the handshake",
            ),
            ErrorKind::HandshakeMalformed => String::from_str("Malformed handshake"),
            ErrorKind::AuthMissingKid => String::from_str("No kid found in token header"),
            ErrorKind::AuthUnknownKid => String::from_str(
                "No valid DecodingKey found for this kid",
            ),
            ErrorKind::AuthInvalidSignature => String::from_str("Failed to decode token"),
            ErrorKind::AuthUnauthorized => String::from_str("This token is not authorized!"),
            ErrorKind::PortExhaustion => String::from_str(
                "internal server error, could not find free port for you",
            ),
            ErrorKind::BridgeIo => String::from_str("Encountered error while bridging streams"),
            ErrorKind::QuicTransport => String::from_str(
                "Encountered error on the quic connection",
            ),
            ErrorKind::UpstreamRefused => String::from_str(
                "Could not connect to the target service",
            ),
            ErrorKind::UpstreamBadUri => String::from_str("Malformed target uri"),
            ErrorKind::UpstreamBodyRead => String::from_str("Could not read the body"),
        }
    }
}

} // verus!
