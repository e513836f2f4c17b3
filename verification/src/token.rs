//! What a server reads from the token of a handshake before any key is
//! involved: its text and the key identifier that its header names.

use vstd::prelude::*;
use crate::error::ErrorKind;
use crate::auth::text_of;

verus! {

/// The text of a byte string, with each ill-formed UTF-8 sequence replaced
/// by the replacement character.
pub uninterp spec fn utf8_lossy_text(bytes: Seq<u8>) -> Seq<char>;

/// What the header of a token says of its key: `None` for a text that is not
/// shaped like a token or whose header cannot be read, else the key
/// identifier of the header, which a header may lack.
pub uninterp spec fn token_header_kid(token: Seq<char>) -> Option<Option<Seq<char>>>;

/// `String::from_utf8_lossy`, its result owned.
#[verifier::external_body]
fn lossy_text(bytes: &[u8]) -> (text: String)
    ensures
        text@ == utf8_lossy_text(bytes@),
{
    String::from_utf8_lossy(bytes).into_owned()
}

/// `jsonwebtoken::decode_header`, of whose result only the key identifier is
/// kept. It reads the header alone and checks no signature; what it returns
/// depends on the token's text alone.
#[verifier::external_body]
fn decode_header_kid(token: &str) -> (kid: Result<Option<String>, jsonwebtoken::errors::Error>)
    ensures
        kid is Ok <==> token_header_kid(token@) is Some,
        kid matches Ok(k) ==> Some(text_of(k)) == token_header_kid(token@),
{
    match jsonwebtoken::decode_header(token) {
        Ok(header) => Ok(header.kid),
        Err(e) => Err(e),
    }
}

/// The key identifier that a decoded header leads to, or why the handshake
/// fails: a header that cannot be read makes the handshake malformed, one
/// without key identifier is refused for that.
pub open spec fn kid_of_header(header: Option<Option<Seq<char>>>) -> Result<Seq<char>, ErrorKind> {
    match header {
        None => Err(ErrorKind::HandshakeMalformed),
        Some(None) => Err(ErrorKind::AuthMissingKid),
        Some(Some(kid)) => Ok(kid),
    }
}

/// The text of the token that a handshake request carries.
pub fn token_text(token: &[u8]) -> (text: String)
    ensures
        text@ == utf8_lossy_text(token@),
{
    lossy_text(token)
}

/// The key identifier that a token's header names.
pub fn token_kid(token: &str) -> (kid: Result<String, ErrorKind>)
    ensures
        kid is Ok <==> kid_of_header(token_header_kid(token@)) is Ok,
        kid matches Ok(k) ==> Ok::<Seq<char>, ErrorKind>(k@) == kid_of_header(
            token_header_kid(token@),
        ),
        kid matches Err(e) ==> Err::<Seq<char>, ErrorKind>(e) == kid_of_header(
            token_header_kid(token@),
        ),
{
    match decode_header_kid(token) {
        Ok(Some(kid)) => Ok(kid),
        Ok(None) => Err(ErrorKind::AuthMissingKid),
        Err(_) => Err(ErrorKind::HandshakeMalformed),
    }
}

} // verus!
