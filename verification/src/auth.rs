//! The rules by which the claims of a verified token open a tunnel.

use vstd::prelude::*;
use crate::error::ErrorKind;
use crate::settings::{AuthPolicy, AuthRules};
use crate::text::list_contains;

verus! {

/// The claims of a token that the rules look at.
#[derive(Clone, Debug)]
pub struct JwtClaims {
    pub hd: Option<String>,
    pub email: Option<String>,
    pub email_verified: Option<bool>,
    pub sub: Option<String>,
    pub iss: Option<String>,
}

/// The claims of a [`JwtClaims`] as plain text.
pub struct Claims {
    pub hd: Option<Seq<char>>,
    pub email: Option<Seq<char>>,
    pub email_verified: Option<bool>,
    pub sub: Option<Seq<char>>,
    pub iss: Option<Seq<char>>,
}

/// The text of an optional string.
pub open spec fn text_of(s: Option<String>) -> Option<Seq<char>> {
    match s {
        Some(t) => Some(t@),
        None => None,
    }
}

impl View for JwtClaims {
    type V = Claims;

    open spec fn view(&self) -> Claims {
        Claims {
            hd: text_of(self.hd),
            email: text_of(self.email),
            email_verified: self.email_verified,
            sub: text_of(self.sub),
            iss: text_of(self.iss),
        }
    }
}

/// The token names a verified e-mail address of a listed user.
pub open spec fn email_accepted(claims: Claims, policy: AuthPolicy) -> bool {
    &&& claims.email_verified == Some(true)
    &&& claims.email matches Some(email)
    &&& policy.users.contains(email)
}

/// The token comes from an issuer that is let in by default.
pub open spec fn issuer_listed(claims: Claims, policy: AuthPolicy) -> bool {
    &&& claims.iss matches Some(iss)
    &&& policy.default_allow_issuers.contains(iss)
}

/// The token comes from an issuer that is let in by default and names the
/// subject whose tunnel it opens.
pub open spec fn issuer_accepted(claims: Claims, policy: AuthPolicy) -> bool {
    issuer_listed(claims, policy) && claims.sub is Some
}

/// The token belongs to a listed host domain.
pub open spec fn domain_accepted(claims: Claims, policy: AuthPolicy) -> bool {
    &&& claims.hd matches Some(hd)
    &&& policy.host_domains.contains(hd)
}

/// Whether the rules let the bearer of these claims open a tunnel.
pub open spec fn accepts(claims: Claims, policy: AuthPolicy) -> bool {
    email_accepted(claims, policy) || issuer_accepted(claims, policy) || domain_accepted(
        claims,
        policy,
    )
}

/// What the rules decide: a rejection, or an acceptance that may name the
/// tunnel identifier to assign. A listed user comes first and gets a fresh
/// identifier; then a token of a default issuer, which gets the identifier
/// written in its subject; then a listed host domain, with a fresh
/// identifier again.
pub open spec fn decision(claims: Claims, policy: AuthPolicy) -> Result<
    Option<Seq<char>>,
    ErrorKind,
> {
    if email_accepted(claims, policy) {
        Ok(None)
    } else if issuer_accepted(claims, policy) {
        Ok(claims.sub)
    } else if domain_accepted(claims, policy) {
        Ok(None)
    } else {
        Err(ErrorKind::AuthUnauthorized)
    }
}

/// The decision that an executable result stands for.
pub open spec fn decision_of(result: Result<Option<String>, ErrorKind>) -> Result<
    Option<Seq<char>>,
    ErrorKind,
> {
    match result {
        Ok(subject) => Ok(text_of(subject)),
        Err(kind) => Err(kind),
    }
}

/// Whether a text is present and occurs in a list.
fn listed(list: &Vec<String>, item: &Option<String>) -> (found: bool)
    ensures
        found == (item matches Some(t) && crate::text::text_set(list@).contains(t@)),
{
    match item {
        Some(t) => list_contains(list, t.as_str()),
        None => false,
    }
}

/// Decides whether the claims of a verified token open a tunnel, and under
/// which identifier: `Ok(Some(subject))` asks for the identifier written in
/// the subject, `Ok(None)` for a fresh one.
pub fn validate_claims(claims: JwtClaims, auth: &AuthRules) -> (result: Result<
    Option<String>,
    ErrorKind,
>)
    ensures
        decision_of(result) == decision(claims@, auth@),
        result is Ok <==> accepts(claims@, auth@),
{
    let verified = match claims.email_verified {
        Some(v) => v,
        None => false,
    };
    if verified && listed(&auth.users, &claims.email) {
        return Ok(None);
    }
    if listed(&auth.default_allow_issuers, &claims.iss) {
        match claims.sub {
            Some(sub) => {
                return Ok(Some(sub));
            },
            None => {},
        }
    }
    if listed(&auth.host_domains, &claims.hd) {
        return Ok(None);
    }
    Err(ErrorKind::AuthUnauthorized)
}

/// The decision is an acceptance exactly for the claims that one of the
/// three rules lets in.
pub proof fn lemma_decision_accepts(claims: Claims, policy: AuthPolicy)
    ensures
        decision(claims, policy) is Ok <==> accepts(claims, policy),
        decision(claims, policy) is Err ==> decision(claims, policy) == Err::<
            Option<Seq<char>>,
            ErrorKind,
        >(ErrorKind::AuthUnauthorized),
{
}

/// The claims that are let in are exactly those with a verified e-mail
/// address of a listed user, or a default issuer, or a listed host domain.
/// The one exception are claims of a default issuer that name no subject and
/// meet neither of the other two rules: they are turned away, and are left
/// out here.
pub proof fn lemma_acceptance_set(claims: Claims, policy: AuthPolicy)
    requires
        !(issuer_listed(claims, policy) && claims.sub is None && !email_accepted(claims, policy)
            && !domain_accepted(claims, policy)),
    ensures
        accepts(claims, policy) <==> (email_accepted(claims, policy) || issuer_listed(
            claims,
            policy,
        ) || domain_accepted(claims, policy)),
{
}

/// An acceptance names a subject only for a token of a default issuer that
/// is not also a listed user's.
pub proof fn lemma_subject_only_from_issuer(claims: Claims, policy: AuthPolicy)
    ensures
        decision(claims, policy) matches Ok(Some(subject)) ==> issuer_accepted(claims, policy)
            && !email_accepted(claims, policy) && claims.sub == Some(subject),
{
}

} // verus!
