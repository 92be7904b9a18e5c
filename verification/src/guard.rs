//! The request guard: turning the authorization header of an inbound request
//! into an authenticated identity, or a rejection, before any protected
//! handler runs.
//!
//! This is a pure function of the header value, the server secret, and the
//! caller's clock reading — no store access, no mutation. Every rejection is
//! surfaced to clients as the same unauthorized status; the variants only
//! tell the diagnostics apart.

use vstd::prelude::*;
use vstd::string::StrSliceExecFns;

use crate::token;

verus! {

/// The identity a protected handler receives: the subject of a token that
/// carried a valid signature and had not expired when the request came in.
#[derive(Debug)]
pub struct Identity {
    pub subject: String,
}

/// Why a request carried no acceptable credential.
#[derive(Clone, Copy, Debug, PartialEq, Eq, Structural)]
pub enum Unauthenticated {
    /// The request had no authorization header at all.
    MissingCredential,
    /// The header was present but not in the bearer scheme.
    MalformedCredential,
    /// The bearer token failed validation: malformed, a bad signature, or
    /// expired.
    InvalidCredential,
}

/// The bearer scheme prefix, `"Bearer "`.
pub open spec fn bearer_prefix() -> Seq<char> {
    seq!['B', 'e', 'a', 'r', 'e', 'r', ' ']
}

/// Whether a header value is in the bearer scheme.
pub open spec fn has_bearer_prefix(header: Seq<char>) -> bool {
    header.len() >= 7 && header.subrange(0, 7) == bearer_prefix()
}

/// The token a bearer-scheme header carries: everything after the prefix.
pub open spec fn bearer_token(header: Seq<char>) -> Seq<char> {
    header.subrange(7, header.len() as int)
}

/// What `extract_identity` decides for any header, secret, and clock
/// reading: the token's subject when the header is in the bearer scheme and
/// the token validates, and otherwise the one applicable rejection.
pub open spec fn spec_extract(header: Option<Seq<char>>, secret: Seq<u8>, now: u64) -> Result<
    Seq<char>,
    Unauthenticated,
> {
    match header {
        None => Err(Unauthenticated::MissingCredential),
        Some(h) => if !has_bearer_prefix(h) {
            Err(Unauthenticated::MalformedCredential)
        } else {
            match token::spec_validate(bearer_token(h), secret, now) {
                Ok((sub, exp)) => Ok(sub),
                Err(_) => Err(Unauthenticated::InvalidCredential),
            }
        },
    }
}

fn starts_with_bearer(header: &str) -> (r: bool)
    ensures
        r == has_bearer_prefix(header@),
{
    let len = header.unicode_len();
    if len < 7 {
        return false;
    }
    let r = header.get_char(0) == 'B' && header.get_char(1) == 'e' && header.get_char(2) == 'a'
        && header.get_char(3) == 'r' && header.get_char(4) == 'e' && header.get_char(5) == 'r'
        && header.get_char(6) == ' ';
    proof {
        if r {
            assert(header@.subrange(0, 7) =~= bearer_prefix());
        }
    }
    r
}

/// The guard in front of every protected handler. Rejects a request with no
/// authorization header as a missing credential and one outside the bearer
/// scheme as malformed; otherwise strips the scheme prefix, validates the
/// token under `secret` at time `now`, and yields the authenticated subject.
/// The handler runs only on `Ok`.
pub fn extract_identity(header: Option<&str>, secret: &Vec<u8>, now: u64) -> (r: Result<
    Identity,
    Unauthenticated,
>)
    ensures
        match r {
            Ok(identity) => spec_extract(
                match header {
                    Some(h) => Some(h@),
                    None => None,
                },
                secret@,
                now,
            ) == Ok::<Seq<char>, Unauthenticated>(identity.subject@),
            Err(e) => spec_extract(
                match header {
                    Some(h) => Some(h@),
                    None => None,
                },
                secret@,
                now,
            ) == Err::<Seq<char>, Unauthenticated>(e),
        },
{
    let h = match header {
        Some(h) => h,
        None => {
            return Err(Unauthenticated::MissingCredential);
        },
    };
    if !starts_with_bearer(h) {
        return Err(Unauthenticated::MalformedCredential);
    }
    let len = h.unicode_len();
    let token_part = h.substring_char(7, len);
    match token::validate(token_part, secret, now) {
        Ok(claims) => Ok(Identity { subject: claims.sub }),
        Err(_) => Err(Unauthenticated::InvalidCredential),
    }
}

/// A request with no authorization header never reaches a handler: the guard
/// rejects it as a missing credential. One whose header is not in the bearer
/// scheme — `Basic` credentials, say — is rejected as malformed. Both hold
/// whatever the secret and the time.
pub proof fn lemma_guard_rejects_before_handler(header: Seq<char>, secret: Seq<u8>, now: u64)
    ensures
        spec_extract(None, secret, now) == Err::<Seq<char>, Unauthenticated>(
            Unauthenticated::MissingCredential,
        ),
        !has_bearer_prefix(header) ==> spec_extract(Some(header), secret, now) == Err::<
            Seq<char>,
            Unauthenticated,
        >(Unauthenticated::MalformedCredential),
{
}

/// Every rejection of the guard is reported to the client with the same
/// unauthorized status; none of the reasons leaks into the status code.
pub fn unauthenticated_status(reason: &Unauthenticated) -> (s: u16)
    ensures
        s == 401,
{
    match reason {
        Unauthenticated::MissingCredential => 401,
        Unauthenticated::MalformedCredential => 401,
        Unauthenticated::InvalidCredential => 401,
    }
}

} // verus!
