//! Signed-token issuance and validation.
//!
//! A token carries claims — a subject and an absolute expiry timestamp —
//! serialized and signed with a process-wide symmetric secret. Validation
//! checks the signature and the shape, then compares the expiry against the
//! caller's clock reading; the three rejection reasons are kept apart for
//! internal diagnostics, while callers surface them uniformly as
//! "unauthorized".

use vstd::prelude::*;

verus! {

/// Seconds a freshly issued token stays valid when the caller asks for the
/// default lifetime: eight hours.
pub const DEFAULT_TTL_SECS: i64 = 28800;

/// The claims a token asserts: who it speaks for, and until when
/// (seconds since the epoch).
#[derive(Debug)]
pub struct Claims {
    pub sub: String,
    pub exp: u64,
}

/// Why a token was refused. The distinction is internal only; every reason is
/// reported to clients as the same generic unauthorized answer.
#[derive(Clone, Copy, Debug, PartialEq, Eq, Structural)]
pub enum Rejection {
    /// Not a well-formed signed claims object.
    Malformed,
    /// Well-formed, but the signature does not verify under the secret.
    BadSignature,
    /// Signed and well-formed, but its expiry is not in the future.
    Expired,
}

/// The token string that signing claims `(sub, exp)` under `secret` yields:
/// the signing scheme is deterministic in those three values alone.
pub uninterp spec fn token_of(sub: Seq<char>, exp: u64, secret: Seq<u8>) -> Seq<char>;

/// What decoding `token` under `secret` yields, expiry aside: the claims
/// `Ok((sub, exp))` when the token is a well-formed claims object whose
/// signature verifies under `secret`; otherwise `Err(bad_signature)`, where
/// the flag tells a failed signature check (`true`) from a malformed token
/// (`false`). Deterministic in the token and the secret alone.
pub uninterp spec fn decode_of(token: Seq<char>, secret: Seq<u8>) -> Result<
    (Seq<char>, u64),
    bool,
>;

/// The working key HMAC-SHA256 derives from a secret before signing: a
/// secret no longer than the 64-byte block is zero-padded to the block, a
/// longer one is hashed first. Distinct secrets of one length within the
/// block never derive the same working key; a secret and its zero-padding to
/// the block, or a long secret and its digest, do.
pub uninterp spec fn hmac_key_of(secret: Seq<u8>) -> Seq<u8>;

/// What `issue` promises of a token signed over `(sub, exp)` with `secret`:
/// it is the (never empty) token the scheme assigns those claims, it decodes
/// back to exactly those claims under the issuing secret, and under every
/// secret whose HMAC working key differs the signature check rejects it —
/// stated both over the derived keys and directly for distinct secrets of
/// the issuing secret's own length within the 64-byte block, where the
/// derivation is plain zero-padding and cannot coincide. Secrets that derive
/// the same working key sign identically; nothing is claimed of them.
pub open spec fn issued_token(t: Seq<char>, sub: Seq<char>, exp: u64, secret: Seq<u8>) -> bool {
    &&& t.len() > 0
    &&& t == token_of(sub, exp, secret)
    &&& decode_of(t, secret) == Ok::<(Seq<char>, u64), bool>((sub, exp))
    &&& forall|other: Seq<u8>|
        hmac_key_of(other) != hmac_key_of(secret) ==> decode_of(t, other) == Err::<
            (Seq<char>, u64),
            bool,
        >(true)
    &&& forall|other: Seq<u8>|
        other != secret && other.len() == secret.len() && secret.len() <= 64 ==> decode_of(
            t,
            other,
        ) == Err::<(Seq<char>, u64), bool>(true)
}

/// Relies on `jsonwebtoken::encode` with `Header::default()` (HS256) and an
/// HMAC secret key: for a JSON-object payload this path never fails, and the
/// token — three dot-separated base64 segments, so never empty — is a
/// function of the claims and the secret alone. The token decodes, under the
/// issuing secret, back to the claims that went in; under a secret whose
/// derived HMAC working key differs, the comparison rejects it as a bad
/// signature.
#[verifier::external_body]
fn encode_token(sub: &str, exp: u64, secret: &Vec<u8>) -> (t: String)
    ensures
        t@ == token_of(sub@, exp, secret@),
        t@.len() > 0 && (forall|other: Seq<u8>|
            hmac_key_of(other) != hmac_key_of(secret@) ==> decode_of(t@, other) == Err::<
                (Seq<char>, u64),
                bool,
            >(true)),
        issued_token(t@, sub@, exp, secret@),
{
    let mut claims = serde_json::Map::new();
    claims.insert("sub".to_string(), serde_json::Value::String(sub.to_string()));
    claims.insert("exp".to_string(), serde_json::Value::from(exp));
    let key = jsonwebtoken::EncodingKey::from_secret(secret.as_slice());
    let payload = serde_json::Value::Object(claims);
    jsonwebtoken::encode(&jsonwebtoken::Header::default(), &payload, &key)
        .expect("HS256 signing over an object payload does not fail")
}

/// Relies on `jsonwebtoken::decode` restricted to HS256, with the expiry
/// check turned off so that the result is deterministic in the token and the
/// secret: a failed HMAC comparison surfaces as `ErrorKind::InvalidSignature`,
/// and every other failure means the token is not a well-formed claims
/// object. The expiry is checked by verified code instead.
#[verifier::external_body]
fn decode_token(token: &str, secret: &Vec<u8>) -> (r: Result<(String, u64), Rejection>)
    ensures
        match r {
            Ok(p) => decode_of(token@, secret@) == Ok::<(Seq<char>, u64), bool>((p.0@, p.1)),
            Err(e) => e != Rejection::Expired && decode_of(token@, secret@) == Err::<
                (Seq<char>, u64),
                bool,
            >(e == Rejection::BadSignature),
        },
{
    let key = jsonwebtoken::DecodingKey::from_secret(secret.as_slice());
    let mut validation = jsonwebtoken::Validation::new(jsonwebtoken::Algorithm::HS256);
    validation.validate_exp = false;
    let claims = match jsonwebtoken::decode::<serde_json::Value>(token, &key, &validation) {
        Ok(data) => data.claims,
        Err(e) if matches!(e.kind(), jsonwebtoken::errors::ErrorKind::InvalidSignature) => return Err(Rejection::BadSignature),
        Err(_) => return Err(Rejection::Malformed),
    };
    match (claims.get("sub").and_then(|v| v.as_str()), claims.get("exp").and_then(|v| v.as_u64())) {
        (Some(s), Some(e)) => Ok((s.to_string(), e)),
        _ => Err(Rejection::Malformed),
    }
}

/// The absolute expiry a token issued at `now` with lifetime `ttl` carries.
pub open spec fn expiry_at(now: u64, ttl: i64) -> u64 {
    (now + ttl) as u64
}

/// Builds claims `{sub, exp: now + ttl}` and signs them with `secret`. The
/// expiry must stay representable; a negative lifetime is allowed and simply
/// yields a token that is already expired.
pub fn issue(sub: &str, now: u64, ttl: i64, secret: &Vec<u8>) -> (t: String)
    requires
        0 <= now + ttl <= u64::MAX,
    ensures
        issued_token(t@, sub@, expiry_at(now, ttl), secret@),
{
    let exp: u64 = if ttl >= 0 {
        now + (ttl as u64)
    } else {
        let back: u64 = (-(ttl + 1)) as u64 + 1;
        assert(back == -(ttl as int));
        now - back
    };
    encode_token(sub, exp, secret)
}

/// What `validate` returns on any token, secret, and clock reading: the
/// decoded claims while `now` lies before the expiry, and otherwise the one
/// applicable rejection reason.
pub open spec fn spec_validate(token: Seq<char>, secret: Seq<u8>, now: u64) -> Result<
    (Seq<char>, u64),
    Rejection,
> {
    match decode_of(token, secret) {
        Ok((sub, exp)) => if now < exp {
            Ok((sub, exp))
        } else {
            Err(Rejection::Expired)
        },
        Err(bad_signature) => if bad_signature {
            Err(Rejection::BadSignature)
        } else {
            Err(Rejection::Malformed)
        },
    }
}

/// Verifies the signature of `token` under `secret`, checks its shape, and
/// checks that its expiry lies strictly after `now`. Returns the claims, or
/// the exact rejection reason `spec_validate` assigns.
pub fn validate(token: &str, secret: &Vec<u8>, now: u64) -> (r: Result<Claims, Rejection>)
    ensures
        match r {
            Ok(c) => spec_validate(token@, secret@, now) == Ok::<(Seq<char>, u64), Rejection>(
                (c.sub@, c.exp),
            ),
            Err(e) => spec_validate(token@, secret@, now) == Err::<(Seq<char>, u64), Rejection>(e),
        },
{
    match decode_token(token, secret) {
        Ok((sub, exp)) => {
            if now < exp {
                Ok(Claims { sub, exp })
            } else {
                Err(Rejection::Expired)
            }
        },
        Err(e) => Err(e),
    }
}

/// A token whose claims decode to `(sub, exp)` under `secret` — in
/// particular any token issued over those claims with that secret —
/// validates to exactly those claims at every instant before the expiry, and
/// from the expiry on is rejected as `Expired`.
pub proof fn lemma_validate_window(
    token: Seq<char>,
    secret: Seq<u8>,
    sub: Seq<char>,
    exp: u64,
    now: u64,
)
    requires
        decode_of(token, secret) == Ok::<(Seq<char>, u64), bool>((sub, exp)),
    ensures
        now < exp ==> spec_validate(token, secret, now) == Ok::<(Seq<char>, u64), Rejection>(
            (sub, exp),
        ),
        now >= exp ==> spec_validate(token, secret, now) == Err::<(Seq<char>, u64), Rejection>(
            Rejection::Expired,
        ),
{
}

/// A token issued under one secret fails validation, at every time, under
/// every secret whose HMAC working key differs — in particular under every
/// different secret of the issuing secret's own length within the 64-byte
/// block — and the rejection reason is exactly `BadSignature`. A secret that
/// derives the same working key (the issuing secret zero-padded to the
/// block, say) signs identically, so it is left out.
pub proof fn lemma_wrong_secret_rejected(
    token: Seq<char>,
    sub: Seq<char>,
    exp: u64,
    secret: Seq<u8>,
    other: Seq<u8>,
    now: u64,
)
    requires
        issued_token(token, sub, exp, secret),
        hmac_key_of(other) != hmac_key_of(secret) || (other != secret && other.len()
            == secret.len() && secret.len() <= 64),
    ensures
        spec_validate(token, other, now) == Err::<(Seq<char>, u64), Rejection>(
            Rejection::BadSignature,
        ),
{
}

} // verus!
