//! Registration and login.
//!
//! The persistence store is an outside collaborator: registration prepares
//! the row to insert (the hash is derived here, the plaintext never leaves),
//! the store reports how the insert went, and login judges the row the store
//! fetched. Every decision these flows make is a function of plain values the
//! collaborator hands in, so the collaborator's own I/O stays at the edge.

use vstd::prelude::*;

use crate::password;
use crate::token;

verus! {

/// What a client submits to register: a display name, the e-mail that will
/// identify the account, and the plaintext password. Transient — the
/// plaintext is hashed and dropped, never persisted.
#[derive(Debug)]
pub struct Credential {
    pub name: String,
    pub email: String,
    pub password: String,
}

/// The row registration asks the store to insert. Its `password_hash` is an
/// encoded hash, never the plaintext.
#[derive(Debug)]
pub struct NewAccount {
    pub name: String,
    pub email: String,
    pub password_hash: String,
}

/// The row the store holds for an account, keyed by the unique e-mail.
#[derive(Debug)]
pub struct StoredAccount {
    pub email: String,
    pub password_hash: String,
}

/// How the store answered the insert of a prepared account: the row went in,
/// the unique-e-mail constraint refused it, or the store itself failed.
#[derive(Clone, Copy, Debug, PartialEq, Eq, Structural)]
pub enum InsertOutcome {
    Inserted,
    DuplicateEmail,
    StoreFailure,
}

/// The per-request failures of the flows. Each is reported to the client as
/// an opaque category: no hash, no store detail, no validation internals.
#[derive(Clone, Copy, Debug, PartialEq, Eq, Structural)]
pub enum AuthError {
    /// Deriving the password hash failed; fatal for the request.
    HashingFailed,
    /// The e-mail is already registered.
    DuplicateAccount,
    /// Unknown e-mail or wrong password — deliberately not told apart.
    InvalidCredentials,
    /// The store failed in some other way.
    PersistenceFailure,
}

/// The first half of registration: derives the hash for the submitted
/// credential and builds the row to insert. The row carries the name and the
/// e-mail unchanged and a fresh hash of the plaintext — one that verifies
/// that plaintext and no other. Fails only when the hash derivation itself
/// fails.
pub fn register_prepare(credential: &Credential) -> (r: Result<NewAccount, AuthError>)
    ensures
        match r {
            Ok(account) => account.name@ == credential.name@ && account.email@
                == credential.email@ && password::fresh_hash_of(
                credential.password@,
                account.password_hash@,
            ),
            Err(e) => e == AuthError::HashingFailed,
        },
{
    match password::hash(credential.password.as_str()) {
        Some(password_hash) => Ok(
            NewAccount {
                name: credential.name.clone(),
                email: credential.email.clone(),
                password_hash,
            },
        ),
        None => Err(AuthError::HashingFailed),
    }
}

/// The second half of registration: maps the store's answer to the flow's
/// result. A unique-constraint refusal is the distinct duplicate-account
/// error, any other store failure stays an opaque persistence error.
pub fn register_commit(outcome: InsertOutcome) -> (r: Result<(), AuthError>)
    ensures
        r == match outcome {
            InsertOutcome::Inserted => Ok::<(), AuthError>(()),
            InsertOutcome::DuplicateEmail => Err::<(), AuthError>(AuthError::DuplicateAccount),
            InsertOutcome::StoreFailure => Err::<(), AuthError>(AuthError::PersistenceFailure),
        },
{
    match outcome {
        InsertOutcome::Inserted => Ok(()),
        InsertOutcome::DuplicateEmail => Err(AuthError::DuplicateAccount),
        InsertOutcome::StoreFailure => Err(AuthError::PersistenceFailure),
    }
}

/// Login, given the row the store fetched for the submitted e-mail (`None`
/// when no account exists). An absent account and a password the stored hash
/// refuses yield the same `InvalidCredentials`, so the answer does not say
/// whether the e-mail is registered. When the hash accepts the password, a
/// token for the account's e-mail is issued at `now` with lifetime `ttl`
/// under `secret`.
pub fn login(
    account: Option<&StoredAccount>,
    password: &str,
    now: u64,
    ttl: i64,
    secret: &Vec<u8>,
) -> (r: Result<String, AuthError>)
    requires
        0 <= now + ttl <= u64::MAX,
    ensures
        match account {
            None => r == Err::<String, AuthError>(AuthError::InvalidCredentials),
            Some(acct) => if password::verifies(password@, acct.password_hash@) {
                r matches Ok(t) && token::issued_token(
                    t@,
                    acct.email@,
                    token::expiry_at(now, ttl),
                    secret@,
                )
            } else {
                r == Err::<String, AuthError>(AuthError::InvalidCredentials)
            },
        },
{
    let acct = match account {
        Some(acct) => acct,
        None => {
            return Err(AuthError::InvalidCredentials);
        },
    };
    if !password::verify(password, acct.password_hash.as_str()) {
        return Err(AuthError::InvalidCredentials);
    }
    Ok(token::issue(acct.email.as_str(), now, ttl, secret))
}

/// The status each per-request failure is reported with: invalid credentials
/// are unauthorized, a duplicate account is a conflict, and the rest are
/// internal errors.
pub fn http_status(e: &AuthError) -> (s: u16)
    ensures
        s == match e {
            AuthError::HashingFailed => 500u16,
            AuthError::DuplicateAccount => 409u16,
            AuthError::InvalidCredentials => 401u16,
            AuthError::PersistenceFailure => 500u16,
        },
{
    match e {
        AuthError::HashingFailed => 500,
        AuthError::DuplicateAccount => 409,
        AuthError::InvalidCredentials => 401,
        AuthError::PersistenceFailure => 500,
    }
}

/// The message each per-request failure is reported with. Uniformly
/// redacted: no store error text, no hash, no validation internals; unknown
/// e-mail and wrong password share one message.
pub fn client_message(e: &AuthError) -> (m: &'static str)
    ensures
        m@ == match e {
            AuthError::HashingFailed => "Error hashing the password"@,
            AuthError::DuplicateAccount => "Account already exists"@,
            AuthError::InvalidCredentials => "Invalid email or password"@,
            AuthError::PersistenceFailure => "Internal server error"@,
        },
{
    match e {
        AuthError::HashingFailed => "Error hashing the password",
        AuthError::DuplicateAccount => "Account already exists",
        AuthError::InvalidCredentials => "Invalid email or password",
        AuthError::PersistenceFailure => "Internal server error",
    }
}


} // verus!

