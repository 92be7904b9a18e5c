//! The authentication core of a small token-guarded HTTP backend: password
//! hashing and verification, signed-token issuance and validation, the
//! request guard that turns an authorization header into an authenticated
//! identity, and the registration and login flows that tie them together.
//! The HTTP server and the persistence store are outside collaborators; they
//! hand these functions plain values and take plain values back.

pub mod flow;
pub mod guard;
pub mod password;
pub mod todo;
pub mod token;
