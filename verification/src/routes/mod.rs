//! The decisions of the service's request handlers. Each function takes the
//! request's inputs and the results of the lookups that precede it, and
//! gives either what to store and send back or the reply that refuses the
//! request.

use vstd::prelude::*;

use crate::models::User;
use crate::reply::{invalid_api_key, is_reply, Reply, Status};

pub mod file;
pub mod gen;
pub mod user;

verus! {

/// The API key a request carries, or the refusal of a request without one.
pub fn require_api_key(header: Option<String>) -> (res: Result<String, Reply>)
    ensures
        match header {
            Some(key) => res matches Ok(k) && k@ == key@,
            None => res matches Err(r) && is_reply(r, Status::Unauthorized, "Invalid API key"@),
        },
{
    match header {
        Some(key) => Ok(key),
        None => Err(invalid_api_key()),
    }
}

/// The account an API key belongs to, or the refusal when it belongs to none.
pub fn require_user(user: Option<User>) -> (res: Result<User, Reply>)
    ensures
        match user {
            Some(u) => res matches Ok(v) && v == u,
            None => res matches Err(r) && is_reply(r, Status::Unauthorized, "Invalid API key"@),
        },
{
    match user {
        Some(u) => Ok(u),
        None => Err(invalid_api_key()),
    }
}

} // verus!
