use vstd::prelude::*;

verus! {

/// The HTTP status of a reply (`Success` is 200 OK).
#[derive(Clone, Copy, Debug, PartialEq, Eq, Structural)]
pub enum Status {
    Success,
    BadRequest,
    Unauthorized,
    NotFound,
    Conflict,
    PayloadTooLarge,
    InternalServerError,
}

/// A plain-text reply: a status and its body.
#[derive(Debug)]
pub struct Reply {
    pub status: Status,
    pub body: String,
}

/// `reply` has the given status and body text.
pub open spec fn is_reply(reply: Reply, status: Status, body: Seq<char>) -> bool {
    reply.status == status && reply.body@ == body
}

impl Reply {
    /// A reply with the given status and body.
    pub fn new(status: Status, body: &str) -> (reply: Reply)
        ensures
            is_reply(reply, status, body@),
    {
        Reply { status, body: String::from_str(body) }
    }
}

/// The refusal of a request whose API key is missing or unknown.
pub fn invalid_api_key() -> (reply: Reply)
    ensures
        is_reply(reply, Status::Unauthorized, "Invalid API key"@),
{
    Reply::new(Status::Unauthorized, "Invalid API key")
}

} // verus!
