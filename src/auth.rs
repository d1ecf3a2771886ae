//! The decisions that gate a new post on the outside authentication service.
//!
//! A known user who sends a session cookie is verified: the service reads the
//! cookie and names the user it belongs to, which must be the claimed one. A
//! known user without a cookie goes through unverified. An unknown user is
//! registered: the service opens a session and hands back a `Set-Cookie`
//! header, which goes back to the client. The calls themselves are made by the
//! caller, which hands the answers back here.
use vstd::prelude::*;

use crate::post::FeedError;

verus! {

/// The call to make to the authentication service before a post is written.
#[derive(Clone, Debug, PartialEq, Eq)]
pub enum AuthCall {
    /// None: a known user without a session cookie.
    Skip,
    /// Ask the service whose session `cookie` is.
    Verify { cookie: String },
    /// Ask the service to open a session for `username`.
    Register { username: String },
}

/// How the service answered a verification.
#[derive(Clone, Debug, PartialEq, Eq)]
pub enum VerifyReply {
    /// The body of the answer: the name of the session's user.
    Identity(String),
    /// The service could not be reached.
    Unreachable,
    /// The service answered, but its body could not be read.
    Unreadable,
}

/// How the service answered a registration.
#[derive(Clone, Debug, PartialEq, Eq)]
pub enum RegisterReply {
    /// The `Set-Cookie` header of the answer.
    Session(String),
    /// The call failed, or the answer set no cookie.
    Failed,
}

/// How the service answers each of the two calls. Only the answer to the
/// call that is made counts.
#[derive(Clone, Debug, PartialEq, Eq)]
pub struct AuthAnswers {
    pub verify: VerifyReply,
    pub register: RegisterReply,
}

/// Whether `username` is among `users`, compared character by character.
pub open spec fn listed(users: Seq<String>, username: Seq<char>) -> bool {
    exists|i: int| 0 <= i < users.len() && users[i]@ == username
}

/// Whether `username` is among the registered `users`.
pub fn is_known(users: &Vec<String>, username: &String) -> (r: bool)
    ensures
        r == listed(users@, username@),
{
    let mut i: usize = 0;
    while i < users.len()
        invariant
            i <= users.len(),
            forall|j: int| 0 <= j < i ==> users[j]@ != username@,
        decreases users.len() - i,
    {
        if users[i] == *username {
            return true;
        }
        i = i + 1;
    }
    false
}

/// The call owed for a post by `username`, known or not, with `cookie` (empty
/// when the request carried none).
pub open spec fn auth_call_for(known: bool, username: String, cookie: String) -> AuthCall {
    if !known {
        AuthCall::Register { username }
    } else if cookie@.len() > 0 {
        AuthCall::Verify { cookie }
    } else {
        AuthCall::Skip
    }
}

/// Picks the call to make before a post by `username` is written.
pub fn plan_auth(known: bool, username: &String, cookie: &String) -> (r: AuthCall)
    ensures
        r == auth_call_for(known, *username, *cookie),
{
    if !known {
        AuthCall::Register { username: username.clone() }
    } else if cookie.as_str().unicode_len() > 0 {
        AuthCall::Verify { cookie: cookie.clone() }
    } else {
        AuthCall::Skip
    }
}

/// What a verification answer means for a post claimed by `claimed`.
pub open spec fn verify_result(claimed: Seq<char>, reply: VerifyReply) -> Result<(), FeedError> {
    match reply {
        VerifyReply::Identity(name) => if name@ == claimed {
            Ok(())
        } else {
            Err(FeedError::AuthRejected)
        },
        VerifyReply::Unreachable => Err(FeedError::VerifyUnreachable),
        VerifyReply::Unreadable => Err(FeedError::VerifyUnreadable),
    }
}

/// Accepts a verified post only when the service names the claimed user.
pub fn conclude_verify(claimed: &String, reply: &VerifyReply) -> (r: Result<(), FeedError>)
    ensures
        r == verify_result(claimed@, *reply),
{
    match reply {
        VerifyReply::Identity(name) => if *name == *claimed {
            Ok(())
        } else {
            Err(FeedError::AuthRejected)
        },
        VerifyReply::Unreachable => Err(FeedError::VerifyUnreachable),
        VerifyReply::Unreadable => Err(FeedError::VerifyUnreadable),
    }
}

/// What a registration answer means: the cookie to hand to the client.
pub open spec fn register_result(reply: RegisterReply) -> Result<String, FeedError> {
    match reply {
        RegisterReply::Session(cookie) => Ok(cookie),
        RegisterReply::Failed => Err(FeedError::RegistrationFailed),
    }
}

/// Takes the session cookie out of a registration answer.
pub fn conclude_register(reply: &RegisterReply) -> (r: Result<String, FeedError>)
    ensures
        r == register_result(*reply),
{
    match reply {
        RegisterReply::Session(cookie) => Ok(cookie.clone()),
        RegisterReply::Failed => Err(FeedError::RegistrationFailed),
    }
}

/// The outcome of `call` for a post claimed by `claimed`: on success, the
/// cookie that a registration opened, if one was made.
pub open spec fn auth_result(call: AuthCall, claimed: Seq<char>, answers: AuthAnswers) -> Result<
    Option<String>,
    FeedError,
> {
    match call {
        AuthCall::Skip => Ok(None),
        AuthCall::Verify { .. } => match verify_result(claimed, answers.verify) {
            Ok(_) => Ok(None),
            Err(e) => Err(e),
        },
        AuthCall::Register { .. } => match register_result(answers.register) {
            Ok(cookie) => Ok(Some(cookie)),
            Err(e) => Err(e),
        },
    }
}

/// Makes `call` against the service's `answers` and concludes.
pub fn run_auth(call: &AuthCall, claimed: &String, answers: &AuthAnswers) -> (r: Result<
    Option<String>,
    FeedError,
>)
    ensures
        r == auth_result(*call, claimed@, *answers),
{
    match call {
        AuthCall::Skip => Ok(None),
        AuthCall::Verify { .. } => match conclude_verify(claimed, &answers.verify) {
            Ok(_) => Ok(None),
            Err(e) => Err(e),
        },
        AuthCall::Register { .. } => match conclude_register(&answers.register) {
            Ok(cookie) => Ok(Some(cookie)),
            Err(e) => Err(e),
        },
    }
}

} // verus!
