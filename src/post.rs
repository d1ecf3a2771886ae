//! Posts, the body a client sends to create one, and the errors of the feed.
use vstd::prelude::*;

use crate::clock::{is_timestamp_text, lemma_timestamp_free_of_separator, utc_now_rfc3339};
use crate::keys::{free_of_separator, key_of, post_key};

verus! {

/// What a client sends to create a post. The server adds the time.
pub struct NewPost {
    pub title: String,
    pub username: Option<String>,
    pub content: String,
}

/// A stored post. Its key is made of its own `username` and `time`.
#[derive(Clone, Debug, PartialEq, Eq)]
pub struct Post {
    pub title: String,
    pub username: String,
    pub content: String,
    pub time: String,
    /// Present once the post has been liked at least once.
    pub likes: Option<u64>,
}

/// Why a request of the feed failed.
#[derive(Clone, Copy, Debug, PartialEq, Eq)]
pub enum FeedError {
    /// The new post names no user.
    MissingUsername,
    /// The authentication service vouched for another user.
    AuthRejected,
    /// The authentication service could not be reached to verify a session.
    VerifyUnreachable,
    /// The authentication service answered a verification without a readable body.
    VerifyUnreadable,
    /// The authentication service did not open a session for a new user.
    RegistrationFailed,
    /// The key-value store failed.
    StoreUnavailable,
}

/// The HTTP status that reports each error.
pub open spec fn status_of(e: FeedError) -> u16 {
    match e {
        FeedError::MissingUsername => 400,
        FeedError::AuthRejected => 401,
        FeedError::VerifyUnreachable => 401,
        FeedError::VerifyUnreadable => 502,
        FeedError::RegistrationFailed => 502,
        FeedError::StoreUnavailable => 502,
    }
}

impl FeedError {
    /// The HTTP status that reports this error.
    pub fn status(&self) -> (r: u16)
        ensures
            r == status_of(*self),
    {
        match self {
            FeedError::MissingUsername => 400,
            FeedError::AuthRejected => 401,
            FeedError::VerifyUnreachable => 401,
            FeedError::VerifyUnreadable => 502,
            FeedError::RegistrationFailed => 502,
            FeedError::StoreUnavailable => 502,
        }
    }
}

/// The body names a user, by a non-empty name.
pub open spec fn has_username(body: NewPost) -> bool {
    body.username is Some && body.username.unwrap()@.len() > 0
}

/// The post that `body` becomes when stamped with `time`.
pub open spec fn stamped(body: NewPost, time: String) -> Post {
    Post {
        title: body.title,
        username: body.username.unwrap(),
        content: body.content,
        time: time,
        likes: None,
    }
}

impl Post {
    /// The key under which this post is stored.
    pub open spec fn spec_key(&self) -> Seq<char> {
        key_of(self.username@, self.time@)
    }

    /// Builds the key of this post from its own fields.
    pub fn key(&self) -> (r: String)
        ensures
            r@ == self.spec_key(),
    {
        post_key(self.username.as_str(), self.time.as_str())
    }

    /// A copy of this post.
    pub fn duplicate(&self) -> (r: Post)
        ensures
            r == *self,
    {
        Post {
            title: self.title.clone(),
            username: self.username.clone(),
            content: self.content.clone(),
            time: self.time.clone(),
            likes: self.likes,
        }
    }
}

/// Turns a new post into a stored one made at `time`, or rejects it when it
/// names no user.
pub fn stamp(body: NewPost, time: String) -> (r: Result<Post, FeedError>)
    ensures
        has_username(body) ==> r == Ok::<Post, FeedError>(stamped(body, time)),
        !has_username(body) ==> r == Err::<Post, FeedError>(FeedError::MissingUsername),
{
    match body.username {
        Some(username) => {
            if username.as_str().unicode_len() == 0 {
                Err(FeedError::MissingUsername)
            } else {
                Ok(Post {
                    title: body.title,
                    username: username,
                    content: body.content,
                    time: time,
                    likes: None,
                })
            }
        },
        None => Err(FeedError::MissingUsername),
    }
}

/// Stamps a new post with the current time. The time comes from the server
/// alone, and the post's key gives back its author and time.
pub fn stamp_now(body: NewPost) -> (r: Result<Post, FeedError>)
    ensures
        has_username(body) <==> r is Ok,
        !has_username(body) ==> r == Err::<Post, FeedError>(FeedError::MissingUsername),
        r matches Ok(p) ==> {
            &&& p == stamped(body, p.time)
            &&& is_timestamp_text(p.time@)
            &&& free_of_separator(p.time@)
        },
{
    let now = utc_now_rfc3339();
    proof {
        lemma_timestamp_free_of_separator(now@);
    }
    stamp(body, now)
}

} // verus!
