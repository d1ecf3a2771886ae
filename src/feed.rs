//! The feed: posts stored under keys made of their own author and time, and
//! the registry of users seen so far, each in a namespace of its own.
use vstd::prelude::*;

use crate::auth::{auth_call_for, auth_result, plan_auth, run_auth, AuthAnswers, AuthCall, VerifyReply};
use crate::clock::{is_timestamp_text, lemma_timestamp_free_of_separator, utc_now_rfc3339};
use crate::keys::{free_of_separator, key_of, lemma_key_injective};
use crate::post::{has_username, stamp, stamped, status_of, FeedError, NewPost, Post};
use crate::store::Namespace;

verus! {

/// A post as written, and the session cookie to hand to its author when the
/// post registered them.
#[derive(Clone, Debug, PartialEq, Eq)]
pub struct Created {
    pub post: Post,
    pub set_cookie: Option<String>,
}

/// How a request to create a post ends, given the registered `users`: on
/// success, the cookie of the session that registration opened, if any.
pub open spec fn create_outcome(
    users: Map<Seq<char>, String>,
    body: NewPost,
    cookie: String,
    answers: AuthAnswers,
) -> Result<Option<String>, FeedError> {
    if !has_username(body) {
        Err(FeedError::MissingUsername)
    } else {
        let username = body.username.unwrap();
        auth_result(
            auth_call_for(users.contains_key(username@), username, cookie),
            username@,
            answers,
        )
    }
}

/// The posts once a request with `outcome` has been handled.
pub open spec fn posts_after(
    posts: Map<Seq<char>, Post>,
    body: NewPost,
    time: String,
    outcome: Result<Option<String>, FeedError>,
) -> Map<Seq<char>, Post> {
    if outcome is Ok {
        posts.insert(stamped(body, time).spec_key(), stamped(body, time))
    } else {
        posts
    }
}

/// The registered users once a request with `outcome` has been handled: a
/// user is registered when, and only when, the service opened a session.
pub open spec fn users_after(
    users: Map<Seq<char>, String>,
    body: NewPost,
    time: String,
    outcome: Result<Option<String>, FeedError>,
) -> Map<Seq<char>, String> {
    if outcome matches Ok(Some(_)) {
        users.insert(body.username.unwrap()@, time)
    } else {
        users
    }
}

/// The reply to a request with `outcome`.
pub open spec fn create_reply(
    body: NewPost,
    time: String,
    outcome: Result<Option<String>, FeedError>,
) -> Result<Created, FeedError> {
    match outcome {
        Ok(set_cookie) => Ok(Created { post: stamped(body, time), set_cookie }),
        Err(e) => Err(e),
    }
}

/// The posts and the registry of users.
pub struct Feed {
    posts: Namespace<Post>,
    users: Namespace<String>,
}

impl Feed {
    /// Both namespaces are well formed, and each post is stored under its own key.
    pub closed spec fn wf(&self) -> bool {
        &&& self.posts.wf()
        &&& self.users.wf()
        &&& forall|k: Seq<char>|
            #[trigger] self.posts.view().contains_key(k) ==> self.posts.view()[k].spec_key() == k
    }

    /// The stored posts, by key.
    pub closed spec fn posts(&self) -> Map<Seq<char>, Post> {
        self.posts.view()
    }

    /// The registered users, each with the time of registration.
    pub closed spec fn users(&self) -> Map<Seq<char>, String> {
        self.users.view()
    }

    /// A feed with no posts and no users.
    pub fn new() -> (r: Feed)
        ensures
            r.wf(),
            r.posts() == Map::<Seq<char>, Post>::empty(),
            r.users() == Map::<Seq<char>, String>::empty(),
    {
        Feed { posts: Namespace::new(), users: Namespace::new() }
    }

    /// Whether `username` has been registered.
    pub fn is_known(&self, username: &String) -> (r: bool)
        requires
            self.wf(),
        ensures
            r == self.users().contains_key(username@),
    {
        self.users.get(username).is_some()
    }

    /// Registers `username` at `time`. Registering again overwrites the time.
    pub fn register(&mut self, username: String, time: String)
        requires
            old(self).wf(),
        ensures
            final(self).wf(),
            final(self).users() == old(self).users().insert(username@, time),
            final(self).posts() == old(self).posts(),
    {
        self.users.put(username, time);
    }

    /// Every registered username, each once, in no particular order.
    pub fn registered_users(&self) -> (r: Vec<String>)
        requires
            self.wf(),
        ensures
            r.len() == self.users().len(),
            forall|i: int, j: int| 0 <= i < j < r.len() ==> r[i]@ != r[j]@,
            forall|i: int| 0 <= i < r.len() ==> self.users().contains_key(#[trigger] r[i]@),
            forall|k: Seq<char>|
                #[trigger] self.users().contains_key(k) ==> exists|i: int| 0 <= i < r.len() && r[i]@ == k,
    {
        self.users.list_keys()
    }

    /// The call to the authentication service that a post by `username`,
    /// sent with `cookie`, needs.
    pub fn auth_call(&self, username: &String, cookie: &String) -> (r: AuthCall)
        requires
            self.wf(),
        ensures
            r == auth_call_for(self.users().contains_key(username@), *username, *cookie),
    {
        let known = self.is_known(username);
        plan_auth(known, username, cookie)
    }

    /// Handles a request to create a post made at `time`, sent with `cookie`
    /// (empty when the request had none), where the authentication service
    /// gives `answers`. Nothing is written unless the request succeeds.
    pub fn create_at(&mut self, body: NewPost, time: String, cookie: &String, answers: &AuthAnswers) -> (r:
        Result<Created, FeedError>)
        requires
            old(self).wf(),
        ensures
            final(self).wf(),
            r == create_reply(body, time, create_outcome(old(self).users(), body, *cookie, *answers)),
            final(self).posts() == posts_after(
                old(self).posts(),
                body,
                time,
                create_outcome(old(self).users(), body, *cookie, *answers),
            ),
            final(self).users() == users_after(
                old(self).users(),
                body,
                time,
                create_outcome(old(self).users(), body, *cookie, *answers),
            ),
    {
        let ghost body0 = body;
        let post = match stamp(body, time) {
            Ok(p) => p,
            Err(e) => return Err(e),
        };
        let call = self.auth_call(&post.username, cookie);
        let set_cookie = match run_auth(&call, &post.username, answers) {
            Ok(c) => c,
            Err(e) => return Err(e),
        };
        if set_cookie.is_some() {
            self.users.put(post.username.clone(), post.time.clone());
        }
        let key = post.key();
        self.posts.put(key, post.duplicate());
        assert forall|k: Seq<char>| #[trigger] self.posts.view().contains_key(k) implies self.posts.view()[k].spec_key() == k by {
            if k != post.spec_key() {
                assert(old(self).posts.view().contains_key(k));
            }
        }
        Ok(Created { post, set_cookie })
    }

    /// Handles a request to create a post, stamped with the current time.
    /// Whatever the time, the post's key is its author and that time, and
    /// nothing is written unless the request succeeds.
    pub fn create(&mut self, body: NewPost, cookie: &String, answers: &AuthAnswers) -> (r: Result<
        Created,
        FeedError,
    >)
        requires
            old(self).wf(),
        ensures
            final(self).wf(),
            create_outcome(old(self).users(), body, *cookie, *answers) is Ok <==> r is Ok,
            r matches Ok(c) ==> {
                &&& is_timestamp_text(c.post.time@)
                &&& free_of_separator(c.post.time@)
                &&& r == create_reply(
                    body,
                    c.post.time,
                    create_outcome(old(self).users(), body, *cookie, *answers),
                )
                &&& final(self).posts() == old(self).posts().insert(c.post.spec_key(), c.post)
                &&& final(self).users() == users_after(
                    old(self).users(),
                    body,
                    c.post.time,
                    create_outcome(old(self).users(), body, *cookie, *answers),
                )
            },
            r matches Err(e) ==> {
                &&& create_outcome(old(self).users(), body, *cookie, *answers) == Err::<
                    Option<String>,
                    FeedError,
                >(e)
                &&& final(self).posts() == old(self).posts()
                &&& final(self).users() == old(self).users()
            },
    {
        let now = utc_now_rfc3339();
        proof {
            lemma_timestamp_free_of_separator(now@);
        }
        self.create_at(body, now, cookie, answers)
    }

    /// Every stored post, each once, in the order the store keeps them: no
    /// order by time is imposed, and callers that want one sort by `time`.
    pub fn list(&self) -> (r: Vec<Post>)
        requires
            self.wf(),
        ensures
            r.len() == self.posts().len(),
            forall|i: int, j: int| 0 <= i < j < r.len() ==> r[i].spec_key() != r[j].spec_key(),
            forall|i: int|
                0 <= i < r.len() ==> {
                    &&& self.posts().contains_key(#[trigger] r[i].spec_key())
                    &&& self.posts()[r[i].spec_key()] == r[i]
                },
            forall|k: Seq<char>|
                #[trigger] self.posts().contains_key(k) ==> exists|i: int|
                    0 <= i < r.len() && r[i].spec_key() == k,
    {
        let keys = self.posts.list_keys();
        let mut out: Vec<Post> = Vec::new();
        let mut i: usize = 0;
        while i < keys.len()
            invariant
                self.wf(),
                i <= keys.len(),
                out.len() == i,
                keys.len() == self.posts().len(),
                forall|a: int, b: int| 0 <= a < b < keys.len() ==> keys[a]@ != keys[b]@,
                forall|a: int| 0 <= a < keys.len() ==> self.posts().contains_key(#[trigger] keys[a]@),
                forall|j: int|
                    0 <= j < i ==> out[j] == self.posts()[keys[j]@] && out[j].spec_key() == keys[j]@,
            decreases keys.len() - i,
        {
            let p = self.posts.get(&keys[i]);
            match p {
                Some(p) => {
                    out.push(p.duplicate());
                },
                None => {
                    assert(false);
                },
            }
            i = i + 1;
        }
        assert forall|k: Seq<char>| #[trigger] self.posts().contains_key(k) implies exists|j: int|
            0 <= j < out.len() && out[j].spec_key() == k by {
            let j = choose|j: int| 0 <= j < keys.len() && keys[j]@ == k;
            assert(out[j].spec_key() == k);
        }
        out
    }

    /// Replaces the stored post that `post` names by its own author and time
    /// with `post` itself, and echoes it. The caller has already counted the
    /// new like.
    pub fn apply_like(&mut self, post: Post) -> (r: Post)
        requires
            old(self).wf(),
        ensures
            final(self).wf(),
            r == post,
            final(self).posts() == old(self).posts().insert(post.spec_key(), post),
            final(self).users() == old(self).users(),
    {
        let key = post.key();
        self.posts.delete(&key);
        self.posts.put(key, post.duplicate());
        assert(old(self).posts().remove(post.spec_key()).insert(post.spec_key(), post)
            =~= old(self).posts().insert(post.spec_key(), post));
        assert forall|k: Seq<char>| #[trigger] self.posts.view().contains_key(k) implies self.posts.view()[k].spec_key() == k by {
            if k != post.spec_key() {
                assert(old(self).posts.view().contains_key(k));
            }
        }
        post
    }
}

/// A successful post by a named user is stored under the key made of its own
/// author and of the time the server stamped, and that key names no other
/// author and time.
pub proof fn lemma_created_post_key(
    users: Map<Seq<char>, String>,
    posts: Map<Seq<char>, Post>,
    body: NewPost,
    time: String,
    cookie: String,
    answers: AuthAnswers,
)
    requires
        has_username(body),
        is_timestamp_text(time@),
        create_outcome(users, body, cookie, answers) is Ok,
    ensures
        create_reply(body, time, create_outcome(users, body, cookie, answers)) matches Ok(c) && {
            let key = key_of(c.post.username@, c.post.time@);
            &&& c.post.time == time
            &&& c.post.username == body.username.unwrap()
            &&& posts_after(posts, body, time, create_outcome(users, body, cookie, answers))[key]
                == c.post
            &&& forall|u: Seq<char>, t: Seq<char>|
                free_of_separator(t) && #[trigger] key_of(u, t) == key ==> u == c.post.username@
                    && t == c.post.time@
        },
{
    lemma_timestamp_free_of_separator(time@);
    assert forall|u: Seq<char>, t: Seq<char>|
        free_of_separator(t) && #[trigger] key_of(u, t) == key_of(body.username.unwrap()@, time@)
            implies u == body.username.unwrap()@ && t == time@ by {
        lemma_key_injective(u, t, body.username.unwrap()@, time@);
    }
}

/// The posts that a run of creations leaves in an empty feed: each one is
/// written under its own key, in turn.
pub open spec fn written(created: Seq<Post>) -> Map<Seq<char>, Post>
    decreases created.len(),
{
    if created.len() == 0 {
        Map::empty()
    } else {
        written(created.drop_last()).insert(created.last().spec_key(), created.last())
    }
}

/// After `n` successful creations under distinct keys the feed holds exactly
/// `n` posts, each the one created under its key.
pub proof fn lemma_creations_counted(created: Seq<Post>)
    requires
        forall|i: int, j: int|
            0 <= i < j < created.len() ==> created[i].spec_key() != created[j].spec_key(),
    ensures
        written(created).dom().finite(),
        written(created).len() == created.len(),
        forall|i: int|
            0 <= i < created.len() ==> #[trigger] written(created)[created[i].spec_key()] == created[i],
        forall|k: Seq<char>|
            #[trigger] written(created).contains_key(k) ==> exists|i: int|
                0 <= i < created.len() && created[i].spec_key() == k,
    decreases created.len(),
{
    if created.len() > 0 {
        let init = created.drop_last();
        lemma_creations_counted(init);
        let last = created.last();
        assert(!written(init).contains_key(last.spec_key())) by {
            if written(init).contains_key(last.spec_key()) {
                let i = choose|i: int| 0 <= i < init.len() && init[i].spec_key() == last.spec_key();
                assert(created[i].spec_key() == created[created.len() - 1].spec_key());
            }
        }
        assert forall|i: int| 0 <= i < created.len() implies #[trigger] written(created)[created[i].spec_key()]
            == created[i] by {
            if i < created.len() - 1 {
                assert(init[i] == created[i]);
            }
        }
        assert forall|k: Seq<char>| #[trigger] written(created).contains_key(k) implies exists|i: int|
            0 <= i < created.len() && created[i].spec_key() == k by {
            if k != last.spec_key() {
                let i = choose|i: int| 0 <= i < init.len() && init[i].spec_key() == k;
                assert(created[i] == init[i]);
            }
        }
    }
}

/// A like written over a stored post takes its place: the same keys, the same
/// count, the new body under the post's key, and every other post untouched.
pub proof fn lemma_like_replaces(posts: Map<Seq<char>, Post>, post: Post)
    requires
        posts.dom().finite(),
        posts.contains_key(post.spec_key()),
    ensures
        posts.insert(post.spec_key(), post).dom() == posts.dom(),
        posts.insert(post.spec_key(), post).len() == posts.len(),
        posts.insert(post.spec_key(), post)[post.spec_key()] == post,
        forall|k: Seq<char>|
            k != post.spec_key() && #[trigger] posts.contains_key(k) ==> posts.insert(
                post.spec_key(),
                post,
            )[k] == posts[k],
{
    assert(posts.insert(post.spec_key(), post).dom() =~= posts.dom());
}

/// A user's first post asks the service for one registration and registers
/// the user once; the user's next post asks for no registration and
/// registers nobody.
pub proof fn lemma_registered_once(
    users: Map<Seq<char>, String>,
    first: NewPost,
    time: String,
    cookie: String,
    answers: AuthAnswers,
    next: NewPost,
    next_time: String,
    next_cookie: String,
    next_answers: AuthAnswers,
)
    requires
        has_username(first),
        !users.contains_key(first.username.unwrap()@),
        create_outcome(users, first, cookie, answers) is Ok,
        next.username == first.username,
    ensures
        auth_call_for(false, first.username.unwrap(), cookie) == (AuthCall::Register {
            username: first.username.unwrap(),
        }),
        users_after(users, first, time, create_outcome(users, first, cookie, answers))
            == users.insert(first.username.unwrap()@, time),
        ({
            let known = users_after(users, first, time, create_outcome(users, first, cookie, answers));
            &&& !(auth_call_for(
                known.contains_key(next.username.unwrap()@),
                next.username.unwrap(),
                next_cookie,
            ) is Register)
            &&& users_after(
                known,
                next,
                next_time,
                create_outcome(known, next, next_cookie, next_answers),
            ) == known
        }),
{
}

/// A known user's post sent with a cookie goes through when the service names
/// that user, and is refused as unauthorised, with nothing written, when it
/// names anyone else.
pub proof fn lemma_verified_gate(
    users: Map<Seq<char>, String>,
    posts: Map<Seq<char>, Post>,
    body: NewPost,
    time: String,
    cookie: String,
    answers: AuthAnswers,
)
    requires
        has_username(body),
        users.contains_key(body.username.unwrap()@),
        cookie@.len() > 0,
        answers.verify is Identity,
    ensures
        answers.verify matches VerifyReply::Identity(name) && {
            let outcome = create_outcome(users, body, cookie, answers);
            &&& name@ == body.username.unwrap()@ ==> outcome == Ok::<Option<String>, FeedError>(None)
            &&& name@ != body.username.unwrap()@ ==> {
                &&& outcome == Err::<Option<String>, FeedError>(FeedError::AuthRejected)
                &&& status_of(FeedError::AuthRejected) == 401
                &&& posts_after(posts, body, time, outcome) == posts
                &&& users_after(users, body, time, outcome) == users
            }
        },
{
}

} // verus!
