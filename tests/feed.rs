use feedsvc::auth::{AuthAnswers, AuthCall, RegisterReply, VerifyReply};
use feedsvc::feed::Feed;
use feedsvc::keys::post_key;
use feedsvc::post::{FeedError, NewPost, Post};

fn s(x: &str) -> String {
    x.to_string()
}

fn body(username: Option<&str>, title: &str, content: &str) -> NewPost {
    NewPost { title: s(title), username: username.map(s), content: s(content) }
}

fn answers(verify: VerifyReply, register: RegisterReply) -> AuthAnswers {
    AuthAnswers { verify, register }
}

fn session(cookie: &str) -> AuthAnswers {
    answers(VerifyReply::Unreachable, RegisterReply::Session(s(cookie)))
}

#[test]
fn unknown_user_first_post_registers_and_forwards_cookie() {
    let mut feed = Feed::new();
    let b = body(Some("alice"), "hi", "hello");
    assert_eq!(feed.auth_call(&s("alice"), &s("")), AuthCall::Register { username: s("alice") });
    let created = feed
        .create_at(b, s("2024-01-01T00:00:00+00:00"), &s(""), &session("sid=abc; Path=/"))
        .unwrap();
    assert_eq!(created.set_cookie, Some(s("sid=abc; Path=/")));
    assert_eq!(created.post.username, "alice");
    assert_eq!(created.post.title, "hi");
    assert_eq!(created.post.content, "hello");
    assert_eq!(created.post.time, "2024-01-01T00:00:00+00:00");
    assert_eq!(created.post.likes, None);
    assert!(feed.is_known(&s("alice")));
    assert_eq!(feed.registered_users(), vec![s("alice")]);
    assert_eq!(feed.list(), vec![created.post.clone()]);
}

#[test]
fn create_stamps_the_current_time() {
    let mut feed = Feed::new();
    let created = feed.create(body(Some("alice"), "hi", "hello"), &s(""), &session("c")).unwrap();
    let time = created.post.time.clone();
    assert!(time.len() >= 25, "{}", time);
    assert_eq!(&time[4..5], "-");
    assert_eq!(&time[10..11], "T");
    assert!(time.ends_with("+00:00"), "{}", time);
    assert!(!time.contains('|'));
    assert_eq!(created.post.key(), format!("alice|{}", time));
    assert_eq!(feed.list(), vec![created.post]);
}

#[test]
fn second_post_by_same_user_does_not_register_again() {
    let mut feed = Feed::new();
    feed.create_at(body(Some("alice"), "a", "1"), s("t1"), &s(""), &session("c1")).unwrap();
    assert_eq!(feed.auth_call(&s("alice"), &s("")), AuthCall::Skip);
    assert_eq!(feed.auth_call(&s("alice"), &s("sid=1")), AuthCall::Verify { cookie: s("sid=1") });
    let again = feed
        .create_at(body(Some("alice"), "b", "2"), s("t2"), &s(""), &session("c2"))
        .unwrap();
    assert_eq!(again.set_cookie, None);
    assert_eq!(feed.registered_users(), vec![s("alice")]);
    assert_eq!(feed.list().len(), 2);
}

#[test]
fn verified_cookie_naming_the_user_is_accepted() {
    let mut feed = Feed::new();
    feed.register(s("alice"), s("t0"));
    let a = answers(VerifyReply::Identity(s("alice")), RegisterReply::Failed);
    let created = feed.create_at(body(Some("alice"), "hi", "x"), s("t1"), &s("sid=1"), &a).unwrap();
    assert_eq!(created.set_cookie, None);
    assert_eq!(feed.list().len(), 1);
}

#[test]
fn verified_cookie_naming_someone_else_is_rejected_without_write() {
    let mut feed = Feed::new();
    feed.register(s("alice"), s("t0"));
    let a = answers(VerifyReply::Identity(s("mallory")), RegisterReply::Session(s("c")));
    let r = feed.create_at(body(Some("alice"), "hi", "x"), s("t1"), &s("sid=1"), &a);
    assert_eq!(r, Err(FeedError::AuthRejected));
    assert_eq!(FeedError::AuthRejected.status(), 401);
    assert!(feed.list().is_empty());
    assert_eq!(feed.registered_users(), vec![s("alice")]);
}

#[test]
fn verification_names_are_compared_exactly() {
    let mut feed = Feed::new();
    feed.register(s("alice"), s("t0"));
    let a = answers(VerifyReply::Identity(s("Alice")), RegisterReply::Failed);
    let r = feed.create_at(body(Some("alice"), "hi", "x"), s("t1"), &s("sid=1"), &a);
    assert_eq!(r, Err(FeedError::AuthRejected));
}

#[test]
fn known_user_without_cookie_is_not_verified() {
    let mut feed = Feed::new();
    feed.register(s("bob"), s("t0"));
    let a = answers(VerifyReply::Identity(s("mallory")), RegisterReply::Failed);
    let created = feed.create_at(body(Some("bob"), "t", "c"), s("t1"), &s(""), &a).unwrap();
    assert_eq!(created.set_cookie, None);
    assert_eq!(feed.list().len(), 1);
}

#[test]
fn unreachable_verification_is_an_error() {
    let mut feed = Feed::new();
    feed.register(s("bob"), s("t0"));
    let a = answers(VerifyReply::Unreachable, RegisterReply::Failed);
    let r = feed.create_at(body(Some("bob"), "t", "c"), s("t1"), &s("sid"), &a);
    assert_eq!(r, Err(FeedError::VerifyUnreachable));
    assert_eq!(FeedError::VerifyUnreachable.status(), 401);
    let a = answers(VerifyReply::Unreadable, RegisterReply::Failed);
    let r = feed.create_at(body(Some("bob"), "t", "c"), s("t1"), &s("sid"), &a);
    assert_eq!(r, Err(FeedError::VerifyUnreadable));
    assert_eq!(FeedError::VerifyUnreadable.status(), 502);
    assert!(feed.list().is_empty());
}

#[test]
fn failed_registration_registers_nobody() {
    let mut feed = Feed::new();
    let a = answers(VerifyReply::Unreachable, RegisterReply::Failed);
    let r = feed.create_at(body(Some("carol"), "t", "c"), s("t1"), &s(""), &a);
    assert_eq!(r, Err(FeedError::RegistrationFailed));
    assert_eq!(FeedError::RegistrationFailed.status(), 502);
    assert!(!feed.is_known(&s("carol")));
    assert!(feed.list().is_empty());
}

#[test]
fn missing_or_empty_username_is_a_validation_error() {
    let mut feed = Feed::new();
    let r = feed.create_at(body(None, "t", "c"), s("t1"), &s(""), &session("c"));
    assert_eq!(r, Err(FeedError::MissingUsername));
    assert_eq!(FeedError::MissingUsername.status(), 400);
    let r = feed.create(body(Some(""), "t", "c"), &s(""), &session("c"));
    assert_eq!(r, Err(FeedError::MissingUsername));
    assert!(feed.list().is_empty());
    assert!(feed.registered_users().is_empty());
    assert_eq!(FeedError::StoreUnavailable.status(), 502);
}

#[test]
fn list_returns_each_created_post_once() {
    let mut feed = Feed::new();
    let mut made: Vec<Post> = Vec::new();
    for (user, time) in [("alice", "t1"), ("bob", "t1"), ("alice", "t2"), ("carol", "t3")] {
        let c = feed.create_at(body(Some(user), "x", "y"), s(time), &s(""), &session("c")).unwrap();
        made.push(c.post);
    }
    let mut listed = feed.list();
    assert_eq!(listed.len(), 4);
    listed.sort_by_key(|p| p.key());
    made.sort_by_key(|p| p.key());
    assert_eq!(listed, made);
    let mut users = feed.registered_users();
    users.sort();
    assert_eq!(users, vec![s("alice"), s("bob"), s("carol")]);
}

#[test]
fn update_likes_replaces_post_under_same_key() {
    let mut feed = Feed::new();
    feed.register(s("alice"), s("t0"));
    let time = "2024-01-01T00:00:00Z";
    let created = feed
        .create_at(body(Some("alice"), "hi", "hello"), s(time), &s(""), &session("c"))
        .unwrap();
    let mut liked = created.post.clone();
    liked.likes = Some(2);
    feed.apply_like(liked.clone());
    liked.likes = Some(3);
    let echoed = feed.apply_like(liked.clone());
    assert_eq!(echoed, liked);
    let listed = feed.list();
    assert_eq!(listed.len(), 1);
    assert_eq!(listed[0].likes, Some(3));
    assert_eq!(listed[0].key(), "alice|2024-01-01T00:00:00Z");
}

#[test]
fn like_on_missing_post_writes_it() {
    let mut feed = Feed::new();
    let post = Post {
        title: s(""),
        username: s("dave"),
        content: s(""),
        time: s("t9"),
        likes: Some(1),
    };
    feed.apply_like(post.clone());
    assert_eq!(feed.list(), vec![post]);
}

#[test]
fn post_key_is_author_then_time() {
    assert_eq!(post_key("alice", "2024-01-01T00:00:00Z"), "alice|2024-01-01T00:00:00Z");
    assert_eq!(post_key("", ""), "|");
    assert_ne!(post_key("a-b", "c"), post_key("a", "b-c"));
}
