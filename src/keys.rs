//! The store key of a post: its author's name and its creation time, joined
//! by a separator that no timestamp holds.
use vstd::prelude::*;

verus! {

/// Separates the username from the timestamp inside a post key.
pub const KEY_SEPARATOR: char = '|';

/// The key under which the post of `username` made at `time` is stored.
pub open spec fn key_of(username: Seq<char>, time: Seq<char>) -> Seq<char> {
    username + seq![KEY_SEPARATOR] + time
}

/// `s` holds no key separator.
pub open spec fn free_of_separator(s: Seq<char>) -> bool {
    forall|i: int| 0 <= i < s.len() ==> s[i] != KEY_SEPARATOR
}

/// Builds the key of a post from its own `username` and `time`.
pub fn post_key(username: &str, time: &str) -> (r: String)
    ensures
        r@ == key_of(username@, time@),
{
    let mut key = String::from_str(username);
    key.append("|");
    proof {
        reveal_strlit("|");
    }
    key.append(time);
    key
}

/// Two posts share a key only when they share both author and time, as long
/// as neither time holds the separator.
pub proof fn lemma_key_injective(u1: Seq<char>, t1: Seq<char>, u2: Seq<char>, t2: Seq<char>)
    requires
        free_of_separator(t1),
        free_of_separator(t2),
        key_of(u1, t1) == key_of(u2, t2),
    ensures
        u1 == u2,
        t1 == t2,
{
    let k = key_of(u1, t1);
    assert(k == key_of(u2, t2));
    assert(k.len() == u1.len() + 1 + t1.len());
    assert(k.len() == u2.len() + 1 + t2.len());
    if t1.len() < t2.len() {
        let p = u1.len() as int;
        assert(k[p] == KEY_SEPARATOR);
        assert(k[p] == t2[p - u2.len() - 1]);
    } else if t2.len() < t1.len() {
        let p = u2.len() as int;
        assert(k[p] == KEY_SEPARATOR);
        assert(k[p] == t1[p - u1.len() - 1]);
    } else {
        assert(u1 =~= k.subrange(0, u1.len() as int));
        assert(u2 =~= k.subrange(0, u2.len() as int));
        assert(t1 =~= k.subrange(u1.len() + 1int, k.len() as int));
        assert(t2 =~= k.subrange(u2.len() + 1int, k.len() as int));
    }
}

} // verus!
