//! The rewriting of cookies on their way out: a cookie that is sent across
//! sites is marked `Partitioned`, which some browsers ask for.

use crate::text::{contains_text, has_substring, occurs_at, to_chars};
use vstd::prelude::*;
use vstd::string::*;

verus! {

/// Whether a cookie is to be marked: it says `SameSite=None` and `Secure`
/// and does not say `Partitioned` yet. Nothing of the cookie is parsed; what
/// counts is that the words occur in it.
pub open spec fn needs_partition(cookie: Seq<char>) -> bool {
    &&& has_substring(cookie, "SameSite=None"@)
    &&& has_substring(cookie, "Secure"@)
    &&& !has_substring(cookie, "Partitioned"@)
}

/// The cookie as it leaves: marked where it is to be marked, else as it came.
pub open spec fn partitioned(cookie: Seq<char>) -> Seq<char> {
    if needs_partition(cookie) {
        cookie + "; Partitioned"@
    } else {
        cookie
    }
}

/// Whether a header's name is `set-cookie`, whatever the case of its letters.
pub open spec fn is_set_cookie(name: Seq<char>) -> bool {
    &&& name.len() == 10
    &&& forall|i: int|
        0 <= i < 10 ==> #[trigger] name[i] == "set-cookie"@[i] || name[i] == "SET-COOKIE"@[i]
}

/// The values of the `set-cookie` headers among `headers`, in their order,
/// each as it leaves.
pub open spec fn rewritten_cookies(headers: Seq<(String, String)>) -> Seq<Seq<char>>
    decreases headers.len(),
{
    if headers.len() == 0 {
        Seq::empty()
    } else {
        let before = rewritten_cookies(headers.drop_last());
        if is_set_cookie(headers.last().0@) {
            before.push(partitioned(headers.last().1@))
        } else {
            before
        }
    }
}

/// How many of the headers are `set-cookie` headers.
pub open spec fn cookie_count(headers: Seq<(String, String)>) -> nat
    decreases headers.len(),
{
    if headers.len() == 0 {
        0
    } else {
        cookie_count(headers.drop_last()) + if is_set_cookie(headers.last().0@) {
            1nat
        } else {
            0nat
        }
    }
}

/// What a list of strings holds.
pub open spec fn texts(list: Seq<String>) -> Seq<Seq<char>> {
    Seq::new(list.len(), |i: int| list[i]@)
}

/// Rewriting keeps the number of cookies: one comes out for each that went
/// in.
pub proof fn rewriting_keeps_count(headers: Seq<(String, String)>)
    ensures
        rewritten_cookies(headers).len() == cookie_count(headers),
    decreases headers.len(),
{
    if headers.len() > 0 {
        rewriting_keeps_count(headers.drop_last());
    }
}

/// A cookie that is marked is not marked again.
pub proof fn rewriting_is_idempotent(cookie: Seq<char>)
    ensures
        partitioned(partitioned(cookie)) == partitioned(cookie),
{
    if needs_partition(cookie) {
        let marked = cookie + "; Partitioned"@;
        let at: int = cookie.len() as int + 2;
        reveal_strlit("; Partitioned");
        reveal_strlit("Partitioned");
        assert(marked.subrange(at, at + "Partitioned"@.len()) =~= "Partitioned"@);
        assert(occurs_at(marked, "Partitioned"@, at));
    }
}

/// Whether a header's name is `set-cookie`, whatever the case of its letters.
pub fn is_set_cookie_name(name: &str) -> (r: bool)
    ensures
        r == is_set_cookie(name@),
{
    let chars = to_chars(name);
    if chars.len() != 10 {
        return false;
    }
    let lower = to_chars("set-cookie");
    let upper = to_chars("SET-COOKIE");
    proof {
        reveal_strlit("set-cookie");
        reveal_strlit("SET-COOKIE");
    }
    let mut i: usize = 0;
    while i < 10
        invariant
            i <= 10,
            chars@ == name@,
            chars@.len() == 10,
            lower@ == "set-cookie"@,
            upper@ == "SET-COOKIE"@,
            lower@.len() == 10,
            upper@.len() == 10,
            forall|j: int|
                0 <= j < i ==> #[trigger] name@[j] == "set-cookie"@[j] || name@[j]
                    == "SET-COOKIE"@[j],
        decreases 10 - i,
    {
        if chars[i] != lower[i] && chars[i] != upper[i] {
            return false;
        }
        i += 1;
    }
    true
}

/// Marks a cookie `Partitioned` where it is to be marked.
pub fn partition_cookie(cookie: &str) -> (r: String)
    ensures
        r@ == partitioned(cookie@),
{
    if contains_text(cookie, "SameSite=None") && contains_text(cookie, "Secure") && !contains_text(
        cookie,
        "Partitioned",
    ) {
        cookie.to_owned().concat("; Partitioned")
    } else {
        cookie.to_owned()
    }
}

/// Goes through the headers of a response, each a name and a value, and
/// gives the values that its `set-cookie` headers are to have instead of
/// theirs: as many, in the same order, each marked where it is to be marked.
/// All other headers are passed over.
pub fn add_partitioned_attribute(headers: &Vec<(String, String)>) -> (r: Vec<String>)
    ensures
        texts(r@) == rewritten_cookies(headers@),
        r@.len() == cookie_count(headers@),
{
    let mut cookies: Vec<String> = Vec::new();
    let mut i: usize = 0;
    while i < headers.len()
        invariant
            i <= headers.len(),
            texts(cookies@) == rewritten_cookies(headers@.take(i as int)),
        decreases headers.len() - i,
    {
        assert(headers@.take(i + 1).drop_last() =~= headers@.take(i as int));
        if is_set_cookie_name(headers[i].0.as_str()) {
            let ghost before = cookies@;
            cookies.push(partition_cookie(headers[i].1.as_str()));
            assert(texts(cookies@) =~= texts(before).push(partitioned(headers@[i as int].1@)));
        }
        i += 1;
    }
    proof {
        assert(headers@.take(i as int) =~= headers@);
        rewriting_keeps_count(headers@);
    }
    cookies
}

} // verus!
