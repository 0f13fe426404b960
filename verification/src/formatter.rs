//! Username derivation.
//!
//! A new account's username is derived from its email address: the part
//! before the first `@`, with every character that is not an ASCII
//! letter or digit replaced by an underscore.

use vstd::prelude::*;

verus! {

/// Whether the character is kept as it stands in a username.
pub open spec fn is_username_keep_char(c: char) -> bool {
    ('a' <= c && c <= 'z') || ('A' <= c && c <= 'Z') || ('0' <= c && c <= '9')
}

/// What a character of the email's local part becomes in the username.
pub open spec fn username_char(c: char) -> char {
    if is_username_keep_char(c) {
        c
    } else {
        '_'
    }
}

/// The position of the first `@`, or the length when there is none.
pub open spec fn first_at(s: Seq<char>) -> int
    decreases s.len(),
{
    if s.len() == 0 {
        0
    } else if s[0] == '@' {
        0
    } else {
        1 + first_at(s.drop_first())
    }
}

/// The username an email yields: its prefix before the first `@`, each
/// character mapped.
pub open spec fn username_of(s: Seq<char>) -> Seq<char> {
    s.take(first_at(s)).map_values(|c: char| username_char(c))
}

proof fn lemma_first_at_bounds(s: Seq<char>)
    ensures
        0 <= first_at(s) <= s.len(),
        first_at(s) < s.len() ==> s[first_at(s)] == '@',
        forall|j: int| 0 <= j < first_at(s) ==> s[j] != '@',
    decreases s.len(),
{
    if s.len() == 0 {
    } else if s[0] == '@' {
    } else {
        let rest = s.drop_first();
        lemma_first_at_bounds(rest);
        assert forall|j: int| 0 <= j < first_at(s) implies s[j] != '@' by {
            if j > 0 {
                assert(rest[j - 1] == s[j]);
            }
        }
        if first_at(s) < s.len() {
            assert(rest[first_at(rest)] == s[first_at(s)]);
        }
    }
}

proof fn lemma_first_at_found(s: Seq<char>, p: int)
    requires
        0 <= p <= s.len(),
        p < s.len() ==> s[p] == '@',
        forall|j: int| 0 <= j < p ==> s[j] != '@',
        p == s.len() ==> forall|j: int| 0 <= j < s.len() ==> s[j] != '@',
    ensures
        first_at(s) == p,
{
    lemma_first_at_bounds(s);
    if first_at(s) < p {
        assert(s[first_at(s)] == '@');
        assert(false);
    } else if p < first_at(s) {
        assert(p < s.len());
        assert(s[p] != '@');
        assert(false);
    }
}

fn exec_username_char(c: char) -> (r: char)
    ensures
        r == username_char(c),
{
    if ('a' <= c && c <= 'z') || ('A' <= c && c <= 'Z') || ('0' <= c && c <= '9') {
        c
    } else {
        '_'
    }
}

/// Derives a username from an email address: the part before the first
/// `@` (the whole string when there is none), every character that is
/// not an ASCII letter or digit turned into `_`.
pub fn generate_username_from_email(email: &str) -> (r: String)
    ensures
        r@ == username_of(email@),
{
    let v = crate::text::str_chars(email);
    let ghost s = email@;
    let n: usize = v.len();
    let mut out: Vec<char> = Vec::new();
    let mut i: usize = 0;
    while i < n
        invariant
            i <= n,
            n == s.len(),
            v@ == s,
            s == email@,
            forall|j: int| 0 <= j < i ==> s[j] != '@',
            out@.len() == i,
            forall|j: int| 0 <= j < i ==> out@[j] == username_char(s[j]),
        decreases n - i,
    {
        if v[i] == '@' {
            proof {
                lemma_first_at_found(s, i as int);
                assert(out@ =~= username_of(s)) by {
                    assert(s.take(i as int).map_values(|c: char| username_char(c)).len()
                        == i as int);
                    assert forall|j: int| 0 <= j < i implies username_of(s)[j] == out@[j] by {
                        assert(s.take(i as int)[j] == s[j]);
                    }
                }
            }
            return crate::text::chars_to_string(&out);
        }
        out.push(exec_username_char(v[i]));
        i = i + 1;
    }
    proof {
        lemma_first_at_found(s, n as int);
        assert(s.take(n as int) =~= s);
        assert(out@ =~= username_of(s)) by {
            assert(s.map_values(|c: char| username_char(c)).len() == n as int);
            assert forall|j: int| 0 <= j < n implies username_of(s)[j] == out@[j] by {}
        }
    }
    crate::text::chars_to_string(&out)
}

} // verus!
