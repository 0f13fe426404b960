//! Input validation.
//!
//! Each rule is a small grammar, written out over the characters of the
//! input and verified against the executable check.
//!
//! * An email is `local@domain.tld`: a non-empty local part of letters,
//!   digits and `._%+-`; a non-empty domain of letters, digits and `.-`;
//!   a final label of at least two letters.
//! * A password must hold a run of at least eight characters drawn from
//!   letters, digits and `@$!%*#?&`, at least one alphabetic character
//!   and at least one numeric one (the latter two by the Unicode
//!   classes).
//! * A phone number is an optional `+`, a leading digit `1`-`9`, then one
//!   to fourteen digits.
//! * A document is `000.000.000-00`.
//! * A birth date is `YYYY-MM-DD` with a real calendar day, leap years
//!   included.
//! * A URL must begin with `http://` or `https://` and name a host.

use vstd::prelude::*;
use vstd::string::StrSliceExecFns;

verus! {

/// A failed check: the code names the rule, the message says it in words.
#[derive(Debug, Clone)]
pub struct ValidationError {
    pub code: String,
    pub message: Option<String>,
}

impl ValidationError {
    pub fn with_message(code: &str, message: &str) -> (r: ValidationError)
        ensures
            r.code@ == code@,
            r.message matches Some(m) && m@ == message@,
    {
        ValidationError { code: code.to_owned(), message: Some(message.to_owned()) }
    }
}

/// A character the local part of an email may hold.
pub open spec fn is_email_local_char(c: char) -> bool {
    is_alpha_char(c) || is_digit_char(c) || c == '.' || c == '_' || c == '%' || c == '+' || c == '-'
}

/// A character the domain of an email may hold before the final label.
pub open spec fn is_email_domain_char(c: char) -> bool {
    is_alpha_char(c) || is_digit_char(c) || c == '.' || c == '-'
}

pub open spec fn is_alpha_char(c: char) -> bool {
    ('a' <= c && c <= 'z') || ('A' <= c && c <= 'Z')
}

pub open spec fn is_digit_char(c: char) -> bool {
    '0' <= c && c <= '9'
}

/// A non-empty local part.
pub open spec fn valid_email_local(s: Seq<char>) -> bool {
    s.len() >= 1 && forall|i: int| 0 <= i < s.len() ==> is_email_local_char(#[trigger] s[i])
}

/// A domain: some dot has a non-empty run of domain characters before it
/// and at least two letters after it, to the end.
pub open spec fn valid_email_domain(s: Seq<char>) -> bool {
    exists|dot: int|
        #![trigger s[dot]]
        {
            &&& 1 <= dot < s.len()
            &&& s[dot] == '.'
            &&& forall|i: int| 0 <= i < dot ==> is_email_domain_char(#[trigger] s[i])
            &&& s.len() - dot - 1 >= 2
            &&& forall|i: int| dot < i < s.len() ==> is_alpha_char(#[trigger] s[i])
        }
}

/// A valid email: a local part, an `@`, a domain.
pub open spec fn is_valid_email(s: Seq<char>) -> bool {
    exists|at: int|
        #![trigger s[at]]
        {
            &&& 0 <= at < s.len()
            &&& s[at] == '@'
            &&& valid_email_local(s.take(at))
            &&& valid_email_domain(s.skip(at + 1))
        }
}

fn exec_is_alpha(c: char) -> (r: bool)
    ensures
        r == is_alpha_char(c),
{
    ('a' <= c && c <= 'z') || ('A' <= c && c <= 'Z')
}

fn exec_is_digit(c: char) -> (r: bool)
    ensures
        r == is_digit_char(c),
{
    '0' <= c && c <= '9'
}

fn exec_is_local_char(c: char) -> (r: bool)
    ensures
        r == is_email_local_char(c),
{
    exec_is_alpha(c) || exec_is_digit(c) || c == '.' || c == '_' || c == '%' || c == '+' || c == '-'
}

fn exec_is_domain_char(c: char) -> (r: bool)
    ensures
        r == is_email_domain_char(c),
{
    exec_is_alpha(c) || exec_is_digit(c) || c == '.' || c == '-'
}

/// A domain holding an `@` anywhere is not valid.
proof fn lemma_domain_no_at(d: Seq<char>, k: int)
    requires
        0 <= k < d.len(),
        d[k] == '@',
    ensures
        !valid_email_domain(d),
{
    if valid_email_domain(d) {
        let dot = choose|dot: int|
            #![trigger d[dot]]
            {
                &&& 1 <= dot < d.len()
                &&& d[dot] == '.'
                &&& forall|i: int| 0 <= i < dot ==> is_email_domain_char(#[trigger] d[i])
                &&& d.len() - dot - 1 >= 2
                &&& forall|i: int| dot < i < d.len() ==> is_alpha_char(#[trigger] d[i])
            };
        if k < dot {
            assert(is_email_domain_char(d[k]));
            assert(false);
        } else if k == dot {
            assert(false);
        } else {
            assert(is_alpha_char(d[k]));
            assert(false);
        }
    }
}

/// When the last dot's candidate split fails, no split of the domain
/// works.
proof fn lemma_domain_only_last_dot(d: Seq<char>, last: int)
    requires
        0 <= last < d.len(),
        d[last] == '.',
        forall|t: int| last < t < d.len() ==> d[t] != '.',
        !({
            &&& 1 <= last
            &&& forall|i: int| 0 <= i < last ==> is_email_domain_char(#[trigger] d[i])
            &&& d.len() - last - 1 >= 2
            &&& forall|i: int| last < i < d.len() ==> is_alpha_char(#[trigger] d[i])
        }),
    ensures
        !valid_email_domain(d),
{
    if valid_email_domain(d) {
        let dot = choose|dot: int|
            #![trigger d[dot]]
            {
                &&& 1 <= dot < d.len()
                &&& d[dot] == '.'
                &&& forall|i: int| 0 <= i < dot ==> is_email_domain_char(#[trigger] d[i])
                &&& d.len() - dot - 1 >= 2
                &&& forall|i: int| dot < i < d.len() ==> is_alpha_char(#[trigger] d[i])
            };
        if dot < last {
            assert(is_alpha_char(d[last]));
            assert(false);
        } else if dot > last {
            assert(d[dot] != '.');
            assert(false);
        } else {
            assert(false);
        }
    }
}

fn find_char_from(v: &Vec<char>, start: usize, c: char) -> (r: Option<usize>)
    requires
        start <= v@.len(),
    ensures
        match r {
            Some(q) => start <= q < v@.len() && v@[q as int] == c && (forall|j: int|
                start <= j < q ==> v@[j] != c),
            None => forall|j: int| start <= j < v@.len() ==> v@[j] != c,
        },
{
    let n: usize = v.len();
    let mut i: usize = start;
    while i < n
        invariant
            start <= i <= n,
            n == v@.len(),
            forall|j: int| start <= j < i ==> v@[j] != c,
        decreases n - i,
    {
        if v[i] == c {
            return Some(i);
        }
        i = i + 1;
    }
    None
}

fn last_char_from(v: &Vec<char>, start: usize, c: char) -> (r: Option<usize>)
    requires
        start <= v@.len(),
    ensures
        match r {
            Some(q) => start <= q < v@.len() && v@[q as int] == c && (forall|j: int|
                q < j < v@.len() ==> v@[j] != c),
            None => forall|j: int| start <= j < v@.len() ==> v@[j] != c,
        },
{
    let n: usize = v.len();
    let mut i: usize = start;
    let mut last: usize = n;
    while i < n
        invariant
            start <= i <= n,
            n == v@.len(),
            last <= n,
            last == n ==> forall|j: int| start <= j < i ==> v@[j] != c,
            last < n ==> start <= last && last < i && v@[last as int] == c && (forall|j: int|
                last < j < i ==> v@[j] != c),
        decreases n - i,
    {
        if v[i] == c {
            last = i;
        }
        i = i + 1;
    }
    if last == n {
        None
    } else {
        Some(last)
    }
}

fn range_all_local(v: &Vec<char>, from: usize, to: usize) -> (r: bool)
    requires
        from <= to <= v@.len(),
    ensures
        r == forall|u: int| from <= u < to ==> is_email_local_char(#[trigger] v@[u]),
{
    let mut i: usize = from;
    while i < to
        invariant
            from <= i <= to,
            to <= v@.len(),
            forall|u: int| from <= u < i ==> is_email_local_char(#[trigger] v@[u]),
        decreases to - i,
    {
        if !exec_is_local_char(v[i]) {
            return false;
        }
        i = i + 1;
    }
    true
}

fn range_all_domain(v: &Vec<char>, from: usize, to: usize) -> (r: bool)
    requires
        from <= to <= v@.len(),
    ensures
        r == forall|u: int| from <= u < to ==> is_email_domain_char(#[trigger] v@[u]),
{
    let mut i: usize = from;
    while i < to
        invariant
            from <= i <= to,
            to <= v@.len(),
            forall|u: int| from <= u < i ==> is_email_domain_char(#[trigger] v@[u]),
        decreases to - i,
    {
        if !exec_is_domain_char(v[i]) {
            return false;
        }
        i = i + 1;
    }
    true
}

fn range_all_alpha(v: &Vec<char>, from: usize, to: usize) -> (r: bool)
    requires
        from <= to <= v@.len(),
    ensures
        r == forall|u: int| from <= u < to ==> is_alpha_char(#[trigger] v@[u]),
{
    let mut i: usize = from;
    while i < to
        invariant
            from <= i <= to,
            to <= v@.len(),
            forall|u: int| from <= u < i ==> is_alpha_char(#[trigger] v@[u]),
        decreases to - i,
    {
        if !exec_is_alpha(v[i]) {
            return false;
        }
        i = i + 1;
    }
    true
}

/// Whether the string is a valid email.
pub fn email_matches(email: &str) -> (r: bool)
    ensures
        r == is_valid_email(email@),
{
    let v = crate::text::str_chars(email);
    let ghost s = email@;
    let n: usize = v.len();
    let p: usize = match find_char_from(&v, 0, '@') {
        Some(p) => p,
        None => {
            return false;
        },
    };
    if let Some(q) = find_char_from(&v, p + 1, '@') {
        // Two `@`s: a split at the first leaves one in the domain, a
        // split at the second leaves one in its local part.
        proof {
            assert forall|at: int|
                0 <= at < s.len() && s[at] == '@' implies !(valid_email_local(s.take(at))
                && valid_email_domain(s.skip(at + 1))) by {
                if at <= p as int {
                    assert(at == p as int);
                    let d = s.skip(p + 1);
                    assert(d[q - p - 1] == s[q as int]);
                    lemma_domain_no_at(d, q - p - 1);
                } else {
                    assert(s.take(at)[p as int] == s[p as int]);
                    assert(!valid_email_local(s.take(at)));
                }
            }
        }
        return false;
    }
    // The one `@` sits at `p`: every split must be there.
    proof {
        assert forall|at: int| 0 <= at < s.len() && s[at] == '@' implies at == p as int by {}
    }
    if p == 0 {
        proof {
            assert(s.take(0int).len() == 0);
        }
        return false;
    }
    if !range_all_local(&v, 0, p) {
        proof {
            let u = choose|u: int| 0 <= u < p && !is_email_local_char(#[trigger] s[u]);
            assert(s.take(p as int)[u] == s[u]);
            assert(!valid_email_local(s.take(p as int)));
        }
        return false;
    }
    let ghost d = s.skip(p as int + 1);
    proof {
        assert(d.len() == n - p - 1);
    }
    let last_dot: usize = match last_char_from(&v, p + 1, '.') {
        Some(l) => l,
        None => {
            proof {
                assert forall|dot: int| 0 <= dot < d.len() implies d[dot] != '.' by {
                    assert(d[dot] == s[p + 1 + dot]);
                }
                assert(!valid_email_domain(d));
            }
            return false;
        },
    };
    proof {
        assert(p as int <= last_dot as int);
        assert(s[last_dot as int] == '.');
        assert(last_dot as int != p as int);
    }
    let ghost last_rel = last_dot as int - p - 1;
    proof {
        assert(d[last_rel] == s[last_dot as int]);
        assert forall|t: int| last_rel < t < d.len() implies d[t] != '.' by {
            assert(d[t] == s[p + 1 + t]);
        }
    }
    let c1: bool = last_dot >= p + 2;
    let c2: bool = n - last_dot - 1 >= 2;
    let c3: bool = range_all_domain(&v, p + 1, last_dot);
    let c4: bool = range_all_alpha(&v, last_dot + 1, n);
    if c1 && c2 && c3 && c4 {
        proof {
            assert forall|u: int| 0 <= u < last_rel implies is_email_domain_char(
                #[trigger] d[u],
            ) by {
                assert(d[u] == s[p + 1 + u]);
                assert(is_email_domain_char(s[p + 1 + u]));
            }
            assert forall|u: int| last_rel < u < d.len() implies is_alpha_char(#[trigger] d[u]) by {
                assert(d[u] == s[p + 1 + u]);
                assert(is_alpha_char(s[p + 1 + u]));
            }
            assert(1 <= last_rel < d.len());
            assert(d[last_rel] == '.');
            assert(d.len() - last_rel - 1 >= 2);
            assert(valid_email_domain(d));
            let local = s.take(p as int);
            assert forall|u: int| 0 <= u < local.len() implies is_email_local_char(
                #[trigger] local[u],
            ) by {
                assert(local[u] == s[u]);
            }
            assert(valid_email_local(local));
            assert(s[p as int] == '@');
            assert(is_valid_email(s));
        }
        true
    } else {
        proof {
            if !c1 {
                assert(last_rel < 1);
            } else if !c2 {
                assert(d.len() - last_rel - 1 < 2);
            } else if !c3 {
                let u = choose|u: int|
                    p + 1 <= u < last_dot as int && !is_email_domain_char(#[trigger] s[u]);
                assert(d[u - p - 1] == s[u]);
                assert(!(forall|i: int|
                    0 <= i < last_rel ==> is_email_domain_char(#[trigger] d[i]))) by {
                    assert(0 <= u - p - 1 < last_rel && !is_email_domain_char(d[u - p - 1]));
                }
            } else {
                let u = choose|u: int|
                    last_dot as int + 1 <= u < n as int && !is_alpha_char(#[trigger] s[u]);
                assert(d[u - p - 1] == s[u]);
                assert(!(forall|i: int|
                    last_rel < i < d.len() ==> is_alpha_char(#[trigger] d[i]))) by {
                    assert(last_rel < u - p - 1 < d.len() && !is_alpha_char(d[u - p - 1]));
                }
            }
            lemma_domain_only_last_dot(d, last_rel);
            assert forall|at: int|
                0 <= at < s.len() && s[at] == '@' implies !(valid_email_local(s.take(at))
                && valid_email_domain(s.skip(at + 1))) by {
                assert(at == p as int);
            }
        }
        false
    }
}

/// Whether the character has the Unicode `Alphabetic` property, as
/// `char::is_alphabetic` decides it.
pub uninterp spec fn char_is_alphabetic(c: char) -> bool;

/// Whether the character is a Unicode number, as `char::is_numeric`
/// decides it.
pub uninterp spec fn char_is_numeric(c: char) -> bool;

/// Relies on char::is_alphabetic: the Unicode Alphabetic property, a
/// function of the character alone.
#[verifier::external_body]
fn exec_char_is_alphabetic(c: char) -> (r: bool)
    ensures
        r == char_is_alphabetic(c),
{
    c.is_alphabetic()
}

/// Relies on char::is_numeric: the Unicode number classes, a function of
/// the character alone.
#[verifier::external_body]
fn exec_char_is_numeric(c: char) -> (r: bool)
    ensures
        r == char_is_numeric(c),
{
    c.is_numeric()
}

/// A character the password rule counts: letters, digits and `@$!%*#?&`.
pub open spec fn is_password_class_char(c: char) -> bool {
    is_alpha_char(c) || is_digit_char(c) || c == '@' || c == '$' || c == '!' || c == '%' || c == '*'
        || c == '#' || c == '?' || c == '&'
}

fn exec_is_password_class(c: char) -> (r: bool)
    ensures
        r == is_password_class_char(c),
{
    exec_is_alpha(c) || exec_is_digit(c) || c == '@' || c == '$' || c == '!' || c == '%' || c == '*'
        || c == '#' || c == '?' || c == '&'
}

/// Eight consecutive password-class characters starting at `k`.
pub open spec fn class_run_at(s: Seq<char>, k: int) -> bool {
    forall|t: int| k <= t < k + 8 ==> is_password_class_char(#[trigger] s[t])
}

/// The string holds a run of at least eight password-class characters.
pub open spec fn has_password_run(s: Seq<char>) -> bool {
    exists|k: int| 0 <= k && k + 8 <= s.len() && #[trigger] class_run_at(s, k)
}

/// The string holds an alphabetic character.
pub open spec fn has_alphabetic(s: Seq<char>) -> bool {
    exists|i: int| 0 <= i < s.len() && char_is_alphabetic(#[trigger] s[i])
}

/// The string holds a numeric character.
pub open spec fn has_numeric(s: Seq<char>) -> bool {
    exists|i: int| 0 <= i < s.len() && char_is_numeric(#[trigger] s[i])
}

/// A valid password: an eight-long run of admitted characters, a letter
/// and a number.
pub open spec fn is_valid_password(s: Seq<char>) -> bool {
    has_password_run(s) && has_alphabetic(s) && has_numeric(s)
}

fn password_has_run(v: &Vec<char>) -> (r: bool)
    ensures
        r == has_password_run(v@),
{
    let n: usize = v.len();
    let mut i: usize = 0;
    let mut run: usize = 0;
    while i < n
        invariant
            i <= n,
            n == v@.len(),
            run <= i,
            run < 8,
            forall|t: int| i - run <= t < i ==> is_password_class_char(#[trigger] v@[t]),
            run < i ==> !is_password_class_char(v@[i - run - 1]),
            forall|k: int| 0 <= k && k + 8 <= i ==> !#[trigger] class_run_at(v@, k),
        decreases n - i,
    {
        let ghost run0 = run as int;
        if exec_is_password_class(v[i]) {
            if run == 7 {
                proof {
                    assert forall|t: int|
                        i - 7 <= t < i - 7 + 8 implies is_password_class_char(
                        #[trigger] v@[t],
                    ) by {}
                    assert(class_run_at(v@, i as int - 7));
                }
                return true;
            }
            run = run + 1;
            proof {
                if i as int + 1 >= 8 {
                    let k0 = i as int + 1 - 8;
                    assert(run0 < i as int);
                    assert(!is_password_class_char(v@[i - run0 - 1]));
                    assert(k0 <= i - run0 - 1 && i - run0 - 1 < k0 + 8);
                    assert(!class_run_at(v@, k0));
                }
            }
        } else {
            run = 0;
            proof {
                if i as int + 1 >= 8 {
                    let k0 = i as int + 1 - 8;
                    assert(!is_password_class_char(v@[i as int]));
                    assert(k0 <= i as int && (i as int) < k0 + 8);
                    assert(!class_run_at(v@, k0));
                }
            }
        }
        i = i + 1;
    }
    false
}

fn contains_alphabetic(v: &Vec<char>) -> (r: bool)
    ensures
        r == has_alphabetic(v@),
{
    let n: usize = v.len();
    let mut i: usize = 0;
    while i < n
        invariant
            i <= n,
            n == v@.len(),
            forall|j: int| 0 <= j < i ==> !char_is_alphabetic(#[trigger] v@[j]),
        decreases n - i,
    {
        if exec_char_is_alphabetic(v[i]) {
            return true;
        }
        i = i + 1;
    }
    false
}

fn contains_numeric(v: &Vec<char>) -> (r: bool)
    ensures
        r == has_numeric(v@),
{
    let n: usize = v.len();
    let mut i: usize = 0;
    while i < n
        invariant
            i <= n,
            n == v@.len(),
            forall|j: int| 0 <= j < i ==> !char_is_numeric(#[trigger] v@[j]),
        decreases n - i,
    {
        if exec_char_is_numeric(v[i]) {
            return true;
        }
        i = i + 1;
    }
    false
}

/// Validates a password: the run rule first, then the letter, then the
/// number; the first broken rule names the error.
pub fn validate_password(password: &str) -> (r: Result<(), ValidationError>)
    ensures
        r is Ok <==> is_valid_password(password@),
        r matches Err(e) ==> (e.message matches Some(m) && e.code@ == "password_validation"@ && m@
            == if !has_password_run(password@) {
            "A senha deve ter pelo menos 8 caracteres e conter letras e números"@
        } else if !has_alphabetic(password@) {
            "A senha deve conter pelo menos uma letra"@
        } else {
            "A senha deve conter pelo menos um número"@
        }),
{
    let v = crate::text::str_chars(password);
    if !password_has_run(&v) {
        return Err(
            ValidationError::with_message(
                "password_validation",
                "A senha deve ter pelo menos 8 caracteres e conter letras e números",
            ),
        );
    }
    if !contains_alphabetic(&v) {
        return Err(
            ValidationError::with_message(
                "password_validation",
                "A senha deve conter pelo menos uma letra",
            ),
        );
    }
    if !contains_numeric(&v) {
        return Err(
            ValidationError::with_message(
                "password_validation",
                "A senha deve conter pelo menos um número",
            ),
        );
    }
    Ok(())
}

fn range_all_digits(v: &Vec<char>, from: usize, to: usize) -> (r: bool)
    requires
        from <= to <= v@.len(),
    ensures
        r == forall|u: int| from <= u < to ==> is_digit_char(#[trigger] v@[u]),
{
    let mut i: usize = from;
    while i < to
        invariant
            from <= i <= to,
            to <= v@.len(),
            forall|u: int| from <= u < i ==> is_digit_char(#[trigger] v@[u]),
        decreases to - i,
    {
        if !exec_is_digit(v[i]) {
            return false;
        }
        i = i + 1;
    }
    true
}

/// The phone number with its optional leading `+` removed.
pub open spec fn phone_tail(s: Seq<char>) -> Seq<char> {
    if s.len() > 0 && s[0] == '+' {
        s.skip(1)
    } else {
        s
    }
}

/// A valid phone number: an optional `+`, a leading digit `1`-`9`, then
/// one to fourteen further digits.
pub open spec fn is_valid_phone(s: Seq<char>) -> bool {
    &&& 2 <= phone_tail(s).len() <= 15
    &&& '1' <= phone_tail(s)[0] && phone_tail(s)[0] <= '9'
    &&& forall|i: int| 1 <= i < phone_tail(s).len() ==> is_digit_char(#[trigger] phone_tail(s)[i])
}

/// Whether the string is a valid phone number.
pub fn phone_matches(phone: &str) -> (r: bool)
    ensures
        r == is_valid_phone(phone@),
{
    let v = crate::text::str_chars(phone);
    let ghost s = phone@;
    let n: usize = v.len();
    if n == 0 {
        return false;
    }
    let start: usize = if v[0] == '+' {
        1
    } else {
        0
    };
    let ghost t = phone_tail(s);
    proof {
        assert(t.len() == n - start);
        assert forall|j: int| 0 <= j < t.len() implies t[j] == s[start + j] by {}
    }
    let m: usize = n - start;
    if m < 2 || m > 15 {
        return false;
    }
    let first = v[start];
    if !('1' <= first && first <= '9') {
        return false;
    }
    let all = range_all_digits(&v, start + 1, n);
    proof {
        if all {
            assert forall|i: int| 1 <= i < t.len() implies is_digit_char(#[trigger] t[i]) by {
                assert(is_digit_char(v@[start + i]));
                assert(t[i] == s[start + i]);
            }
            assert(is_valid_phone(s));
        } else {
            assert(!is_valid_phone(s)) by {
                if is_valid_phone(s) {
                    assert forall|u: int|
                        start + 1 <= u < n as int implies is_digit_char(#[trigger] v@[u]) by {
                        assert(v@[u] == t[u - start]);
                        assert(is_digit_char(t[u - start]));
                    }
                    assert(false);
                }
            }
        }
    }
    all
}

/// Validates a phone number.
pub fn validate_phone(phone: &str) -> (r: Result<(), ValidationError>)
    ensures
        r is Ok <==> is_valid_phone(phone@),
        r matches Err(e) ==> (e.message matches Some(m) && e.code@ == "invalid_phone"@ && m@
            == "Número de telefone inválido"@),
{
    if phone_matches(phone) {
        Ok(())
    } else {
        Err(ValidationError::with_message("invalid_phone", "Número de telefone inválido"))
    }
}

/// A valid document: `000.000.000-00`, digits in every other place.
pub open spec fn is_valid_document(s: Seq<char>) -> bool {
    &&& s.len() == 14
    &&& s[3] == '.'
    &&& s[7] == '.'
    &&& s[11] == '-'
    &&& forall|i: int|
        (0 <= i < 3 || 4 <= i < 7 || 8 <= i < 11 || 12 <= i < 14) ==> is_digit_char(
            #[trigger] s[i],
        )
}

/// Whether the string is a valid document number.
pub fn document_matches(document: &str) -> (r: bool)
    ensures
        r == is_valid_document(document@),
{
    let v = crate::text::str_chars(document);
    let n: usize = v.len();
    if n != 14 {
        return false;
    }
    if !(v[3] == '.' && v[7] == '.' && v[11] == '-') {
        return false;
    }
    let r = range_all_digits(&v, 0, 3) && range_all_digits(&v, 4, 7) && range_all_digits(&v, 8, 11)
        && range_all_digits(&v, 12, 14);
    r
}

/// Validates a document number.
pub fn validate_document(document: &str) -> (r: Result<(), ValidationError>)
    ensures
        r is Ok <==> is_valid_document(document@),
        r matches Err(e) ==> (e.message matches Some(m) && e.code@ == "invalid_document"@ && m@
            == "CPF inválido. Use o formato: 000.000.000-00"@),
{
    if document_matches(document) {
        Ok(())
    } else {
        Err(
            ValidationError::with_message(
                "invalid_document",
                "CPF inválido. Use o formato: 000.000.000-00",
            ),
        )
    }
}

/// The numeric value of a decimal digit character.
pub open spec fn digit_val(c: char) -> int {
    c as u32 - 48
}

/// The Gregorian leap-year rule.
pub open spec fn is_leap_year(y: int) -> bool {
    y % 4 == 0 && (y % 100 != 0 || y % 400 == 0)
}

/// The number of days of a month.
pub open spec fn days_in_month(y: int, m: int) -> int {
    if m == 2 {
        if is_leap_year(y) {
            29
        } else {
            28
        }
    } else if m == 4 || m == 6 || m == 9 || m == 11 {
        30
    } else {
        31
    }
}

/// The shape `YYYY-MM-DD`, digits in every other place.
pub open spec fn date_shape_ok(s: Seq<char>) -> bool {
    &&& s.len() == 10
    &&& s[4] == '-'
    &&& s[7] == '-'
    &&& forall|i: int|
        (0 <= i < 4 || 5 <= i < 7 || 8 <= i < 10) ==> is_digit_char(#[trigger] s[i])
}

pub open spec fn date_year(s: Seq<char>) -> int {
    digit_val(s[0]) * 1000 + digit_val(s[1]) * 100 + digit_val(s[2]) * 10 + digit_val(s[3])
}

pub open spec fn date_month(s: Seq<char>) -> int {
    digit_val(s[5]) * 10 + digit_val(s[6])
}

pub open spec fn date_day(s: Seq<char>) -> int {
    digit_val(s[8]) * 10 + digit_val(s[9])
}

/// A valid birth date: `YYYY-MM-DD` naming a real calendar day.
pub open spec fn is_valid_birth_date(s: Seq<char>) -> bool {
    &&& date_shape_ok(s)
    &&& 1 <= date_month(s) <= 12
    &&& 1 <= date_day(s) <= days_in_month(date_year(s), date_month(s))
}

fn digit_at(v: &Vec<char>, i: usize) -> (r: u32)
    requires
        i < v@.len(),
        is_digit_char(v@[i as int]),
    ensures
        r == digit_val(v@[i as int]),
        r <= 9,
{
    (v[i] as u32) - 48
}

/// A calendar date, held as plain values.
#[derive(Debug, Clone, Copy, PartialEq, Eq, Structural)]
pub struct Date {
    pub year: u32,
    pub month: u32,
    pub day: u32,
}

/// Parses `YYYY-MM-DD` into a date; `None` when the text does not name a
/// real calendar day.
pub fn parse_date(s: &str) -> (r: Option<Date>)
    ensures
        r is Some <==> is_valid_birth_date(s@),
        r matches Some(d) ==> d.year == date_year(s@) && d.month == date_month(s@) && d.day
            == date_day(s@),
{
    let v = crate::text::str_chars(s);
    let n: usize = v.len();
    if n != 10 {
        return None;
    }
    if !(v[4] == '-' && v[7] == '-') {
        return None;
    }
    if !(range_all_digits(&v, 0, 4) && range_all_digits(&v, 5, 7) && range_all_digits(&v, 8, 10)) {
        return None;
    }
    let y: u32 = digit_at(&v, 0) * 1000 + digit_at(&v, 1) * 100 + digit_at(&v, 2) * 10 + digit_at(
        &v,
        3,
    );
    let m: u32 = digit_at(&v, 5) * 10 + digit_at(&v, 6);
    let d: u32 = digit_at(&v, 8) * 10 + digit_at(&v, 9);
    if !(1 <= m && m <= 12) {
        return None;
    }
    let max_day: u32 = if m == 2 {
        if y % 4 == 0 && (y % 100 != 0 || y % 400 == 0) {
            29
        } else {
            28
        }
    } else if m == 4 || m == 6 || m == 9 || m == 11 {
        30
    } else {
        31
    };
    if 1 <= d && d <= max_day {
        Some(Date { year: y, month: m, day: d })
    } else {
        None
    }
}

/// Whether the string is a valid birth date.
pub fn birth_date_matches(birth_date: &str) -> (r: bool)
    ensures
        r == is_valid_birth_date(birth_date@),
{
    parse_date(birth_date).is_some()
}

/// Validates a birth date.
pub fn validate_birth_date(birth_date: &str) -> (r: Result<(), ValidationError>)
    ensures
        r is Ok <==> is_valid_birth_date(birth_date@),
        r matches Err(e) ==> (e.message matches Some(m) && e.code@ == "invalid_birth_date"@ && m@
            == "Data de nascimento inválida. Use o formato: YYYY-MM-DD"@),
{
    if birth_date_matches(birth_date) {
        Ok(())
    } else {
        Err(
            ValidationError::with_message(
                "invalid_birth_date",
                "Data de nascimento inválida. Use o formato: YYYY-MM-DD",
            ),
        )
    }
}

/// The prefix `http://`.
pub open spec fn starts_with_http(s: Seq<char>) -> bool {
    s.len() >= 7 && s[0] == 'h' && s[1] == 't' && s[2] == 't' && s[3] == 'p' && s[4] == ':' && s[5]
        == '/' && s[6] == '/'
}

/// The prefix `https://`.
pub open spec fn starts_with_https(s: Seq<char>) -> bool {
    s.len() >= 8 && s[0] == 'h' && s[1] == 't' && s[2] == 't' && s[3] == 'p' && s[4] == 's' && s[5]
        == ':' && s[6] == '/' && s[7] == '/'
}

/// A valid URL by the library's rule: an `http://` or `https://` scheme
/// followed by at least one character.
pub open spec fn is_valid_url(s: Seq<char>) -> bool {
    (starts_with_http(s) && s.len() > 7) || (starts_with_https(s) && s.len() > 8)
}

/// Whether the string is a valid URL.
pub fn url_matches(url: &str) -> (r: bool)
    ensures
        r == is_valid_url(url@),
{
    let v = crate::text::str_chars(url);
    let n: usize = v.len();
    if n >= 8 && v[0] == 'h' && v[1] == 't' && v[2] == 't' && v[3] == 'p' && v[4] == ':' && v[5]
        == '/' && v[6] == '/' {
        return true;
    }
    if n >= 9 && v[0] == 'h' && v[1] == 't' && v[2] == 't' && v[3] == 'p' && v[4] == 's' && v[5]
        == ':' && v[6] == '/' && v[7] == '/' {
        return true;
    }
    false
}

/// Validates a URL, reporting the caller's message.
pub fn validate_url(url: &str, message: &str) -> (r: Result<(), ValidationError>)
    ensures
        r is Ok <==> is_valid_url(url@),
        r matches Err(e) ==> (e.message matches Some(m) && e.code@ == "url"@ && m@ == message@),
{
    if url_matches(url) {
        Ok(())
    } else {
        Err(ValidationError::with_message("url", message))
    }
}

/// Validates a character-count range, reporting the caller's message.
pub fn validate_length(value: &str, min: usize, max: usize, message: &str) -> (r: Result<
    (),
    ValidationError,
>)
    ensures
        r is Ok <==> min <= value@.len() <= max,
        r matches Err(e) ==> (e.message matches Some(m) && e.code@ == "length"@ && m@ == message@),
{
    let n: usize = value.unicode_len();
    if min <= n && n <= max {
        Ok(())
    } else {
        Err(ValidationError::with_message("length", message))
    }
}

/// Validates an email address.
pub fn validate_email(email: &str) -> (r: Result<(), ValidationError>)
    ensures
        r is Ok <==> is_valid_email(email@),
        r matches Err(e) ==> (e.message matches Some(m) && e.code@ == "email_validation"@ && m@
            == "Email inválido"@),
{
    if email_matches(email) {
        Ok(())
    } else {
        Err(ValidationError::with_message("email_validation", "Email inválido"))
    }
}

} // verus!
