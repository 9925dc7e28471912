//! Input policy for registration and password changes: what counts as a
//! well-formed email address (the login identifier) and as an acceptable
//! password.
//!
//! An address is accepted when it splits as `local@domain.tld`: a non-empty
//! local part of letters, digits and `. _ % + -`, a non-empty domain part of
//! letters, digits, dots and hyphens, and a final label of at least two
//! letters. The address classes are the ASCII ones. A password is accepted
//! when it has at least eight characters, at least one letter and at least
//! one digit, in the Unicode classes of `char::is_alphabetic` and
//! `char::is_numeric` — a character in both classes counts as a letter.

use vstd::prelude::*;

verus! {

/// What char::is_alphabetic answers for a character: the Unicode
/// Alphabetic property, a function of the character alone.
pub uninterp spec fn unicode_alphabetic(c: char) -> bool;

/// What char::is_numeric answers for a character: the Unicode numeric
/// general categories, a function of the character alone.
pub uninterp spec fn unicode_numeric(c: char) -> bool;

/// Relies on char::is_alphabetic: whether the character has the Unicode
/// Alphabetic property.
pub assume_specification[ char::is_alphabetic ](c: char) -> (r: bool)
    ensures
        r == unicode_alphabetic(c),
;

/// Relies on char::is_numeric: whether the character lies in a Unicode
/// numeric general category.
pub assume_specification[ char::is_numeric ](c: char) -> (r: bool)
    ensures
        r == unicode_numeric(c),
;

pub open spec fn is_letter(c: char) -> bool {
    ('a' <= c && c <= 'z') || ('A' <= c && c <= 'Z')
}

pub open spec fn is_digit_char(c: char) -> bool {
    '0' <= c && c <= '9'
}

/// Characters allowed before the `@` of an address.
pub open spec fn is_local_char(c: char) -> bool {
    is_letter(c) || is_digit_char(c) || c == '.' || c == '_' || c == '%' || c == '+' || c == '-'
}

/// Characters allowed between the `@` and the last dot of an address.
pub open spec fn is_domain_char(c: char) -> bool {
    is_letter(c) || is_digit_char(c) || c == '.' || c == '-'
}

/// The split of `s` at an `@` in position `a` and a dot in position `d` is a
/// well-formed address: a non-empty local part, at least one domain
/// character, and at least two letters after the dot.
pub open spec fn email_split_ok(s: Seq<char>, a: int, d: int) -> bool {
    &&& 1 <= a
    &&& a + 2 <= d
    &&& d + 3 <= s.len()
    &&& s[a] == '@'
    &&& s[d] == '.'
    &&& forall|i: int| 0 <= i < a ==> is_local_char(s[i])
    &&& forall|i: int| a < i < d ==> is_domain_char(s[i])
    &&& forall|i: int| d < i < s.len() ==> is_letter(s[i])
}

/// A well-formed email address: some split of it is acceptable.
pub open spec fn email_ok(s: Seq<char>) -> bool {
    exists|a: int, d: int| email_split_ok(s, a, d)
}

/// The password policy: at least eight characters, at least one letter and
/// at least one digit, where a character that is both alphabetic and
/// numeric counts as a letter.
pub open spec fn password_ok(p: Seq<char>) -> bool {
    &&& p.len() >= 8
    &&& exists|i: int| 0 <= i < p.len() && unicode_alphabetic(p[i])
    &&& exists|i: int|
        0 <= i < p.len() && !unicode_alphabetic(p[i]) && unicode_numeric(p[i])
}

fn letter(c: char) -> (r: bool)
    ensures
        r == is_letter(c),
{
    ('a' <= c && c <= 'z') || ('A' <= c && c <= 'Z')
}

fn digit(c: char) -> (r: bool)
    ensures
        r == is_digit_char(c),
{
    '0' <= c && c <= '9'
}

fn local_char(c: char) -> (r: bool)
    ensures
        r == is_local_char(c),
{
    letter(c) || digit(c) || c == '.' || c == '_' || c == '%' || c == '+' || c == '-'
}

fn domain_char(c: char) -> (r: bool)
    ensures
        r == is_domain_char(c),
{
    letter(c) || digit(c) || c == '.' || c == '-'
}

/// Decide the password policy: length at least eight, with at least one
/// letter and at least one digit.
pub fn is_valid_password(password: &str) -> (r: bool)
    ensures
        r == password_ok(password@),
{
    let n = password.unicode_len();
    if n < 8 {
        return false;
    }
    let mut has_letter = false;
    let mut has_digit = false;
    let mut i: usize = 0;
    while i < n
        invariant
            n == password@.len(),
            i <= n,
            has_letter == exists|j: int| 0 <= j < i && unicode_alphabetic(password@[j]),
            has_digit == exists|j: int|
                0 <= j < i && !unicode_alphabetic(password@[j]) && unicode_numeric(password@[j]),
        decreases n - i,
    {
        let c = password.get_char(i);
        if c.is_alphabetic() {
            has_letter = true;
        } else if c.is_numeric() {
            has_digit = true;
        }
        i += 1;
    }
    has_letter && has_digit
}

/// Decide whether `email` is a well-formed address, by finding the only
/// split that could witness `email_ok`: the first `@` and the last dot.
pub fn is_email_valid(email: &str) -> (r: bool)
    ensures
        r == email_ok(email@),
{
    let n = email.unicode_len();

    // Find the first '@'; everything before it must be a local character.
    let mut i: usize = 0;
    let mut at_found = false;
    let mut a: usize = 0;
    while i < n && !at_found
        invariant
            n == email@.len(),
            i <= n,
            !at_found ==> forall|j: int| 0 <= j < i ==> email@[j] != '@' && is_local_char(
                email@[j],
            ),
            at_found ==> a < i && email@[a as int] == '@',
            at_found ==> forall|j: int| 0 <= j < a ==> email@[j] != '@' && is_local_char(
                email@[j],
            ),
        decreases n - i,
    {
        let c = email.get_char(i);
        if c == '@' {
            at_found = true;
            a = i;
        } else if !local_char(c) {
            proof {
                lemma_no_split_bad_prefix(email@, i as int);
            }
            return false;
        }
        i += 1;
    }
    if !at_found {
        proof {
            assert forall|x: int, d: int| !email_split_ok(email@, x, d) by {
                if email_split_ok(email@, x, d) {
                    assert(email@[x] != '@');
                }
            }
        }
        return false;
    }
    if a == 0 {
        proof {
            lemma_split_at_is_first(email@, a as int);
        }
        return false;
    }

    // Find the last dot strictly after the '@'.
    let mut j: usize = a + 1;
    let mut dot_found = false;
    let mut d: usize = 0;
    while j < n
        invariant
            n == email@.len(),
            1 <= a < n,
            email@[a as int] == '@',
            forall|t: int| 0 <= t < a ==> email@[t] != '@' && is_local_char(email@[t]),
            a + 1 <= j <= n,
            dot_found ==> a < d && d < j && email@[d as int] == '.',
            dot_found ==> forall|t: int| d < t < j ==> email@[t] != '.',
            !dot_found ==> forall|t: int| a < t < j ==> email@[t] != '.',
        decreases n - j,
    {
        if email.get_char(j) == '.' {
            dot_found = true;
            d = j;
        }
        j += 1;
    }
    if !dot_found {
        proof {
            lemma_split_at_is_first(email@, a as int);
            assert forall|x: int, e: int| !email_split_ok(email@, x, e) by {
                if email_split_ok(email@, x, e) {
                    assert(x == a);
                    assert(email@[e] != '.');
                }
            }
        }
        return false;
    }
    if d < a + 2 || n - (d + 1) < 2 {
        proof {
            lemma_split_dot_is_last(email@, a as int, d as int);
        }
        return false;
    }

    // Check the domain part between the '@' and the dot.
    let mut t: usize = a + 1;
    while t < d
        invariant
            n == email@.len(),
            1 <= a,
            a + 2 <= d,
            d + 3 <= n,
            email@[a as int] == '@',
            email@[d as int] == '.',
            forall|u: int| 0 <= u < a ==> email@[u] != '@' && is_local_char(email@[u]),
            forall|u: int| d < u < n ==> email@[u] != '.',
            a + 1 <= t <= d,
            forall|u: int| a < u < t ==> is_domain_char(email@[u]),
        decreases d - t,
    {
        if !domain_char(email.get_char(t)) {
            proof {
                lemma_split_dot_is_last(email@, a as int, d as int);
                assert forall|x: int, e: int| !email_split_ok(email@, x, e) by {
                    if email_split_ok(email@, x, e) {
                        assert(is_domain_char(email@[t as int]));
                    }
                }
            }
            return false;
        }
        t += 1;
    }

    // Check the final label after the dot.
    let mut u: usize = d + 1;
    while u < n
        invariant
            n == email@.len(),
            1 <= a,
            a + 2 <= d,
            d + 3 <= n,
            email@[a as int] == '@',
            email@[d as int] == '.',
            forall|v: int| 0 <= v < a ==> email@[v] != '@' && is_local_char(email@[v]),
            forall|v: int| d < v < n ==> email@[v] != '.',
            forall|v: int| a < v < d ==> is_domain_char(email@[v]),
            d + 1 <= u <= n,
            forall|v: int| d < v < u ==> is_letter(email@[v]),
        decreases n - u,
    {
        if !letter(email.get_char(u)) {
            proof {
                lemma_split_dot_is_last(email@, a as int, d as int);
                assert forall|x: int, e: int| !email_split_ok(email@, x, e) by {
                    if email_split_ok(email@, x, e) {
                        assert(is_letter(email@[u as int]));
                    }
                }
            }
            return false;
        }
        u += 1;
    }

    proof {
        assert(email_split_ok(email@, a as int, d as int));
    }
    true
}

/// If some character before any `@` is not a local character, no split
/// witnesses a well-formed address.
proof fn lemma_no_split_bad_prefix(s: Seq<char>, i: int)
    requires
        0 <= i < s.len(),
        s[i] != '@',
        !is_local_char(s[i]),
        forall|j: int| 0 <= j < i ==> s[j] != '@',
    ensures
        !email_ok(s),
{
    assert forall|x: int, d: int| !email_split_ok(s, x, d) by {
        if email_split_ok(s, x, d) {
            if x < i {
                assert(s[x] != '@');
            } else if x == i {
                assert(s[x] == '@');
            } else {
                assert(is_local_char(s[i]));
            }
        }
    }
}

/// Any witnessing split must place its `@` at the first `@` of the string.
proof fn lemma_split_at_is_first(s: Seq<char>, a: int)
    requires
        0 <= a < s.len(),
        s[a] == '@',
        forall|j: int| 0 <= j < a ==> s[j] != '@' && is_local_char(s[j]),
    ensures
        forall|x: int, d: int| email_split_ok(s, x, d) ==> x == a,
{
    assert forall|x: int, d: int| email_split_ok(s, x, d) implies x == a by {
        if x < a {
            assert(s[x] != '@');
        } else if a < x {
            assert(is_local_char(s[a]));
            assert(!is_local_char('@'));
        }
    }
}

/// Any witnessing split must place its dot at the last dot after the `@`.
proof fn lemma_split_dot_is_last(s: Seq<char>, a: int, d: int)
    requires
        0 <= a < s.len(),
        s[a] == '@',
        forall|j: int| 0 <= j < a ==> s[j] != '@' && is_local_char(s[j]),
        a < d < s.len(),
        s[d] == '.',
        forall|t: int| d < t < s.len() ==> s[t] != '.',
    ensures
        forall|x: int, e: int| email_split_ok(s, x, e) ==> x == a && e == d,
{
    lemma_split_at_is_first(s, a);
    assert forall|x: int, e: int| email_split_ok(s, x, e) implies x == a && e == d by {
        assert(x == a);
        if e < d {
            assert(is_letter(s[d]) || is_domain_char(s[d]));
            assert(!is_letter('.'));
            if a < d < e {
            }
            // d lies strictly between e and s.len(), so it must be a letter
            assert(e < d < s.len());
            assert(is_letter(s[d]));
        } else if d < e {
            assert(s[e] != '.');
        }
    }
}

} // verus!
