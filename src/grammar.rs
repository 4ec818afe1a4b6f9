//! The textual formats that manifest fields must follow.

use vstd::prelude::*;

verus! {

/// An ASCII decimal digit.
pub open spec fn is_digit(c: char) -> bool {
    '0' <= c && c <= '9'
}

/// An ASCII letter.
pub open spec fn is_letter(c: char) -> bool {
    ('a' <= c && c <= 'z') || ('A' <= c && c <= 'Z')
}

/// A letter, digit or hyphen: the characters of a version identifier.
pub open spec fn is_ident_char(c: char) -> bool {
    is_letter(c) || is_digit(c) || c == '-'
}

/// A letter, digit, hyphen or underscore: the characters of a tag and of
/// each half of a name.
pub open spec fn is_word_char(c: char) -> bool {
    is_ident_char(c) || c == '_'
}

/// Unicode white space (the `White_Space` property).
pub open spec fn is_space(c: char) -> bool {
    ('\u{9}' <= c && c <= '\u{d}') || c == ' ' || c == '\u{85}' || c == '\u{a0}'
        || c == '\u{1680}' || ('\u{2000}' <= c && c <= '\u{200a}') || c == '\u{2028}'
        || c == '\u{2029}' || c == '\u{202f}' || c == '\u{205f}' || c == '\u{3000}'
}

/// A tag: one or more word characters.
pub open spec fn is_valid_tag(s: Seq<char>) -> bool {
    s.len() > 0 && forall|k: int| 0 <= k < s.len() ==> is_word_char(#[trigger] s[k])
}

/// A name: `namespace/identifier`, both halves non-empty runs of word
/// characters, with the single `/` between them.
pub open spec fn is_valid_name(s: Seq<char>) -> bool {
    exists|i: int|
        0 < i < s.len() - 1 && #[trigger] s[i] == '/' && forall|k: int|
            0 <= k < s.len() && k != i ==> is_word_char(#[trigger] s[k])
}

/// `p` is a prefix of `s`.
pub open spec fn starts_with(s: Seq<char>, p: Seq<char>) -> bool {
    p.len() <= s.len() && s.subrange(0, p.len() as int) == p
}

/// An address that begins with `http://` or `https://`.
pub open spec fn is_http_url(s: Seq<char>) -> bool {
    starts_with(s, "http://"@) || starts_with(s, "https://"@)
}

/// An e-mail address of the shape `local@domain.tld`: no white space, one
/// `@` with something before it, and after it a `.` that has something on
/// both sides.
pub open spec fn is_valid_email(s: Seq<char>) -> bool {
    exists|i: int, j: int|
        0 < i && i + 1 < j && j + 1 < s.len() && #[trigger] s[i] == '@' && #[trigger] s[j] == '.'
            && forall|k: int|
            0 <= k < s.len() ==> !is_space(#[trigger] s[k]) && (s[k] == '@' ==> k == i)
}

fn word_char(c: char) -> (r: bool)
    ensures
        r == is_word_char(c),
{
    ('a' <= c && c <= 'z') || ('A' <= c && c <= 'Z') || ('0' <= c && c <= '9') || c == '-' || c
        == '_'
}

fn space_char(c: char) -> (r: bool)
    ensures
        r == is_space(c),
{
    ('\u{9}' <= c && c <= '\u{d}') || c == ' ' || c == '\u{85}' || c == '\u{a0}' || c
        == '\u{1680}' || ('\u{2000}' <= c && c <= '\u{200a}') || c == '\u{2028}' || c
        == '\u{2029}' || c == '\u{202f}' || c == '\u{205f}' || c == '\u{3000}'
}

/// Whether `s` is a well-formed tag.
pub fn tag_matches(s: &str) -> (r: bool)
    ensures
        r == is_valid_tag(s@),
{
    let n = s.unicode_len();
    if n == 0 {
        return false;
    }
    let mut i: usize = 0;
    while i < n
        invariant
            n == s@.len(),
            i <= n,
            forall|k: int| 0 <= k < i ==> is_word_char(#[trigger] s@[k]),
        decreases n - i,
    {
        if !word_char(s.get_char(i)) {
            return false;
        }
        i = i + 1;
    }
    true
}

/// Whether `s` is a well-formed `namespace/identifier` name.
pub fn name_matches(s: &str) -> (r: bool)
    ensures
        r == is_valid_name(s@),
{
    let n = s.unicode_len();
    let mut slash: usize = 0;
    let mut found = false;
    let mut i: usize = 0;
    while i < n
        invariant
            n == s@.len(),
            i <= n,
            found ==> slash < i && s@[slash as int] == '/',
            forall|k: int|
                0 <= k < i && !(found && k == slash) ==> is_word_char(#[trigger] s@[k]),
        decreases n - i,
    {
        let c = s.get_char(i);
        if !word_char(c) {
            if c == '/' && !found {
                found = true;
                slash = i;
            } else {
                proof {
                    if is_valid_name(s@) {
                        let j = choose|j: int|
                            0 < j < s@.len() - 1 && #[trigger] s@[j] == '/' && forall|k: int|
                                0 <= k < s@.len() && k != j ==> is_word_char(#[trigger] s@[k]);
                        if c == '/' {
                            assert(s@[slash as int] == '/');
                            assert(slash as int == j);
                        }
                        assert(i as int == j);
                    }
                }
                return false;
            }
        }
        i = i + 1;
    }
    if found && 0 < slash && slash + 1 < n {
        assert(s@[slash as int] == '/');
        true
    } else {
        proof {
            if is_valid_name(s@) {
                let j = choose|j: int|
                    0 < j < s@.len() - 1 && #[trigger] s@[j] == '/' && forall|k: int|
                        0 <= k < s@.len() && k != j ==> is_word_char(#[trigger] s@[k]);
                assert(!is_word_char(s@[j]));
                if found {
                    assert(!is_word_char(s@[slash as int]));
                    assert(slash as int == j);
                }
            }
        }
        false
    }
}

/// Whether `p` is a prefix of `s`.
fn has_prefix(s: &str, p: &str) -> (r: bool)
    ensures
        r == starts_with(s@, p@),
{
    let n = s.unicode_len();
    let m = p.unicode_len();
    if m > n {
        return false;
    }
    let mut i: usize = 0;
    while i < m
        invariant
            n == s@.len(),
            m == p@.len(),
            m <= n,
            i <= m,
            forall|k: int| 0 <= k < i ==> s@[k] == p@[k],
        decreases m - i,
    {
        if s.get_char(i) != p.get_char(i) {
            assert(s@.subrange(0, m as int)[i as int] != p@[i as int]);
            return false;
        }
        i = i + 1;
    }
    assert(s@.subrange(0, m as int) =~= p@);
    true
}

/// Whether `s` begins with `http://` or `https://`.
pub fn url_matches(s: &str) -> (r: bool)
    ensures
        r == is_http_url(s@),
{
    has_prefix(s, "http://") || has_prefix(s, "https://")
}

/// Whether `s` has the shape of an e-mail address.
pub fn email_matches(s: &str) -> (r: bool)
    ensures
        r == is_valid_email(s@),
{
    let n = s.unicode_len();
    let mut at: usize = 0;
    let mut found = false;
    let mut i: usize = 0;
    while i < n
        invariant
            n == s@.len(),
            i <= n,
            found ==> at < i && s@[at as int] == '@',
            forall|k: int|
                0 <= k < i ==> !is_space(#[trigger] s@[k]) && (s@[k] == '@' ==> found && k
                    == at),
        decreases n - i,
    {
        let c = s.get_char(i);
        if space_char(c) || (c == '@' && found) {
            proof {
                if is_valid_email(s@) {
                    let (a, b) = choose|a: int, b: int|
                        0 < a && a + 1 < b && b + 1 < s@.len() && #[trigger] s@[a] == '@'
                            && #[trigger] s@[b] == '.' && forall|k: int|
                            0 <= k < s@.len() ==> !is_space(#[trigger] s@[k]) && (s@[k] == '@'
                                ==> k == a);
                    assert(!is_space(s@[i as int]));
                    if found {
                        assert(s@[at as int] == '@');
                    }
                }
            }
            return false;
        }
        if c == '@' {
            found = true;
            at = i;
        }
        i = i + 1;
    }
    if !found || at == 0 || at + 1 >= n {
        proof {
            if is_valid_email(s@) {
                let (a, b) = choose|a: int, b: int|
                    0 < a && a + 1 < b && b + 1 < s@.len() && #[trigger] s@[a] == '@'
                        && #[trigger] s@[b] == '.' && forall|k: int|
                        0 <= k < s@.len() ==> !is_space(#[trigger] s@[k]) && (s@[k] == '@' ==> k
                            == a);
                assert(s@[a] == '@');
            }
        }
        return false;
    }
    let mut j: usize = at + 1;
    while j < n - 1
        invariant
            n == s@.len(),
            at < n,
            0 < at,
            s@[at as int] == '@',
            at + 1 <= j <= n - 1,
            forall|k: int| 0 <= k < n ==> !is_space(#[trigger] s@[k]) && (s@[k] == '@' ==> k == at),
            forall|k: int| at + 2 <= k < j && k + 1 < n ==> #[trigger] s@[k] != '.',
        decreases n - j,
    {
        if j > at + 1 && s.get_char(j) == '.' {
            assert(s@[at as int] == '@' && s@[j as int] == '.');
            return true;
        }
        j = j + 1;
    }
    proof {
        if is_valid_email(s@) {
            let (a, b) = choose|a: int, b: int|
                0 < a && a + 1 < b && b + 1 < s@.len() && #[trigger] s@[a] == '@'
                    && #[trigger] s@[b] == '.' && forall|k: int|
                    0 <= k < s@.len() ==> !is_space(#[trigger] s@[k]) && (s@[k] == '@' ==> k == a);
            assert(s@[at as int] == '@');
            assert(a == at);
            assert(s@[b] == '.');
        }
    }
    false
}

} // verus!
