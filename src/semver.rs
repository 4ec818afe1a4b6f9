//! Semantic version strings: `MAJOR.MINOR.PATCH`, then an optional
//! `-prerelease` and an optional `+build`.
//!
//! Each of the three numbers is `0` or has no leading zero. A pre-release is
//! a dot-separated list of non-empty identifiers of letters, digits and
//! hyphens, where an identifier made of digits only has no leading zero.
//! Build metadata is a dot-separated list of such identifiers, with no rule
//! on digits. The language is regular; it is given here by the automaton
//! that reads a version from left to right.

use crate::grammar::{is_digit, is_ident_char};
use vstd::prelude::*;

verus! {

/// How much of a version has been read so far.
#[derive(Debug, Clone, Copy, PartialEq, Eq, Structural)]
pub enum VersionState {
    Start,
    MajorZero,
    Major,
    MinorStart,
    MinorZero,
    Minor,
    PatchStart,
    PatchZero,
    Patch,
    PreStart,
    PreZero,
    PreNumber,
    PreLeadingZero,
    PreAlnum,
    BuildStart,
    Build,
    Reject,
}

/// A non-zero ASCII digit.
pub open spec fn is_nonzero_digit(c: char) -> bool {
    '1' <= c && c <= '9'
}

/// The state after reading `c` in state `st`.
pub open spec fn step(st: VersionState, c: char) -> VersionState {
    match st {
        VersionState::Start => if c == '0' {
            VersionState::MajorZero
        } else if is_nonzero_digit(c) {
            VersionState::Major
        } else {
            VersionState::Reject
        },
        VersionState::MajorZero => if c == '.' {
            VersionState::MinorStart
        } else {
            VersionState::Reject
        },
        VersionState::Major => if is_digit(c) {
            VersionState::Major
        } else if c == '.' {
            VersionState::MinorStart
        } else {
            VersionState::Reject
        },
        VersionState::MinorStart => if c == '0' {
            VersionState::MinorZero
        } else if is_nonzero_digit(c) {
            VersionState::Minor
        } else {
            VersionState::Reject
        },
        VersionState::MinorZero => if c == '.' {
            VersionState::PatchStart
        } else {
            VersionState::Reject
        },
        VersionState::Minor => if is_digit(c) {
            VersionState::Minor
        } else if c == '.' {
            VersionState::PatchStart
        } else {
            VersionState::Reject
        },
        VersionState::PatchStart => if c == '0' {
            VersionState::PatchZero
        } else if is_nonzero_digit(c) {
            VersionState::Patch
        } else {
            VersionState::Reject
        },
        VersionState::PatchZero => if c == '-' {
            VersionState::PreStart
        } else if c == '+' {
            VersionState::BuildStart
        } else {
            VersionState::Reject
        },
        VersionState::Patch => if is_digit(c) {
            VersionState::Patch
        } else if c == '-' {
            VersionState::PreStart
        } else if c == '+' {
            VersionState::BuildStart
        } else {
            VersionState::Reject
        },
        VersionState::PreStart => if c == '0' {
            VersionState::PreZero
        } else if is_nonzero_digit(c) {
            VersionState::PreNumber
        } else if is_ident_char(c) {
            VersionState::PreAlnum
        } else {
            VersionState::Reject
        },
        VersionState::PreZero => if is_digit(c) {
            VersionState::PreLeadingZero
        } else if is_ident_char(c) {
            VersionState::PreAlnum
        } else if c == '.' {
            VersionState::PreStart
        } else if c == '+' {
            VersionState::BuildStart
        } else {
            VersionState::Reject
        },
        VersionState::PreNumber => if is_digit(c) {
            VersionState::PreNumber
        } else if is_ident_char(c) {
            VersionState::PreAlnum
        } else if c == '.' {
            VersionState::PreStart
        } else if c == '+' {
            VersionState::BuildStart
        } else {
            VersionState::Reject
        },
        VersionState::PreLeadingZero => if is_digit(c) {
            VersionState::PreLeadingZero
        } else if is_ident_char(c) {
            VersionState::PreAlnum
        } else {
            VersionState::Reject
        },
        VersionState::PreAlnum => if is_ident_char(c) {
            VersionState::PreAlnum
        } else if c == '.' {
            VersionState::PreStart
        } else if c == '+' {
            VersionState::BuildStart
        } else {
            VersionState::Reject
        },
        VersionState::BuildStart => if is_ident_char(c) {
            VersionState::Build
        } else {
            VersionState::Reject
        },
        VersionState::Build => if is_ident_char(c) {
            VersionState::Build
        } else if c == '.' {
            VersionState::BuildStart
        } else {
            VersionState::Reject
        },
        VersionState::Reject => VersionState::Reject,
    }
}

/// The state after reading all of `s` from `Start`.
pub open spec fn run(s: Seq<char>) -> VersionState
    decreases s.len(),
{
    if s.len() == 0 {
        VersionState::Start
    } else {
        step(run(s.drop_last()), s.last())
    }
}

/// The states in which a complete version has been read.
pub open spec fn is_final(st: VersionState) -> bool {
    match st {
        VersionState::PatchZero | VersionState::Patch | VersionState::PreZero
        | VersionState::PreNumber | VersionState::PreAlnum | VersionState::Build => true,
        _ => false,
    }
}

/// `s` is a semantic version.
pub open spec fn is_semver(s: Seq<char>) -> bool {
    is_final(run(s))
}

fn digit(c: char) -> (r: bool)
    ensures
        r == is_digit(c),
{
    '0' <= c && c <= '9'
}

fn nonzero_digit(c: char) -> (r: bool)
    ensures
        r == is_nonzero_digit(c),
{
    '1' <= c && c <= '9'
}

fn ident_char(c: char) -> (r: bool)
    ensures
        r == is_ident_char(c),
{
    ('a' <= c && c <= 'z') || ('A' <= c && c <= 'Z') || ('0' <= c && c <= '9') || c == '-'
}

fn next_state(st: VersionState, c: char) -> (r: VersionState)
    ensures
        r == step(st, c),
{
    match st {
        VersionState::Start => if c == '0' {
            VersionState::MajorZero
        } else if nonzero_digit(c) {
            VersionState::Major
        } else {
            VersionState::Reject
        },
        VersionState::MajorZero => if c == '.' {
            VersionState::MinorStart
        } else {
            VersionState::Reject
        },
        VersionState::Major => if digit(c) {
            VersionState::Major
        } else if c == '.' {
            VersionState::MinorStart
        } else {
            VersionState::Reject
        },
        VersionState::MinorStart => if c == '0' {
            VersionState::MinorZero
        } else if nonzero_digit(c) {
            VersionState::Minor
        } else {
            VersionState::Reject
        },
        VersionState::MinorZero => if c == '.' {
            VersionState::PatchStart
        } else {
            VersionState::Reject
        },
        VersionState::Minor => if digit(c) {
            VersionState::Minor
        } else if c == '.' {
            VersionState::PatchStart
        } else {
            VersionState::Reject
        },
        VersionState::PatchStart => if c == '0' {
            VersionState::PatchZero
        } else if nonzero_digit(c) {
            VersionState::Patch
        } else {
            VersionState::Reject
        },
        VersionState::PatchZero => if c == '-' {
            VersionState::PreStart
        } else if c == '+' {
            VersionState::BuildStart
        } else {
            VersionState::Reject
        },
        VersionState::Patch => if digit(c) {
            VersionState::Patch
        } else if c == '-' {
            VersionState::PreStart
        } else if c == '+' {
            VersionState::BuildStart
        } else {
            VersionState::Reject
        },
        VersionState::PreStart => if c == '0' {
            VersionState::PreZero
        } else if nonzero_digit(c) {
            VersionState::PreNumber
        } else if ident_char(c) {
            VersionState::PreAlnum
        } else {
            VersionState::Reject
        },
        VersionState::PreZero => if digit(c) {
            VersionState::PreLeadingZero
        } else if ident_char(c) {
            VersionState::PreAlnum
        } else if c == '.' {
            VersionState::PreStart
        } else if c == '+' {
            VersionState::BuildStart
        } else {
            VersionState::Reject
        },
        VersionState::PreNumber => if digit(c) {
            VersionState::PreNumber
        } else if ident_char(c) {
            VersionState::PreAlnum
        } else if c == '.' {
            VersionState::PreStart
        } else if c == '+' {
            VersionState::BuildStart
        } else {
            VersionState::Reject
        },
        VersionState::PreLeadingZero => if digit(c) {
            VersionState::PreLeadingZero
        } else if ident_char(c) {
            VersionState::PreAlnum
        } else {
            VersionState::Reject
        },
        VersionState::PreAlnum => if ident_char(c) {
            VersionState::PreAlnum
        } else if c == '.' {
            VersionState::PreStart
        } else if c == '+' {
            VersionState::BuildStart
        } else {
            VersionState::Reject
        },
        VersionState::BuildStart => if ident_char(c) {
            VersionState::Build
        } else {
            VersionState::Reject
        },
        VersionState::Build => if ident_char(c) {
            VersionState::Build
        } else if c == '.' {
            VersionState::BuildStart
        } else {
            VersionState::Reject
        },
        VersionState::Reject => VersionState::Reject,
    }
}

/// Whether `s` is a semantic version.
pub fn semver_matches(s: &str) -> (r: bool)
    ensures
        r == is_semver(s@),
{
    let n = s.unicode_len();
    let mut st = VersionState::Start;
    let mut i: usize = 0;
    while i < n
        invariant
            n == s@.len(),
            i <= n,
            st == run(s@.subrange(0, i as int)),
        decreases n - i,
    {
        let c = s.get_char(i);
        assert(s@.subrange(0, i + 1).drop_last() =~= s@.subrange(0, i as int));
        st = next_state(st, c);
        i = i + 1;
    }
    assert(s@.subrange(0, n as int) =~= s@);
    match st {
        VersionState::PatchZero | VersionState::Patch | VersionState::PreZero
        | VersionState::PreNumber | VersionState::PreAlnum | VersionState::Build => true,
        _ => false,
    }
}

} // verus!
