//! The text of each rule violation.

use crate::models::SourceType;
use vstd::prelude::*;

verus! {

/// The decimal digit of value `d`.
pub open spec fn digit_char(d: nat) -> char {
    if d == 0 {
        '0'
    } else if d == 1 {
        '1'
    } else if d == 2 {
        '2'
    } else if d == 3 {
        '3'
    } else if d == 4 {
        '4'
    } else if d == 5 {
        '5'
    } else if d == 6 {
        '6'
    } else if d == 7 {
        '7'
    } else if d == 8 {
        '8'
    } else {
        '9'
    }
}

/// `n` written in decimal, without leading zeros.
pub open spec fn decimal(n: nat) -> Seq<char>
    decreases n,
{
    if n < 10 {
        seq![digit_char(n)]
    } else {
        decimal(n / 10) + seq![digit_char(n % 10)]
    }
}

/// How a source kind is named in messages.
pub open spec fn source_type_label(t: SourceType) -> Seq<char> {
    match t {
        SourceType::Npm => "Npm"@,
        SourceType::Pypi => "Pypi"@,
        SourceType::Git => "Git"@,
        SourceType::McpRegistry => "McpRegistry"@,
    }
}

pub open spec fn name_pattern_msg() -> Seq<char> {
    "name must match pattern ^[a-zA-Z0-9_-]+/[a-zA-Z0-9_-]+$"@
}

pub open spec fn name_short_msg() -> Seq<char> {
    "name must be at least 3 characters"@
}

pub open spec fn name_long_msg() -> Seq<char> {
    "name must be at most 200 characters"@
}

pub open spec fn version_required_msg() -> Seq<char> {
    "version is required"@
}

pub open spec fn description_required_msg() -> Seq<char> {
    "description is required"@
}

pub open spec fn description_long_msg() -> Seq<char> {
    "description must be at most 500 characters"@
}

pub open spec fn tags_required_msg() -> Seq<char> {
    "at least one tag is required"@
}

pub open spec fn version_format_msg(v: Seq<char>) -> Seq<char> {
    "version must be a valid semantic version (e.g., '1.0.0'), got: "@ + v
}

pub open spec fn author_msg(a: Seq<char>) -> Seq<char> {
    "author must be a valid email address, got: "@ + a
}

pub open spec fn tag_length_msg(t: Seq<char>) -> Seq<char> {
    "invalid tag length: '"@ + t + "' (must be 1-50 characters)"@
}

pub open spec fn tag_format_msg(t: Seq<char>) -> Seq<char> {
    "invalid tag format: '"@ + t + "' (must match ^[a-zA-Z0-9_-]+$)"@
}

pub open spec fn license_long_msg() -> Seq<char> {
    "license must be at most 100 characters"@
}

pub open spec fn homepage_msg(h: Seq<char>) -> Seq<char> {
    "homepage must be a valid HTTP(S) URL, got: "@ + h
}

pub open spec fn repository_msg(r: Seq<char>) -> Seq<char> {
    "repository must be a valid HTTP(S) URL, got: "@ + r
}

pub open spec fn sources_gated_msg() -> Seq<char> {
    "sources field is only allowed for mcp-server type"@
}

pub open spec fn source_package_msg(i: nat, t: SourceType) -> Seq<char> {
    "sources["@ + decimal(i) + "]: 'package' is required for "@ + source_type_label(t)
        + " source type"@
}

pub open spec fn source_git_msg(i: nat) -> Seq<char> {
    "sources["@ + decimal(i) + "]: 'repository' is required for git source type"@
}

pub open spec fn source_registry_msg(i: nat, r: Seq<char>) -> Seq<char> {
    "sources["@ + decimal(i) + "]: registry must be a valid HTTP(S) URL, got: "@ + r
}

pub open spec fn source_repository_msg(i: nat, r: Seq<char>) -> Seq<char> {
    "sources["@ + decimal(i) + "]: repository must be a valid HTTP(S) URL, got: "@ + r
}

fn digit_text(d: usize) -> (r: &'static str)
    requires
        d < 10,
    ensures
        r@ == seq![digit_char(d as nat)],
{
    proof {
        reveal_strlit("0");
        reveal_strlit("1");
        reveal_strlit("2");
        reveal_strlit("3");
        reveal_strlit("4");
        reveal_strlit("5");
        reveal_strlit("6");
        reveal_strlit("7");
        reveal_strlit("8");
        reveal_strlit("9");
    }
    if d == 0 {
        "0"
    } else if d == 1 {
        "1"
    } else if d == 2 {
        "2"
    } else if d == 3 {
        "3"
    } else if d == 4 {
        "4"
    } else if d == 5 {
        "5"
    } else if d == 6 {
        "6"
    } else if d == 7 {
        "7"
    } else if d == 8 {
        "8"
    } else {
        "9"
    }
}

/// Appends `n` in decimal to `s`.
fn push_decimal(s: &mut String, n: usize)
    ensures
        final(s)@ == old(s)@ + decimal(n as nat),
    decreases n,
{
    if n >= 10 {
        push_decimal(s, n / 10);
    }
    s.append(digit_text(n % 10));
    assert(final(s)@ =~= old(s)@ + decimal(n as nat));
}

fn label(t: SourceType) -> (r: &'static str)
    ensures
        r@ == source_type_label(t),
{
    match t {
        SourceType::Npm => "Npm",
        SourceType::Pypi => "Pypi",
        SourceType::Git => "Git",
        SourceType::McpRegistry => "McpRegistry",
    }
}

/// `head`, then `value`, then `tail`.
fn surround(head: &str, value: &str, tail: &str) -> (r: String)
    ensures
        r@ == head@ + value@ + tail@,
{
    let mut s = String::from_str(head);
    s.append(value);
    s.append(tail);
    s
}

/// `sources[i]` followed by `rest`.
fn indexed(i: usize, rest: &str) -> (r: String)
    ensures
        r@ == "sources["@ + decimal(i as nat) + rest@,
{
    let mut s = String::from_str("sources[");
    push_decimal(&mut s, i);
    s.append(rest);
    s
}

pub fn name_pattern() -> (r: String)
    ensures
        r@ == name_pattern_msg(),
{
    String::from_str("name must match pattern ^[a-zA-Z0-9_-]+/[a-zA-Z0-9_-]+$")
}

pub fn name_short() -> (r: String)
    ensures
        r@ == name_short_msg(),
{
    String::from_str("name must be at least 3 characters")
}

pub fn name_long() -> (r: String)
    ensures
        r@ == name_long_msg(),
{
    String::from_str("name must be at most 200 characters")
}

pub fn version_required() -> (r: String)
    ensures
        r@ == version_required_msg(),
{
    String::from_str("version is required")
}

pub fn description_required() -> (r: String)
    ensures
        r@ == description_required_msg(),
{
    String::from_str("description is required")
}

pub fn description_long() -> (r: String)
    ensures
        r@ == description_long_msg(),
{
    String::from_str("description must be at most 500 characters")
}

pub fn tags_required() -> (r: String)
    ensures
        r@ == tags_required_msg(),
{
    String::from_str("at least one tag is required")
}

pub fn version_format(v: &str) -> (r: String)
    ensures
        r@ == version_format_msg(v@),
{
    let mut r = String::from_str("version must be a valid semantic version (e.g., '1.0.0'), got: ");
    r.append(v);
    r
}

pub fn author(a: &str) -> (r: String)
    ensures
        r@ == author_msg(a@),
{
    let mut r = String::from_str("author must be a valid email address, got: ");
    r.append(a);
    r
}

pub fn tag_length(t: &str) -> (r: String)
    ensures
        r@ == tag_length_msg(t@),
{
    surround("invalid tag length: '", t, "' (must be 1-50 characters)")
}

pub fn tag_format(t: &str) -> (r: String)
    ensures
        r@ == tag_format_msg(t@),
{
    surround("invalid tag format: '", t, "' (must match ^[a-zA-Z0-9_-]+$)")
}

pub fn license_long() -> (r: String)
    ensures
        r@ == license_long_msg(),
{
    String::from_str("license must be at most 100 characters")
}

pub fn homepage(h: &str) -> (r: String)
    ensures
        r@ == homepage_msg(h@),
{
    let mut r = String::from_str("homepage must be a valid HTTP(S) URL, got: ");
    r.append(h);
    r
}

pub fn repository(x: &str) -> (r: String)
    ensures
        r@ == repository_msg(x@),
{
    let mut r = String::from_str("repository must be a valid HTTP(S) URL, got: ");
    r.append(x);
    r
}

pub fn sources_gated() -> (r: String)
    ensures
        r@ == sources_gated_msg(),
{
    String::from_str("sources field is only allowed for mcp-server type")
}

pub fn source_package(i: usize, t: SourceType) -> (r: String)
    ensures
        r@ == source_package_msg(i as nat, t),
{
    let mut s = indexed(i, "]: 'package' is required for ");
    s.append(label(t));
    s.append(" source type");
    s
}

pub fn source_git(i: usize) -> (r: String)
    ensures
        r@ == source_git_msg(i as nat),
{
    indexed(i, "]: 'repository' is required for git source type")
}

pub fn source_registry(i: usize, x: &str) -> (r: String)
    ensures
        r@ == source_registry_msg(i as nat, x@),
{
    let mut s = indexed(i, "]: registry must be a valid HTTP(S) URL, got: ");
    s.append(x);
    s
}

pub fn source_repository(i: usize, x: &str) -> (r: String)
    ensures
        r@ == source_repository_msg(i as nat, x@),
{
    let mut s = indexed(i, "]: repository must be a valid HTTP(S) URL, got: ");
    s.append(x);
    s
}

} // verus!
