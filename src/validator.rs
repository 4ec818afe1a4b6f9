//! The validation rules, applied in a fixed order, every one of them on
//! every manifest: a broken rule never hides a later one.

use crate::grammar::{
    email_matches, is_http_url, is_valid_email, is_valid_name, is_valid_tag, name_matches,
    tag_matches, url_matches,
};
use crate::messages;
use crate::messages::{
    author_msg, decimal, description_long_msg, description_required_msg, homepage_msg,
    license_long_msg, name_long_msg, name_pattern_msg, name_short_msg, repository_msg,
    source_git_msg, source_package_msg, source_registry_msg, source_repository_msg,
    source_type_label, sources_gated_msg, tag_format_msg, tag_length_msg, tags_required_msg,
    version_format_msg, version_required_msg,
};
use crate::models::{ARAManifest, PackageSource, PackageType, SourceType};
use crate::semver::{is_semver, semver_matches};
use vstd::prelude::*;

verus! {

/// The text of each message in `v`, in order.
pub open spec fn texts(v: Seq<String>) -> Seq<Seq<char>> {
    v.map_values(|s: String| s@)
}

/// `m` alone where `b` holds, else nothing.
pub open spec fn flag(b: bool, m: Seq<char>) -> Seq<Seq<char>> {
    if b {
        seq![m]
    } else {
        Seq::empty()
    }
}

/// Format, then minimum length, then maximum length of the name.
pub open spec fn name_violations(name: Seq<char>) -> Seq<Seq<char>> {
    flag(!is_valid_name(name), name_pattern_msg()) + flag(name.len() < 3, name_short_msg())
        + flag(name.len() > 200, name_long_msg())
}

/// The required version, description and tags, and the description's length.
pub open spec fn required_violations(m: ARAManifest) -> Seq<Seq<char>> {
    flag(m.version@.len() == 0, version_required_msg()) + flag(
        m.description@.len() == 0,
        description_required_msg(),
    ) + flag(m.description@.len() > 500, description_long_msg()) + flag(
        m.tags@.len() == 0,
        tags_required_msg(),
    )
}

/// The version's format, checked only on a non-empty version.
pub open spec fn version_format_violations(v: Seq<char>) -> Seq<Seq<char>> {
    flag(v.len() > 0 && !is_semver(v), version_format_msg(v))
}

/// The author's e-mail shape.
pub open spec fn author_violations(a: Seq<char>) -> Seq<Seq<char>> {
    flag(!is_valid_email(a), author_msg(a))
}

/// One tag: its length, or else its characters.
pub open spec fn tag_violations(t: Seq<char>) -> Seq<Seq<char>> {
    if t.len() == 0 || t.len() > 50 {
        seq![tag_length_msg(t)]
    } else if !is_valid_tag(t) {
        seq![tag_format_msg(t)]
    } else {
        Seq::empty()
    }
}

/// The first `n` tags, in order.
pub open spec fn tags_violations(tags: Seq<String>, n: nat) -> Seq<Seq<char>>
    decreases n,
{
    if n == 0 || n > tags.len() {
        Seq::empty()
    } else {
        tags_violations(tags, (n - 1) as nat) + tag_violations(tags[n - 1]@)
    }
}

/// License length, then homepage and repository addresses, each if present.
pub open spec fn optional_violations(m: ARAManifest) -> Seq<Seq<char>> {
    (match m.license {
        Some(l) => flag(l@.len() > 100, license_long_msg()),
        None => Seq::empty(),
    }) + (match m.homepage {
        Some(h) => flag(!is_http_url(h@), homepage_msg(h@)),
        None => Seq::empty(),
    }) + (match m.repository {
        Some(r) => flag(!is_http_url(r@), repository_msg(r@)),
        None => Seq::empty(),
    })
}

/// The field that a source of kind `source_type` cannot do without.
pub open spec fn requirement_violations(s: PackageSource, i: nat) -> Seq<Seq<char>> {
    match s.source_type {
        SourceType::Git => flag(s.repository is None, source_git_msg(i)),
        _ => flag(s.package is None, source_package_msg(i, s.source_type)),
    }
}

/// The source at index `i`: its required field, then its registry and
/// repository addresses if present.
pub open spec fn source_violations(s: PackageSource, i: nat) -> Seq<Seq<char>> {
    requirement_violations(s, i) + (match s.registry {
        Some(r) => flag(!is_http_url(r@), source_registry_msg(i, r@)),
        None => Seq::empty(),
    }) + (match s.repository {
        Some(r) => flag(!is_http_url(r@), source_repository_msg(i, r@)),
        None => Seq::empty(),
    })
}

/// The first `n` sources, in order.
pub open spec fn sources_violations(srcs: Seq<PackageSource>, n: nat) -> Seq<Seq<char>>
    decreases n,
{
    if n == 0 || n > srcs.len() {
        Seq::empty()
    } else {
        sources_violations(srcs, (n - 1) as nat) + source_violations(srcs[n - 1], (n - 1) as nat)
    }
}

/// Sources on a package that is not an mcp-server, then each source.
pub open spec fn sources_rule_violations(m: ARAManifest) -> Seq<Seq<char>> {
    match m.sources {
        Some(v) => flag(m.package_type != PackageType::McpServer, sources_gated_msg())
            + sources_violations(v@, v@.len()),
        None => Seq::empty(),
    }
}

/// Every rule that `m` breaks, in the order in which the rules are checked.
pub open spec fn violations(m: ARAManifest) -> Seq<Seq<char>> {
    name_violations(m.name@) + required_violations(m) + version_format_violations(m.version@)
        + author_violations(m.author@) + tags_violations(m.tags@, m.tags@.len())
        + optional_violations(m) + sources_rule_violations(m)
}

fn record(errors: &mut Vec<String>, msg: String)
    ensures
        texts(final(errors)@) == texts(old(errors)@) + seq![msg@],
{
    let ghost before = errors@;
    errors.push(msg);
    assert(texts(errors@) =~= texts(before) + seq![msg@]);
}

fn record_if(errors: &mut Vec<String>, cond: bool, msg: String)
    ensures
        texts(final(errors)@) == texts(old(errors)@) + flag(cond, msg@),
{
    let ghost before = texts(errors@);
    if cond {
        record(errors, msg);
    } else {
        assert(before + flag(cond, msg@) =~= before);
    }
}

fn check_name(name: &str, errors: &mut Vec<String>)
    ensures
        texts(final(errors)@) == texts(old(errors)@) + name_violations(name@),
{
    let ghost before = texts(errors@);
    let n = name.unicode_len();
    record_if(errors, !name_matches(name), messages::name_pattern());
    record_if(errors, n < 3, messages::name_short());
    record_if(errors, n > 200, messages::name_long());
    assert(texts(errors@) =~= before + name_violations(name@));
}

fn check_required(m: &ARAManifest, errors: &mut Vec<String>)
    ensures
        texts(final(errors)@) == texts(old(errors)@) + required_violations(*m),
{
    let ghost before = texts(errors@);
    let d = m.description.as_str().unicode_len();
    record_if(errors, m.version.as_str().unicode_len() == 0, messages::version_required());
    record_if(errors, d == 0, messages::description_required());
    record_if(errors, d > 500, messages::description_long());
    record_if(errors, m.tags.len() == 0, messages::tags_required());
    assert(texts(errors@) =~= before + required_violations(*m));
}

fn check_tag(t: &str, errors: &mut Vec<String>)
    ensures
        texts(final(errors)@) == texts(old(errors)@) + tag_violations(t@),
{
    let ghost before = texts(errors@);
    let n = t.unicode_len();
    if n == 0 || n > 50 {
        record(errors, messages::tag_length(t));
    } else if !tag_matches(t) {
        record(errors, messages::tag_format(t));
    } else {
        assert(before + tag_violations(t@) =~= before);
    }
}

fn check_tags(tags: &Vec<String>, errors: &mut Vec<String>)
    ensures
        texts(final(errors)@) == texts(old(errors)@) + tags_violations(tags@, tags@.len()),
{
    let ghost before = texts(errors@);
    let mut i: usize = 0;
    assert(before + tags_violations(tags@, 0) =~= before);
    while i < tags.len()
        invariant
            i <= tags@.len(),
            texts(errors@) == before + tags_violations(tags@, i as nat),
        decreases tags@.len() - i,
    {
        let ghost prev = texts(errors@);
        check_tag(tags[i].as_str(), errors);
        assert(before + tags_violations(tags@, (i + 1) as nat) =~= prev + tag_violations(
            tags@[i as int]@,
        ));
        i = i + 1;
    }
}

fn check_optional(m: &ARAManifest, errors: &mut Vec<String>)
    ensures
        texts(final(errors)@) == texts(old(errors)@) + optional_violations(*m),
{
    let ghost before = texts(errors@);
    match &m.license {
        Some(l) => record_if(errors, l.as_str().unicode_len() > 100, messages::license_long()),
        None => assert(before + Seq::<Seq<char>>::empty() =~= before),
    }
    match &m.homepage {
        Some(h) => record_if(errors, !url_matches(h.as_str()), messages::homepage(h.as_str())),
        None => assert(texts(errors@) + Seq::<Seq<char>>::empty() =~= texts(errors@)),
    }
    match &m.repository {
        Some(r) => record_if(errors, !url_matches(r.as_str()), messages::repository(r.as_str())),
        None => assert(texts(errors@) + Seq::<Seq<char>>::empty() =~= texts(errors@)),
    }
    assert(texts(errors@) =~= before + optional_violations(*m));
}


fn check_source(src: &PackageSource, i: usize, errors: &mut Vec<String>)
    ensures
        texts(final(errors)@) == texts(old(errors)@) + source_violations(*src, i as nat),
{
    let ghost before = texts(errors@);
    match src.source_type {
        SourceType::Git => record_if(errors, src.repository.is_none(), messages::source_git(i)),
        other => record_if(errors, src.package.is_none(), messages::source_package(i, other)),
    }
    match &src.registry {
        Some(r) => record_if(
            errors,
            !url_matches(r.as_str()),
            messages::source_registry(i, r.as_str()),
        ),
        None => assert(texts(errors@) + Seq::<Seq<char>>::empty() =~= texts(errors@)),
    }
    match &src.repository {
        Some(r) => record_if(
            errors,
            !url_matches(r.as_str()),
            messages::source_repository(i, r.as_str()),
        ),
        None => assert(texts(errors@) + Seq::<Seq<char>>::empty() =~= texts(errors@)),
    }
    assert(texts(errors@) =~= before + source_violations(*src, i as nat));
}

fn check_sources(m: &ARAManifest, errors: &mut Vec<String>)
    ensures
        texts(final(errors)@) == texts(old(errors)@) + sources_rule_violations(*m),
{
    let ghost before = texts(errors@);
    match &m.sources {
        None => assert(before + Seq::<Seq<char>>::empty() =~= before),
        Some(srcs) => {
            let gated = !matches!(m.package_type, PackageType::McpServer);
            record_if(errors, gated, messages::sources_gated());
            let ghost start = texts(errors@);
            assert(start + sources_violations(srcs@, 0) =~= start);
            let mut i: usize = 0;
            while i < srcs.len()
                invariant
                    i <= srcs@.len(),
                    texts(errors@) == start + sources_violations(srcs@, i as nat),
                decreases srcs@.len() - i,
            {
                let ghost prev = texts(errors@);
                check_source(&srcs[i], i, errors);
                assert(start + sources_violations(srcs@, (i + 1) as nat) =~= prev
                    + source_violations(srcs@[i as int], i as nat));
                i = i + 1;
            }
            assert(texts(errors@) =~= before + sources_rule_violations(*m));
        },
    }
}

/// Checks `manifest` against every rule and returns the message of each
/// rule it breaks, in rule order; an empty list means the manifest is valid.
pub fn validate(manifest: &ARAManifest) -> (r: Vec<String>)
    ensures
        texts(r@) == violations(*manifest),
{
    let mut errors: Vec<String> = Vec::new();
    assert(texts(errors@) =~= Seq::<Seq<char>>::empty());
    check_name(manifest.name.as_str(), &mut errors);
    assert(texts(errors@) =~= name_violations(manifest.name@));
    check_required(manifest, &mut errors);
    let v = manifest.version.as_str();
    record_if(
        &mut errors,
        v.unicode_len() > 0 && !semver_matches(v),
        messages::version_format(v),
    );
    record_if(
        &mut errors,
        !email_matches(manifest.author.as_str()),
        messages::author(manifest.author.as_str()),
    );
    check_tags(&manifest.tags, &mut errors);
    check_optional(manifest, &mut errors);
    check_sources(manifest, &mut errors);
    errors
}


proof fn lemma_concat_contains(a: Seq<Seq<char>>, b: Seq<Seq<char>>, x: Seq<char>)
    requires
        a.contains(x) || b.contains(x),
    ensures
        (a + b).contains(x),
{
    if a.contains(x) {
        let i = choose|i: int| 0 <= i < a.len() && a[i] == x;
        assert((a + b)[i] == x);
    } else {
        let j = choose|j: int| 0 <= j < b.len() && b[j] == x;
        assert((a + b)[a.len() + j] == x);
    }
}

proof fn lemma_flag_contains(b: bool, x: Seq<char>)
    requires
        b,
    ensures
        flag(b, x).contains(x),
{
    assert(flag(b, x)[0] == x);
}

proof fn lemma_required_reported(m: ARAManifest, x: Seq<char>)
    requires
        (m.version@.len() == 0 && x == version_required_msg()) || (m.description@.len() == 0 && x
            == description_required_msg()) || (m.tags@.len() == 0 && x == tags_required_msg()),
    ensures
        violations(m).contains(x),
{
    let f1 = flag(m.version@.len() == 0, version_required_msg());
    let f2 = flag(m.description@.len() == 0, description_required_msg());
    let f3 = flag(m.description@.len() > 500, description_long_msg());
    let f4 = flag(m.tags@.len() == 0, tags_required_msg());
    if m.version@.len() == 0 && x == version_required_msg() {
        lemma_flag_contains(true, x);
    }
    if m.description@.len() == 0 && x == description_required_msg() {
        lemma_flag_contains(true, x);
    }
    if m.tags@.len() == 0 && x == tags_required_msg() {
        lemma_flag_contains(true, x);
    }
    if f1.contains(x) || f2.contains(x) {
        lemma_concat_contains(f1, f2, x);
    }
    if (f1 + f2).contains(x) || f3.contains(x) {
        lemma_concat_contains(f1 + f2, f3, x);
    }
    lemma_concat_contains(f1 + f2 + f3, f4, x);
    let n = name_violations(m.name@);
    let r = required_violations(m);
    let v = n + r;
    lemma_concat_contains(n, r, x);
    let v1 = v + version_format_violations(m.version@);
    lemma_concat_contains(v, version_format_violations(m.version@), x);
    let v2 = v1 + author_violations(m.author@);
    lemma_concat_contains(v1, author_violations(m.author@), x);
    let v3 = v2 + tags_violations(m.tags@, m.tags@.len());
    lemma_concat_contains(v2, tags_violations(m.tags@, m.tags@.len()), x);
    let v4 = v3 + optional_violations(m);
    lemma_concat_contains(v3, optional_violations(m), x);
    lemma_concat_contains(v4, sources_rule_violations(m), x);
}

/// Each missing required field (version, description, tags) is reported by
/// a message of its own, whatever else is wrong with the manifest: the
/// three messages differ, so two missing fields give two messages.
pub proof fn lemma_missing_fields_each_reported(m: ARAManifest)
    ensures
        m.version@.len() == 0 ==> violations(m).contains(version_required_msg()),
        m.description@.len() == 0 ==> violations(m).contains(description_required_msg()),
        m.tags@.len() == 0 ==> violations(m).contains(tags_required_msg()),
        version_required_msg() != description_required_msg(),
        version_required_msg() != tags_required_msg(),
        description_required_msg() != tags_required_msg(),
{
    reveal_strlit("version is required");
    reveal_strlit("description is required");
    reveal_strlit("at least one tag is required");
    assert(version_required_msg().len() != description_required_msg().len());
    assert(version_required_msg().len() != tags_required_msg().len());
    assert(description_required_msg().len() != tags_required_msg().len());
    if m.version@.len() == 0 {
        lemma_required_reported(m, version_required_msg());
    }
    if m.description@.len() == 0 {
        lemma_required_reported(m, description_required_msg());
    }
    if m.tags@.len() == 0 {
        lemma_required_reported(m, tags_required_msg());
    }
}

/// Validation is a function of the manifest alone: equal manifests, or the
/// same manifest checked twice, give the same messages in the same order.
pub proof fn lemma_validation_deterministic(a: ARAManifest, b: ARAManifest)
    requires
        a == b,
    ensures
        violations(a) == violations(b),
{
}

/// A non-empty version is always checked against the version format.
pub proof fn lemma_version_format_checked_when_present(m: ARAManifest)
    requires
        m.version@.len() > 0,
    ensures
        version_format_violations(m.version@) == flag(
            !is_semver(m.version@),
            version_format_msg(m.version@),
        ),
{
}

/// A tag longer than fifty characters gives exactly one message, the one on
/// its length, and none on its characters.
pub proof fn lemma_long_tag_reported_once(t: Seq<char>)
    requires
        t.len() > 50,
    ensures
        tag_violations(t) == seq![tag_length_msg(t)],
        !tag_violations(t).contains(tag_format_msg(t)),
{
    reveal_strlit("invalid tag length: '");
    reveal_strlit("invalid tag format: '");
    assert("invalid tag length: '"@[12] == 'l');
    assert("invalid tag format: '"@[12] == 'f');
    assert(tag_length_msg(t)[12] != tag_format_msg(t)[12]);
    assert(tag_violations(t)[0] != tag_format_msg(t));
}


/// `x` cannot be mistaken for a version-format message: it is the message on
/// a missing version, or it does not begin with `v`.
spec fn not_version_format(x: Seq<char>) -> bool {
    x == version_required_msg() || (x.len() > 0 && x[0] != 'v')
}

spec fn none_version_format(v: Seq<Seq<char>>) -> bool {
    forall|i: int| 0 <= i < v.len() ==> not_version_format(#[trigger] v[i])
}

proof fn lemma_none_concat(a: Seq<Seq<char>>, b: Seq<Seq<char>>)
    requires
        none_version_format(a),
        none_version_format(b),
    ensures
        none_version_format(a + b),
{
    assert forall|i: int| 0 <= i < (a + b).len() implies not_version_format(#[trigger] (a + b)[i]) by {
        if i >= a.len() {
            assert((a + b)[i] == b[i - a.len()]);
        }
    }
}

proof fn lemma_none_flag(b: bool, x: Seq<char>)
    requires
        not_version_format(x),
    ensures
        none_version_format(flag(b, x)),
{
}

proof fn lemma_leads_with(lit: Seq<char>, rest: Seq<char>, c: char)
    requires
        lit.len() > 0,
        lit[0] == c,
        c != 'v',
    ensures
        not_version_format(lit + rest),
{
    assert((lit + rest)[0] == c);
}

proof fn lemma_source_messages(i: nat, t: SourceType, r: Seq<char>)
    ensures
        not_version_format(source_package_msg(i, t)),
        not_version_format(source_git_msg(i)),
        not_version_format(source_registry_msg(i, r)),
        not_version_format(source_repository_msg(i, r)),
{
    reveal_strlit("sources[");
    let head = "sources["@ + decimal(i);
    assert(head[0] == 's');
    lemma_leads_with(head, "]: 'package' is required for "@, 's');
    lemma_leads_with(
        head + "]: 'package' is required for "@,
        source_type_label(t),
        's',
    );
    lemma_leads_with(
        head + "]: 'package' is required for "@ + source_type_label(t),
        " source type"@,
        's',
    );
    lemma_leads_with(head, "]: 'repository' is required for git source type"@, 's');
    lemma_leads_with(head, "]: registry must be a valid HTTP(S) URL, got: "@, 's');
    lemma_leads_with(head + "]: registry must be a valid HTTP(S) URL, got: "@, r, 's');
    lemma_leads_with(head, "]: repository must be a valid HTTP(S) URL, got: "@, 's');
    lemma_leads_with(head + "]: repository must be a valid HTTP(S) URL, got: "@, r, 's');
}

proof fn lemma_sources_none(srcs: Seq<PackageSource>, n: nat)
    ensures
        none_version_format(sources_violations(srcs, n)),
    decreases n,
{
    if n > 0 && n <= srcs.len() {
        lemma_sources_none(srcs, (n - 1) as nat);
        let s = srcs[n - 1];
        let i = (n - 1) as nat;
        let e = Seq::<Seq<char>>::empty();
        lemma_source_messages(i, s.source_type, match s.registry {
            Some(r) => r@,
            None => Seq::empty(),
        });
        lemma_source_messages(i, s.source_type, match s.repository {
            Some(r) => r@,
            None => Seq::empty(),
        });
        assert(none_version_format(requirement_violations(s, i)));
        assert(none_version_format(
            match s.registry {
                Some(r) => flag(!is_http_url(r@), source_registry_msg(i, r@)),
                None => e,
            },
        ));
        assert(none_version_format(
            match s.repository {
                Some(r) => flag(!is_http_url(r@), source_repository_msg(i, r@)),
                None => e,
            },
        ));
        lemma_none_concat(
            requirement_violations(s, i),
            match s.registry {
                Some(r) => flag(!is_http_url(r@), source_registry_msg(i, r@)),
                None => e,
            },
        );
        lemma_none_concat(
            requirement_violations(s, i) + (match s.registry {
                Some(r) => flag(!is_http_url(r@), source_registry_msg(i, r@)),
                None => e,
            }),
            match s.repository {
                Some(r) => flag(!is_http_url(r@), source_repository_msg(i, r@)),
                None => e,
            },
        );
        lemma_none_concat(sources_violations(srcs, i), source_violations(s, i));
    }
}

proof fn lemma_tags_none(tags: Seq<String>, n: nat)
    ensures
        none_version_format(tags_violations(tags, n)),
    decreases n,
{
    if n > 0 && n <= tags.len() {
        lemma_tags_none(tags, (n - 1) as nat);
        let t = tags[n - 1]@;
        reveal_strlit("invalid tag length: '");
        reveal_strlit("invalid tag format: '");
        lemma_leads_with("invalid tag length: '"@, t, 'i');
        lemma_leads_with("invalid tag length: '"@ + t, "' (must be 1-50 characters)"@, 'i');
        lemma_leads_with("invalid tag format: '"@, t, 'i');
        lemma_leads_with(
            "invalid tag format: '"@ + t,
            "' (must match ^[a-zA-Z0-9_-]+$)"@,
            'i',
        );
        assert(none_version_format(tag_violations(t)));
        lemma_none_concat(tags_violations(tags, (n - 1) as nat), tag_violations(t));
    }
}

proof fn lemma_fixed_messages()
    ensures
        not_version_format(name_pattern_msg()),
        not_version_format(name_short_msg()),
        not_version_format(name_long_msg()),
        not_version_format(version_required_msg()),
        not_version_format(description_required_msg()),
        not_version_format(description_long_msg()),
        not_version_format(tags_required_msg()),
        not_version_format(license_long_msg()),
        not_version_format(sources_gated_msg()),
{
    reveal_strlit("name must match pattern ^[a-zA-Z0-9_-]+/[a-zA-Z0-9_-]+$");
    reveal_strlit("name must be at least 3 characters");
    reveal_strlit("name must be at most 200 characters");
    reveal_strlit("description is required");
    reveal_strlit("description must be at most 500 characters");
    reveal_strlit("at least one tag is required");
    reveal_strlit("license must be at most 100 characters");
    reveal_strlit("sources field is only allowed for mcp-server type");
}

proof fn lemma_field_messages(x: Seq<char>)
    ensures
        not_version_format(author_msg(x)),
        not_version_format(homepage_msg(x)),
        not_version_format(repository_msg(x)),
{
    reveal_strlit("author must be a valid email address, got: ");
    reveal_strlit("homepage must be a valid HTTP(S) URL, got: ");
    reveal_strlit("repository must be a valid HTTP(S) URL, got: ");
    lemma_leads_with("author must be a valid email address, got: "@, x, 'a');
    lemma_leads_with("homepage must be a valid HTTP(S) URL, got: "@, x, 'h');
    lemma_leads_with("repository must be a valid HTTP(S) URL, got: "@, x, 'r');
}

/// With an empty version, no message anywhere in the list is the
/// version-format message: only the one on the missing version is given.
pub proof fn lemma_empty_version_not_format_checked(m: ARAManifest)
    requires
        m.version@.len() == 0,
    ensures
        violations(m).contains(version_required_msg()),
        !violations(m).contains(version_format_msg(m.version@)),
{
    lemma_missing_fields_each_reported(m);
    lemma_fixed_messages();
    lemma_field_messages(m.author@);
    let e = Seq::<Seq<char>>::empty();
    let target = version_format_msg(m.version@);
    reveal_strlit("version must be a valid semantic version (e.g., '1.0.0'), got: ");
    reveal_strlit("version is required");
    assert(target.len() != version_required_msg().len());
    assert(target[0] == 'v');
    assert(!not_version_format(target));
    let f1 = flag(!is_valid_name(m.name@), name_pattern_msg());
    let f2 = flag(m.name@.len() < 3, name_short_msg());
    let f3 = flag(m.name@.len() > 200, name_long_msg());
    lemma_none_concat(f1, f2);
    lemma_none_concat(f1 + f2, f3);
    let r1 = flag(m.version@.len() == 0, version_required_msg());
    let r2 = flag(m.description@.len() == 0, description_required_msg());
    let r3 = flag(m.description@.len() > 500, description_long_msg());
    let r4 = flag(m.tags@.len() == 0, tags_required_msg());
    lemma_none_concat(r1, r2);
    lemma_none_concat(r1 + r2, r3);
    lemma_none_concat(r1 + r2 + r3, r4);
    let o1 = match m.license {
        Some(l) => flag(l@.len() > 100, license_long_msg()),
        None => e,
    };
    let o2 = match m.homepage {
        Some(h) => flag(!is_http_url(h@), homepage_msg(h@)),
        None => e,
    };
    let o3 = match m.repository {
        Some(r) => flag(!is_http_url(r@), repository_msg(r@)),
        None => e,
    };
    if let Some(h) = m.homepage {
        lemma_field_messages(h@);
    }
    if let Some(r) = m.repository {
        lemma_field_messages(r@);
    }
    lemma_none_concat(o1, o2);
    lemma_none_concat(o1 + o2, o3);
    assert(optional_violations(m) == o1 + o2 + o3);
    lemma_tags_none(m.tags@, m.tags@.len());
    if let Some(v) = m.sources {
        lemma_sources_none(v@, v@.len());
        lemma_none_concat(
            flag(m.package_type != PackageType::McpServer, sources_gated_msg()),
            sources_violations(v@, v@.len()),
        );
    }
    let n = name_violations(m.name@);
    let q = required_violations(m);
    let v0 = n + q;
    lemma_none_concat(n, q);
    let v1 = v0 + version_format_violations(m.version@);
    lemma_none_concat(v0, version_format_violations(m.version@));
    let v2 = v1 + author_violations(m.author@);
    lemma_none_concat(v1, author_violations(m.author@));
    let v3 = v2 + tags_violations(m.tags@, m.tags@.len());
    lemma_none_concat(v2, tags_violations(m.tags@, m.tags@.len()));
    let v4 = v3 + optional_violations(m);
    lemma_none_concat(v3, optional_violations(m));
    lemma_none_concat(v4, sources_rule_violations(m));
    assert(none_version_format(violations(m)));
}

} // verus!
