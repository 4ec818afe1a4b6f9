use ara_ref::{validate, ARAManifest, PackageSource, PackageType, SourceType};

fn valid_manifest() -> ARAManifest {
    let mut m = ARAManifest::default();
    m.name = "acme/tool".to_string();
    m.version = "1.0.0".to_string();
    m.description = "A small tool".to_string();
    m.author = "dev@example.com".to_string();
    m.tags = vec!["ok".to_string()];
    m
}

fn source(kind: SourceType) -> PackageSource {
    PackageSource {
        source_type: kind,
        package: None,
        version: None,
        registry: None,
        repository: None,
        git_ref: None,
        subfolder: None,
        install_command: None,
        executable: None,
        preferred: None,
    }
}

#[test]
fn valid_manifest_has_no_violations() {
    assert!(validate(&valid_manifest()).is_empty());
}

#[test]
fn default_manifest_fields() {
    let m = ARAManifest::default();
    assert_eq!(m.package_type, PackageType::KiroAgent);
    assert_eq!(PackageType::default(), PackageType::KiroAgent);
    assert!(m.name.is_empty() && m.tags.is_empty() && m.dependencies.is_empty());
    assert!(m.sources.is_none() && m.license.is_none() && m.files.is_none());
}

#[test]
fn default_manifest_reports_everything_in_order() {
    let m = ARAManifest::default();
    assert_eq!(
        validate(&m),
        vec![
            "name must match pattern ^[a-zA-Z0-9_-]+/[a-zA-Z0-9_-]+$",
            "name must be at least 3 characters",
            "version is required",
            "description is required",
            "at least one tag is required",
            "author must be a valid email address, got: ",
        ]
    );
}

#[test]
fn two_letter_name_fails_format_and_length() {
    let mut m = valid_manifest();
    m.name = "ab".to_string();
    assert_eq!(
        validate(&m),
        vec![
            "name must match pattern ^[a-zA-Z0-9_-]+/[a-zA-Z0-9_-]+$",
            "name must be at least 3 characters",
        ]
    );
}

#[test]
fn overlong_name_fails_max_length_only() {
    let mut m = valid_manifest();
    m.name = format!("a/{}", "b".repeat(199));
    assert_eq!(validate(&m), vec!["name must be at most 200 characters"]);
    m.name = format!("a/{}", "b".repeat(198));
    assert!(validate(&m).is_empty());
}

#[test]
fn name_shapes() {
    for bad in ["/ab", "ab/", "a/b/c", "a b/c", "ab", "a.b/c"] {
        let mut m = valid_manifest();
        m.name = bad.to_string();
        assert!(validate(&m)
            .contains(&"name must match pattern ^[a-zA-Z0-9_-]+/[a-zA-Z0-9_-]+$".to_string()));
    }
    for good in ["a/b", "A-1/_x", "my_org/my-pkg"] {
        let mut m = valid_manifest();
        m.name = good.to_string();
        assert!(validate(&m).is_empty(), "{}", good);
    }
}

#[test]
fn missing_version_and_description_each_reported() {
    let mut m = valid_manifest();
    m.version = String::new();
    m.description = String::new();
    assert_eq!(validate(&m), vec!["version is required", "description is required"]);
}

#[test]
fn empty_version_gets_no_format_message() {
    let mut m = valid_manifest();
    m.version = String::new();
    assert_eq!(validate(&m), vec!["version is required"]);
}

#[test]
fn bad_version_gets_format_message() {
    let mut m = valid_manifest();
    m.version = "1.0".to_string();
    assert_eq!(
        validate(&m),
        vec!["version must be a valid semantic version (e.g., '1.0.0'), got: 1.0"]
    );
}

#[test]
fn semver_grammar() {
    for good in [
        "0.0.0",
        "1.2.3",
        "10.20.30",
        "1.0.0-alpha",
        "1.0.0-alpha.1",
        "1.0.0-0.3.7",
        "1.0.0-x.7.z.92",
        "1.0.0-0a",
        "1.0.0-01a",
        "1.0.0+20130313144700",
        "1.0.0-beta+exp.sha.5114f85",
        "1.0.0+001",
        "1.0.0--",
    ] {
        let mut m = valid_manifest();
        m.version = good.to_string();
        assert!(validate(&m).is_empty(), "{}", good);
    }
    for bad in [
        "01.0.0", "1.01.0", "1.0.01", "1.0", "1.0.0-", "1.0.0+", "1.0.0-01", "1.0.0-a..b",
        "1.0.0+a..b", "v1.0.0", "1.0.0 ", "1.0.0-a+b+c",
    ] {
        let mut m = valid_manifest();
        m.version = bad.to_string();
        assert_eq!(validate(&m).len(), 1, "{}", bad);
    }
}

#[test]
fn long_description_reported() {
    let mut m = valid_manifest();
    m.description = "d".repeat(501);
    assert_eq!(validate(&m), vec!["description must be at most 500 characters"]);
    m.description = "d".repeat(500);
    assert!(validate(&m).is_empty());
}

#[test]
fn author_not_an_email() {
    let mut m = valid_manifest();
    m.author = "not-an-email".to_string();
    assert_eq!(
        validate(&m),
        vec!["author must be a valid email address, got: not-an-email"]
    );
}

#[test]
fn email_shapes() {
    for good in ["a@b.c", "first.last@sub.example.org", "x@y.z.w"] {
        let mut m = valid_manifest();
        m.author = good.to_string();
        assert!(validate(&m).is_empty(), "{}", good);
    }
    for bad in ["@b.c", "a@.c", "a@b.", "a@bc", "a b@c.d", "a@b@c.d", "a@b.c\n", ""] {
        let mut m = valid_manifest();
        m.author = bad.to_string();
        assert_eq!(validate(&m).len(), 1, "{:?}", bad);
    }
}

#[test]
fn long_tag_reported_once() {
    let mut m = valid_manifest();
    let long = "!".repeat(51);
    m.tags = vec![long.clone()];
    assert_eq!(
        validate(&m),
        vec![format!("invalid tag length: '{}' (must be 1-50 characters)", long)]
    );
}

#[test]
fn tag_errors_in_order() {
    let mut m = valid_manifest();
    m.tags = vec!["".to_string(), "bad tag".to_string(), "fine".to_string(), "x".repeat(50)];
    assert_eq!(
        validate(&m),
        vec![
            "invalid tag length: '' (must be 1-50 characters)",
            "invalid tag format: 'bad tag' (must match ^[a-zA-Z0-9_-]+$)",
        ]
    );
}

#[test]
fn valid_tags_pass() {
    let mut m = valid_manifest();
    m.tags = vec!["ok".to_string(), "Also-OK_1".to_string()];
    assert!(validate(&m).is_empty());
}

#[test]
fn optional_fields_checked_when_present() {
    let mut m = valid_manifest();
    m.license = Some("l".repeat(101));
    m.homepage = Some("ftp://x".to_string());
    m.repository = Some("github.com/x".to_string());
    assert_eq!(
        validate(&m),
        vec![
            "license must be at most 100 characters",
            "homepage must be a valid HTTP(S) URL, got: ftp://x",
            "repository must be a valid HTTP(S) URL, got: github.com/x",
        ]
    );
    m.license = Some("MIT".to_string());
    m.homepage = Some("https://example.com".to_string());
    m.repository = Some("http://example.com/x".to_string());
    assert!(validate(&m).is_empty());
}

#[test]
fn url_prefix_must_be_complete() {
    let mut m = valid_manifest();
    m.homepage = Some("http:/x".to_string());
    assert_eq!(validate(&m).len(), 1);
    m.homepage = Some("HTTP://x".to_string());
    assert_eq!(validate(&m).len(), 1);
    m.homepage = Some("http://".to_string());
    assert!(validate(&m).is_empty());
}

#[test]
fn git_source_without_repository() {
    let mut m = valid_manifest();
    m.package_type = PackageType::McpServer;
    m.sources = Some(vec![source(SourceType::Git)]);
    assert_eq!(
        validate(&m),
        vec!["sources[0]: 'repository' is required for git source type"]
    );
}

#[test]
fn sources_on_context_package() {
    let mut m = valid_manifest();
    m.package_type = PackageType::Context;
    let mut s = source(SourceType::Npm);
    s.package = Some("pkg".to_string());
    m.sources = Some(vec![s]);
    assert_eq!(
        validate(&m),
        vec!["sources field is only allowed for mcp-server type"]
    );
    m.sources = Some(vec![source(SourceType::Pypi)]);
    assert_eq!(
        validate(&m),
        vec![
            "sources field is only allowed for mcp-server type",
            "sources[0]: 'package' is required for Pypi source type",
        ]
    );
}

#[test]
fn empty_sources_allowed_for_mcp_server_only() {
    let mut m = valid_manifest();
    m.package_type = PackageType::McpServer;
    m.sources = Some(vec![]);
    assert!(validate(&m).is_empty());
    m.package_type = PackageType::Skill;
    assert_eq!(
        validate(&m),
        vec!["sources field is only allowed for mcp-server type"]
    );
}

#[test]
fn every_source_checked_with_its_index() {
    let mut m = valid_manifest();
    m.package_type = PackageType::McpServer;
    let mut srcs: Vec<PackageSource> = Vec::new();
    for _ in 0..11 {
        let mut s = source(SourceType::Npm);
        s.package = Some("p".to_string());
        srcs.push(s);
    }
    srcs[3] = source(SourceType::McpRegistry);
    let mut git = source(SourceType::Git);
    git.repository = Some("git@host:x".to_string());
    git.registry = Some("registry.local".to_string());
    srcs[10] = git;
    m.sources = Some(srcs);
    assert_eq!(
        validate(&m),
        vec![
            "sources[3]: 'package' is required for McpRegistry source type",
            "sources[10]: registry must be a valid HTTP(S) URL, got: registry.local",
            "sources[10]: repository must be a valid HTTP(S) URL, got: git@host:x",
        ]
    );
}

#[test]
fn repository_url_checked_for_any_source_kind() {
    let mut m = valid_manifest();
    m.package_type = PackageType::McpServer;
    let mut s = source(SourceType::Npm);
    s.package = Some("p".to_string());
    s.repository = Some("nowhere".to_string());
    m.sources = Some(vec![s]);
    assert_eq!(
        validate(&m),
        vec!["sources[0]: repository must be a valid HTTP(S) URL, got: nowhere"]
    );
}

#[test]
fn validating_twice_gives_same_list() {
    let mut m = ARAManifest::default();
    m.tags = vec!["a b".to_string(), "".to_string()];
    m.sources = Some(vec![source(SourceType::Git), source(SourceType::Npm)]);
    assert_eq!(validate(&m), validate(&m));
}

#[test]
fn lengths_count_characters() {
    let mut m = valid_manifest();
    m.description = "é".repeat(500);
    assert!(validate(&m).is_empty());
    m.license = Some("ü".repeat(100));
    assert!(validate(&m).is_empty());
}
