use ara_ref::grammar::{email_matches, name_matches, tag_matches, url_matches};
use ara_ref::semver::semver_matches;
use regex::Regex;

const SAMPLES: [&str; 30] = [
    "", "a", "a/b", "ab", "/a", "a/", "a/b/c", "x_y/z-1", "a b", "tag", "Also-OK_1", "bad!",
    "http://x", "https://x", "https:/x", "ftp://x", "a@b.c", "a@@b.c", "@b.c", "a@b.", "a@bc",
    "a@b.c d", "1.2.3", "01.2.3", "1.2.3-rc.1", "1.2.3-01", "1.2.3-0a+b.c", "1.2.3+", "1.2",
    "0.0.0-x-y.0",
];

fn agrees(pattern: &str, f: fn(&str) -> bool) {
    let re = Regex::new(pattern).unwrap();
    for s in SAMPLES {
        assert_eq!(f(s), re.is_match(s), "{:?} against {}", s, pattern);
    }
}

#[test]
fn name_agrees_with_pattern() {
    agrees(r"^[a-zA-Z0-9_-]+/[a-zA-Z0-9_-]+$", name_matches);
}

#[test]
fn tag_agrees_with_pattern() {
    agrees(r"^[a-zA-Z0-9_-]+$", tag_matches);
}

#[test]
fn email_agrees_with_pattern() {
    agrees(r"^[^\s@]+@[^\s@]+\.[^\s@]+$", email_matches);
}

#[test]
fn url_agrees_with_pattern() {
    agrees(r"^https?://", url_matches);
}

#[test]
fn semver_agrees_with_pattern() {
    agrees(
        r"^(0|[1-9][0-9]*)\.(0|[1-9][0-9]*)\.(0|[1-9][0-9]*)(?:-((?:0|[1-9][0-9]*|[0-9]*[a-zA-Z-][0-9a-zA-Z-]*)(?:\.(?:0|[1-9][0-9]*|[0-9]*[a-zA-Z-][0-9a-zA-Z-]*))*))?(?:\+([0-9a-zA-Z-]+(?:\.[0-9a-zA-Z-]+)*))?$",
        semver_matches,
    );
}
