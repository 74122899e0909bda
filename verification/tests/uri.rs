use std::path::{Path, PathBuf};

use lsp::uri::Uri;

fn path_of(uri: &Uri) -> PathBuf {
    PathBuf::from(uri.to_file_path().unwrap())
}

#[test]
fn file_path_conversion() {
    let uri = Uri::from_file_path("/foo/bar.rs");
    assert_eq!(uri, "file:///foo/bar.rs");
    assert_eq!(path_of(&uri), PathBuf::from("/foo/bar.rs"));
}

#[test]
fn from_path_adds_leading_slash() {
    assert_eq!(Uri::from_file_path("foo/bar.rs"), "file:///foo/bar.rs");
}

#[test]
fn from_path_keeps_trailing() {
    assert_eq!(Uri::from_file_path("/foo/bar"), "file:///foo/bar");
    assert_eq!(Uri::from_file_path("/foo/bar/"), "file:///foo/bar/");
}

#[test]
fn to_path_removes_trailing() {
    assert_eq!(path_of(&Uri("file:///foo/bar/".into())), Path::new("/foo/bar"));
}

#[test]
fn from_path_encodes() {
    assert_eq!(Uri::from_file_path("/foo bar"), "file:///foo%20bar");
    assert_eq!(Uri::from_file_path("/foo#bar"), "file:///foo%23bar");
    assert_eq!(Uri::from_file_path("/foo?bar"), "file:///foo%3Fbar");
    assert_eq!(Uri::from_file_path("/foo%bar"), "file:///foo%25bar");
    assert_eq!(Uri::from_file_path("/foo[bar"), "file:///foo%5Bbar");
    assert_eq!(Uri::from_file_path("/foo]bar"), "file:///foo%5Dbar");
}

#[test]
fn to_path_decodes() {
    assert_eq!(path_of(&Uri("file:///foo%20bar".into())), Path::new("/foo bar"));
    assert_eq!(path_of(&Uri("file:///foo%23bar".into())), Path::new("/foo#bar"));
    assert_eq!(path_of(&Uri("file:///foo%3Fbar".into())), Path::new("/foo?bar"));
    assert_eq!(path_of(&Uri("file:///foo%25bar".into())), Path::new("/foo%bar"));
    assert_eq!(path_of(&Uri("file:///foo%5Bbar".into())), Path::new("/foo[bar"));
    assert_eq!(path_of(&Uri("file:///foo%5Dbar".into())), Path::new("/foo]bar"));
}

#[test]
fn from_path_handles_prefix() {
    // Any path whose first component matches `[a-z]:` is taken as a prefix.
    assert_eq!(Uri::from_file_path("C:/foo/bar.txt"), Uri("file:///C:/foo/bar.txt".into()),);
}

#[test]
fn to_path_handles_prefix() {
    assert_eq!(path_of(&Uri("file:///C:/foo/bar.txt".into())), Path::new("C:/foo/bar.txt"));
}

#[test]
fn from_path_strips_every_leading_slash() {
    assert_eq!(Uri::from_file_path("///foo"), "file:///foo");
    assert_eq!(Uri::from_file_path(""), "file:///");
    assert_eq!(Uri::from_file_path("/"), "file:///");
}

#[test]
fn from_path_encodes_controls_and_non_ascii() {
    assert_eq!(Uri::from_file_path("/a\tb"), "file:///a%09b");
    assert_eq!(Uri::from_file_path("/a\u{7f}"), "file:///a%7F");
    assert_eq!(Uri::from_file_path("/caf\u{e9}"), "file:///caf%C3%A9");
    assert_eq!(Uri::from_file_path("/a:b~c"), "file:///a:b~c");
}

#[test]
fn to_path_rejects_other_schemes() {
    assert_eq!(Uri("http://foo/bar".into()).to_file_path(), None);
    assert_eq!(Uri("file://foo".into()).to_file_path(), None);
    assert_eq!(Uri("".into()).to_file_path(), None);
}

#[test]
fn to_path_exact_text() {
    assert_eq!(Uri("file:///foo/bar/".into()).to_file_path(), Some("/foo/bar/".to_string()));
    assert_eq!(Uri("file:///".into()).to_file_path(), Some("/".to_string()));
    assert_eq!(Uri("file:///foo//bar".into()).to_file_path(), Some("/foo/bar".to_string()));
    assert_eq!(Uri("file:///C:/".into()).to_file_path(), Some("C:/".to_string()));
    // A decoded segment that starts with `/` replaces the path built so far.
    assert_eq!(Uri("file:///foo/%2Fetc".into()).to_file_path(), Some("/etc".to_string()));
}

#[test]
fn to_path_decodes_lower_case_and_keeps_bad_escapes() {
    assert_eq!(Uri("file:///a%3fb".into()).to_file_path(), Some("/a?b".to_string()));
    assert_eq!(Uri("file:///a%zz".into()).to_file_path(), Some("/a%zz".to_string()));
    assert_eq!(Uri("file:///a%4".into()).to_file_path(), Some("/a%4".to_string()));
    assert_eq!(Uri("file:///caf%C3%A9".into()).to_file_path(), Some("/caf\u{e9}".to_string()));
}

#[test]
fn to_path_replaces_invalid_utf8() {
    assert_eq!(Uri("file:///a%FFb".into()).to_file_path(), Some("/a\u{fffd}b".to_string()));
}

#[test]
fn round_trip_gives_the_path_back() {
    for p in ["/foo/bar.rs", "/foo bar/#x?y%z[1]", "/caf\u{e9}/\u{1f600}", "/a/b/", "C:/x/y"] {
        let uri = Uri::from_file_path(p);
        assert_eq!(uri.to_file_path(), Some(p.to_string()));
    }
    assert_eq!(Uri::from_file_path("foo/bar").to_file_path(), Some("/foo/bar".to_string()));
    assert_eq!(Uri::from_file_path("//foo").to_file_path(), Some("/foo".to_string()));
}

#[test]
fn uri_equality_and_text() {
    let a = Uri("file:///x".into());
    let b = Uri("file:///x".into());
    let c = Uri("file:///y".into());
    assert!(a == b);
    assert!(a != c);
    assert!(a == "file:///x");
    assert!(a != "file:///y");
    assert!(*"file:///x" != *"file:///y");
    assert!(a == *"file:///x");
    assert_eq!(a.to_string(), "file:///x");
    assert_eq!(Uri::default().to_string(), "");
    assert_eq!(format!("{:?}", a), "Uri(\"file:///x\")");
}

#[test]
fn uri_depends_only_on_trimmed_path() {
    assert_eq!(Uri::from_file_path("///foo"), Uri::from_file_path("/foo"));
    assert_eq!(Uri::from_file_path("/foo"), Uri::from_file_path("foo"));
    assert!(Uri::from_file_path("/foo") != Uri::from_file_path("/Foo"));
    assert!(Uri::from_file_path("/a b") != Uri::from_file_path("/a%20b"));
}

#[test]
fn round_trip_merges_runs_of_slashes() {
    assert_eq!(Uri::from_file_path("/foo//bar").to_file_path(), Some("/foo/bar".to_string()));
    assert_eq!(Uri::from_file_path("/foo///").to_file_path(), Some("/foo/".to_string()));
    assert_eq!(Uri::from_file_path("C://x").to_file_path(), Some("C:/x".to_string()));
}
