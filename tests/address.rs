use ballast::address::{NexUrl, TryFromStringError, DEFAULT_PORT};
use ballast::url_ref::UrlRef;

#[test]
fn parse_gives_host_port_selector() {
    let a = NexUrl::parse("nex://example.test/").unwrap();
    assert_eq!(a.host(), "example.test");
    assert_eq!(a.port(), 1900);
    assert_eq!(a.selector(), "/");
}

#[test]
fn parse_without_port_uses_default() {
    for s in ["nex://h/", "nex://h/a/b.txt", "nex://h", "nex://host.example/dir/?q"] {
        let a = NexUrl::parse(s).unwrap();
        assert_eq!(a.port(), DEFAULT_PORT);
    }
}

#[test]
fn parse_explicit_port_and_path() {
    let a = NexUrl::parse("nex://h.test:7070/docs/index.txt").unwrap();
    assert_eq!(a.host(), "h.test");
    assert_eq!(a.port(), 7070);
    assert_eq!(a.selector(), "/docs/index.txt");
}

#[test]
fn parse_empty_path_gives_root_selector() {
    let a = NexUrl::parse("nex://h").unwrap();
    assert_eq!(a.selector(), "/");
}

#[test]
fn parse_rejects_other_schemes() {
    for s in ["gopher://x/", "http://example.test/", "gemini://h/"] {
        assert_eq!(NexUrl::parse(s).unwrap_err(), TryFromStringError);
    }
}

#[test]
fn parse_rejects_schemeless_and_hostless() {
    for s in ["example.test/", "", "nex:path-only", "not a url", "nex:///x", "nex://example.test:70000/"] {
        assert!(NexUrl::parse(s).is_err());
    }
}

#[test]
fn try_from_matches_parse() {
    let a = NexUrl::try_from("nex://example.test:12/x").unwrap();
    assert_eq!(a.host(), "example.test");
    assert_eq!(a.port(), 12);
    assert_eq!(a.selector(), "/x");
    assert!(NexUrl::try_from("gopher://x/").is_err());
}

#[test]
fn from_url_checks_scheme() {
    let u = UrlRef::parse("gopher://x/").unwrap();
    assert!(NexUrl::from_url(&u).is_err());
    let u = UrlRef::parse("nex://x:5/y").unwrap();
    let a = NexUrl::from_url(&u).unwrap();
    assert_eq!((a.host(), a.port(), a.selector()), ("x", 5, "/y"));
}

#[test]
fn resolve_absolute_target_round_trip() {
    let base = UrlRef::parse("nex://base.test/dir/").unwrap();
    let target = UrlRef::parse("nex://other.test:99/a/b").unwrap();
    let r = base.resolve(&target.text).unwrap();
    assert_eq!(r.text, target.text);
    let a = NexUrl::from_url(&r).unwrap();
    let b = NexUrl::parse(&target.text).unwrap();
    assert_eq!((a.host(), a.port(), a.selector()), (b.host(), b.port(), b.selector()));
}

#[test]
fn resolve_relative_target_joins_base() {
    let base = UrlRef::parse("nex://h/dir/").unwrap();
    assert_eq!(base.resolve("./sub").unwrap().text, "nex://h/dir/sub");
    assert_eq!(base.resolve("../up.txt").unwrap().text, "nex://h/up.txt");
    assert_eq!(base.resolve("/root").unwrap().text, "nex://h/root");
}

#[test]
fn url_ref_parts() {
    let u = UrlRef::parse("nex://Example.test:8/p/q").unwrap();
    assert_eq!(u.scheme, "nex");
    assert_eq!(u.host.as_deref(), Some("Example.test"));
    assert_eq!(u.port, Some(8));
    assert_eq!(u.path, "/p/q");
    assert!(UrlRef::parse("./relative").is_none());
}

#[test]
fn try_from_gives_default_port_and_root_selector() {
    let a = NexUrl::try_from("nex://example.test").unwrap();
    assert_eq!((a.host(), a.port(), a.selector()), ("example.test", 1900, "/"));
    for s in ["https://example.test/", "gemini://example.test/", "nex:///x"] {
        assert!(NexUrl::try_from(s).is_err());
    }
}
