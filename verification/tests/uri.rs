use catcher::catcher::parse_base;
use catcher::uri::{Error, Origin};

fn parse(text: &str) -> Result<Origin, Error> {
    Origin::parse_owned(text.to_string())
}

fn normalize(path: &str) -> String {
    Origin::new(path, None).into_normalized().path().to_string()
}

#[test]
fn valid_origins() {
    for text in ["/", "//", "/a", "/a/b/c", "/a//b/", "/a%20b", "/~user/x.y-z_0", "/!$&'()*+,;=:@"] {
        let o = parse(text).unwrap();
        assert_eq!(o.path(), text);
        assert_eq!(o.query(), None);
        assert_eq!(o.to_string(), text);
    }
}

#[test]
fn valid_origins_with_query() {
    for (text, path, query) in [
        ("/?", "/", ""),
        ("/a?b=c", "/a", "b=c"),
        ("/a?b?c/d", "/a", "b?c/d"),
        ("/a%2F?%3f", "/a%2F", "%3f"),
    ] {
        let o = parse(text).unwrap();
        assert_eq!(o.path(), path);
        assert_eq!(o.query(), Some(query));
        assert_eq!(o.to_string(), text);
    }
}

#[test]
fn invalid_origins() {
    for text in [
        "", "a", "a/b", "?", "?a", "*", " /", "/ ", "/foo ? /foo/bar", "/a#b", "/a\\b", "/<a>", "/\"",
        "/[", "/^", "/`", "/{", "/|", "/%", "/%2", "/%2g", "/%?", "/a?%", "/a?b#", "/\u{e9}", "/\n",
        "http://a/b",
    ] {
        assert!(matches!(parse(text), Err(Error)));
    }
}

#[test]
fn normalized_paths() {
    assert_eq!(normalize("/"), "/");
    assert_eq!(normalize("//"), "/");
    assert_eq!(normalize("///"), "/");
    assert_eq!(normalize("/a"), "/a");
    assert_eq!(normalize("/a/"), "/a");
    assert_eq!(normalize("//a"), "/a");
    assert_eq!(normalize("/a/b//c///d/"), "/a/b/c/d");
    assert_eq!(normalize(""), "/");
    assert_eq!(normalize("a"), "a");
}

#[test]
fn normalizing_keeps_the_query() {
    let o = Origin::new("/a//b/", Some("c//d")).into_normalized();
    assert_eq!(o.path(), "/a/b");
    assert_eq!(o.query(), Some("c//d"));
}

#[test]
fn clearing_the_query() {
    let mut o = Origin::new("/a", Some("b"));
    o.clear_query();
    assert_eq!(o.path(), "/a");
    assert_eq!(o.query(), None);
}

#[test]
fn root_is_a_slash() {
    assert!(Origin::new("/", None).is_root());
    assert!(Origin::new("/", Some("q")).is_root());
    assert!(!Origin::new("//", None).is_root());
    assert!(!Origin::new("", None).is_root());
    assert!(!Origin::new("/a", None).is_root());
}

#[test]
fn clones_are_equal() {
    let o = Origin::new("/a", Some("b"));
    assert_eq!(o.clone().to_string(), "/a?b");
}

#[test]
fn bases() {
    for (text, base) in [
        ("/", "/"),
        ("//a//b/", "/a/b"),
        ("/a?b=c", "/a"),
        ("/?", "/"),
        ("/a?b?c", "/a"),
        ("/foo/bar", "/foo/bar"),
        ("//bar", "/bar"),
        ("/foo/", "/foo"),
    ] {
        let o = parse_base(text.to_string()).unwrap();
        assert_eq!(o.path(), base);
        assert_eq!(o.query(), None);
        let again = parse_base(o.to_string()).unwrap();
        assert_eq!(again.to_string(), base);
    }
    assert!(matches!(parse_base("bar".to_string()), Err(Error)));
}
