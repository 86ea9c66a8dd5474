use twine::address::{CLIP_MARK, YARN_HOST};
use twine::{Config, Twine, Url};

fn url_of(text: &str, host: Option<&str>, path: &str) -> Url {
    Url { text: text.to_string(), host: host.map(|h| h.to_string()), path: path.to_string() }
}

#[test]
fn parse_keeps_text_host_and_path() {
    let url = Url::parse("https://getyarn.io/yarn-clip/abc").unwrap();
    assert_eq!(
        url,
        url_of("https://getyarn.io/yarn-clip/abc", Some("getyarn.io"), "/yarn-clip/abc")
    );
}

#[test]
fn parse_writes_the_url_out_in_normal_form() {
    let url = Url::parse("HTTPS://GetYarn.IO/yarn-clip/../clips/a b?x=1#frag").unwrap();
    assert_eq!(url.text, "https://getyarn.io/clips/a%20b?x=1#frag");
    assert_eq!(url.host, Some("getyarn.io".to_string()));
    assert_eq!(url.path, "/clips/a%20b");
    assert_eq!(url.as_str(), "https://getyarn.io/clips/a%20b?x=1#frag");
}

#[test]
fn parse_gives_a_bare_host_the_root_path() {
    let url = Url::parse("https://example.com").unwrap();
    assert_eq!(url, url_of("https://example.com/", Some("example.com"), "/"));
}

#[test]
fn parse_leaves_the_host_out_where_there_is_none() {
    let url = Url::parse("data:text/plain,Stuff").unwrap();
    assert_eq!(url, url_of("data:text/plain,Stuff", None, "text/plain,Stuff"));
}

#[test]
fn parse_rejects_what_is_no_absolute_url() {
    let refused = Url::parse("not a url").unwrap_err();
    assert_eq!(refused.0, url::ParseError::RelativeUrlWithoutBase);
    assert!(Url::parse("").is_err());
    assert!(Url::parse("https://").is_err());
}

#[test]
fn urls_are_equal_when_text_host_and_path_are() {
    let a = Url::parse("https://example.com").unwrap();
    let b = Url::parse("https://example.com/").unwrap();
    let c = Url::parse("https://example.com/x").unwrap();
    assert!(a == b);
    assert!(a != c);
    assert!(
        url_of("https://a/", Some("a"), "/") != url_of("https://a/", None, "/"),
        "a host on one side only"
    );
    assert!(url_of("x", Some("a"), "/") != url_of("x", Some("b"), "/"));
    assert!(url_of("x", Some("a"), "/") != url_of("x", Some("a"), "/y"));
}

#[test]
fn the_marks_of_a_clip_address() {
    assert_eq!(YARN_HOST, "getyarn.io");
    assert_eq!(CLIP_MARK, "yarn-clip");
}

#[test]
fn a_clip_address_has_the_host_and_the_path_mark() {
    let url = Url::parse("https://getyarn.io/yarn-clip/abc").unwrap();
    assert!(url.is_yarn_clip());
    assert!(Twine::valid_yarn_url(&url));
    assert!(Config::matches_yarn_url(&url));
}

#[test]
fn the_host_may_hold_more_than_the_site_name() {
    let url = Url::parse("https://www.getyarn.io/yarn-clip/abc").unwrap();
    assert!(Twine::valid_yarn_url(&url));
}

#[test]
fn the_path_mark_may_stand_anywhere_in_the_path() {
    let url = Url::parse("https://getyarn.io/en/yarn-clip").unwrap();
    assert!(Twine::valid_yarn_url(&url));
}

#[test]
fn a_clip_address_needs_the_path_mark() {
    let url = Url::parse("https://getyarn.io/").unwrap();
    assert!(!Twine::valid_yarn_url(&url));
    assert!(!Config::matches_yarn_url(&url));
}

#[test]
fn a_clip_address_needs_the_host() {
    let url = Url::parse("https://example.com/yarn-clip/abc").unwrap();
    assert!(!Twine::valid_yarn_url(&url));
}

#[test]
fn the_site_name_in_the_path_is_no_host() {
    let url = Url::parse("https://example.com/getyarn.io/yarn-clip/abc").unwrap();
    assert!(!Twine::valid_yarn_url(&url));
    assert!(!Config::matches_yarn_url(&url));
}

#[test]
fn the_path_mark_in_the_query_is_not_in_the_path() {
    let url = Url::parse("https://getyarn.io/?q=yarn-clip").unwrap();
    assert!(!Twine::valid_yarn_url(&url));
}

#[test]
fn a_url_without_a_host_is_no_clip_address() {
    let url = Url::parse("data:getyarn.io/yarn-clip").unwrap();
    assert_eq!(url.host, None);
    assert!(!Twine::valid_yarn_url(&url));
    assert!(!url_of("x", None, "getyarn.io/yarn-clip").is_yarn_clip());
}

#[test]
fn only_host_and_path_decide() {
    assert!(url_of("", Some("getyarn.io"), "yarn-clip").is_yarn_clip());
    assert!(!url_of("https://getyarn.io/yarn-clip", Some("x"), "/").is_yarn_clip());
}
