use skeet_longer::bluesky::url_parser::{
    parse_bluesky_url, post_parts, BlueskyUrlParts, ParseError, UrlParts,
};

#[test]
fn test_parse_valid_url() {
    let result = parse_bluesky_url("https://bsky.app/profile/jay.bsky.team/post/3jwdwj2ctlk26");
    assert!(result.is_ok());
    let parts = result.unwrap();
    assert_eq!(parts.handle, "jay.bsky.team");
    assert_eq!(parts.post_id, "3jwdwj2ctlk26");
}

#[test]
fn test_parse_http_url() {
    let result = parse_bluesky_url("http://bsky.app/profile/user.bsky.social/post/abc123");
    assert!(result.is_ok());
}

#[test]
fn test_reject_non_bluesky_url() {
    let result = parse_bluesky_url("https://twitter.com/user/status/123");
    assert!(matches!(result, Err(ParseError::NotBlueskyUrl)));
}

#[test]
fn test_reject_profile_only_url() {
    let result = parse_bluesky_url("https://bsky.app/profile/user.bsky.social");
    assert!(matches!(result, Err(ParseError::NotPostUrl)));
}

#[test]
fn test_reject_invalid_url() {
    let result = parse_bluesky_url("not a url");
    assert!(matches!(result, Err(ParseError::InvalidUrl(_))));
}

#[test]
fn invalid_url_error_carries_the_reason() {
    let err = parse_bluesky_url("not a url").unwrap_err();
    assert_eq!(err.to_string(), "invalid URL: relative URL without a base");
}

#[test]
fn parse_reads_host_and_segments_from_the_text() {
    // Two addresses that differ only in handle and key give different parts.
    let a = parse_bluesky_url("https://bsky.app/profile/a.test/post/1").unwrap();
    let b = parse_bluesky_url("https://bsky.app/profile/b.test/post/2").unwrap();
    assert_eq!(a, BlueskyUrlParts { handle: "a.test".to_string(), post_id: "1".to_string() });
    assert_eq!(b, BlueskyUrlParts { handle: "b.test".to_string(), post_id: "2".to_string() });
}

#[test]
fn parse_ignores_what_follows_the_key() {
    let parts = parse_bluesky_url("https://bsky.app/profile/a.test/post/1/likes?x=1").unwrap();
    assert_eq!(parts.handle, "a.test");
    assert_eq!(parts.post_id, "1");
}

#[test]
fn parse_rejects_wrong_path_words() {
    assert!(matches!(
        parse_bluesky_url("https://bsky.app/user/a.test/post/1"),
        Err(ParseError::NotPostUrl)
    ));
    assert!(matches!(
        parse_bluesky_url("https://bsky.app/profile/a.test/feed/1"),
        Err(ParseError::NotPostUrl)
    ));
}

#[test]
fn parse_rejects_empty_handle_or_key() {
    assert!(matches!(
        parse_bluesky_url("https://bsky.app/profile//post/1"),
        Err(ParseError::NotPostUrl)
    ));
    assert!(matches!(
        parse_bluesky_url("https://bsky.app/profile/a.test/post/"),
        Err(ParseError::NotPostUrl)
    ));
}

#[test]
fn parse_rejects_address_without_host() {
    assert!(matches!(parse_bluesky_url("mailto:someone@bsky.app"), Err(ParseError::NotBlueskyUrl)));
}

#[test]
fn post_parts_on_plain_values() {
    let parts = UrlParts {
        host: Some("bsky.app".to_string()),
        segments: Some(vec![
            "profile".to_string(),
            "a.test".to_string(),
            "post".to_string(),
            "k".to_string(),
        ]),
    };
    let post = post_parts(&parts).unwrap();
    assert_eq!(post.handle, "a.test");
    assert_eq!(post.post_id, "k");
    let no_host = UrlParts { host: None, segments: parts.segments.clone() };
    assert_eq!(post_parts(&no_host), Err(ParseError::NotBlueskyUrl));
    let no_path = UrlParts { host: parts.host.clone(), segments: None };
    assert_eq!(post_parts(&no_path), Err(ParseError::NotPostUrl));
}

#[test]
fn parse_error_sentences() {
    assert_eq!(ParseError::NotBlueskyUrl.to_string(), "URL must be a bsky.app link");
    assert_eq!(
        ParseError::NotPostUrl.to_string(),
        "URL must be a post link (e.g., bsky.app/profile/user/post/id)"
    );
    assert_eq!(ParseError::InvalidUrl("x".to_string()).to_string(), "invalid URL: x");
}
