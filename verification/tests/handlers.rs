use skeet_longer::bluesky::client::{ClientError, HttpFailure};
use skeet_longer::bluesky::url_parser::BlueskyUrlParts;
use skeet_longer::error::AppError;
use skeet_longer::handlers::{
    extract_bluesky_url, find_bluesky_url_in_text, get_thread, is_social_crawler,
    map_client_error, pick_shared_url, share_target, ShareQuery, ThreadQuery,
};

#[test]
fn test_extract_bluesky_url_from_url_param() {
    let params = ShareQuery {
        url: Some("https://bsky.app/profile/user.bsky.social/post/abc123".to_string()),
        text: None,
        title: None,
    };
    let result = extract_bluesky_url(&params);
    assert!(result.is_ok());
    assert_eq!(result.unwrap(), "https://bsky.app/profile/user.bsky.social/post/abc123");
}

#[test]
fn test_extract_bluesky_url_from_text() {
    let params = ShareQuery {
        url: None,
        text: Some(
            "Check this out: https://bsky.app/profile/user.bsky.social/post/abc123 cool!"
                .to_string(),
        ),
        title: None,
    };
    let result = extract_bluesky_url(&params);
    assert!(result.is_ok());
    assert_eq!(result.unwrap(), "https://bsky.app/profile/user.bsky.social/post/abc123");
}

#[test]
fn test_extract_bluesky_url_not_found() {
    let params = ShareQuery {
        url: Some("https://twitter.com/user/status/123".to_string()),
        text: None,
        title: None,
    };
    let result = extract_bluesky_url(&params);
    assert!(result.is_err());
}

#[test]
fn test_extract_bluesky_url_prefers_url_param() {
    let params = ShareQuery {
        url: Some("https://bsky.app/profile/first.bsky.social/post/111".to_string()),
        text: Some("Other link: https://bsky.app/profile/second.bsky.social/post/222".to_string()),
        title: None,
    };
    let result = extract_bluesky_url(&params);
    assert!(result.is_ok());
    assert!(result.unwrap().contains("first.bsky.social"));
}

#[test]
fn test_find_bluesky_url_in_text() {
    let text = "Look at this https://bsky.app/profile/test.bsky.social/post/xyz and more";
    let result = find_bluesky_url_in_text(text);
    assert!(result.is_some());
    assert_eq!(result.unwrap(), "https://bsky.app/profile/test.bsky.social/post/xyz");
}

#[test]
fn test_find_bluesky_url_in_text_no_match() {
    let text = "No Bluesky links here, just https://example.com";
    let result = find_bluesky_url_in_text(text);
    assert!(result.is_none());
}

#[test]
fn extract_falls_back_to_text_when_url_is_foreign() {
    let params = ShareQuery {
        url: Some("https://example.com/".to_string()),
        text: Some("see http://bsky.app/profile/a.test/post/9".to_string()),
        title: Some("ignored".to_string()),
    };
    assert_eq!(extract_bluesky_url(&params), Ok("http://bsky.app/profile/a.test/post/9".to_string()));
}

#[test]
fn extract_error_is_a_bad_request() {
    let params = ShareQuery { url: None, text: None, title: None };
    assert_eq!(
        extract_bluesky_url(&params),
        Err(AppError::BadRequest("No Bluesky URL found in shared content".to_string()))
    );
}

#[test]
fn pick_shared_url_on_plain_values() {
    let own = Some("https://bsky.app/x".to_string());
    let foreign = Some("https://example.com".to_string());
    assert_eq!(pick_shared_url(&own, Some("t".to_string())), Ok("https://bsky.app/x".to_string()));
    assert_eq!(pick_shared_url(&foreign, Some("t".to_string())), Ok("t".to_string()));
    assert_eq!(pick_shared_url(&None, Some("t".to_string())), Ok("t".to_string()));
    assert!(pick_shared_url(&foreign, None).is_err());
}

#[test]
fn share_target_redirects_to_the_front_page() {
    let params = ShareQuery {
        url: Some("https://bsky.app/profile/a.test/post/1?x=a b".to_string()),
        text: None,
        title: None,
    };
    assert_eq!(
        share_target(&params),
        Ok("/?url=https%3A%2F%2Fbsky.app%2Fprofile%2Fa.test%2Fpost%2F1%3Fx%3Da+b".to_string())
    );
    let nothing = ShareQuery { url: None, text: Some("hello".to_string()), title: None };
    assert!(matches!(share_target(&nothing), Err(AppError::BadRequest(_))));
}

#[test]
fn crawlers_are_known_by_their_names() {
    for agent in [
        "Twitterbot/1.0",
        "facebookexternalhit/1.1 (+http://www.facebook.com/externalhit_uatext.php)",
        "LinkedInBot/1.0",
        "WhatsApp/2.23",
        "Slackbot-LinkExpanding 1.0",
        "TelegramBot (like TwitterBot)",
        "Mozilla/5.0 (compatible; Discordbot/2.0)",
        "Mozilla/5.0 (compatible; Googlebot/2.1)",
        "Mozilla/5.0 (compatible; bingbot/2.0)",
        "Mozilla/5.0 (Applebot/0.1)",
    ] {
        assert!(is_social_crawler(agent), "{}", agent);
    }
    assert!(!is_social_crawler(""));
    assert!(!is_social_crawler("Mozilla/5.0 (X11; Linux x86_64) Firefox/120.0"));
    assert!(!is_social_crawler("twitterbot"));
}

#[test]
fn client_errors_are_reported() {
    assert_eq!(
        map_client_error(ClientError::NotFound),
        AppError::NotFound("post not found or deleted".to_string())
    );
    assert_eq!(
        map_client_error(ClientError::Blocked),
        AppError::NotFound("post is blocked".to_string())
    );
    assert_eq!(map_client_error(ClientError::RateLimited), AppError::RateLimited);
    let http = |is_connect, is_timeout| {
        ClientError::Http(HttpFailure { is_connect, is_timeout, message: "boom".to_string() })
    };
    assert_eq!(
        map_client_error(http(true, false)),
        AppError::ServiceUnavailable("cannot reach Bluesky API".to_string())
    );
    assert_eq!(
        map_client_error(http(true, true)),
        AppError::ServiceUnavailable("cannot reach Bluesky API".to_string())
    );
    assert_eq!(
        map_client_error(http(false, true)),
        AppError::ServiceUnavailable("request timed out".to_string())
    );
    assert_eq!(
        map_client_error(http(false, false)),
        AppError::Internal("HTTP error: boom".to_string())
    );
    assert_eq!(
        map_client_error(ClientError::Api("bad".to_string())),
        AppError::Internal("API error: bad".to_string())
    );
    assert_eq!(
        map_client_error(ClientError::InvalidResponse),
        AppError::Internal("invalid response structure".to_string())
    );
}

#[test]
fn thread_query_without_address_asks_for_the_landing_page() {
    assert_eq!(get_thread(&ThreadQuery { url: None }), Ok(None));
    assert_eq!(get_thread(&ThreadQuery { url: Some(String::new()) }), Ok(None));
}

#[test]
fn thread_query_with_address() {
    assert_eq!(
        get_thread(&ThreadQuery { url: Some("https://bsky.app/profile/a.test/post/1".to_string()) }),
        Ok(Some(BlueskyUrlParts { handle: "a.test".to_string(), post_id: "1".to_string() }))
    );
    assert_eq!(
        get_thread(&ThreadQuery { url: Some("https://example.com/".to_string()) }),
        Err(AppError::BadRequest("URL must be a bsky.app link".to_string()))
    );
    assert_eq!(
        get_thread(&ThreadQuery { url: Some("https://bsky.app/".to_string()) }),
        Err(AppError::BadRequest(
            "URL must be a post link (e.g., bsky.app/profile/user/post/id)".to_string()
        ))
    );
    assert_eq!(
        get_thread(&ThreadQuery { url: Some("nope".to_string()) }),
        Err(AppError::BadRequest("invalid URL: relative URL without a base".to_string()))
    );
}
