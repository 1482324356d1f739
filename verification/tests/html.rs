use skeet_longer::bluesky::types::{
    post_url, AspectRatio, Author, Embed, EmbedExternal, EmbedImage, EmbedVideo, Thread,
    ThreadPost,
};
use skeet_longer::error::AppError;
use skeet_longer::html::renderer::{
    linkify_text, render_embed, render_footer, render_header, render_images, render_post,
    render_thread, render_video, weave_links, write_anchor, write_post,
};
use skeet_longer::html::templates::{
    base_template, base_template_with_options, error_page, landing_page, streaming_error,
    streaming_footer, streaming_head, streaming_loading_indicator,
    streaming_post_before_indicator, write_footer, write_header, StreamingHeadOptions,
    TemplateOptions, CSS_STYLES, PWA_META_TAGS, SERVICE_WORKER_REGISTRATION, THEME_SCRIPT,
    THEME_TOGGLE_SCRIPT,
};
use skeet_longer::logging::LoggingError;
use skeet_longer::time::Timestamp;

fn alice() -> Author {
    Author {
        did: "did:plc:alice".to_string(),
        handle: "alice.test".to_string(),
        display_name: Some("Alice <A>".to_string()),
        avatar_url: Some("https://cdn.test/a.png?x=1&y=2".to_string()),
    }
}

fn post(n: u32, text: &str) -> ThreadPost {
    ThreadPost {
        uri: format!("at://did:plc:alice/app.bsky.feed.post/k{}", n),
        cid: format!("cid{}", n),
        text: text.to_string(),
        created_at: Timestamp::from_unix(1704110400, 0).unwrap(),
        reply_count: Some(1),
        repost_count: Some(0),
        like_count: Some(3),
        embed: None,
        langs: vec!["de".to_string()],
    }
}

#[test]
fn base_page_is_put_together_in_order() {
    let page = base_template("T & <t>", "<p>content</p>");
    let expected = format!(
        "<!DOCTYPE html>\n<html lang=\"en\">\n<head>\n    <meta charset=\"utf-8\">\n    \
         <meta name=\"viewport\" content=\"width=device-width, initial-scale=1\">\n    \
         <title>T &amp; &lt;t&gt;</title>\n    {}\n    <script>{}</script>\n    \
         <style>{}</style>\n</head>\n<body>\n<p>content</p>\n<script>{}{}</script>\n</body>\n</html>",
        PWA_META_TAGS, THEME_SCRIPT, CSS_STYLES, THEME_TOGGLE_SCRIPT, SERVICE_WORKER_REGISTRATION
    );
    assert_eq!(page, expected);
}

#[test]
fn base_page_with_icon_and_language() {
    let options = TemplateOptions { favicon_url: Some("https://x.test/i.png?a=\"b\""), lang: Some("de") };
    let page = base_template_with_options("T", "c", options);
    assert!(page.starts_with("<!DOCTYPE html>\n<html lang=\"de\">\n<head>"));
    assert!(page.contains(
        "<title>T</title>\n    <link rel=\"icon\" type=\"image/png\" \
         href=\"https://x.test/i.png?a=&quot;b&quot;\">\n    <link rel=\"manifest\""
    ));
    let plain = base_template_with_options("T", "c", TemplateOptions::default());
    assert_eq!(plain, base_template("T", "c"));
}

#[test]
fn landing_page_holds_the_form() {
    let page = landing_page();
    assert!(page.contains("<title>Skeet Longer - Bluesky Thread Reader</title>"));
    assert!(page.contains("<form class=\"landing-form\" action=\"/\" method=\"get\">"));
    assert!(page.ends_with("</script>\n</body>\n</html>"));
}

#[test]
fn error_page_escapes_title_and_message() {
    let page = error_page(404, "Not <Found>", "no such post & more");
    assert!(page.contains("<title>404 - Not &lt;Found&gt;</title>"));
    assert!(page.contains(
        "<main class=\"error-page\">\n    <h1>404</h1>\n    <p>Not &lt;Found&gt;: no such post \
         &amp; more</p>\n    <a href=\"/\">Try another thread</a>\n</main>"
    ));
}

#[test]
fn app_errors_become_responses() {
    let (status, page) = AppError::NotFound("post is blocked".to_string()).into_response();
    assert_eq!(status, 404);
    assert_eq!(page, error_page(404, "Not Found", "post is blocked"));
    let (status, page) = AppError::BadRequest("bad".to_string()).into_response();
    assert_eq!((status, page), (400, error_page(400, "Bad Request", "bad")));
    let (status, page) = AppError::RateLimited.into_response();
    assert_eq!(
        (status, page),
        (429, error_page(429, "Too Many Requests", "Rate limit exceeded. Please try again later."))
    );
    let (status, page) = AppError::Internal("secret detail".to_string()).into_response();
    assert_eq!(
        (status, page.clone()),
        (500, error_page(500, "Internal Server Error", "An unexpected error occurred."))
    );
    assert!(!page.contains("secret detail"));
    let (status, page) = AppError::ServiceUnavailable("down".to_string()).into_response();
    assert_eq!((status, page), (503, error_page(503, "Service Unavailable", "down")));
}

#[test]
fn app_error_sentences() {
    assert_eq!(AppError::BadRequest("x".to_string()).to_string(), "bad request: x");
    assert_eq!(AppError::NotFound("x".to_string()).to_string(), "not found: x");
    assert_eq!(AppError::RateLimited.to_string(), "rate limited");
    assert_eq!(AppError::Internal("x".to_string()).to_string(), "internal error: x");
    assert_eq!(
        AppError::ServiceUnavailable("x".to_string()).to_string(),
        "service unavailable: x"
    );
    assert_eq!(AppError::RateLimited.status_code(), 429);
}

#[test]
fn logging_error_sentences() {
    assert_eq!(
        LoggingError::InvalidLogLevel("loud".to_string()).to_string(),
        "failed to parse log level: loud"
    );
    assert_eq!(
        LoggingError::SubscriberInit.to_string(),
        "failed to initialize tracing subscriber"
    );
}

#[test]
fn text_is_escaped_for_html() {
    assert_eq!(
        streaming_error("a < b && c > d \"q\" 'x' é"),
        "<div class=\"stream-error\">\n    <p>Error loading thread: a &lt; b &amp;&amp; c &gt; d \
         \"q\" 'x' é</p>\n</div>\n</main>\n<footer>\n    <a href=\"/\">Try another thread</a>\n\
         </footer>\n<script>\ndocument.getElementById('loading-indicator')?.remove();\n</script>\n\
         </body>\n</html>"
    );
}

#[test]
fn attributes_are_escaped_for_html() {
    assert_eq!(
        write_footer("https://x.test/?a=1&b=\"2\"&c='3'<>"),
        "<footer>\n    <a href=\"https://x.test/?a=1&amp;b=&quot;2&quot;&amp;c=&#x27;3&#x27;&lt;&gt;\" \
         target=\"_blank\" rel=\"noopener\">View original on Bluesky</a>\n</footer>\n"
    );
}

#[test]
fn header_with_avatar() {
    let html = render_header(&alice());
    assert!(html.starts_with("<header>\n    <a href=\"/\" class=\"home-link\" aria-label=\"Home\">"));
    assert!(html.contains(
        "<a href=\"https://bsky.app/profile/alice.test\" class=\"author\" target=\"_blank\" \
         rel=\"noopener\">\n        <img class=\"avatar\" \
         src=\"https://cdn.test/a.png?x=1&amp;y=2\" alt=\"Alice &lt;A&gt;'s avatar\">\n        \
         <div class=\"author-info\">\n            <span class=\"display-name\">Alice \
         &lt;A&gt;</span>\n            <span class=\"handle\">@alice.test</span>"
    ));
    assert!(html.ends_with("</button>\n</header>\n"));
}

#[test]
fn header_without_avatar_shows_the_initial() {
    let html = write_header("bob.test", None, None, "https://bsky.app/profile/bob.test");
    assert!(html.contains(
        "<div class=\"avatar-placeholder\" role=\"img\" aria-label=\"bob.test's \
         avatar\">B</div>"
    ));
    assert!(html.contains("<span class=\"display-name\">bob.test</span>"));
    let html = write_header("x.test", Some("ßeta"), None, "p");
    assert!(html.contains("aria-label=\"ßeta's avatar\">SS</div>"));
    let html = write_header("x.test", Some(""), None, "p");
    assert!(html.contains("aria-label=\"'s avatar\">?</div>"));
}

#[test]
fn web_addresses_become_links() {
    assert_eq!(linkify_text("no links here"), "no links here");
    assert_eq!(linkify_text(""), "");
    assert_eq!(
        linkify_text("see https://example.com/a and http://b.test."),
        "see <a href=\"https://example.com/a\" target=\"_blank\" \
         rel=\"noopener\">https://example.com/a</a> and <a href=\"http://b.test.\" \
         target=\"_blank\" rel=\"noopener\">http://b.test.</a>"
    );
    assert_eq!(
        linkify_text("https://a.test&lt;end"),
        "<a href=\"https://a.test&lt;end\" target=\"_blank\" \
         rel=\"noopener\">https://a.test&lt;end</a>"
    );
    assert_eq!(
        linkify_text("x<https://a.test>y"),
        "x<<a href=\"https://a.test\" target=\"_blank\" rel=\"noopener\">https://a.test</a>>y"
    );
}

#[test]
fn long_addresses_are_shown_cut() {
    let forty = "https://example.com/0123456789012345678x";
    assert_eq!(forty.len(), 40);
    assert_eq!(
        write_anchor(forty),
        format!("<a href=\"{0}\" target=\"_blank\" rel=\"noopener\">{0}</a>", forty)
    );
    let longer = "https://example.com/0123456789012345678xy";
    assert_eq!(
        write_anchor(longer),
        format!(
            "<a href=\"{}\" target=\"_blank\" rel=\"noopener\">https://example.com/01234567890123456...</a>",
            longer
        )
    );
}

#[test]
fn links_are_woven_between_the_gaps() {
    let gaps = vec!["a ".to_string(), " b ".to_string(), String::new()];
    let urls = vec!["http://x".to_string(), "http://y".to_string()];
    assert_eq!(
        weave_links(&gaps, &urls),
        "a <a href=\"http://x\" target=\"_blank\" rel=\"noopener\">http://x</a> b <a \
         href=\"http://y\" target=\"_blank\" rel=\"noopener\">http://y</a>"
    );
    assert_eq!(weave_links(&vec!["only".to_string()], &vec![]), "only");
}

#[test]
fn post_is_rendered() {
    let html = render_post(&post(1, "Hello <world> https://example.com/x"), "alice.test");
    assert_eq!(
        html,
        "<article class=\"post\">\n    <div class=\"post-text\">Hello &lt;world&gt; <a \
         href=\"https://example.com/x\" target=\"_blank\" \
         rel=\"noopener\">https://example.com/x</a></div>\n    \n    <a \
         href=\"https://bsky.app/profile/alice.test/post/k1\" target=\"_blank\" rel=\"noopener\" \
         class=\"post-meta\"><time datetime=\"2024-01-01T12:00:00+00:00\">Jan 01, 2024 at 12:00 \
         UTC</time> &middot; 3 likes</a>\n</article>\n"
    );
}

#[test]
fn post_counters_are_shown_when_positive() {
    let mut p = post(1, "x");
    p.like_count = Some(0);
    p.repost_count = Some(12);
    assert!(render_post(&p, "a.test").contains("UTC</time> &middot; 12 reposts</a>"));
    p.like_count = Some(1);
    assert!(render_post(&p, "a.test").contains("UTC</time> &middot; 1 likes &middot; 12 reposts</a>"));
    p.like_count = None;
    p.repost_count = None;
    assert!(render_post(&p, "a.test").contains("UTC</time></a>"));
}

#[test]
fn post_url_uses_the_record_key() {
    assert_eq!(
        post_url("alice.test", "at://did:plc:alice/app.bsky.feed.post/3k2"),
        "https://bsky.app/profile/alice.test/post/3k2"
    );
    assert_eq!(post_url("alice.test", ""), "https://bsky.app/profile/alice.test/post/");
}

#[test]
fn images_are_laid_out_by_their_number() {
    let image = |n: u32, ratio| EmbedImage {
        thumb_url: format!("https://cdn.test/t{}", n),
        fullsize_url: format!("https://cdn.test/f{}", n),
        alt: format!("alt \"{}\"", n),
        aspect_ratio: ratio,
    };
    assert_eq!(render_images(&vec![]), "");
    let one = render_images(&vec![image(1, Some(AspectRatio { width: 4, height: 3 }))]);
    assert_eq!(
        one,
        "<div class=\"embed-images single\"><a href=\"https://cdn.test/f1\" target=\"_blank\" \
         rel=\"noopener\" class=\"embed-image-link\">\n    <img src=\"https://cdn.test/t1\" \
         alt=\"alt &quot;1&quot;\" class=\"embed-image\" style=\"aspect-ratio: 4 / 3;\" \
         loading=\"lazy\">\n</a></div>"
    );
    let two = render_images(&vec![image(1, None), image(2, None)]);
    assert!(two.starts_with("<div class=\"embed-images double\"><a href=\"https://cdn.test/f1\""));
    assert!(two.contains("style=\"\" loading=\"lazy\">\n</a><a href=\"https://cdn.test/f2\""));
    let three = render_images(&vec![image(1, None), image(2, None), image(3, None)]);
    assert!(three.starts_with("<div class=\"embed-images grid\">"));
    assert_eq!(three.matches("<img ").count(), 3);
    assert_eq!(render_embed(&Embed::Images(vec![image(1, None)])), render_images(&vec![image(1, None)]));
}

#[test]
fn video_is_rendered() {
    let video = EmbedVideo {
        thumbnail_url: None,
        playlist_url: "https://v.test/p.m3u8?a=1&b=2".to_string(),
        alt: None,
        aspect_ratio: None,
    };
    assert_eq!(
        render_video(&video),
        "<div class=\"embed-video\" style=\"aspect-ratio: 16 / 9;\">\n    <video controls \
         playsinline preload=\"metadata\" aria-label=\"Video\">\n        <source \
         src=\"https://v.test/p.m3u8?a=1&amp;b=2\" type=\"application/x-mpegURL\">\n        Your \
         browser does not support HLS video.\n    </video>\n</div>"
    );
    let video = EmbedVideo {
        alt: Some("a 'clip'".to_string()),
        aspect_ratio: Some(AspectRatio { width: 1080, height: 1920 }),
        ..video
    };
    let html = render_embed(&Embed::Video(video));
    assert!(html.starts_with("<div class=\"embed-video\" style=\"aspect-ratio: 1080 / 1920;\">"));
    assert!(html.contains("aria-label=\"a &#x27;clip&#x27;\""));
}

#[test]
fn link_card_is_rendered() {
    let card = EmbedExternal {
        uri: "https://news.test/?q=\"x\"".to_string(),
        title: "Title & more".to_string(),
        description: "<b>bold</b>".to_string(),
        thumb_url: Some("https://cdn.test/th".to_string()),
    };
    assert_eq!(
        render_embed(&Embed::External(card.clone())),
        "<a href=\"https://news.test/?q=&quot;x&quot;\" target=\"_blank\" rel=\"noopener\" \
         class=\"embed-external\">\n    <img src=\"https://cdn.test/th\" alt=\"\" \
         class=\"external-thumb\" loading=\"lazy\">\n    <div class=\"external-info\">\n        \
         <div class=\"external-title\">Title &amp; more</div>\n        <div \
         class=\"external-description\">&lt;b&gt;bold&lt;/b&gt;</div>\n    </div>\n</a>"
    );
    let bare = render_embed(&Embed::External(EmbedExternal { thumb_url: None, ..card }));
    assert!(bare.contains("class=\"embed-external\">\n    \n    <div class=\"external-info\">"));
}

#[test]
fn post_with_media_holds_it_between_text_and_link() {
    let mut p = post(1, "x");
    let video = EmbedVideo {
        thumbnail_url: None,
        playlist_url: "https://v.test/p".to_string(),
        alt: None,
        aspect_ratio: None,
    };
    p.embed = Some(Embed::Video(video.clone()));
    let html = render_post(&p, "alice.test");
    assert!(html.contains(&format!(
        "<div class=\"post-text\">x</div>\n    {}\n    <a href=\"https://bsky.app",
        render_video(&video)
    )));
}

#[test]
fn thread_page_is_header_posts_and_footer() {
    let thread = Thread { posts: vec![post(1, "one"), post(2, "two")], author: alice() };
    let page = render_thread(&thread);
    let content = format!(
        "{}<main class=\"thread\">\n{}{}</main>\n{}",
        render_header(&thread.author),
        render_post(&thread.posts[0], "alice.test"),
        render_post(&thread.posts[1], "alice.test"),
        render_footer(&thread)
    );
    let options = TemplateOptions {
        favicon_url: Some("https://cdn.test/a.png?x=1&y=2"),
        lang: Some("de"),
    };
    assert_eq!(
        page,
        base_template_with_options("Thread by @alice.test - skeet-longer", &content, options)
    );
    assert_eq!(
        thread.original_post_url(),
        Some("https://bsky.app/profile/alice.test/post/k1".to_string())
    );
    assert_eq!(render_footer(&thread), write_footer("https://bsky.app/profile/alice.test/post/k1"));
    assert_eq!(thread.primary_language(), Some("de"));
}

#[test]
fn thread_without_posts_links_home() {
    let thread = Thread { posts: vec![], author: alice() };
    assert_eq!(thread.original_post_url(), None);
    assert_eq!(thread.primary_language(), None);
    assert_eq!(render_footer(&thread), write_footer("https://bsky.app"));
    assert!(render_thread(&thread).contains("<main class=\"thread\">\n</main>\n<footer>"));
    assert!(render_thread(&thread).starts_with("<!DOCTYPE html>\n<html lang=\"en\">"));
}

#[test]
fn thread_title_is_escaped_twice() {
    let mut author = alice();
    author.handle = "a&b".to_string();
    let thread = Thread { posts: vec![], author };
    assert!(render_thread(&thread).contains("<title>Thread by @a&amp;amp;b - skeet-longer</title>"));
}

#[test]
fn streaming_head_opens_the_page() {
    let head = streaming_head(StreamingHeadOptions {
        author_handle: "alice.test",
        author_display_name: Some("Alice"),
        avatar_url: None,
        profile_url: "https://bsky.app/profile/alice.test",
        lang: None,
    });
    let whole = base_template("Thread by @alice.test - skeet-longer", "");
    let body_at = whole.find("<body>\n").unwrap() + "<body>\n".len();
    let expected = format!(
        "{}{}<main class=\"thread\">\n",
        &whole[..body_at],
        write_header("alice.test", Some("Alice"), None, "https://bsky.app/profile/alice.test")
    );
    assert_eq!(head, expected);
}

#[test]
fn streaming_pieces() {
    assert_eq!(
        streaming_loading_indicator(),
        "<div class=\"loading-indicator\" id=\"loading-indicator\">Loading more...</div>\n"
    );
    assert_eq!(
        streaming_post_before_indicator("<p>x</p>"),
        "<p>x</p><script>(function(){var l=document.getElementById('loading-indicator');if(l)l.\
         parentNode.appendChild(l);})();</script>\n"
    );
    assert_eq!(
        streaming_footer("https://bsky.app/profile/a.test/post/1"),
        format!(
            "</main>\n<footer>\n    <a href=\"https://bsky.app/profile/a.test/post/1\" \
             target=\"_blank\" rel=\"noopener\">View original on Bluesky</a>\n</footer>\n<script>\n\
             document.getElementById('loading-indicator')?.remove();\n{}{}\n</script>\n</body>\n\
             </html>",
            THEME_TOGGLE_SCRIPT, SERVICE_WORKER_REGISTRATION
        )
    );
}

#[test]
fn author_profile_url() {
    assert_eq!(alice().profile_url(), "https://bsky.app/profile/alice.test");
}

#[test]
fn post_is_written_around_given_text_and_date() {
    let html = write_post(&post(1, "ignored"), "alice.test", "<b>text</b>", "DT", "shown");
    assert_eq!(
        html,
        "<article class=\"post\">\n    <div class=\"post-text\"><b>text</b></div>\n    \n    <a \
         href=\"https://bsky.app/profile/alice.test/post/k1\" target=\"_blank\" rel=\"noopener\" \
         class=\"post-meta\"><time datetime=\"DT\">shown</time> &middot; 3 likes</a>\n</article>\n"
    );
}
