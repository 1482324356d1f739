//! The page of a thread: the author's header, each post with its media and
//! counters, and the footer.

use crate::bluesky::types::{
    opt_text, post_url, post_url_of, profile_url_of, texts, AspectRatio, Author, Embed,
    EmbedExternal, EmbedImage, EmbedModel, EmbedVideo, ExternalModel, ImageModel, PostModel,
    Thread, ThreadModel, ThreadPost, VideoModel,
};
use crate::html::escape::{
    attribute_escaped, encode_quoted_attribute, encode_text, text_escaped,
};
use crate::html::templates::{
    base_page, base_template_with_options, footer_of, header_of_thread, opt_str, thread_title,
    write_footer, write_header, write_thread_title, TemplateOptions, MAIN_CLOSE, MAIN_OPEN,
};
use crate::pattern::{cut_at_matches, regex_gaps, regex_hits};
use crate::text::{chars_of, decimal, decimal_string, string_of};
use crate::time::{rfc3339_text, simple_pattern, strftime_text};
use vstd::prelude::*;
use vstd::string::*;

verus! {

/// A post up to its text.
pub const POST_OPEN: &'static str = r#"<article class="post">
    <div class="post-text">"#;

/// From the text of a post to its media.
pub const POST_TEXT_CLOSE: &'static str = r#"</div>
    "#;

/// From the media of a post to the address of the post.
pub const POST_LINK_OPEN: &'static str = r#"
    <a href=""#;

/// From the address of a post to its date and counters.
pub const POST_META_OPEN: &'static str = r#"" target="_blank" rel="noopener" class="post-meta">"#;

/// The end of a post.
pub const POST_CLOSE: &'static str = r#"</a>
</article>
"#;

/// From the address of a full image to that of its thumbnail.
pub const IMAGE_SRC_OPEN: &'static str = r#"" target="_blank" rel="noopener" class="embed-image-link">
    <img src=""#;

/// From the description of an image to its style.
pub const IMAGE_STYLE_OPEN: &'static str = r#"" class="embed-image" style=""#;

/// The end of an image.
pub const IMAGE_CLOSE: &'static str = r#"" loading="lazy">
</a>"#;

/// A video up to its style.
pub const VIDEO_OPEN: &'static str = r#"<div class="embed-video" style=""#;

/// From the style of a video to its description.
pub const VIDEO_LABEL_OPEN: &'static str = r#"">
    <video controls playsinline preload="metadata" aria-label=""#;

/// From the description of a video to the address of its playlist.
pub const VIDEO_SOURCE_OPEN: &'static str = r#"">
        <source src=""#;

/// The end of a video.
pub const VIDEO_CLOSE: &'static str = r#"" type="application/x-mpegURL">
        Your browser does not support HLS video.
    </video>
</div>"#;

/// The end of the thumbnail of a link card.
pub const THUMB_CLOSE: &'static str = r#"" alt="" class="external-thumb" loading="lazy">"#;

/// From the address of a link card to its thumbnail.
pub const EXTERNAL_OPEN: &'static str = r#"" target="_blank" rel="noopener" class="embed-external">
    "#;

/// From the thumbnail of a link card to its title.
pub const EXTERNAL_TITLE_OPEN: &'static str = r#"
    <div class="external-info">
        <div class="external-title">"#;

/// From the title of a link card to its description.
pub const EXTERNAL_DESCRIPTION_OPEN: &'static str = r#"</div>
        <div class="external-description">"#;

/// The end of a link card.
pub const EXTERNAL_CLOSE: &'static str = r#"</div>
    </div>
</a>"#;

/// From the address of a link to its text.
pub const ANCHOR_TARGET: &'static str = r#"" target="_blank" rel="noopener">"#;

/// What counts as a web address in the text of a post: `http://` or
/// `https://` and what follows up to white space or an angle bracket.
pub const URL_PATTERN: &'static str = r"https?://[^\s<>]+";

/// How the date of a post is shown.
pub const TIME_PATTERN: &'static str = "%b %d, %Y at %H:%M UTC";

/// What stands between the date of a post and its counters.
pub const META_SEPARATOR: &'static str = " &middot; ";

/// The address that stands for a thread without posts.
pub const HOME_URL: &'static str = "https://bsky.app";

/// An optional string as an optional slice.
pub fn as_slice(s: &Option<String>) -> (r: Option<&str>)
    ensures
        opt_str(r) == opt_text(*s),
{
    match s {
        Some(s) => Some(s.as_str()),
        None => None,
    }
}

/// The text of a link: the address itself, and of an address of more than
/// 40 characters the first 37 and three dots.
pub open spec fn shown_url(url: Seq<char>) -> Seq<char> {
    if url.len() > 40 {
        url.subrange(0, 37) + "..."@
    } else {
        url
    }
}

/// The link that a web address becomes.
pub open spec fn anchor_of(url: Seq<char>) -> Seq<char> {
    "<a href=\""@ + url + ANCHOR_TARGET@ + shown_url(url) + "</a>"@
}

/// A text put together again from the parts between its web addresses and
/// the addresses, each address as a link.
pub open spec fn woven(gaps: Seq<Seq<char>>, urls: Seq<Seq<char>>) -> Seq<char>
    recommends
        gaps.len() == urls.len() + 1,
    decreases urls.len(),
{
    if urls.len() == 0 || gaps.len() == 0 {
        if gaps.len() > 0 {
            gaps[0]
        } else {
            Seq::empty()
        }
    } else {
        woven(gaps.drop_last(), urls.drop_last()) + anchor_of(urls.last()) + gaps.last()
    }
}

/// A text with each web address in it made a link. The addresses are the
/// matches of `URL_PATTERN`.
pub open spec fn linkified(text: Seq<char>) -> Seq<char> {
    match (regex_gaps(URL_PATTERN@, text), regex_hits(URL_PATTERN@, text)) {
        (Some(gaps), Some(urls)) => woven(gaps, urls),
        _ => text,
    }
}

/// The link that a web address becomes.
pub fn write_anchor(url: &str) -> (r: String)
    ensures
        r@ == anchor_of(url@),
{
    let chars = chars_of(url);
    let mut r = String::from_str("<a href=\"");
    r.append(url);
    r.append(ANCHOR_TARGET);
    if chars.len() > 40 {
        r.append(string_of(&chars, 0, 37).as_str());
        r.append("...");
    } else {
        r.append(url);
    }
    r.append("</a>");
    r
}

/// Puts a text together again from the parts between its web addresses and
/// the addresses, each address as a link.
pub fn weave_links(gaps: &Vec<String>, urls: &Vec<String>) -> (r: String)
    requires
        gaps.len() == urls.len() + 1,
    ensures
        r@ == woven(texts(gaps@), texts(urls@)),
{
    let ghost all_gaps = texts(gaps@);
    let ghost all_urls = texts(urls@);
    let mut r = String::from_str(gaps[0].as_str());
    let mut i: usize = 0;
    while i < urls.len()
        invariant
            i <= urls.len(),
            gaps.len() == urls.len() + 1,
            all_gaps == texts(gaps@),
            all_urls == texts(urls@),
            r@ == woven(all_gaps.take(i + 1), all_urls.take(i as int)),
        decreases urls.len() - i,
    {
        r.append(write_anchor(urls[i].as_str()).as_str());
        r.append(gaps[i + 1].as_str());
        proof {
            assert(all_gaps.take(i + 2).drop_last() =~= all_gaps.take(i + 1));
            assert(all_urls.take(i + 1).drop_last() =~= all_urls.take(i as int));
        }
        i += 1;
    }
    assert(all_gaps.take(i + 1) =~= all_gaps);
    assert(all_urls.take(i as int) =~= all_urls);
    r
}

/// Makes each web address in `text` a link.
pub fn linkify_text(text: &str) -> (r: String)
    ensures
        r@ == linkified(text@),
{
    match cut_at_matches(URL_PATTERN, text) {
        Some((gaps, urls)) => weave_links(&gaps, &urls),
        None => String::from_str(text),
    }
}

/// The style that gives a piece of media its shape.
pub open spec fn aspect_style(ratio: AspectRatio) -> Seq<char> {
    "aspect-ratio: "@ + decimal(ratio.width as nat) + " / "@ + decimal(ratio.height as nat) + ";"@
}

fn write_aspect_style(ratio: &AspectRatio) -> (r: String)
    ensures
        r@ == aspect_style(*ratio),
{
    let mut r = String::from_str("aspect-ratio: ");
    r.append(decimal_string(ratio.width as u64).as_str());
    r.append(" / ");
    r.append(decimal_string(ratio.height as u64).as_str());
    r.append(";");
    r
}

/// One image: a link to the full image around its thumbnail. An image
/// without a known shape has an empty style.
pub open spec fn image_html(image: ImageModel) -> Seq<char> {
    "<a href=\""@ + attribute_escaped(image.fullsize_url) + IMAGE_SRC_OPEN@ + attribute_escaped(
        image.thumb_url,
    ) + "\" alt=\""@ + attribute_escaped(image.alt) + IMAGE_STYLE_OPEN@ + (match image.aspect_ratio {
        Some(ratio) => aspect_style(ratio),
        None => Seq::empty(),
    }) + IMAGE_CLOSE@
}

/// The images of a list, one after the other.
pub open spec fn images_html(images: Seq<ImageModel>) -> Seq<char>
    decreases images.len(),
{
    if images.len() == 0 {
        Seq::empty()
    } else {
        images_html(images.drop_last()) + image_html(images.last())
    }
}

/// How a group of images is laid out: by their number.
pub open spec fn layout_of(count: nat) -> Seq<char> {
    if count == 1 {
        "single"@
    } else if count == 2 {
        "double"@
    } else {
        "grid"@
    }
}

/// The images of a post; nothing where there is none.
pub open spec fn image_group_html(images: Seq<ImageModel>) -> Seq<char> {
    if images.len() == 0 {
        Seq::empty()
    } else {
        "<div class=\""@ + ("embed-images "@ + layout_of(images.len())) + "\">"@ + images_html(
            images,
        ) + "</div>"@
    }
}

fn write_image(image: &EmbedImage) -> (r: String)
    ensures
        r@ == image_html(image@),
{
    let mut r = String::from_str("<a href=\"");
    r.append(encode_quoted_attribute(image.fullsize_url.as_str()).as_str());
    r.append(IMAGE_SRC_OPEN);
    r.append(encode_quoted_attribute(image.thumb_url.as_str()).as_str());
    r.append("\" alt=\"");
    r.append(encode_quoted_attribute(image.alt.as_str()).as_str());
    r.append(IMAGE_STYLE_OPEN);
    match &image.aspect_ratio {
        Some(ratio) => {
            r.append(write_aspect_style(ratio).as_str());
        },
        None => {},
    }
    r.append(IMAGE_CLOSE);
    r
}

/// The images of a post.
pub fn render_images(images: &Vec<EmbedImage>) -> (r: String)
    ensures
        r@ == image_group_html(images@.map_values(|i: EmbedImage| i@)),
{
    let ghost all = images@.map_values(|i: EmbedImage| i@);
    if images.len() == 0 {
        return String::new();
    }
    let mut class = String::from_str("embed-images ");
    if images.len() == 1 {
        class.append("single");
    } else if images.len() == 2 {
        class.append("double");
    } else {
        class.append("grid");
    }
    let mut items = String::new();
    let mut i: usize = 0;
    while i < images.len()
        invariant
            i <= images.len(),
            all == images@.map_values(|i: EmbedImage| i@),
            items@ == images_html(all.take(i as int)),
        decreases images.len() - i,
    {
        items.append(write_image(&images[i]).as_str());
        proof {
            assert(all.take(i + 1).drop_last() =~= all.take(i as int));
        }
        i += 1;
    }
    assert(all.take(i as int) =~= all);
    let mut r = String::from_str("<div class=\"");
    r.append(class.as_str());
    r.append("\">");
    r.append(items.as_str());
    r.append("</div>");
    r
}

/// The video of a post. A video without a known shape is shown 16 by 9, one
/// without a description is described as `Video`.
pub open spec fn video_html(video: VideoModel) -> Seq<char> {
    VIDEO_OPEN@ + (match video.aspect_ratio {
        Some(ratio) => aspect_style(ratio),
        None => "aspect-ratio: 16 / 9;"@,
    }) + VIDEO_LABEL_OPEN@ + attribute_escaped(
        match video.alt {
            Some(alt) => alt,
            None => "Video"@,
        },
    ) + VIDEO_SOURCE_OPEN@ + attribute_escaped(video.playlist_url) + VIDEO_CLOSE@
}

/// The video of a post.
pub fn render_video(video: &EmbedVideo) -> (r: String)
    ensures
        r@ == video_html(video@),
{
    let style = match &video.aspect_ratio {
        Some(ratio) => write_aspect_style(ratio),
        None => String::from_str("aspect-ratio: 16 / 9;"),
    };
    let alt = match &video.alt {
        Some(alt) => alt.as_str(),
        None => "Video",
    };
    let mut r = String::from_str(VIDEO_OPEN);
    r.append(style.as_str());
    r.append(VIDEO_LABEL_OPEN);
    r.append(encode_quoted_attribute(alt).as_str());
    r.append(VIDEO_SOURCE_OPEN);
    r.append(encode_quoted_attribute(video.playlist_url.as_str()).as_str());
    r.append(VIDEO_CLOSE);
    r
}

/// The link card of a post, with its thumbnail where it has one.
pub open spec fn external_html(external: ExternalModel) -> Seq<char> {
    "<a href=\""@ + attribute_escaped(external.uri) + EXTERNAL_OPEN@ + (match external.thumb_url {
        Some(url) => "<img src=\""@ + attribute_escaped(url) + THUMB_CLOSE@,
        None => Seq::empty(),
    }) + EXTERNAL_TITLE_OPEN@ + text_escaped(external.title) + EXTERNAL_DESCRIPTION_OPEN@
        + text_escaped(external.description) + EXTERNAL_CLOSE@
}

/// The link card of a post.
pub fn render_external(external: &EmbedExternal) -> (r: String)
    ensures
        r@ == external_html(external@),
{
    let thumb = match &external.thumb_url {
        Some(url) => {
            let mut thumb = String::from_str("<img src=\"");
            thumb.append(encode_quoted_attribute(url.as_str()).as_str());
            thumb.append(THUMB_CLOSE);
            thumb
        },
        None => String::new(),
    };
    let mut r = String::from_str("<a href=\"");
    r.append(encode_quoted_attribute(external.uri.as_str()).as_str());
    r.append(EXTERNAL_OPEN);
    r.append(thumb.as_str());
    r.append(EXTERNAL_TITLE_OPEN);
    r.append(encode_text(external.title.as_str()).as_str());
    r.append(EXTERNAL_DESCRIPTION_OPEN);
    r.append(encode_text(external.description.as_str()).as_str());
    r.append(EXTERNAL_CLOSE);
    r
}

/// The media of a post.
pub open spec fn embed_html(embed: EmbedModel) -> Seq<char> {
    match embed {
        EmbedModel::Images(images) => image_group_html(images),
        EmbedModel::Video(video) => video_html(video),
        EmbedModel::External(external) => external_html(external),
    }
}

/// The media of a post.
pub fn render_embed(embed: &Embed) -> (r: String)
    ensures
        r@ == embed_html(embed@),
{
    match embed {
        Embed::Images(images) => render_images(images),
        Embed::Video(video) => render_video(video),
        Embed::External(external) => render_external(external),
    }
}

/// A counter as it is shown after the date: nothing where it is missing or
/// zero, else the separator, the number and the word.
pub open spec fn counter_html(count: Option<u32>, word: Seq<char>) -> Seq<char> {
    match count {
        Some(n) => if n > 0 {
            META_SEPARATOR@ + decimal(n as nat) + word
        } else {
            Seq::empty()
        },
        None => Seq::empty(),
    }
}

/// The date of a post: `datetime` for machines, `shown` for readers.
pub open spec fn time_html(datetime: Seq<char>, shown: Seq<char>) -> Seq<char> {
    "<time datetime=\""@ + datetime + "\">"@ + shown + "</time>"@
}

/// One post, given its text as HTML and its date in both forms: the text,
/// the media, and a link to the post on the author's profile around the
/// date, the likes and the reposts.
pub open spec fn post_html_of(
    post: PostModel,
    handle: Seq<char>,
    text: Seq<char>,
    datetime: Seq<char>,
    shown: Seq<char>,
) -> Seq<char> {
    POST_OPEN@ + text + POST_TEXT_CLOSE@ + (match post.embed {
        Some(embed) => embed_html(embed),
        None => Seq::empty(),
    }) + POST_LINK_OPEN@ + attribute_escaped(post_url_of(handle, post.uri)) + POST_META_OPEN@ + (
    time_html(datetime, shown) + counter_html(post.like_count, " likes"@) + counter_html(
        post.repost_count,
        " reposts"@,
    )) + POST_CLOSE@
}

/// How the date of a post is shown to readers: under `TIME_PATTERN`.
pub open spec fn shown_time(created_at: (int, int)) -> Seq<char> {
    match strftime_text(created_at.0, created_at.1, TIME_PATTERN@) {
        Some(shown) => shown,
        None => Seq::empty(),
    }
}

/// One post: its text is escaped and its web addresses are made links, its
/// date is written in RFC 3339 for machines and under `TIME_PATTERN` for
/// readers.
pub open spec fn post_html(post: PostModel, handle: Seq<char>) -> Seq<char> {
    post_html_of(
        post,
        handle,
        linkified(text_escaped(post.text)),
        rfc3339_text(post.created_at.0, post.created_at.1),
        shown_time(post.created_at),
    )
}

proof fn lemma_time_pattern_is_simple()
    ensures
        simple_pattern(TIME_PATTERN@),
{
    reveal_strlit("%b %d, %Y at %H:%M UTC");
}

fn write_counter(count: Option<u32>, word: &str) -> (r: String)
    ensures
        r@ == counter_html(count, word@),
{
    match count {
        Some(n) => {
            if n > 0 {
                let mut r = String::from_str(META_SEPARATOR);
                r.append(decimal_string(n as u64).as_str());
                r.append(word);
                r
            } else {
                String::new()
            }
        },
        None => String::new(),
    }
}

/// One post of a thread by the author `author_handle`, given its text as
/// HTML and its date in both forms.
pub fn write_post(
    post: &ThreadPost,
    author_handle: &str,
    text: &str,
    datetime: &str,
    shown: &str,
) -> (r: String)
    ensures
        r@ == post_html_of(post@, author_handle@, text@, datetime@, shown@),
{
    let embed = match &post.embed {
        Some(embed) => render_embed(embed),
        None => String::new(),
    };
    let mut meta = String::from_str("<time datetime=\"");
    meta.append(datetime);
    meta.append("\">");
    meta.append(shown);
    meta.append("</time>");
    meta.append(write_counter(post.like_count, " likes").as_str());
    meta.append(write_counter(post.repost_count, " reposts").as_str());
    let url = post_url(author_handle, post.uri.as_str());
    let mut r = String::from_str(POST_OPEN);
    r.append(text);
    r.append(POST_TEXT_CLOSE);
    r.append(embed.as_str());
    r.append(POST_LINK_OPEN);
    r.append(encode_quoted_attribute(url.as_str()).as_str());
    r.append(POST_META_OPEN);
    r.append(meta.as_str());
    r.append(POST_CLOSE);
    r
}

/// One post of a thread by the author `author_handle`.
pub fn render_post(post: &ThreadPost, author_handle: &str) -> (r: String)
    ensures
        r@ == post_html(post@, author_handle@),
{
    let text = linkify_text(encode_text(post.text.as_str()).as_str());
    proof {
        lemma_time_pattern_is_simple();
    }
    let shown = post.created_at.format(TIME_PATTERN).unwrap();
    let datetime = post.created_at.to_rfc3339();
    write_post(post, author_handle, text.as_str(), datetime.as_str(), shown.as_str())
}

/// The posts of a list, one after the other.
pub open spec fn posts_html(posts: Seq<PostModel>, handle: Seq<char>) -> Seq<char>
    decreases posts.len(),
{
    if posts.len() == 0 {
        Seq::empty()
    } else {
        posts_html(posts.drop_last(), handle) + post_html(posts.last(), handle)
    }
}

/// The header of the page of a thread.
pub fn render_header(author: &Author) -> (r: String)
    ensures
        r@ == header_of_thread(
            author@.handle,
            author@.display_name,
            author@.avatar_url,
            profile_url_of(author@.handle),
        ),
{
    write_header(
        author.handle.as_str(),
        as_slice(&author.display_name),
        as_slice(&author.avatar_url),
        author.profile_url().as_str(),
    )
}

/// The address that the footer of a thread links to: that of its first
/// post, and the home of the network for a thread without posts.
pub open spec fn original_url_of(thread: ThreadModel) -> Seq<char> {
    if thread.posts.len() > 0 {
        post_url_of(thread.author.handle, thread.posts[0].uri)
    } else {
        HOME_URL@
    }
}

/// The footer of the page of a thread.
pub fn render_footer(thread: &Thread) -> (r: String)
    ensures
        r@ == footer_of(original_url_of(thread@)),
{
    match thread.original_post_url() {
        Some(url) => write_footer(url.as_str()),
        None => write_footer(HOME_URL),
    }
}

/// The language of a thread: the first tag of its first post.
pub open spec fn language_of(thread: ThreadModel) -> Option<Seq<char>> {
    if thread.posts.len() > 0 && thread.posts[0].langs.len() > 0 {
        Some(thread.posts[0].langs[0])
    } else {
        None
    }
}

/// What the body of the page of a thread holds: header, posts and footer.
pub open spec fn thread_content(thread: ThreadModel) -> Seq<char> {
    header_of_thread(
        thread.author.handle,
        thread.author.display_name,
        thread.author.avatar_url,
        profile_url_of(thread.author.handle),
    ) + MAIN_OPEN@ + posts_html(thread.posts, thread.author.handle) + MAIN_CLOSE@ + footer_of(
        original_url_of(thread),
    )
}

/// The page of a thread, with the author's avatar as its icon and the
/// thread's language as its own.
pub open spec fn thread_page(thread: ThreadModel) -> Seq<char> {
    base_page(
        thread_title(thread.author.handle),
        thread_content(thread),
        thread.author.avatar_url,
        language_of(thread),
    )
}

/// The page of a thread.
pub fn render_thread(thread: &Thread) -> (r: String)
    ensures
        r@ == thread_page(thread@),
{
    let ghost all = thread@.posts;
    let mut posts = String::new();
    let mut i: usize = 0;
    while i < thread.posts.len()
        invariant
            i <= thread.posts.len(),
            all == thread@.posts,
            posts@ == posts_html(all.take(i as int), thread.author.handle@),
        decreases thread.posts.len() - i,
    {
        posts.append(render_post(&thread.posts[i], thread.author.handle.as_str()).as_str());
        proof {
            assert(all.take(i + 1).drop_last() =~= all.take(i as int));
        }
        i += 1;
    }
    assert(all.take(i as int) =~= all);
    let mut content = render_header(&thread.author);
    content.append(MAIN_OPEN);
    content.append(posts.as_str());
    content.append(MAIN_CLOSE);
    content.append(render_footer(thread).as_str());
    let title = write_thread_title(thread.author.handle.as_str());
    let options = TemplateOptions {
        favicon_url: as_slice(&thread.author.avatar_url),
        lang: thread.primary_language(),
    };
    base_template_with_options(title.as_str(), content.as_str(), options)
}

} // verus!
