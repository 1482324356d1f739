//! What the service decides for each request: which error a failed lookup
//! is reported as, what a poll for updates returns, and what each event of
//! a thread's stream adds to the page. Receiving requests and sending
//! responses is left to the caller.

use crate::bluesky::client::{error_message, ClientError, ErrorModel};
use crate::bluesky::types::{
    opt_text, post_models, profile_url_of, EventModel, PostModel, StreamEvent, Thread,
    ThreadModel, ThreadPost,
};
use crate::bluesky::url_parser::{
    parse_bluesky_url, parse_error_text, post_of_url, BlueskyUrlParts,
};
use crate::config::Config;
use crate::error::{AppError, AppErrorModel};
use crate::html::escape::text_escaped;
use crate::html::renderer::{as_slice, post_html, posts_html, render_post};
use crate::html::templates::{
    streaming_error, streaming_footer, streaming_footer_of, streaming_head, streaming_head_of,
    streaming_post_before_indicator, StreamingHeadOptions, INDICATOR_MOVER, LOADING_INDICATOR,
    STREAM_ERROR_CLOSE, STREAM_ERROR_OPEN,
};
use crate::pattern::{first_match, regex_first_match};
use crate::poller::{
    stepped, stopped, OutcomeModel, PollOutcome, PollerAction, PollerEventModel, PollerModel,
    PollingConfig, PollingModel,
};
use crate::text::{after_last, contains, contains_seq, last_segment, same_text};
use crate::time::{elapsed_seconds, rfc3339_text, Timestamp};
use vstd::prelude::*;
use vstd::string::*;

verus! {

/// The query of a request for a thread by the address of a post.
#[derive(Debug, Clone, PartialEq, Eq)]
pub struct ThreadQuery {
    pub url: Option<String>,
}

/// The path of a request for a thread by handle and post.
#[derive(Debug, Clone, PartialEq, Eq)]
pub struct ThreadPath {
    pub handle: String,
    pub post_id: String,
}

/// The query of a poll for updates: the thread, and the content digest of
/// the last post that the reader has.
#[derive(Debug, Clone, PartialEq, Eq)]
pub struct ThreadUpdatesQuery {
    pub handle: String,
    pub post_id: String,
    pub since_cid: String,
}

/// What another application shares with the service.
#[derive(Debug, Clone, PartialEq, Eq)]
pub struct ShareQuery {
    pub url: Option<String>,
    pub text: Option<String>,
    pub title: Option<String>,
}

/// Whether a user agent is a crawler that fetches pages for link previews:
/// whether it holds the name of one of the known crawlers.
pub open spec fn crawler_agent(user_agent: Seq<char>) -> bool {
    ||| contains_seq(user_agent, "Twitterbot"@)
    ||| contains_seq(user_agent, "facebookexternalhit"@)
    ||| contains_seq(user_agent, "LinkedInBot"@)
    ||| contains_seq(user_agent, "WhatsApp"@)
    ||| contains_seq(user_agent, "Slackbot"@)
    ||| contains_seq(user_agent, "TelegramBot"@)
    ||| contains_seq(user_agent, "Discordbot"@)
    ||| contains_seq(user_agent, "Googlebot"@)
    ||| contains_seq(user_agent, "bingbot"@)
    ||| contains_seq(user_agent, "Applebot"@)
}

/// Whether a user agent is a crawler that fetches pages for link previews.
/// Such a reader is given the whole page at once, not a stream.
pub fn is_social_crawler(user_agent: &str) -> (b: bool)
    ensures
        b == crawler_agent(user_agent@),
{
    contains(user_agent, "Twitterbot") || contains(user_agent, "facebookexternalhit") || contains(
        user_agent,
        "LinkedInBot",
    ) || contains(user_agent, "WhatsApp") || contains(user_agent, "Slackbot") || contains(
        user_agent,
        "TelegramBot",
    ) || contains(user_agent, "Discordbot") || contains(user_agent, "Googlebot") || contains(
        user_agent,
        "bingbot",
    ) || contains(user_agent, "Applebot")
}

/// How a failed lookup is reported. A post that is missing or blocked is
/// not found; a rate limit is passed on; a connection that could not be
/// made, or ran out of time, makes the service unavailable; anything else
/// is an internal error with the description of the failure.
pub open spec fn reported(e: ErrorModel) -> AppErrorModel {
    match e {
        ErrorModel::NotFound => AppErrorModel::NotFound("post not found or deleted"@),
        ErrorModel::Blocked => AppErrorModel::NotFound("post is blocked"@),
        ErrorModel::RateLimited => AppErrorModel::RateLimited,
        ErrorModel::Http { is_connect, is_timeout, .. } => if is_connect {
            AppErrorModel::ServiceUnavailable("cannot reach Bluesky API"@)
        } else if is_timeout {
            AppErrorModel::ServiceUnavailable("request timed out"@)
        } else {
            AppErrorModel::Internal(error_message(e))
        },
        _ => AppErrorModel::Internal(error_message(e)),
    }
}

/// Turns the error of a lookup into the error of the request.
pub fn map_client_error(e: ClientError) -> (r: AppError)
    ensures
        r@ == reported(e@),
{
    match &e {
        ClientError::NotFound => AppError::NotFound(String::from_str("post not found or deleted")),
        ClientError::Blocked => AppError::NotFound(String::from_str("post is blocked")),
        ClientError::RateLimited => AppError::RateLimited,
        ClientError::Http(failure) => {
            if failure.is_connect {
                AppError::ServiceUnavailable(String::from_str("cannot reach Bluesky API"))
            } else if failure.is_timeout {
                AppError::ServiceUnavailable(String::from_str("request timed out"))
            } else {
                AppError::Internal(e.to_string())
            }
        },
        _ => AppError::Internal(e.to_string()),
    }
}

/// What a request for a thread by address asks for: the landing page where
/// it names no address, the thread of the post where the address is one of
/// a post, and a bad request, with the reason, where it is not.
pub open spec fn asked_thread(url: Option<Seq<char>>) -> Result<
    Option<(Seq<char>, Seq<char>)>,
    AppErrorModel,
> {
    match url {
        None => Ok(None),
        Some(url) => if url.len() == 0 {
            Ok(None)
        } else {
            match post_of_url(url) {
                Ok(post) => Ok(Some(post)),
                Err(e) => Err(AppErrorModel::BadRequest(parse_error_text(e))),
            }
        },
    }
}

/// Reads a request for a thread by address: `None` asks for the landing
/// page.
pub fn get_thread(params: &ThreadQuery) -> (r: Result<Option<BlueskyUrlParts>, AppError>)
    ensures
        match asked_thread(opt_text(params.url)) {
            Ok(None) => r matches Ok(None),
            Ok(Some(post)) => r matches Ok(Some(parts)) && parts.handle@ == post.0
                && parts.post_id@ == post.1,
            Err(e) => r matches Err(reported) && reported@ == e,
        },
{
    match &params.url {
        None => Ok(None),
        Some(url) => {
            if url.as_str().is_empty() {
                Ok(None)
            } else {
                match parse_bluesky_url(url.as_str()) {
                    Ok(parts) => Ok(Some(parts)),
                    Err(e) => Err(AppError::BadRequest(e.to_string())),
                }
            }
        },
    }
}

/// How many posts of a thread a reader has who holds the post with the
/// digest `cid` as the last: the posts up to and with the first post of
/// that digest, and none where no post has it.
pub open spec fn seen_posts(posts: Seq<PostModel>, cid: Seq<char>) -> nat
    decreases posts.len(),
{
    if posts.len() == 0 {
        0
    } else if posts[0].cid == cid {
        1
    } else {
        let later = seen_posts(posts.drop_first(), cid);
        if later == 0 {
            0
        } else {
            later + 1
        }
    }
}

/// The posts that are new to a reader who holds the post with the digest
/// `cid` as the last: those after it, and all of them where the thread has
/// no such post.
pub open spec fn new_posts(posts: Seq<PostModel>, cid: Seq<char>) -> Seq<PostModel> {
    posts.skip(seen_posts(posts, cid) as int)
}

/// Whether a thread whose last post has the given age in seconds has been
/// quiet for too long: the age is `disable_after` or more. A thread without
/// posts is stale.
pub open spec fn stale_of(age: Option<int>, disable_after: u64) -> bool {
    match age {
        Some(age) => age >= disable_after,
        None => true,
    }
}

/// Whether a thread has been quiet for too long at `now`: its last post is
/// `disable_after` seconds old or older.
pub open spec fn stale_at(last_post: Option<(int, int)>, now: (int, int), disable_after: u64)
    -> bool {
    stale_of(
        match last_post {
            Some(written) => Some(elapsed_seconds(now.0, now.1, written.0, written.1)),
            None => None,
        },
        disable_after,
    )
}

/// Whether a thread whose last post is `age` seconds old is stale.
pub fn is_stale(age: Option<i64>, disable_after: u64) -> (b: bool)
    ensures
        b == stale_of(
            match age {
                Some(age) => Some(age as int),
                None => None,
            },
            disable_after,
        ),
{
    match age {
        Some(age) => age >= 0 && age as u64 >= disable_after,
        None => true,
    }
}

/// The age in seconds, at `now`, of a post that was written at `written`.
fn age_at(written: &Option<Timestamp>, now: &Timestamp) -> (r: Option<i64>)
    ensures
        match *written {
            Some(t) => r is Some && r->0 == elapsed_seconds(now@.0, now@.1, t@.0, t@.1),
            None => r is None,
        },
{
    match written {
        Some(t) => Some(now.seconds_since(t)),
        None => None,
    }
}

/// When the last post of a list was written.
pub open spec fn last_written(posts: Seq<PostModel>) -> Option<(int, int)> {
    if posts.len() > 0 {
        Some(posts.last().created_at)
    } else {
        None
    }
}

/// What a poll for updates returns.
#[derive(Debug, Clone, PartialEq, Eq)]
pub enum ThreadUpdate {
    /// Nothing new; `stale` where the thread has been quiet for too long.
    NoChange { stale: bool },
    /// The new posts as HTML, the digest of the last of them, and their
    /// number.
    NewPosts { html: String, last_cid: String, post_count: usize },
}

/// The value of a `ThreadUpdate`.
pub enum UpdateModel {
    NoChange { stale: bool },
    NewPosts { html: Seq<char>, last_cid: Seq<char>, post_count: usize },
}

impl View for ThreadUpdate {
    type V = UpdateModel;

    open spec fn view(&self) -> UpdateModel {
        match self {
            ThreadUpdate::NoChange { stale } => UpdateModel::NoChange { stale: *stale },
            ThreadUpdate::NewPosts { html, last_cid, post_count } => UpdateModel::NewPosts {
                html: html@,
                last_cid: last_cid@,
                post_count: *post_count,
            },
        }
    }
}

/// How the answer to a poll ends the poll for the reader's poller.
pub open spec fn outcome_of_update(update: UpdateModel) -> OutcomeModel {
    match update {
        UpdateModel::NoChange { stale } => if stale {
            OutcomeModel::Stale
        } else {
            OutcomeModel::NoChange
        },
        UpdateModel::NewPosts { last_cid, .. } => OutcomeModel::NewPosts { last_cid },
    }
}

impl ThreadUpdate {
    /// How this answer ends the poll for the reader's poller.
    pub fn outcome(&self) -> (r: PollOutcome)
        ensures
            r@ == outcome_of_update(self@),
    {
        match self {
            ThreadUpdate::NoChange { stale } => {
                if *stale {
                    PollOutcome::Stale
                } else {
                    PollOutcome::NoChange
                }
            },
            ThreadUpdate::NewPosts { last_cid, .. } => PollOutcome::NewPosts {
                last_cid: last_cid.clone(),
            },
        }
    }
}

/// What a poll returns for a thread as it is at `now`, to a reader who
/// holds the post with the digest `since_cid` as the last. Where no post is
/// new the answer says whether the thread is stale; where some are, it
/// holds them, rendered in their order, and the digest of the last.
pub open spec fn updates_of(
    thread: ThreadModel,
    since_cid: Seq<char>,
    now: (int, int),
    disable_after: u64,
) -> UpdateModel {
    let fresh = new_posts(thread.posts, since_cid);
    if fresh.len() == 0 {
        UpdateModel::NoChange { stale: stale_at(last_written(thread.posts), now, disable_after) }
    } else {
        UpdateModel::NewPosts {
            html: posts_html(fresh, thread.author.handle),
            last_cid: fresh.last().cid,
            post_count: fresh.len() as usize,
        }
    }
}

/// Staleness. Where the last post of a thread is `disable_after` seconds old
/// or older and no post is new to the reader, the answer to the poll is
/// flagged stale, and it stops the reader's poller: no timer is armed, and
/// polls are no longer automatic.
pub proof fn lemma_stale_thread_stops_the_poller(
    thread: ThreadModel,
    since_cid: Seq<char>,
    now: (int, int),
    disable_after: u64,
    poller: PollerModel,
    finished_at: u64,
)
    requires
        new_posts(thread.posts, since_cid).len() == 0,
        stale_at(last_written(thread.posts), now, disable_after),
        poller.in_flight,
    ensures
        updates_of(thread, since_cid, now, disable_after) == (UpdateModel::NoChange { stale: true }),
        stopped(
            stepped(
                poller,
                PollerEventModel::PollFinished {
                    outcome: outcome_of_update(updates_of(thread, since_cid, now, disable_after)),
                    now: finished_at,
                },
            ).0,
        ),
        stepped(
            poller,
            PollerEventModel::PollFinished {
                outcome: outcome_of_update(updates_of(thread, since_cid, now, disable_after)),
                now: finished_at,
            },
        ).1 == PollerAction::Rest,
{
}

fn count_seen(posts: &Vec<ThreadPost>, cid: &str) -> (n: usize)
    ensures
        n == seen_posts(post_models(posts@), cid@),
        n <= posts.len(),
{
    let ghost all = post_models(posts@);
    let mut i: usize = 0;
    assert(all.skip(0) =~= all);
    while i < posts.len()
        invariant
            i <= posts.len(),
            all == post_models(posts@),
            seen_posts(all, cid@) == (if seen_posts(all.skip(i as int), cid@) == 0 {
                0
            } else {
                seen_posts(all.skip(i as int), cid@) + i
            }),
        decreases posts.len() - i,
    {
        proof {
            assert(all.skip(i as int).drop_first() =~= all.skip(i + 1));
        }
        if same_text(posts[i].cid.as_str(), cid) {
            return i + 1;
        }
        i += 1;
    }
    0
}

/// Answers a poll for updates of `thread` at `now`.
pub fn get_thread_updates(thread: Thread, since_cid: &str, now: &Timestamp, disable_after: u64)
    -> (r: ThreadUpdate)
    ensures
        r@ == updates_of(thread@, since_cid@, now@, disable_after),
{
    let Thread { posts, author } = thread;
    let mut posts = posts;
    let ghost all = post_models(posts@);
    let seen = count_seen(&posts, since_cid);
    let last_written = if posts.len() > 0 {
        Some(posts[posts.len() - 1].created_at)
    } else {
        None
    };
    let stale = is_stale(age_at(&last_written, now), disable_after);
    let fresh = posts.split_off(seen);
    assert(post_models(fresh@) =~= new_posts(all, since_cid@));
    if fresh.len() == 0 {
        return ThreadUpdate::NoChange { stale };
    }
    let ghost shown = post_models(fresh@);
    let mut html = String::new();
    let mut i: usize = 0;
    while i < fresh.len()
        invariant
            i <= fresh.len(),
            shown == post_models(fresh@),
            html@ == posts_html(shown.take(i as int), author.handle@),
        decreases fresh.len() - i,
    {
        html.append(render_post(&fresh[i], author.handle.as_str()).as_str());
        proof {
            assert(shown.take(i + 1).drop_last() =~= shown.take(i as int));
        }
        i += 1;
    }
    assert(shown.take(i as int) =~= shown);
    let last_cid = fresh[fresh.len() - 1].cid.clone();
    ThreadUpdate::NewPosts { html, last_cid, post_count: fresh.len() }
}

/// What the page of a streamed thread has taken in so far.
#[derive(Debug, Clone)]
pub struct StreamPage {
    /// The handle that posts are linked under: the one asked for, until the
    /// header names the author's.
    pub author_handle: String,
    /// The key of the first post, once a post has come.
    pub first_post_id: Option<String>,
    /// The content digest of the last post; empty before the first.
    pub last_cid: String,
    /// When the last post was written.
    pub last_post_timestamp: Option<Timestamp>,
}

/// The value of a `StreamPage`.
pub struct StreamPageModel {
    pub author_handle: Seq<char>,
    pub first_post_id: Option<Seq<char>>,
    pub last_cid: Seq<char>,
    pub last_post_timestamp: Option<(int, int)>,
}

impl View for StreamPage {
    type V = StreamPageModel;

    open spec fn view(&self) -> StreamPageModel {
        StreamPageModel {
            author_handle: self.author_handle@,
            first_post_id: opt_text(self.first_post_id),
            last_cid: self.last_cid@,
            last_post_timestamp: match self.last_post_timestamp {
                Some(t) => Some(t@),
                None => None,
            },
        }
    }
}

/// The value of an event of a stream, or of the error that ended it.
pub open spec fn streamed_model(event: Result<StreamEvent, ClientError>) -> Result<
    EventModel,
    ErrorModel,
> {
    match event {
        Ok(event) => Ok(event@),
        Err(e) => Err(e@),
    }
}

/// The address of the original thread, as far as the page knows it.
pub open spec fn original_url(page: StreamPageModel) -> Seq<char> {
    "https://bsky.app/profile/"@ + page.author_handle + "/post/"@ + (match page.first_post_id {
        Some(id) => id,
        None => Seq::empty(),
    })
}

/// What an event adds to the page. The header opens the page. The first
/// post is followed by the loading mark, each later post by the script that
/// moves the mark below it. `Done` closes the page with the footer, an
/// error closes it with the notice of the error.
pub open spec fn chunk_of(page: StreamPageModel, event: Result<EventModel, ErrorModel>) -> Seq<
    char,
> {
    match event {
        Ok(EventModel::Header(author)) => streaming_head_of(
            author.handle,
            author.display_name,
            author.avatar_url,
            profile_url_of(author.handle),
            None,
        ),
        Ok(EventModel::Post(post)) => if page.first_post_id is None {
            post_html(post, page.author_handle) + LOADING_INDICATOR@
        } else {
            post_html(post, page.author_handle) + INDICATOR_MOVER@
        },
        Ok(EventModel::Done) => streaming_footer_of(original_url(page)),
        Err(e) => STREAM_ERROR_OPEN@ + text_escaped(error_message(e)) + STREAM_ERROR_CLOSE@,
    }
}

/// What the page has taken in after an event: the header names the handle,
/// a post becomes the last post, and the first post names the thread.
pub open spec fn page_after(page: StreamPageModel, event: Result<EventModel, ErrorModel>)
    -> StreamPageModel {
    match event {
        Ok(EventModel::Header(author)) => StreamPageModel { author_handle: author.handle, ..page },
        Ok(EventModel::Post(post)) => StreamPageModel {
            first_post_id: match page.first_post_id {
                Some(id) => Some(id),
                None => Some(after_last(post.uri, '/')),
            },
            last_cid: post.cid,
            last_post_timestamp: Some(post.created_at),
            ..page
        },
        _ => page,
    }
}

/// What a reader of the finished page needs to poll for updates; `None`
/// where polling is switched off. A thread whose last post is
/// `poll_disable_after` seconds old or older at `now`, and a thread without
/// posts, starts stale.
pub open spec fn polling_of(
    page: StreamPageModel,
    poll_enabled: bool,
    initial_interval: u64,
    max_interval: u64,
    disable_after: u64,
    now: (int, int),
) -> Option<PollingModel> {
    if poll_enabled {
        Some(
            PollingModel {
                handle: page.author_handle,
                post_id: match page.first_post_id {
                    Some(id) => id,
                    None => Seq::empty(),
                },
                last_cid: page.last_cid,
                initial_interval,
                max_interval,
                disable_after,
                stale: stale_at(page.last_post_timestamp, now, disable_after),
                last_post_iso: match page.last_post_timestamp {
                    Some(written) => rfc3339_text(written.0, written.1),
                    None => Seq::empty(),
                },
            },
        )
    } else {
        None
    }
}

impl StreamPage {
    /// The page of a stream that has released nothing yet, for the thread
    /// asked for under `handle`.
    pub fn new(handle: String) -> (r: StreamPage)
        ensures
            r@ == (StreamPageModel {
                author_handle: handle@,
                first_post_id: None,
                last_cid: Seq::empty(),
                last_post_timestamp: None,
            }),
    {
        StreamPage {
            author_handle: handle,
            first_post_id: None,
            last_cid: String::new(),
            last_post_timestamp: None,
        }
    }

    /// The address of the original thread, as far as the page knows it.
    pub fn original_post_url(&self) -> (r: String)
        ensures
            r@ == original_url(self@),
    {
        let mut r = String::from_str("https://bsky.app/profile/");
        r.append(self.author_handle.as_str());
        r.append("/post/");
        match &self.first_post_id {
            Some(id) => {
                r.append(id.as_str());
            },
            None => {},
        }
        r
    }

    /// What a reader of the finished page needs to poll for updates.
    pub fn polling_config(&self, config: &Config, now: &Timestamp) -> (r: Option<PollingConfig>)
        ensures
            r is Some <==> config.poll_enabled,
            (match r {
                Some(polling) => Some(polling@),
                None => None,
            }) == polling_of(
                self@,
                config.poll_enabled,
                config.poll_initial_interval,
                config.poll_max_interval,
                config.poll_disable_after,
                now@,
            ),
    {
        if !config.poll_enabled {
            return None;
        }
        let stale = is_stale(age_at(&self.last_post_timestamp, now), config.poll_disable_after);
        let last_post_iso = match &self.last_post_timestamp {
            Some(written) => written.to_rfc3339(),
            None => String::new(),
        };
        let post_id = match &self.first_post_id {
            Some(id) => id.clone(),
            None => String::new(),
        };
        Some(
            PollingConfig {
                handle: self.author_handle.clone(),
                post_id,
                last_cid: self.last_cid.clone(),
                initial_interval: config.poll_initial_interval,
                max_interval: config.poll_max_interval,
                disable_after: config.poll_disable_after,
                stale,
                last_post_iso,
            },
        )
    }
}

/// Takes the next event of a thread's stream, or the error that ended it:
/// returns what it adds to the page, and notes in `page` what later events
/// need of it.
pub fn get_thread_streaming(page: &mut StreamPage, event: Result<StreamEvent, ClientError>) -> (chunk:
    String)
    ensures
        chunk@ == chunk_of(old(page)@, streamed_model(event)),
        final(page)@ == page_after(old(page)@, streamed_model(event)),
{
    match event {
        Ok(StreamEvent::Header(author)) => {
            let profile = author.profile_url();
            let chunk = streaming_head(
                StreamingHeadOptions {
                    author_handle: author.handle.as_str(),
                    author_display_name: as_slice(&author.display_name),
                    avatar_url: as_slice(&author.avatar_url),
                    profile_url: profile.as_str(),
                    lang: None,
                },
            );
            page.author_handle = author.handle;
            chunk
        },
        Ok(StreamEvent::Post(post)) => {
            let html = render_post(&post, page.author_handle.as_str());
            let first = page.first_post_id.is_none();
            if first {
                page.first_post_id = Some(last_segment(post.uri.as_str(), '/'));
            }
            page.last_cid = post.cid;
            page.last_post_timestamp = Some(post.created_at);
            if first {
                let mut chunk = html;
                chunk.append(LOADING_INDICATOR);
                chunk
            } else {
                streaming_post_before_indicator(html.as_str())
            }
        },
        Ok(StreamEvent::Done) => {
            let url = page.original_post_url();
            streaming_footer(url.as_str())
        },
        Err(e) => streaming_error(e.to_string().as_str()),
    }
}

/// How a post's address is told apart from other text that is shared.
pub const SHARED_URL_PATTERN: &'static str = r"https?://bsky\.app/profile/[^\s]+/post/[^\s]+";

/// The first address of a post in a text: the leftmost match of
/// `SHARED_URL_PATTERN`.
pub fn find_bluesky_url_in_text(text: &str) -> (r: Option<String>)
    ensures
        opt_text(r) == regex_first_match(SHARED_URL_PATTERN@, text@),
{
    first_match(SHARED_URL_PATTERN, text)
}

/// The address that shared content holds: the shared address itself where
/// it names `bsky.app`, else the first address of a post in the shared
/// text, given as what the search of the text found.
pub open spec fn shared_url(url: Option<Seq<char>>, found_in_text: Option<Seq<char>>) -> Option<
    Seq<char>,
> {
    match url {
        Some(url) => if contains_seq(url, "bsky.app"@) {
            Some(url)
        } else {
            found_in_text
        },
        None => found_in_text,
    }
}

/// What the search of the shared text finds.
pub open spec fn found_in(text: Option<Seq<char>>) -> Option<Seq<char>> {
    match text {
        Some(text) => regex_first_match(SHARED_URL_PATTERN@, text),
        None => None,
    }
}

/// Picks the address out of shared content, given what the search of the
/// shared text found.
pub fn pick_shared_url(url: &Option<String>, found_in_text: Option<String>) -> (r: Result<
    String,
    AppError,
>)
    ensures
        match shared_url(opt_text(*url), opt_text(found_in_text)) {
            Some(picked) => r matches Ok(s) && s@ == picked,
            None => r matches Err(e) && e@ == AppErrorModel::BadRequest(
                "No Bluesky URL found in shared content"@,
            ),
        },
{
    match url {
        Some(url) => {
            if contains(url.as_str(), "bsky.app") {
                return Ok(url.clone());
            }
        },
        None => {},
    }
    match found_in_text {
        Some(found) => Ok(found),
        None => Err(
            AppError::BadRequest(String::from_str("No Bluesky URL found in shared content")),
        ),
    }
}

/// Finds the address of a post in shared content: in the shared address
/// first, then in the shared text.
pub fn extract_bluesky_url(params: &ShareQuery) -> (r: Result<String, AppError>)
    ensures
        match shared_url(opt_text(params.url), found_in(opt_text(params.text))) {
            Some(picked) => r matches Ok(s) && s@ == picked,
            None => r matches Err(e) && e@ == AppErrorModel::BadRequest(
                "No Bluesky URL found in shared content"@,
            ),
        },
{
    let found = match &params.text {
        Some(text) => find_bluesky_url_in_text(text.as_str()),
        None => None,
    };
    pick_shared_url(&params.url, found)
}

/// A name and a value as `url` writes them in a query:
/// `application/x-www-form-urlencoded`, joined by `=`.
pub uninterp spec fn form_encoded(name: Seq<char>, value: Seq<char>) -> Seq<char>;

/// Writes one pair of a query with `url::form_urlencoded::Serializer`.
#[verifier::external_body]
fn form_encode(name: &str, value: &str) -> (r: String)
    ensures
        r@ == form_encoded(name@, value@),
{
    url::form_urlencoded::Serializer::new(String::new()).append_pair(name, value).finish()
}

/// Where shared content is sent on to: the front page, asked for the
/// thread of the shared address.
pub fn share_target(params: &ShareQuery) -> (r: Result<String, AppError>)
    ensures
        match shared_url(opt_text(params.url), found_in(opt_text(params.text))) {
            Some(picked) => r matches Ok(s) && s@ == "/?"@ + form_encoded("url"@, picked),
            None => r matches Err(e) && e@ == AppErrorModel::BadRequest(
                "No Bluesky URL found in shared content"@,
            ),
        },
{
    match extract_bluesky_url(params) {
        Ok(url) => {
            let mut r = String::from_str("/?");
            r.append(form_encode("url", url.as_str()).as_str());
            Ok(r)
        },
        Err(e) => Err(e),
    }
}

} // verus!
