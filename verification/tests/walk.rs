use std::collections::HashMap;

use skeet_longer::bluesky::assemble::ThreadAssembler;
use skeet_longer::bluesky::client::{
    extract_post, find_self_reply, get_parent_uri_if_same_author, map_api_error, normalize,
    ClientError, HttpFailure, Neighbor, PostContext, PostView, RecordFields, ThreadLookup,
};
use skeet_longer::bluesky::types::{Author, StreamEvent, Thread, ThreadPost};
use skeet_longer::bluesky::walk::{post_uri, Request, Response, WalkState};
use skeet_longer::time::Timestamp;

const ALICE: &str = "did:plc:alice";
const BOB: &str = "did:plc:bob";

fn uri(n: usize) -> String {
    format!("at://{}/app.bsky.feed.post/k{}", ALICE, n)
}

fn author(did: &str) -> Author {
    Author {
        did: did.to_string(),
        handle: "alice.test".to_string(),
        display_name: Some("Alice".to_string()),
        avatar_url: None,
    }
}

fn view(n: usize, did: &str) -> PostView {
    PostView {
        uri: uri(n),
        cid: format!("cid{}", n),
        author: author(did),
        record: Some(RecordFields {
            text: Some(format!("post {}", n)),
            created_at: Some("2024-01-01T12:00:00Z".to_string()),
            langs: Some(vec![Some("en".to_string())]),
        }),
        reply_count: Some(1),
        repost_count: None,
        like_count: Some(2),
        embed: None,
    }
}

fn post_ref(n: usize, did: &str) -> Neighbor {
    Neighbor::Post { uri: uri(n), author_did: did.to_string() }
}

/// A chain of `len` posts by Alice, numbered from 1, each the reply to the
/// one before.
fn chain(len: usize) -> HashMap<String, Result<ThreadLookup, String>> {
    let mut world = HashMap::new();
    for n in 1..=len {
        let parent = if n > 1 { Some(post_ref(n - 1, ALICE)) } else { None };
        let replies = if n < len { Some(vec![post_ref(n + 1, ALICE)]) } else { Some(vec![]) };
        world.insert(
            uri(n),
            Ok(ThreadLookup::Found(PostContext { post: view(n, ALICE), parent, replies })),
        );
    }
    world
}

fn answer(world: &HashMap<String, Result<ThreadLookup, String>>, request: &Request) -> Response {
    match request {
        Request::ResolveHandle { handle } => {
            if handle == "alice.test" {
                Response::Handle(Ok(ALICE.to_string()))
            } else {
                Response::Handle(Err("Unable to resolve handle".to_string()))
            }
        }
        Request::FetchContext { uri, depth, parent_height } => {
            assert_eq!((*depth, *parent_height), (1, 1));
            Response::Context(world.get(uri).cloned().unwrap_or(Ok(ThreadLookup::NotFound)))
        }
    }
}

/// Runs a walk to its end: the events in order, the last state, and the
/// identifiers that were fetched.
fn stream(
    world: &HashMap<String, Result<ThreadLookup, String>>,
    start: WalkState,
) -> (Vec<StreamEvent>, WalkState, Vec<String>) {
    let mut state = start;
    let mut events = Vec::new();
    let mut fetched = Vec::new();
    for _ in 0..1000 {
        let Some(request) = state.request() else { break };
        if let Request::FetchContext { uri, .. } = &request {
            fetched.push(uri.clone());
        }
        let (next, released) = state.advance(answer(world, &request));
        events.extend(released);
        state = next;
    }
    assert!(state.is_finished());
    (events, state, fetched)
}

fn assemble(
    world: &HashMap<String, Result<ThreadLookup, String>>,
    start: ThreadAssembler,
) -> Result<Thread, ClientError> {
    let mut walk = start;
    for _ in 0..1000 {
        let Some(request) = walk.request() else { break };
        walk = walk.advance(answer(world, &request));
    }
    walk.finish().expect("the walk has ended")
}

fn posts_of(events: &[StreamEvent]) -> Vec<ThreadPost> {
    events
        .iter()
        .filter_map(|e| match e {
            StreamEvent::Post(p) => Some(p.clone()),
            _ => None,
        })
        .collect()
}

fn numbers(posts: &[ThreadPost]) -> Vec<String> {
    posts.iter().map(|p| p.cid.clone()).collect()
}

#[test]
fn walk_from_the_middle_visits_every_post_once_in_order() {
    let world = chain(5);
    let (events, state, fetched) = stream(&world, WalkState::start_at(uri(3)));
    assert!(matches!(state, WalkState::Complete));
    assert_eq!(events.len(), 7);
    assert_eq!(events[0], StreamEvent::Header(author(ALICE)));
    assert_eq!(numbers(&posts_of(&events)), vec!["cid1", "cid2", "cid3", "cid4", "cid5"]);
    assert_eq!(events[6], StreamEvent::Done);
    // Upward from the third post to the root, then the root again and down.
    assert_eq!(
        fetched,
        vec![uri(3), uri(2), uri(1), uri(1), uri(2), uri(3), uri(4), uri(5)]
    );
}

#[test]
fn walk_from_any_post_gives_the_same_thread() {
    let world = chain(4);
    let from_root = assemble(&world, ThreadAssembler::at(uri(1))).unwrap();
    for n in 1..=4 {
        let thread = assemble(&world, ThreadAssembler::at(uri(n))).unwrap();
        assert_eq!(thread, from_root);
    }
    assert_eq!(numbers(&from_root.posts), vec!["cid1", "cid2", "cid3", "cid4"]);
    assert_eq!(from_root.author, author(ALICE));
}

#[test]
fn assembly_is_idempotent() {
    let world = chain(3);
    let first = assemble(&world, ThreadAssembler::at(uri(2))).unwrap();
    let second = assemble(&world, ThreadAssembler::at(uri(2))).unwrap();
    assert_eq!(first, second);
    assert_eq!(first.posts.len(), 3);
}

#[test]
fn stream_and_buffer_agree() {
    let world = chain(4);
    let (events, _, _) = stream(&world, WalkState::start_at(uri(2)));
    let thread = assemble(&world, ThreadAssembler::at(uri(2))).unwrap();
    assert_eq!(posts_of(&events), thread.posts);
    assert_eq!(events[0], StreamEvent::Header(thread.author.clone()));
}

#[test]
fn single_post_is_a_thread_of_one() {
    let world = chain(1);
    let thread = assemble(&world, ThreadAssembler::at(uri(1))).unwrap();
    assert_eq!(thread.posts.len(), 1);
    assert_eq!(thread.posts[0].uri, uri(1));
    let (events, state, _) = stream(&world, WalkState::start_at(uri(1)));
    assert!(matches!(state, WalkState::Complete));
    assert_eq!(events.len(), 3);
}

#[test]
fn only_the_first_reply_by_the_author_is_followed() {
    // Post 1 has a reply by Bob (9), then two by Alice (2 and 7).
    let mut world = chain(3);
    world.insert(
        uri(1),
        Ok(ThreadLookup::Found(PostContext {
            post: view(1, ALICE),
            parent: None,
            replies: Some(vec![
                Neighbor::Blocked,
                post_ref(9, BOB),
                post_ref(2, ALICE),
                post_ref(7, ALICE),
            ]),
        })),
    );
    world.insert(
        uri(7),
        Ok(ThreadLookup::Found(PostContext {
            post: view(7, ALICE),
            parent: Some(post_ref(1, ALICE)),
            replies: None,
        })),
    );
    let (events, _, fetched) = stream(&world, WalkState::start_at(uri(1)));
    assert_eq!(numbers(&posts_of(&events)), vec!["cid1", "cid2", "cid3"]);
    assert!(!fetched.contains(&uri(7)));
    assert!(!fetched.contains(&uri(9)));
}

#[test]
fn a_parent_by_someone_else_ends_the_climb() {
    let mut world = chain(2);
    world.insert(
        uri(1),
        Ok(ThreadLookup::Found(PostContext {
            post: view(1, ALICE),
            parent: Some(post_ref(8, BOB)),
            replies: Some(vec![post_ref(2, ALICE)]),
        })),
    );
    let (events, _, fetched) = stream(&world, WalkState::start_at(uri(2)));
    assert_eq!(numbers(&posts_of(&events)), vec!["cid1", "cid2"]);
    assert!(!fetched.contains(&uri(8)));
}

#[test]
fn a_failed_fetch_of_the_third_post_ends_the_stream_without_done() {
    let mut world = chain(5);
    world.insert(uri(3), Err("RateLimited: slow down".to_string()));
    let (events, state, _) = stream(&world, WalkState::start_at(uri(1)));
    assert_eq!(state.failure(), Some(&ClientError::RateLimited));
    assert_eq!(events.len(), 3);
    assert!(matches!(events[0], StreamEvent::Header(_)));
    assert_eq!(numbers(&posts_of(&events)), vec!["cid1", "cid2"]);
    assert!(!events.contains(&StreamEvent::Done));
    // The buffered walk gives the error and no part of the thread.
    assert_eq!(assemble(&world, ThreadAssembler::at(uri(1))), Err(ClientError::RateLimited));
}

#[test]
fn a_failed_fetch_during_the_climb_fails_the_walk() {
    let mut world = chain(3);
    world.insert(uri(2), Ok(ThreadLookup::Blocked));
    let (events, state, _) = stream(&world, WalkState::start_at(uri(3)));
    assert!(events.is_empty());
    assert_eq!(state.failure(), Some(&ClientError::Blocked));
}

#[test]
fn walk_by_handle_resolves_first() {
    let world = chain(2);
    let start = WalkState::start("alice.test".to_string(), "k2".to_string());
    assert_eq!(
        start.request(),
        Some(Request::ResolveHandle { handle: "alice.test".to_string() })
    );
    let (events, state, fetched) = stream(&world, start);
    assert!(matches!(state, WalkState::Complete));
    assert_eq!(fetched[0], uri(2));
    assert_eq!(numbers(&posts_of(&events)), vec!["cid1", "cid2"]);
    let thread =
        assemble(&world, ThreadAssembler::new("alice.test".to_string(), "k2".to_string())).unwrap();
    assert_eq!(thread.posts.len(), 2);
}

#[test]
fn an_invalid_handle_fails_before_any_lookup() {
    for handle in ["", "no dots", "-bad-.test", "a..b", "alice.test."] {
        let state = WalkState::start(handle.to_string(), "k1".to_string());
        assert_eq!(state.request(), None, "{:?}", handle);
        assert_eq!(
            state.failure(),
            Some(&ClientError::Api("invalid handle".to_string())),
            "{:?}",
            handle
        );
    }
}

#[test]
fn an_unresolved_handle_fails_the_walk() {
    let world = chain(1);
    let (events, state, fetched) =
        stream(&world, WalkState::start("bob.test".to_string(), "k1".to_string()));
    assert!(events.is_empty());
    assert!(fetched.is_empty());
    assert_eq!(
        state.failure(),
        Some(&ClientError::Api("Unable to resolve handle".to_string()))
    );
}

#[test]
fn answers_that_are_not_awaited_change_nothing() {
    let state = WalkState::start_at(uri(1));
    let (next, events) = state.advance(Response::Handle(Ok(ALICE.to_string())));
    assert!(events.is_empty());
    assert_eq!(
        next.request(),
        Some(Request::FetchContext { uri: uri(1), depth: 1, parent_height: 1 })
    );
    let (done, events) = WalkState::Complete.advance(Response::Context(Ok(ThreadLookup::NotFound)));
    assert!(events.is_empty());
    assert!(matches!(done, WalkState::Complete));
    let (failed, events) = WalkState::Failed(ClientError::Blocked)
        .advance(Response::Context(Ok(ThreadLookup::NotFound)));
    assert!(events.is_empty());
    assert_eq!(failed.failure(), Some(&ClientError::Blocked));
}

#[test]
fn an_unreadable_record_at_the_root_follows_the_header() {
    let mut world = chain(2);
    let mut broken = view(1, ALICE);
    broken.record = None;
    world.insert(
        uri(1),
        Ok(ThreadLookup::Found(PostContext {
            post: broken,
            parent: None,
            replies: Some(vec![post_ref(2, ALICE)]),
        })),
    );
    let (events, state, _) = stream(&world, WalkState::start_at(uri(1)));
    assert_eq!(events, vec![StreamEvent::Header(author(ALICE))]);
    assert_eq!(state.failure(), Some(&ClientError::InvalidResponse));
}

#[test]
fn post_uri_is_built_from_did_and_key() {
    assert_eq!(post_uri("did:plc:abc", "3k"), "at://did:plc:abc/app.bsky.feed.post/3k");
}

#[test]
fn lookups_are_normalized() {
    assert_eq!(normalize(Ok(ThreadLookup::NotFound)), Err(ClientError::NotFound));
    assert_eq!(normalize(Ok(ThreadLookup::Blocked)), Err(ClientError::Blocked));
    assert_eq!(normalize(Ok(ThreadLookup::Unknown)), Err(ClientError::InvalidResponse));
    assert_eq!(normalize(Err("HTTP 429".to_string())), Err(ClientError::RateLimited));
    assert_eq!(
        normalize(Err("timeout".to_string())),
        Err(ClientError::Api("timeout".to_string()))
    );
    let context = PostContext { post: view(1, ALICE), parent: None, replies: None };
    assert_eq!(normalize(Ok(ThreadLookup::Found(context.clone()))), Ok(context));
}

#[test]
fn api_errors_are_classified_by_their_text() {
    assert_eq!(map_api_error("status 429 Too Many".to_string()), ClientError::RateLimited);
    assert_eq!(map_api_error("RateLimitedExceeded".to_string()), ClientError::RateLimited);
    assert_eq!(
        map_api_error("ratelimited".to_string()),
        ClientError::Api("ratelimited".to_string())
    );
    assert_eq!(map_api_error(String::new()), ClientError::Api(String::new()));
}

#[test]
fn client_error_sentences() {
    assert_eq!(ClientError::NotFound.to_string(), "post not found");
    assert_eq!(ClientError::Blocked.to_string(), "post is blocked");
    assert_eq!(ClientError::RateLimited.to_string(), "rate limited");
    assert_eq!(ClientError::Api("x".to_string()).to_string(), "API error: x");
    assert_eq!(ClientError::InvalidResponse.to_string(), "invalid response structure");
    let http = HttpFailure { is_connect: false, is_timeout: false, message: "reset".to_string() };
    assert_eq!(ClientError::Http(http).to_string(), "HTTP error: reset");
}

#[test]
fn parent_counts_only_when_visible_and_by_the_same_author() {
    let with = |parent| PostContext { post: view(2, ALICE), parent, replies: None };
    assert_eq!(get_parent_uri_if_same_author(&with(Some(post_ref(1, ALICE)))), Some(uri(1)));
    assert_eq!(get_parent_uri_if_same_author(&with(Some(post_ref(1, BOB)))), None);
    assert_eq!(get_parent_uri_if_same_author(&with(Some(Neighbor::NotFound))), None);
    assert_eq!(get_parent_uri_if_same_author(&with(Some(Neighbor::Blocked))), None);
    assert_eq!(get_parent_uri_if_same_author(&with(Some(Neighbor::Unknown))), None);
    assert_eq!(get_parent_uri_if_same_author(&with(None)), None);
}

#[test]
fn self_reply_is_the_first_by_the_author() {
    let with = |replies| PostContext { post: view(1, BOB), parent: None, replies };
    assert_eq!(find_self_reply(&with(None), ALICE), None);
    assert_eq!(find_self_reply(&with(Some(vec![])), ALICE), None);
    assert_eq!(find_self_reply(&with(Some(vec![post_ref(4, BOB)])), ALICE), None);
    assert_eq!(
        find_self_reply(
            &with(Some(vec![Neighbor::NotFound, post_ref(4, BOB), post_ref(5, ALICE), post_ref(6, ALICE)])),
            ALICE
        ),
        Some(uri(5))
    );
}

#[test]
fn extract_post_reads_the_record() {
    let mut v = view(1, ALICE);
    v.record = Some(RecordFields {
        text: Some("hello".to_string()),
        created_at: Some("2024-01-01T12:00:00.250+02:00".to_string()),
        langs: Some(vec![Some("en".to_string()), None, Some("de".to_string())]),
    });
    v.reply_count = Some(3);
    v.repost_count = Some(4_294_967_297);
    v.like_count = Some(-1);
    let (who, post) = extract_post(v);
    assert_eq!(who, author(ALICE));
    let post = post.unwrap();
    assert_eq!(post.uri, uri(1));
    assert_eq!(post.cid, "cid1");
    assert_eq!(post.text, "hello");
    assert_eq!(post.created_at, Timestamp::from_unix(1704103200, 250_000_000).unwrap());
    assert_eq!(post.langs, vec!["en".to_string(), "de".to_string()]);
    assert_eq!(post.reply_count, Some(3));
    assert_eq!(post.repost_count, Some(1));
    assert_eq!(post.like_count, Some(u32::MAX));
    assert_eq!(post.embed, None);
}

#[test]
fn extract_post_falls_back_on_missing_fields() {
    let mut v = view(1, ALICE);
    v.record = Some(RecordFields { text: None, created_at: None, langs: None });
    v.reply_count = None;
    let post = extract_post(v).1.unwrap();
    assert_eq!(post.text, "");
    assert_eq!(post.created_at, Timestamp::epoch());
    assert!(post.langs.is_empty());
    assert_eq!(post.reply_count, None);

    let mut v = view(1, ALICE);
    v.record = Some(RecordFields {
        text: None,
        created_at: Some("yesterday".to_string()),
        langs: Some(vec![]),
    });
    assert_eq!(extract_post(v).1.unwrap().created_at, Timestamp::epoch());

    let mut v = view(1, ALICE);
    v.record = None;
    assert_eq!(extract_post(v).1, Err(ClientError::InvalidResponse));
}

#[test]
fn unfinished_walk_has_no_outcome() {
    let walk = ThreadAssembler::at(uri(1));
    assert!(walk.request().is_some());
    assert_eq!(walk.finish(), None);
}

#[test]
fn only_rate_limits_and_http_failures_may_be_retried() {
    let http = HttpFailure { is_connect: true, is_timeout: false, message: String::new() };
    assert!(ClientError::RateLimited.is_retryable());
    assert!(ClientError::Http(http).is_retryable());
    assert!(!ClientError::NotFound.is_retryable());
    assert!(!ClientError::Blocked.is_retryable());
    assert!(!ClientError::Api("x".to_string()).is_retryable());
    assert!(!ClientError::InvalidResponse.is_retryable());
}

#[test]
fn events_come_in_order_whatever_fails() {
    for broken in 1..=4 {
        let mut world = chain(4);
        world.insert(uri(broken), Ok(ThreadLookup::NotFound));
        for start in 1..=4 {
            let (events, state, _) = stream(&world, WalkState::start_at(uri(start)));
            assert_eq!(state.failure(), Some(&ClientError::NotFound));
            assert!(!events.contains(&StreamEvent::Done));
            if let Some(first) = events.first() {
                assert!(matches!(first, StreamEvent::Header(_)));
                assert!(events[1..].iter().all(|e| matches!(e, StreamEvent::Post(_))));
            }
        }
    }
}
