//! What a walk does against a network whose answers are known: the laws of
//! thread reconstruction. A `World` fixes the answer to every lookup; the
//! walk is run against it for a bounded number of lookups.

use crate::bluesky::assemble::{
    assembled, gathered, header_of, outcome_of, posts_of, AssemblerModel,
};
use crate::bluesky::client::{
    fetched, first_self_reply, projected, same_author_parent, ContextModel, ErrorModel,
    LookupModel,
};
use crate::bluesky::types::{EventModel, PostModel, ThreadModel};
use crate::bluesky::walk::{
    advanced, handle_accepted, pending, post_uri_of, shallow_fetch, started, RequestModel,
    ResponseModel, WalkModel,
};
use vstd::prelude::*;

verus! {

/// A network that answers every lookup in one fixed way.
pub struct World {
    /// The `did` behind each handle, or the text of the error.
    pub handles: spec_fn(Seq<char>) -> Result<Seq<char>, Seq<char>>,
    /// The answer to the lookup of each post, or the text of the error.
    pub posts: spec_fn(Seq<char>) -> Result<LookupModel, Seq<char>>,
}

/// The answer of a world to a request.
pub open spec fn answer(world: World, request: RequestModel) -> ResponseModel {
    match request {
        RequestModel::ResolveHandle { handle } => ResponseModel::Handle((world.handles)(handle)),
        RequestModel::FetchContext { uri, .. } => ResponseModel::Context((world.posts)(uri)),
    }
}

/// The state that a walk reaches from `state` with at most `lookups` lookups
/// in `world`, and the events it releases on the way, in order.
pub open spec fn streamed(world: World, state: WalkModel, lookups: nat) -> (
    WalkModel,
    Seq<EventModel>,
)
    decreases lookups,
{
    if lookups == 0 {
        (state, Seq::empty())
    } else {
        match pending(state) {
            None => (state, Seq::empty()),
            Some(request) => {
                let step = advanced(state, answer(world, request));
                let rest = streamed(world, step.0, (lookups - 1) as nat);
                (rest.0, step.1 + rest.1)
            },
        }
    }
}

/// What a buffered walk holds after at most `lookups` lookups in `world`.
pub open spec fn buffered(world: World, walk: AssemblerModel, lookups: nat) -> AssemblerModel
    decreases lookups,
{
    if lookups == 0 {
        walk
    } else {
        match pending(walk.state) {
            None => walk,
            Some(request) => buffered(
                world,
                assembled(walk, answer(world, request)),
                (lookups - 1) as nat,
            ),
        }
    }
}

/// A buffered walk that has taken no answer yet.
pub open spec fn fresh(state: WalkModel) -> AssemblerModel {
    AssemblerModel { state, author: None, posts: Seq::empty() }
}

/// A finished walk makes no lookup and releases nothing.
pub proof fn lemma_finished_walk_rests(world: World, state: WalkModel, lookups: nat)
    requires
        pending(state) is None,
    ensures
        streamed(world, state, lookups) == (state, Seq::<EventModel>::empty()),
{
}

/// Lookups may be counted in two parts: a walk of `first + second` lookups
/// is a walk of `first` lookups followed by one of `second` from where the
/// first ended.
pub proof fn lemma_streamed_in_two_parts(world: World, state: WalkModel, first: nat, second: nat)
    ensures
        streamed(world, state, first + second).0 == streamed(
            world,
            streamed(world, state, first).0,
            second,
        ).0,
        streamed(world, state, first + second).1 == streamed(world, state, first).1 + streamed(
            world,
            streamed(world, state, first).0,
            second,
        ).1,
    decreases first,
{
    let empty = Seq::<EventModel>::empty();
    if first == 0 {
        assert(empty + streamed(world, state, second).1 =~= streamed(world, state, second).1);
    } else {
        match pending(state) {
            None => {
                lemma_finished_walk_rests(world, state, second);
                lemma_finished_walk_rests(world, state, first + second);
                assert(empty + empty =~= empty);
            },
            Some(request) => {
                let step = advanced(state, answer(world, request));
                lemma_streamed_in_two_parts(world, step.0, (first - 1) as nat, second);
                let head = streamed(world, step.0, (first - 1) as nat);
                let tail = streamed(world, head.0, second);
                assert(streamed(world, state, first + second).1 == step.1 + streamed(
                    world,
                    step.0,
                    (first - 1 + second) as nat,
                ).1);
                assert(step.1 + (head.1 + tail.1) =~= (step.1 + head.1) + tail.1);
            },
        }
    }
}

/// A walk by handle resolves the handle first: with one lookup more it is
/// the walk from the identifier of the post in the feed of the `did` that
/// the handle stands for.
pub proof fn lemma_handle_is_resolved_first(
    world: World,
    handle: Seq<char>,
    post_id: Seq<char>,
    did: Seq<char>,
    lookups: nat,
)
    requires
        handle_accepted(handle),
        (world.handles)(handle) == Ok::<Seq<char>, Seq<char>>(did),
    ensures
        streamed(world, started(handle, post_id), lookups + 1) == streamed(
            world,
            WalkModel::LocatingRoot { current: post_uri_of(did, post_id) },
            lookups,
        ),
{
    let from_post = streamed(
        world,
        WalkModel::LocatingRoot { current: post_uri_of(did, post_id) },
        lookups,
    );
    assert(Seq::<EventModel>::empty() + from_post.1 =~= from_post.1);
}

/// A text that is no handle fails the walk before any lookup is made.
pub proof fn lemma_invalid_handle_makes_no_lookup(
    world: World,
    handle: Seq<char>,
    post_id: Seq<char>,
    lookups: nat,
)
    requires
        !handle_accepted(handle),
    ensures
        pending(started(handle, post_id)) is None,
        streamed(world, started(handle, post_id), lookups) == (
            WalkModel::Failed(ErrorModel::Api("invalid handle"@)),
            Seq::<EventModel>::empty(),
        ),
{
}

/// The posts and the header of two runs of events, one after the other.
pub proof fn lemma_events_in_two_parts(first: Seq<EventModel>, second: Seq<EventModel>)
    ensures
        posts_of(first + second) == posts_of(first) + posts_of(second),
        header_of(first + second) == (match header_of(second) {
            Some(author) => Some(author),
            None => header_of(first),
        }),
    decreases second.len(),
{
    if second.len() == 0 {
        assert(first + second =~= first);
        assert(posts_of(first) + posts_of(second) =~= posts_of(first));
    } else {
        lemma_events_in_two_parts(first, second.drop_last());
        assert((first + second).drop_last() =~= first + second.drop_last());
        assert((first + second).last() == second.last());
        match second.last() {
            EventModel::Post(post) => {
                assert(posts_of(first) + posts_of(second.drop_last()).push(post) =~= (posts_of(
                    first,
                ) + posts_of(second.drop_last())).push(post));
            },
            _ => {},
        }
    }
}

/// Streaming and buffering agree. Run against the same world from the same
/// state with the same number of lookups, the buffered walk ends in the
/// state in which the stream ends, holds the posts of the stream's `Post`
/// events in their order, and names the author of the stream's header.
pub proof fn lemma_buffered_is_streamed(world: World, walk: AssemblerModel, lookups: nat)
    ensures
        buffered(world, walk, lookups) == gathered(
            walk,
            streamed(world, walk.state, lookups).0,
            streamed(world, walk.state, lookups).1,
        ),
    decreases lookups,
{
    let empty = Seq::<EventModel>::empty();
    if lookups == 0 || pending(walk.state) is None {
        assert(walk.posts + posts_of(empty) =~= walk.posts);
    } else {
        let request = pending(walk.state)->0;
        let step = advanced(walk.state, answer(world, request));
        let next = assembled(walk, answer(world, request));
        let rest = streamed(world, step.0, (lookups - 1) as nat);
        lemma_buffered_is_streamed(world, next, (lookups - 1) as nat);
        lemma_events_in_two_parts(step.1, rest.1);
        assert((walk.posts + posts_of(step.1)) + posts_of(rest.1) =~= walk.posts + (posts_of(
            step.1,
        ) + posts_of(rest.1)));
    }
}

/// The thread of a completed buffered walk is the stream gathered: its posts
/// are the stream's posts, its author is the stream's header; and a stream
/// that fails gives the buffered walk its error and no thread.
pub proof fn lemma_thread_is_stream_gathered(world: World, state: WalkModel, lookups: nat)
    ensures
        ({
            let stream = streamed(world, state, lookups);
            let outcome = outcome_of(buffered(world, fresh(state), lookups));
            &&& outcome matches Some(Ok(thread)) ==> stream.0 is Complete && thread.posts
                == posts_of(stream.1) && header_of(stream.1) == Some(thread.author)
            &&& outcome matches Some(Err(e)) ==> stream.0 == WalkModel::Failed(e)
            &&& stream.0 is Failed ==> outcome == Some(
                Err::<ThreadModel, ErrorModel>(stream.0->Failed_0),
            )
        }),
{
    lemma_buffered_is_streamed(world, fresh(state), lookups);
    let stream = streamed(world, state, lookups);
    assert(fresh(state).posts + posts_of(stream.1) =~= posts_of(stream.1));
}

/// Whether `Done` is among a run of events.
pub open spec fn has_done(events: Seq<EventModel>) -> bool {
    exists|i: int| 0 <= i < events.len() && #[trigger] events[i] is Done
}

/// One answer releases `Done` exactly where it completes the walk, and then
/// as its last event.
pub proof fn lemma_done_ends_a_step(state: WalkModel, response: ResponseModel)
    requires
        !(state is Complete),
    ensures
        has_done(advanced(state, response).1) <==> advanced(state, response).0 is Complete,
        advanced(state, response).0 is Complete ==> advanced(state, response).1.len() > 0
            && advanced(state, response).1.last() is Done,
        advanced(state, response).0 is Failed && !(state is Failed) ==> forall|i: int|
            0 <= i < advanced(state, response).1.len() ==> !(
            #[trigger] advanced(state, response).1[i] is Post),
{
    let step = advanced(state, response);
    if step.0 is Complete {
        assert(step.1.last() is Done);
        assert(step.1[step.1.len() - 1] is Done);
    }
}

/// `Done` is released only by a walk that completes, and nothing follows it:
/// a walk that ends in failure, or has not ended, has released no `Done`.
pub proof fn lemma_done_marks_completion(world: World, state: WalkModel, lookups: nat)
    requires
        !(state is Complete),
    ensures
        has_done(streamed(world, state, lookups).1) <==> streamed(world, state, lookups).0
            is Complete,
        streamed(world, state, lookups).0 is Complete ==> streamed(world, state, lookups).1.len()
            > 0 && streamed(world, state, lookups).1.last() is Done,
    decreases lookups,
{
    if lookups > 0 && pending(state) is Some {
        let request = pending(state)->0;
        let step = advanced(state, answer(world, request));
        let rest = streamed(world, step.0, (lookups - 1) as nat);
        let all = step.1 + rest.1;
        lemma_done_ends_a_step(state, answer(world, request));
        if step.0 is Complete {
            lemma_finished_walk_rests(world, step.0, (lookups - 1) as nat);
            assert(all =~= step.1);
        } else {
            lemma_done_marks_completion(world, step.0, (lookups - 1) as nat);
            if has_done(rest.1) {
                let i = choose|i: int| 0 <= i < rest.1.len() && #[trigger] rest.1[i] is Done;
                assert(all[step.1.len() + i] is Done);
                assert(all.last() == rest.1.last());
            }
            if has_done(all) {
                let i = choose|i: int| 0 <= i < all.len() && #[trigger] all[i] is Done;
                if i < step.1.len() {
                    assert(step.1[i] is Done);
                } else {
                    assert(rest.1[i - step.1.len()] is Done);
                }
            }
        }
    }
}

/// The shape of a stream that has released `events` and stands in `state`:
/// nothing before the root has answered; then the header, followed by posts
/// only; and `Done` as the last event exactly where the walk is complete. A
/// walk that is past its root or complete has released at least one post.
pub open spec fn in_order(state: WalkModel, events: Seq<EventModel>) -> bool {
    match state {
        WalkModel::ResolvingHandle { .. } => events.len() == 0,
        WalkModel::LocatingRoot { .. } => events.len() == 0,
        WalkModel::WalkingForward { author_did, .. } => match author_did {
            None => events.len() == 0,
            Some(_) => events.len() >= 2 && events[0] is Header && forall|i: int|
                1 <= i < events.len() ==> #[trigger] events[i] is Post,
        },
        WalkModel::Complete => events.len() >= 3 && events[0] is Header && events.last() is Done
            && forall|i: int| 1 <= i < events.len() - 1 ==> #[trigger] events[i] is Post,
        WalkModel::Failed(_) => events.len() == 0 || (events[0] is Header && forall|i: int|
            1 <= i < events.len() ==> #[trigger] events[i] is Post),
    }
}

/// One answer keeps a stream in order.
pub proof fn lemma_step_keeps_order(
    state: WalkModel,
    events: Seq<EventModel>,
    response: ResponseModel,
)
    requires
        in_order(state, events),
    ensures
        in_order(advanced(state, response).0, events + advanced(state, response).1),
{
    let step = advanced(state, response);
    let all = events + step.1;
    if step.1.len() == 0 {
        assert(all =~= events);
    } else {
        assert forall|i: int| 0 <= i < all.len() implies all[i] == (if i < events.len() {
            events[i]
        } else {
            step.1[i - events.len()]
        }) by {}
    }
}

/// Ordering. Whatever the network answers, the events of a stream come in
/// order: one header first, then posts only, and `Done` last and only where
/// the walk completed; a stream that failed has no `Done`.
pub proof fn lemma_stream_is_in_order(
    world: World,
    state: WalkModel,
    events: Seq<EventModel>,
    lookups: nat,
)
    requires
        in_order(state, events),
    ensures
        in_order(streamed(world, state, lookups).0, events + streamed(world, state, lookups).1),
    decreases lookups,
{
    let empty = Seq::<EventModel>::empty();
    if lookups == 0 || pending(state) is None {
        assert(events + empty =~= events);
    } else {
        let request = pending(state)->0;
        let step = advanced(state, answer(world, request));
        let rest = streamed(world, step.0, (lookups - 1) as nat);
        lemma_step_keeps_order(state, events, answer(world, request));
        lemma_stream_is_in_order(world, step.0, events + step.1, (lookups - 1) as nat);
        assert((events + step.1) + rest.1 =~= events + (step.1 + rest.1));
    }
}

/// What makes the post at place `i` a link of a chain that `world` serves:
/// the world finds it under its identifier, the author of the chain wrote
/// it, its record can be read, its parent by the author is the post before
/// it (the first post has none), and the first reply by the author that it
/// lists is the post after it (the last post lists none).
pub open spec fn is_link(world: World, chain: Seq<ContextModel>, i: int) -> bool {
    &&& (world.posts)(chain[i].post.uri) == Ok::<LookupModel, Seq<char>>(
        LookupModel::Found(chain[i]),
    )
    &&& chain[i].post.author.did == chain[0].post.author.did
    &&& projected(chain[i].post) is Ok
    &&& same_author_parent(chain[i]) == (if i == 0 {
        None
    } else {
        Some(chain[i - 1].post.uri)
    })
    &&& first_self_reply(chain[i].replies, chain[0].post.author.did) == (if i == chain.len() - 1 {
        None
    } else {
        Some(chain[i + 1].post.uri)
    })
}

/// A self-reply chain that `world` serves: one post or more, each a link.
pub open spec fn is_chain(world: World, chain: Seq<ContextModel>) -> bool {
    &&& chain.len() >= 1
    &&& forall|i: int| 0 <= i < chain.len() ==> #[trigger] is_link(world, chain, i)
}

/// The posts that a thread shows for the posts of a chain.
pub open spec fn chain_posts(chain: Seq<ContextModel>) -> Seq<PostModel> {
    chain.map_values(|c: ContextModel| projected(c.post)->Ok_0)
}

/// The `Post` events of the posts of a chain.
pub open spec fn post_events(chain: Seq<ContextModel>) -> Seq<EventModel> {
    chain.map_values(|c: ContextModel| EventModel::Post(projected(c.post)->Ok_0))
}

/// The whole stream of a chain: the header with its author, one `Post` for
/// each post from the root down, and `Done`.
pub open spec fn chain_stream(chain: Seq<ContextModel>) -> Seq<EventModel> {
    seq![EventModel::Header(chain[0].post.author)] + post_events(chain) + seq![EventModel::Done]
}

/// The state in which a walk waits for the post at place `i` of a chain on
/// its way down: at the root the author is not known yet.
pub open spec fn descending_at(chain: Seq<ContextModel>, i: int) -> WalkModel {
    WalkModel::WalkingForward {
        current: chain[i].post.uri,
        author_did: if i == 0 {
            None
        } else {
            Some(chain[0].post.author.did)
        },
    }
}

/// One lookup on the way up: from the post at place `k` to the post before
/// it, and from the first post to the descent.
proof fn lemma_link_is_climbed(world: World, chain: Seq<ContextModel>, k: int)
    requires
        is_chain(world, chain),
        0 <= k < chain.len(),
    ensures
        advanced(
            WalkModel::LocatingRoot { current: chain[k].post.uri },
            answer(world, shallow_fetch(chain[k].post.uri)),
        ) == (
            if k == 0 {
                descending_at(chain, 0)
            } else {
                WalkModel::LocatingRoot { current: chain[k - 1].post.uri }
            },
            Seq::<EventModel>::empty(),
        ),
{
    assert(is_link(world, chain, k));
    assert(fetched((world.posts)(chain[k].post.uri)) == Ok::<ContextModel, ErrorModel>(chain[k]));
}

/// One lookup on the way down: the post at place `i` is released, after the
/// header at the root, and the walk goes on to the next post or completes
/// with `Done`.
proof fn lemma_link_is_descended(world: World, chain: Seq<ContextModel>, i: int)
    requires
        is_chain(world, chain),
        0 <= i < chain.len(),
    ensures
        advanced(descending_at(chain, i), answer(world, shallow_fetch(chain[i].post.uri))).0 == (
        if i == chain.len() - 1 {
            WalkModel::Complete
        } else {
            descending_at(chain, i + 1)
        }),
        advanced(descending_at(chain, i), answer(world, shallow_fetch(chain[i].post.uri))).1 == (
        if i == 0 {
            seq![EventModel::Header(chain[0].post.author)]
        } else {
            Seq::<EventModel>::empty()
        }) + seq![EventModel::Post(projected(chain[i].post)->Ok_0)] + (if i == chain.len() - 1 {
            seq![EventModel::Done]
        } else {
            Seq::<EventModel>::empty()
        }),
{
    assert(is_link(world, chain, i));
    assert(fetched((world.posts)(chain[i].post.uri)) == Ok::<ContextModel, ErrorModel>(chain[i]));
    let released = advanced(
        descending_at(chain, i),
        answer(world, shallow_fetch(chain[i].post.uri)),
    ).1;
    let expected = (if i == 0 {
        seq![EventModel::Header(chain[0].post.author)]
    } else {
        Seq::<EventModel>::empty()
    }) + seq![EventModel::Post(projected(chain[i].post)->Ok_0)] + (if i == chain.len() - 1 {
        seq![EventModel::Done]
    } else {
        Seq::<EventModel>::empty()
    });
    assert(released =~= expected);
}

/// From the post at place `k` of a chain, `k + 1` lookups reach the root:
/// the walk then stands at the chain's first post, the one post of the chain
/// without a parent by the author, and has released nothing yet.
pub proof fn lemma_root_is_located(world: World, chain: Seq<ContextModel>, k: int)
    requires
        is_chain(world, chain),
        0 <= k < chain.len(),
    ensures
        streamed(world, WalkModel::LocatingRoot { current: chain[k].post.uri }, (k + 1) as nat)
            == (descending_at(chain, 0), Seq::<EventModel>::empty()),
    decreases k,
{
    let empty = Seq::<EventModel>::empty();
    let state = WalkModel::LocatingRoot { current: chain[k].post.uri };
    let step = advanced(state, answer(world, shallow_fetch(chain[k].post.uri)));
    let rest = streamed(world, step.0, k as nat);
    lemma_link_is_climbed(world, chain, k);
    if k > 0 {
        lemma_root_is_located(world, chain, k - 1);
    }
    assert(pending(state) == Some(shallow_fetch(chain[k].post.uri)));
    assert(streamed(world, state, (k + 1) as nat) == (rest.0, step.1 + rest.1));
    assert(empty + empty =~= empty);
}

/// The events that the posts of a chain from place `i` on release on the
/// way down.
pub open spec fn stream_from(chain: Seq<ContextModel>, i: int) -> Seq<EventModel> {
    (if i == 0 {
        seq![EventModel::Header(chain[0].post.author)]
    } else {
        Seq::<EventModel>::empty()
    }) + post_events(chain.skip(i)) + seq![EventModel::Done]
}

/// From the post at place `i` of a chain, one lookup for each remaining
/// post visits each of them once, in reply order, and completes.
pub proof fn lemma_rest_is_walked(world: World, chain: Seq<ContextModel>, i: int)
    requires
        is_chain(world, chain),
        0 <= i < chain.len(),
    ensures
        streamed(world, descending_at(chain, i), (chain.len() - i) as nat) == (
            WalkModel::Complete,
            stream_from(chain, i),
        ),
    decreases chain.len() - i,
{
    let step = advanced(descending_at(chain, i), answer(world, shallow_fetch(chain[i].post.uri)));
    let rest = streamed(world, step.0, (chain.len() - i - 1) as nat);
    let post = seq![EventModel::Post(projected(chain[i].post)->Ok_0)];
    lemma_link_is_descended(world, chain, i);
    assert(pending(descending_at(chain, i)) == Some(shallow_fetch(chain[i].post.uri)));
    if i == chain.len() - 1 {
        assert(post_events(chain.skip(i)) =~= post);
    } else {
        lemma_rest_is_walked(world, chain, i + 1);
        assert(post_events(chain.skip(i)) =~= post + post_events(chain.skip(i + 1)));
    }
    assert(step.1 + rest.1 =~= stream_from(chain, i));
}

/// From the root of a chain, one lookup for each post releases the whole
/// stream of the chain and completes.
pub proof fn lemma_chain_is_walked(world: World, chain: Seq<ContextModel>)
    requires
        is_chain(world, chain),
    ensures
        streamed(world, descending_at(chain, 0), chain.len()) == (
            WalkModel::Complete,
            chain_stream(chain),
        ),
{
    lemma_rest_is_walked(world, chain, 0);
    assert(chain.skip(0) =~= chain);
}

/// The posts and the header of the stream of a chain.
pub proof fn lemma_chain_stream_read(chain: Seq<ContextModel>)
    requires
        chain.len() >= 1,
    ensures
        posts_of(chain_stream(chain)) == chain_posts(chain),
        header_of(chain_stream(chain)) == Some(chain[0].post.author),
{
    let header = seq![EventModel::Header(chain[0].post.author)];
    let done = seq![EventModel::Done];
    lemma_post_events_read(chain);
    lemma_events_in_two_parts(header, post_events(chain));
    lemma_events_in_two_parts(header + post_events(chain), done);
    assert(header.drop_last() =~= Seq::<EventModel>::empty());
    assert(done.drop_last() =~= Seq::<EventModel>::empty());
    assert(posts_of(Seq::<EventModel>::empty()) =~= Seq::<PostModel>::empty());
    assert(header_of(Seq::<EventModel>::empty()) is None);
    assert(posts_of(header) + chain_posts(chain) + posts_of(done) =~= chain_posts(chain));
}

/// The `Post` events of a chain hold the posts of the chain and no header.
proof fn lemma_post_events_read(chain: Seq<ContextModel>)
    ensures
        posts_of(post_events(chain)) == chain_posts(chain),
        header_of(post_events(chain)) is None,
    decreases chain.len(),
{
    if chain.len() == 0 {
        assert(chain_posts(chain) =~= Seq::<PostModel>::empty());
    } else {
        lemma_post_events_read(chain.drop_last());
        assert(post_events(chain).drop_last() =~= post_events(chain.drop_last()));
        assert(chain_posts(chain) =~= chain_posts(chain.drop_last()).push(
            projected(chain.last().post)->Ok_0,
        ));
    }
}

/// Reconstruction. Started at any post of a chain that the world serves, a
/// walk with enough lookups (one for each post from the start up to the
/// root, one for each post of the chain) completes, and its stream is the
/// header of the chain's author, every post of the chain exactly once in
/// reply order, and `Done`.
pub proof fn lemma_chain_is_reconstructed(
    world: World,
    chain: Seq<ContextModel>,
    k: int,
    lookups: nat,
)
    requires
        is_chain(world, chain),
        0 <= k < chain.len(),
        lookups >= k + 1 + chain.len(),
    ensures
        streamed(world, WalkModel::LocatingRoot { current: chain[k].post.uri }, lookups) == (
            WalkModel::Complete,
            chain_stream(chain),
        ),
        posts_of(chain_stream(chain)) == chain_posts(chain),
        header_of(chain_stream(chain)) == Some(chain[0].post.author),
{
    let empty = Seq::<EventModel>::empty();
    let start = WalkModel::LocatingRoot { current: chain[k].post.uri };
    let root = descending_at(chain, 0);
    let spare = (lookups - (k + 1) - chain.len()) as nat;
    lemma_root_is_located(world, chain, k);
    lemma_chain_is_walked(world, chain);
    lemma_streamed_in_two_parts(world, start, (k + 1) as nat, chain.len() + spare);
    lemma_streamed_in_two_parts(world, root, chain.len(), spare);
    lemma_finished_walk_rests(world, WalkModel::Complete, spare);
    assert((k + 1) as nat + (chain.len() + spare) == lookups);
    assert(empty + (chain_stream(chain) + empty) =~= chain_stream(chain));
    lemma_chain_stream_read(chain);
}

/// The thread that a buffered walk from `start` hands out after `lookups`
/// lookups in `world`, if it has ended by then.
pub open spec fn assembled_thread(world: World, start: Seq<char>, lookups: nat) -> Option<
    Result<ThreadModel, ErrorModel>,
> {
    outcome_of(buffered(world, fresh(WalkModel::LocatingRoot { current: start }), lookups))
}

/// The thread of a chain: its posts from the root down, and its author.
pub open spec fn chain_thread(chain: Seq<ContextModel>) -> ThreadModel {
    ThreadModel { posts: chain_posts(chain), author: chain[0].post.author }
}

/// The buffered walk from any post of a chain hands out the thread of the
/// chain.
pub proof fn lemma_chain_is_assembled(
    world: World,
    chain: Seq<ContextModel>,
    k: int,
    lookups: nat,
)
    requires
        is_chain(world, chain),
        0 <= k < chain.len(),
        lookups >= k + 1 + chain.len(),
    ensures
        assembled_thread(world, chain[k].post.uri, lookups) == Some(
            Ok::<ThreadModel, ErrorModel>(chain_thread(chain)),
        ),
{
    let start = WalkModel::LocatingRoot { current: chain[k].post.uri };
    lemma_chain_is_reconstructed(world, chain, k, lookups);
    lemma_buffered_is_streamed(world, fresh(start), lookups);
    assert(fresh(start).posts + chain_posts(chain) =~= chain_posts(chain));
}

/// Idempotence. Two assemblies of an unchanged chain hand out the same
/// thread: whichever posts of the chain they start at, however many lookups
/// beyond the needed ones they are allowed, and whatever else the network
/// holds besides the chain.
pub proof fn lemma_assembly_is_repeatable(
    first: World,
    second: World,
    chain: Seq<ContextModel>,
    k1: int,
    k2: int,
    lookups1: nat,
    lookups2: nat,
)
    requires
        is_chain(first, chain),
        is_chain(second, chain),
        0 <= k1 < chain.len(),
        0 <= k2 < chain.len(),
        lookups1 >= k1 + 1 + chain.len(),
        lookups2 >= k2 + 1 + chain.len(),
    ensures
        assembled_thread(first, chain[k1].post.uri, lookups1) == assembled_thread(
            second,
            chain[k2].post.uri,
            lookups2,
        ),
        assembled_thread(first, chain[k1].post.uri, lookups1) is Some,
{
    lemma_chain_is_assembled(first, chain, k1, lookups1);
    lemma_chain_is_assembled(second, chain, k2, lookups2);
}

/// A post without a parent and without a reply by its author is a thread of
/// one post.
pub proof fn lemma_single_post_thread(world: World, context: ContextModel, lookups: nat)
    requires
        (world.posts)(context.post.uri) == Ok::<LookupModel, Seq<char>>(
            LookupModel::Found(context),
        ),
        projected(context.post) is Ok,
        context.parent is None,
        first_self_reply(context.replies, context.post.author.did) is None,
        lookups >= 2,
    ensures
        assembled_thread(world, context.post.uri, lookups) matches Some(Ok(thread))
            && thread.posts.len() == 1 && thread.posts[0] == projected(context.post)->Ok_0
            && thread.author == context.post.author,
{
    let chain = seq![context];
    assert(is_link(world, chain, 0));
    lemma_chain_is_assembled(world, chain, 0, lookups);
}

} // verus!
