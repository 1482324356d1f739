//! The buffered reading of a walk: the events of the stream gathered into
//! one thread, which is handed out only when the walk has completed.

use crate::bluesky::client::{fetched, projected, ClientError, ErrorModel};
use crate::bluesky::types::{
    post_models, Author, AuthorModel, EventModel, PostModel, StreamEvent, Thread, ThreadModel,
    ThreadPost,
};
use crate::bluesky::walk::{
    advanced, event_models, pending, started, Request, Response, ResponseModel, WalkModel,
    WalkState,
};
use vstd::prelude::*;

verus! {

/// The posts among a run of events, in their order.
pub open spec fn posts_of(events: Seq<EventModel>) -> Seq<PostModel>
    decreases events.len(),
{
    if events.len() == 0 {
        Seq::empty()
    } else {
        match events.last() {
            EventModel::Post(post) => posts_of(events.drop_last()).push(post),
            _ => posts_of(events.drop_last()),
        }
    }
}

/// The author that the last header among a run of events names.
pub open spec fn header_of(events: Seq<EventModel>) -> Option<AuthorModel>
    decreases events.len(),
{
    if events.len() == 0 {
        None
    } else {
        match events.last() {
            EventModel::Header(author) => Some(author),
            _ => header_of(events.drop_last()),
        }
    }
}

/// What a buffered walk holds: where the walk stands, and what the events
/// released so far have named and brought.
pub struct AssemblerModel {
    pub state: WalkModel,
    pub author: Option<AuthorModel>,
    pub posts: Seq<PostModel>,
}

/// What a buffered walk holds after it has taken in a run of events and
/// moved to `state`.
pub open spec fn gathered(
    before: AssemblerModel,
    state: WalkModel,
    events: Seq<EventModel>,
) -> AssemblerModel {
    AssemblerModel {
        state,
        author: match header_of(events) {
            Some(author) => Some(author),
            None => before.author,
        },
        posts: before.posts + posts_of(events),
    }
}

/// What a buffered walk holds after an answer.
pub open spec fn assembled(before: AssemblerModel, response: ResponseModel) -> AssemblerModel {
    gathered(before, advanced(before.state, response).0, advanced(before.state, response).1)
}

/// How a buffered walk has ended: not yet, with the error of the failed
/// lookup, or with the thread. No part of a thread goes with an error.
pub open spec fn outcome_of(a: AssemblerModel) -> Option<Result<ThreadModel, ErrorModel>> {
    match a.state {
        WalkModel::Failed(e) => Some(Err(e)),
        WalkModel::Complete => match a.author {
            Some(author) => Some(Ok(ThreadModel { posts: a.posts, author })),
            None => None,
        },
        _ => None,
    }
}

/// Past the root the author is known and the root's post is held.
pub open spec fn past_root(a: AssemblerModel) -> bool {
    (a.state is Complete || (a.state matches WalkModel::WalkingForward { author_did, .. }
        && author_did is Some)) ==> a.author is Some && a.posts.len() >= 1
}

/// A walk that gathers its thread instead of streaming it.
#[derive(Debug)]
pub struct ThreadAssembler {
    state: WalkState,
    author: Option<Author>,
    posts: Vec<ThreadPost>,
}

impl View for ThreadAssembler {
    type V = AssemblerModel;

    closed spec fn view(&self) -> AssemblerModel {
        AssemblerModel {
            state: self.state@,
            author: match self.author {
                Some(author) => Some(author@),
                None => None,
            },
            posts: post_models(self.posts@),
        }
    }
}

proof fn lemma_posts_of_push(events: Seq<EventModel>, e: EventModel)
    ensures
        posts_of(events.push(e)) == (match e {
            EventModel::Post(post) => posts_of(events).push(post),
            _ => posts_of(events),
        }),
        header_of(events.push(e)) == (match e {
            EventModel::Header(author) => Some(author),
            _ => header_of(events),
        }),
{
    assert(events.push(e).drop_last() =~= events);
}

/// Each answer leaves a buffered walk with what its new state calls for:
/// the answer that takes the walk past its root brings the author and the
/// root's post.
proof fn lemma_advanced_past_root(before: AssemblerModel, response: ResponseModel)
    requires
        past_root(before),
    ensures
        past_root(assembled(before, response)),
{
    let empty = Seq::<EventModel>::empty();
    if advanced(before.state, response).1.len() > 0 {
        let author_did = before.state->WalkingForward_author_did;
        let context = fetched(response->Context_0)->Ok_0;
        let header = match author_did {
            Some(_) => empty,
            None => seq![EventModel::Header(context.post.author)],
        };
        lemma_posts_of_push(empty, EventModel::Header(context.post.author));
        if projected(context.post) is Ok {
            let post = projected(context.post)->Ok_0;
            lemma_posts_of_push(header, EventModel::Post(post));
            lemma_posts_of_push(header.push(EventModel::Post(post)), EventModel::Done);
        }
    }
}

impl ThreadAssembler {
    #[verifier::type_invariant]
    spec fn well_formed(self) -> bool {
        past_root(self@)
    }

    /// Begins the buffered walk for the post `post_id` of `handle`.
    pub fn new(handle: String, post_id: String) -> (r: ThreadAssembler)
        ensures
            r@ == (AssemblerModel {
                state: started(handle@, post_id@),
                author: None,
                posts: Seq::empty(),
            }),
    {
        let r = ThreadAssembler {
            state: WalkState::start(handle, post_id),
            author: None,
            posts: Vec::new(),
        };
        assert(r@.posts =~= Seq::empty());
        r
    }

    /// Begins the buffered walk at a post that is known by its identifier.
    pub fn at(at_uri: String) -> (r: ThreadAssembler)
        ensures
            r@ == (AssemblerModel {
                state: WalkModel::LocatingRoot { current: at_uri@ },
                author: None,
                posts: Seq::empty(),
            }),
    {
        let r = ThreadAssembler {
            state: WalkState::start_at(at_uri),
            author: None,
            posts: Vec::new(),
        };
        assert(r@.posts =~= Seq::empty());
        r
    }

    /// The lookup the walk waits for.
    pub fn request(&self) -> (r: Option<Request>)
        ensures
            r is Some <==> pending(self@.state) is Some,
            r matches Some(request) ==> pending(self@.state) == Some(request@),
    {
        self.state.request()
    }

    /// Takes the answer to the pending lookup and keeps what it released.
    pub fn advance(self, response: Response) -> (r: ThreadAssembler)
        ensures
            r@ == assembled(self@, response@),
    {
        proof {
            use_type_invariant(&self);
            lemma_advanced_past_root(self@, response@);
        }
        let ThreadAssembler { state, author, posts } = self;
        let mut author = author;
        let mut posts = posts;
        let ghost before = self@;
        let (state, events) = state.advance(response);
        let ghost released = event_models(events@);
        for event in it: events
            invariant
                event_models(it.seq()) == released,
                post_models(posts@) == before.posts + posts_of(
                    event_models(it.seq().take(it.index() as int)),
                ),
                (match author {
                    Some(author) => Some(author@),
                    None => None,
                }) == (match header_of(event_models(it.seq().take(it.index() as int))) {
                    Some(author) => Some(author),
                    None => before.author,
                }),
        {
            let ghost taken = event_models(it.seq().take(it.index() as int));
            let ghost old_posts = post_models(posts@);
            proof {
                lemma_posts_of_push(taken, event@);
                assert(event_models(it.seq().take(it.index() + 1)) =~= taken.push(event@));
            }
            match event {
                StreamEvent::Header(named) => {
                    author = Some(named);
                },
                StreamEvent::Post(post) => {
                    posts.push(post);
                    assert(post_models(posts@) =~= old_posts.push(post@));
                },
                StreamEvent::Done => {},
            }
        }
        assert(events@.take(events@.len() as int) =~= events@);
        let r = ThreadAssembler { state, author, posts };
        r
    }

    /// How the walk has ended: `None` while a lookup is pending, the error
    /// of the failed lookup, or the complete thread, which holds at least
    /// its root.
    pub fn finish(self) -> (r: Option<Result<Thread, ClientError>>)
        ensures
            r is Some <==> outcome_of(self@) is Some,
            r is Some <==> pending(self@.state) is None,
            r matches Some(Ok(thread)) ==> outcome_of(self@) == Some(
                Ok::<ThreadModel, ErrorModel>(thread@),
            ) && thread@.posts.len() >= 1,
            r matches Some(Err(e)) ==> outcome_of(self@) == Some(
                Err::<ThreadModel, ErrorModel>(e@),
            ),
    {
        proof {
            use_type_invariant(&self);
        }
        let ThreadAssembler { state, author, posts } = self;
        match state {
            WalkState::Failed(e) => Some(Err(e)),
            WalkState::Complete => match author {
                Some(author) => Some(Ok(Thread { posts, author })),
                None => None,
            },
            _ => None,
        }
    }
}

} // verus!
