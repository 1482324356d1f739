//! The walk that reconstructs a self-reply thread, as a state machine: the
//! state says which lookup it waits for, and each answer moves it on and may
//! release events of the thread's stream. Whoever drives the machine makes
//! the lookups; the machine only decides.

use crate::bluesky::client::{
    api_error_of, extract_post, fetched, find_self_reply, first_self_reply,
    get_parent_uri_if_same_author, map_api_error, normalize, outcome_model, projected,
    same_author_parent, ClientError, ErrorModel, LookupModel, ThreadLookup, LOOKUP_DEPTH,
    LOOKUP_PARENT_HEIGHT,
};
use crate::bluesky::types::{opt_text, EventModel, StreamEvent};
use vstd::prelude::*;
use vstd::string::*;

verus! {

/// Whether `atrium_api` accepts a text as a handle.
pub uninterp spec fn handle_accepted(handle: Seq<char>) -> bool;

/// Asks `atrium_api::types::string::Handle::new` whether it accepts `handle`;
/// it checks the length and the syntax of a handle and nothing else.
#[verifier::external_body]
fn atrium_handle_ok(handle: &str) -> (b: bool)
    ensures
        b == handle_accepted(handle@),
{
    atrium_api::types::string::Handle::new(handle.to_string()).is_ok()
}

/// The identifier of the post `post_id` in the feed of `did`.
pub open spec fn post_uri_of(did: Seq<char>, post_id: Seq<char>) -> Seq<char> {
    "at://"@ + did + "/app.bsky.feed.post/"@ + post_id
}

/// The identifier of the post `post_id` in the feed of `did`.
pub fn post_uri(did: &str, post_id: &str) -> (r: String)
    ensures
        r@ == post_uri_of(did@, post_id@),
{
    let mut r = String::from_str("at://");
    r.append(did);
    r.append("/app.bsky.feed.post/");
    r.append(post_id);
    r
}

/// Where a walk stands.
#[derive(Debug, Clone)]
pub enum WalkState {
    /// Waiting for the `did` behind the handle.
    ResolvingHandle { handle: String, post_id: String },
    /// Climbing toward the root: waiting for the context of `current`.
    LocatingRoot { current: String },
    /// Descending from the root: waiting for the context of `current`. The
    /// author is known once the root's context has arrived.
    WalkingForward { current: String, author_did: Option<String> },
    /// The chain has ended and `Done` has been released.
    Complete,
    /// A lookup failed; nothing more is released.
    Failed(ClientError),
}

/// The value of a `WalkState`.
pub enum WalkModel {
    ResolvingHandle { handle: Seq<char>, post_id: Seq<char> },
    LocatingRoot { current: Seq<char> },
    WalkingForward { current: Seq<char>, author_did: Option<Seq<char>> },
    Complete,
    Failed(ErrorModel),
}

impl View for WalkState {
    type V = WalkModel;

    open spec fn view(&self) -> WalkModel {
        match self {
            WalkState::ResolvingHandle { handle, post_id } => WalkModel::ResolvingHandle {
                handle: handle@,
                post_id: post_id@,
            },
            WalkState::LocatingRoot { current } => WalkModel::LocatingRoot { current: current@ },
            WalkState::WalkingForward { current, author_did } => WalkModel::WalkingForward {
                current: current@,
                author_did: opt_text(*author_did),
            },
            WalkState::Complete => WalkModel::Complete,
            WalkState::Failed(e) => WalkModel::Failed(e@),
        }
    }
}

/// A lookup that a walk asks its driver to make.
#[derive(Debug, Clone, PartialEq, Eq)]
pub enum Request {
    /// Find the `did` that a handle stands for.
    ResolveHandle { handle: String },
    /// Fetch a post with `depth` levels of replies and `parent_height` levels
    /// of parents.
    FetchContext { uri: String, depth: u16, parent_height: u16 },
}

/// The value of a `Request`.
pub enum RequestModel {
    ResolveHandle { handle: Seq<char> },
    FetchContext { uri: Seq<char>, depth: u16, parent_height: u16 },
}

impl View for Request {
    type V = RequestModel;

    open spec fn view(&self) -> RequestModel {
        match self {
            Request::ResolveHandle { handle } => RequestModel::ResolveHandle { handle: handle@ },
            Request::FetchContext { uri, depth, parent_height } => RequestModel::FetchContext {
                uri: uri@,
                depth: *depth,
                parent_height: *parent_height,
            },
        }
    }
}

/// The answer to a request: what was found, or the text of the error that
/// the call failed with.
#[derive(Debug)]
pub enum Response {
    Handle(Result<String, String>),
    Context(Result<ThreadLookup, String>),
}

/// The value of a `Response`.
pub enum ResponseModel {
    Handle(Result<Seq<char>, Seq<char>>),
    Context(Result<LookupModel, Seq<char>>),
}

impl View for Response {
    type V = ResponseModel;

    open spec fn view(&self) -> ResponseModel {
        match self {
            Response::Handle(Ok(did)) => ResponseModel::Handle(Ok(did@)),
            Response::Handle(Err(text)) => ResponseModel::Handle(Err(text@)),
            Response::Context(outcome) => ResponseModel::Context(outcome_model(*outcome)),
        }
    }
}

/// The values of a list of events.
pub open spec fn event_models(events: Seq<StreamEvent>) -> Seq<EventModel> {
    events.map_values(|e: StreamEvent| e@)
}

/// The shallow lookup of `uri`: one level of parents, one of replies,
/// whatever the walk is after.
pub open spec fn shallow_fetch(uri: Seq<char>) -> RequestModel {
    RequestModel::FetchContext {
        uri,
        depth: LOOKUP_DEPTH,
        parent_height: LOOKUP_PARENT_HEIGHT,
    }
}

/// The state a walk for the post `post_id` of `handle` begins in: a handle
/// that is none fails the walk before any lookup.
pub open spec fn started(handle: Seq<char>, post_id: Seq<char>) -> WalkModel {
    if handle_accepted(handle) {
        WalkModel::ResolvingHandle { handle, post_id }
    } else {
        WalkModel::Failed(ErrorModel::Api("invalid handle"@))
    }
}

/// The lookup that a state waits for; a finished walk waits for none.
pub open spec fn pending(state: WalkModel) -> Option<RequestModel> {
    match state {
        WalkModel::ResolvingHandle { handle, .. } => Some(RequestModel::ResolveHandle { handle }),
        WalkModel::LocatingRoot { current } => Some(shallow_fetch(current)),
        WalkModel::WalkingForward { current, .. } => Some(shallow_fetch(current)),
        WalkModel::Complete => None,
        WalkModel::Failed(_) => None,
    }
}

/// What an answer to the root-ward lookup of `current` leads to: the parent
/// where the same author wrote it, the descent from `current` where not.
pub open spec fn climbed(current: Seq<char>, outcome: Result<LookupModel, Seq<char>>) -> WalkModel {
    match fetched(outcome) {
        Err(e) => WalkModel::Failed(e),
        Ok(context) => match same_author_parent(context) {
            Some(parent) => WalkModel::LocatingRoot { current: parent },
            None => WalkModel::WalkingForward { current, author_did: None },
        },
    }
}

/// What an answer to a lookup of the descent leads to, and the events it
/// releases. The first answer is the root's: it names the author and
/// releases the header. Each answer releases its post and either names the
/// next post, the first reply by the author, or ends the thread with `Done`.
/// A failure releases neither a post nor `Done`.
pub open spec fn descended(
    author_did: Option<Seq<char>>,
    outcome: Result<LookupModel, Seq<char>>,
) -> (WalkModel, Seq<EventModel>) {
    match fetched(outcome) {
        Err(e) => (WalkModel::Failed(e), Seq::empty()),
        Ok(context) => {
            let did = match author_did {
                Some(did) => did,
                None => context.post.author.did,
            };
            let header = match author_did {
                Some(_) => Seq::<EventModel>::empty(),
                None => seq![EventModel::Header(context.post.author)],
            };
            match projected(context.post) {
                Err(e) => (WalkModel::Failed(e), header),
                Ok(post) => match first_self_reply(context.replies, did) {
                    Some(next) => (
                        WalkModel::WalkingForward { current: next, author_did: Some(did) },
                        header.push(EventModel::Post(post)),
                    ),
                    None => (
                        WalkModel::Complete,
                        header.push(EventModel::Post(post)).push(EventModel::Done),
                    ),
                },
            }
        },
    }
}

/// The state after an answer, and the events that the answer releases. An
/// answer that the state does not wait for changes nothing.
pub open spec fn advanced(state: WalkModel, response: ResponseModel) -> (
    WalkModel,
    Seq<EventModel>,
) {
    match (state, response) {
        (WalkModel::ResolvingHandle { post_id, .. }, ResponseModel::Handle(Ok(did))) => (
            WalkModel::LocatingRoot { current: post_uri_of(did, post_id) },
            Seq::empty(),
        ),
        (WalkModel::ResolvingHandle { .. }, ResponseModel::Handle(Err(text))) => (
            WalkModel::Failed(api_error_of(text)),
            Seq::empty(),
        ),
        (WalkModel::LocatingRoot { current }, ResponseModel::Context(outcome)) => (
            climbed(current, outcome),
            Seq::empty(),
        ),
        (WalkModel::WalkingForward { author_did, .. }, ResponseModel::Context(outcome)) => descended(
            author_did,
            outcome,
        ),
        _ => (state, Seq::empty()),
    }
}

impl WalkState {
    /// Begins the walk for the post `post_id` of `handle`.
    pub fn start(handle: String, post_id: String) -> (state: WalkState)
        ensures
            state@ == started(handle@, post_id@),
    {
        if atrium_handle_ok(handle.as_str()) {
            WalkState::ResolvingHandle { handle, post_id }
        } else {
            WalkState::Failed(ClientError::Api(String::from_str("invalid handle")))
        }
    }

    /// Begins the walk at a post that is known by its identifier.
    pub fn start_at(at_uri: String) -> (state: WalkState)
        ensures
            state@ == (WalkModel::LocatingRoot { current: at_uri@ }),
    {
        WalkState::LocatingRoot { current: at_uri }
    }

    /// The lookup the walk waits for.
    pub fn request(&self) -> (r: Option<Request>)
        ensures
            r is Some <==> pending(self@) is Some,
            r matches Some(request) ==> pending(self@) == Some(request@),
    {
        match self {
            WalkState::ResolvingHandle { handle, .. } => Some(
                Request::ResolveHandle { handle: handle.clone() },
            ),
            WalkState::LocatingRoot { current } => Some(
                Request::FetchContext {
                    uri: current.clone(),
                    depth: LOOKUP_DEPTH,
                    parent_height: LOOKUP_PARENT_HEIGHT,
                },
            ),
            WalkState::WalkingForward { current, .. } => Some(
                Request::FetchContext {
                    uri: current.clone(),
                    depth: LOOKUP_DEPTH,
                    parent_height: LOOKUP_PARENT_HEIGHT,
                },
            ),
            WalkState::Complete => None,
            WalkState::Failed(_) => None,
        }
    }

    /// Whether the walk has ended, in success or in failure.
    pub fn is_finished(&self) -> (b: bool)
        ensures
            b == (pending(self@) is None),
    {
        match self {
            WalkState::Complete => true,
            WalkState::Failed(_) => true,
            _ => false,
        }
    }

    /// The error that ended the walk, if one did.
    pub fn failure(&self) -> (r: Option<&ClientError>)
        ensures
            r is Some <==> self@ is Failed,
            r matches Some(e) ==> self@ == WalkModel::Failed(e@),
    {
        match self {
            WalkState::Failed(e) => Some(e),
            _ => None,
        }
    }

    /// Takes the answer to the pending lookup: the next state, and the
    /// events to hand on, in order.
    pub fn advance(self, response: Response) -> (r: (WalkState, Vec<StreamEvent>))
        ensures
            r.0@ == advanced(self@, response@).0,
            event_models(r.1@) == advanced(self@, response@).1,
    {
        let mut events: Vec<StreamEvent> = Vec::new();
        match self {
            WalkState::ResolvingHandle { handle, post_id } => match response {
                Response::Handle(Ok(did)) => {
                    let current = post_uri(did.as_str(), post_id.as_str());
                    (WalkState::LocatingRoot { current }, events)
                },
                Response::Handle(Err(text)) => (WalkState::Failed(map_api_error(text)), events),
                Response::Context(_) => (
                    WalkState::ResolvingHandle { handle, post_id },
                    events,
                ),
            },
            WalkState::LocatingRoot { current } => match response {
                Response::Context(outcome) => match normalize(outcome) {
                    Err(e) => (WalkState::Failed(e), events),
                    Ok(context) => match get_parent_uri_if_same_author(&context) {
                        Some(parent) => (WalkState::LocatingRoot { current: parent }, events),
                        None => (WalkState::WalkingForward { current, author_did: None }, events),
                    },
                },
                Response::Handle(_) => (WalkState::LocatingRoot { current }, events),
            },
            WalkState::WalkingForward { current, author_did } => match response {
                Response::Context(outcome) => match normalize(outcome) {
                    Err(e) => (WalkState::Failed(e), events),
                    Ok(context) => {
                        let at_root = author_did.is_none();
                        let did = match author_did {
                            Some(did) => did,
                            None => context.post.author.did.clone(),
                        };
                        let next = find_self_reply(&context, did.as_str());
                        let (author, post) = extract_post(context.post);
                        if at_root {
                            events.push(StreamEvent::Header(author));
                        }
                        match post {
                            Err(e) => (WalkState::Failed(e), events),
                            Ok(post) => {
                                events.push(StreamEvent::Post(post));
                                match next {
                                    Some(next) => (
                                        WalkState::WalkingForward {
                                            current: next,
                                            author_did: Some(did),
                                        },
                                        events,
                                    ),
                                    None => {
                                        events.push(StreamEvent::Done);
                                        (WalkState::Complete, events)
                                    },
                                }
                            },
                        }
                    },
                },
                Response::Handle(_) => (
                    WalkState::WalkingForward { current, author_did },
                    events,
                ),
            },
            WalkState::Complete => (WalkState::Complete, events),
            WalkState::Failed(e) => (WalkState::Failed(e), events),
        }
    }
}

} // verus!
