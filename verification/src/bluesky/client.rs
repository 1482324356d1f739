//! What one lookup of a post returns, the errors a lookup can end in, and
//! the reading of a lookup: which neighbour continues the author's chain,
//! and which post the thread shows for it.

use crate::bluesky::types::{
    opt_embed, opt_text, Author, AuthorModel, Embed, EmbedModel, PostModel, ThreadPost,
};
use crate::text::{contains, contains_seq, same_text};
use crate::time::{rfc3339_instant, Timestamp};
use vstd::prelude::*;
use vstd::string::*;

verus! {

/// How far below a post a lookup asks for replies: one level.
pub const LOOKUP_DEPTH: u16 = 1;

/// How far above a post a lookup asks for parents: one level.
pub const LOOKUP_PARENT_HEIGHT: u16 = 1;

/// A failed HTTP exchange, as far as the library reads it.
#[derive(Debug, Clone, PartialEq, Eq)]
pub struct HttpFailure {
    /// The connection could not be made.
    pub is_connect: bool,
    /// The exchange ran out of time.
    pub is_timeout: bool,
    pub message: String,
}

/// Why a lookup gave no post.
#[derive(Debug, Clone, PartialEq, Eq)]
pub enum ClientError {
    Http(HttpFailure),
    NotFound,
    Blocked,
    RateLimited,
    Api(String),
    InvalidResponse,
}

/// The value of a `ClientError`.
pub enum ErrorModel {
    Http { is_connect: bool, is_timeout: bool, message: Seq<char> },
    NotFound,
    Blocked,
    RateLimited,
    Api(Seq<char>),
    InvalidResponse,
}

impl View for ClientError {
    type V = ErrorModel;

    open spec fn view(&self) -> ErrorModel {
        match self {
            ClientError::Http(failure) => ErrorModel::Http {
                is_connect: failure.is_connect,
                is_timeout: failure.is_timeout,
                message: failure.message@,
            },
            ClientError::NotFound => ErrorModel::NotFound,
            ClientError::Blocked => ErrorModel::Blocked,
            ClientError::RateLimited => ErrorModel::RateLimited,
            ClientError::Api(message) => ErrorModel::Api(message@),
            ClientError::InvalidResponse => ErrorModel::InvalidResponse,
        }
    }
}

/// The sentence that describes an error.
pub open spec fn error_message(e: ErrorModel) -> Seq<char> {
    match e {
        ErrorModel::Http { message, .. } => "HTTP error: "@ + message,
        ErrorModel::NotFound => "post not found"@,
        ErrorModel::Blocked => "post is blocked"@,
        ErrorModel::RateLimited => "rate limited"@,
        ErrorModel::Api(message) => "API error: "@ + message,
        ErrorModel::InvalidResponse => "invalid response structure"@,
    }
}

impl ClientError {
    /// Whether the same lookup may succeed later: after a rate limit, and
    /// after an HTTP exchange that failed. A post that is missing or
    /// blocked, an error of the API and an invalid response stay as they
    /// are.
    pub fn is_retryable(&self) -> (b: bool)
        ensures
            b == (self@ is RateLimited || self@ is Http),
    {
        match self {
            ClientError::RateLimited => true,
            ClientError::Http(_) => true,
            _ => false,
        }
    }

    /// The sentence that describes the error.
    pub fn to_string(&self) -> (r: String)
        ensures
            r@ == error_message(self@),
    {
        match self {
            ClientError::Http(failure) => {
                let mut r = String::from_str("HTTP error: ");
                r.append(failure.message.as_str());
                r
            },
            ClientError::NotFound => String::from_str("post not found"),
            ClientError::Blocked => String::from_str("post is blocked"),
            ClientError::RateLimited => String::from_str("rate limited"),
            ClientError::Api(message) => {
                let mut r = String::from_str("API error: ");
                r.append(message.as_str());
                r
            },
            ClientError::InvalidResponse => String::from_str("invalid response structure"),
        }
    }
}

/// The error that the text of a failed API call stands for: a rate limit
/// where the text holds `429` or `RateLimited`, else an API error with the
/// text.
pub open spec fn api_error_of(text: Seq<char>) -> ErrorModel {
    if contains_seq(text, "429"@) || contains_seq(text, "RateLimited"@) {
        ErrorModel::RateLimited
    } else {
        ErrorModel::Api(text)
    }
}

/// Classifies the text of a failed API call.
pub fn map_api_error(err_str: String) -> (e: ClientError)
    ensures
        e@ == api_error_of(err_str@),
{
    if contains(err_str.as_str(), "429") || contains(err_str.as_str(), "RateLimited") {
        ClientError::RateLimited
    } else {
        ClientError::Api(err_str)
    }
}

/// The fields of a post's record, as far as they could be read.
#[derive(Debug, Clone, PartialEq, Eq)]
pub struct RecordFields {
    /// `text`, where it is a string.
    pub text: Option<String>,
    /// `createdAt`, where it is a string.
    pub created_at: Option<String>,
    /// `langs`, where it is a list; each entry, where it is a string.
    pub langs: Option<Vec<Option<String>>>,
}

/// The value of a `RecordFields`.
pub struct RecordModel {
    pub text: Option<Seq<char>>,
    pub created_at: Option<Seq<char>>,
    pub langs: Option<Seq<Option<Seq<char>>>>,
}

impl View for RecordFields {
    type V = RecordModel;

    open spec fn view(&self) -> RecordModel {
        RecordModel {
            text: opt_text(self.text),
            created_at: opt_text(self.created_at),
            langs: match self.langs {
                Some(list) => Some(list@.map_values(|l: Option<String>| opt_text(l))),
                None => None,
            },
        }
    }
}

/// A post as a lookup returns it.
#[derive(Debug, Clone, PartialEq, Eq)]
pub struct PostView {
    pub uri: String,
    pub cid: String,
    pub author: Author,
    /// The post's record; `None` where it could not be read at all.
    pub record: Option<RecordFields>,
    pub reply_count: Option<i64>,
    pub repost_count: Option<i64>,
    pub like_count: Option<i64>,
    pub embed: Option<Embed>,
}

/// The value of a `PostView`.
pub struct PostViewModel {
    pub uri: Seq<char>,
    pub cid: Seq<char>,
    pub author: AuthorModel,
    pub record: Option<RecordModel>,
    pub reply_count: Option<i64>,
    pub repost_count: Option<i64>,
    pub like_count: Option<i64>,
    pub embed: Option<EmbedModel>,
}

impl View for PostView {
    type V = PostViewModel;

    open spec fn view(&self) -> PostViewModel {
        PostViewModel {
            uri: self.uri@,
            cid: self.cid@,
            author: self.author@,
            record: match self.record {
                Some(record) => Some(record@),
                None => None,
            },
            reply_count: self.reply_count,
            repost_count: self.repost_count,
            like_count: self.like_count,
            embed: opt_embed(self.embed),
        }
    }
}

/// A post one hop away from the post that was looked up: its parent or one
/// of its replies. Nothing beyond that hop is ever carried.
#[derive(Debug, Clone, PartialEq, Eq)]
pub enum Neighbor {
    /// A post that can be seen, with its identifier and its author's.
    Post { uri: String, author_did: String },
    NotFound,
    Blocked,
    /// Something the API sent that is none of the above.
    Unknown,
}

/// The value of a `Neighbor`.
pub enum NeighborModel {
    Post { uri: Seq<char>, author_did: Seq<char> },
    NotFound,
    Blocked,
    Unknown,
}

impl View for Neighbor {
    type V = NeighborModel;

    open spec fn view(&self) -> NeighborModel {
        match self {
            Neighbor::Post { uri, author_did } => NeighborModel::Post {
                uri: uri@,
                author_did: author_did@,
            },
            Neighbor::NotFound => NeighborModel::NotFound,
            Neighbor::Blocked => NeighborModel::Blocked,
            Neighbor::Unknown => NeighborModel::Unknown,
        }
    }
}

/// The value of each neighbour of a list.
pub open spec fn neighbor_models(list: Seq<Neighbor>) -> Seq<NeighborModel> {
    list.map_values(|n: Neighbor| n@)
}

/// A post with its shallow context: at most one parent and one page of
/// replies.
#[derive(Debug, Clone, PartialEq, Eq)]
pub struct PostContext {
    pub post: PostView,
    pub parent: Option<Neighbor>,
    /// The replies in the order the API gave them; `None` where it gave none.
    pub replies: Option<Vec<Neighbor>>,
}

/// The value of a `PostContext`; a missing reply list is the empty one.
pub struct ContextModel {
    pub post: PostViewModel,
    pub parent: Option<NeighborModel>,
    pub replies: Seq<NeighborModel>,
}

impl View for PostContext {
    type V = ContextModel;

    open spec fn view(&self) -> ContextModel {
        ContextModel {
            post: self.post@,
            parent: match self.parent {
                Some(parent) => Some(parent@),
                None => None,
            },
            replies: match self.replies {
                Some(list) => neighbor_models(list@),
                None => Seq::empty(),
            },
        }
    }
}

/// What the API answers to the lookup of one post.
#[derive(Debug, Clone, PartialEq, Eq)]
pub enum ThreadLookup {
    Found(PostContext),
    NotFound,
    Blocked,
    /// An answer of a shape the API does not document.
    Unknown,
}

/// The value of a `ThreadLookup`.
pub enum LookupModel {
    Found(ContextModel),
    NotFound,
    Blocked,
    Unknown,
}

impl View for ThreadLookup {
    type V = LookupModel;

    open spec fn view(&self) -> LookupModel {
        match self {
            ThreadLookup::Found(context) => LookupModel::Found(context@),
            ThreadLookup::NotFound => LookupModel::NotFound,
            ThreadLookup::Blocked => LookupModel::Blocked,
            ThreadLookup::Unknown => LookupModel::Unknown,
        }
    }
}

/// How a lookup ended: with the API's answer, or with the text of the error
/// that the call failed with.
pub open spec fn outcome_model(outcome: Result<ThreadLookup, String>) -> Result<
    LookupModel,
    Seq<char>,
> {
    match outcome {
        Ok(lookup) => Ok(lookup@),
        Err(text) => Err(text@),
    }
}

/// The post and context that a lookup found, or the error it stands for.
pub open spec fn fetched(outcome: Result<LookupModel, Seq<char>>) -> Result<
    ContextModel,
    ErrorModel,
> {
    match outcome {
        Ok(LookupModel::Found(context)) => Ok(context),
        Ok(LookupModel::NotFound) => Err(ErrorModel::NotFound),
        Ok(LookupModel::Blocked) => Err(ErrorModel::Blocked),
        Ok(LookupModel::Unknown) => Err(ErrorModel::InvalidResponse),
        Err(text) => Err(api_error_of(text)),
    }
}

/// Brings the outcome of a lookup into the closed set of results: the found
/// post with its context, or one of the errors.
pub fn normalize(outcome: Result<ThreadLookup, String>) -> (r: Result<PostContext, ClientError>)
    ensures
        r is Ok <==> fetched(outcome_model(outcome)) is Ok,
        r matches Ok(context) ==> fetched(outcome_model(outcome)) == Ok::<
            ContextModel,
            ErrorModel,
        >(context@),
        r matches Err(e) ==> fetched(outcome_model(outcome)) == Err::<ContextModel, ErrorModel>(
            e@,
        ),
{
    match outcome {
        Ok(ThreadLookup::Found(context)) => Ok(context),
        Ok(ThreadLookup::NotFound) => Err(ClientError::NotFound),
        Ok(ThreadLookup::Blocked) => Err(ClientError::Blocked),
        Ok(ThreadLookup::Unknown) => Err(ClientError::InvalidResponse),
        Err(text) => Err(map_api_error(text)),
    }
}

/// Whether a neighbour is a visible post written by `did`.
pub open spec fn is_post_by(n: NeighborModel, did: Seq<char>) -> bool {
    n matches NeighborModel::Post { author_did, .. } && author_did == did
}

/// The identifier of the parent, where the parent is a visible post by the
/// author of the post itself. Authors are compared by `did`, never by handle.
pub open spec fn same_author_parent(context: ContextModel) -> Option<Seq<char>> {
    match context.parent {
        Some(NeighborModel::Post { uri, author_did }) => if author_did
            == context.post.author.did {
            Some(uri)
        } else {
            None
        },
        _ => None,
    }
}

/// The identifier of the parent of `view`, if the parent is by the same
/// author.
pub fn get_parent_uri_if_same_author(view: &PostContext) -> (r: Option<String>)
    ensures
        opt_text(r) == same_author_parent(view@),
{
    match &view.parent {
        Some(Neighbor::Post { uri, author_did }) => {
            if same_text(author_did.as_str(), view.post.author.did.as_str()) {
                Some(uri.clone())
            } else {
                None
            }
        },
        _ => None,
    }
}

/// The identifier of the first reply, in the given order, that is a visible
/// post by `did`.
pub open spec fn first_self_reply(replies: Seq<NeighborModel>, did: Seq<char>) -> Option<
    Seq<char>,
>
    decreases replies.len(),
{
    if replies.len() == 0 {
        None
    } else if is_post_by(replies[0], did) {
        Some(replies[0]->uri)
    } else {
        first_self_reply(replies.drop_first(), did)
    }
}

/// `first_self_reply` is the reply at the least index that is a visible post
/// by `did`, and `None` exactly where no reply is one: a later reply by the
/// same author is never followed.
pub proof fn lemma_first_self_reply(replies: Seq<NeighborModel>, did: Seq<char>)
    ensures
        first_self_reply(replies, did) is None <==> forall|j: int|
            0 <= j < replies.len() ==> !is_post_by(#[trigger] replies[j], did),
        first_self_reply(replies, did) matches Some(uri) ==> exists|i: int|
            0 <= i < replies.len() && is_post_by(#[trigger] replies[i], did) && replies[i]->uri
                == uri && forall|j: int| 0 <= j < i ==> !is_post_by(#[trigger] replies[j], did),
    decreases replies.len(),
{
    if replies.len() == 0 {
    } else if is_post_by(replies[0], did) {
        assert(is_post_by(replies[0], did) && replies[0]->uri == replies[0]->uri && forall|j: int|
            0 <= j < 0 ==> !is_post_by(#[trigger] replies[j], did));
    } else {
        let rest = replies.drop_first();
        lemma_first_self_reply(rest, did);
        assert forall|j: int| 0 <= j < rest.len() implies rest[j] == replies[j + 1] by {}
        if first_self_reply(rest, did) is None {
            assert forall|j: int| 0 <= j < replies.len() implies !is_post_by(
                #[trigger] replies[j],
                did,
            ) by {
                if j > 0 {
                    assert(rest[j - 1] == replies[j]);
                }
            }
        } else {
            let uri = first_self_reply(rest, did)->0;
            let i = choose|i: int|
                0 <= i < rest.len() && is_post_by(#[trigger] rest[i], did) && rest[i]->uri == uri
                    && forall|j: int| 0 <= j < i ==> !is_post_by(#[trigger] rest[j], did);
            assert(replies[i + 1] == rest[i]);
            assert forall|j: int| 0 <= j < i + 1 implies !is_post_by(
                #[trigger] replies[j],
                did,
            ) by {
                if j > 0 {
                    assert(rest[j - 1] == replies[j]);
                }
            }
            assert(0 <= i + 1 < replies.len() && is_post_by(replies[i + 1], did) && replies[i
                + 1]->uri == uri);
        }
    }
}

/// The identifier of the first reply to `view` that `author_did` wrote.
pub fn find_self_reply(view: &PostContext, author_did: &str) -> (r: Option<String>)
    ensures
        opt_text(r) == first_self_reply(view@.replies, author_did@),
{
    match &view.replies {
        None => None,
        Some(replies) => {
            let ghost all = neighbor_models(replies@);
            let mut i: usize = 0;
            assert(all.skip(0) =~= all);
            while i < replies.len()
                invariant
                    i <= replies.len(),
                    all == neighbor_models(replies@),
                    all == view@.replies,
                    first_self_reply(all, author_did@) == first_self_reply(
                        all.skip(i as int),
                        author_did@,
                    ),
                decreases replies.len() - i,
            {
                let ghost rest = all.skip(i as int);
                proof {
                    assert(rest.drop_first() =~= all.skip(i + 1));
                }
                match &replies[i] {
                    Neighbor::Post { uri, author_did: did } => {
                        if same_text(did.as_str(), author_did) {
                            return Some(uri.clone());
                        }
                    },
                    _ => {},
                }
                i += 1;
            }
            None
        },
    }
}

/// The language tags among the entries of a list: those that are strings, in
/// their order.
pub open spec fn present_entries(list: Seq<Option<Seq<char>>>) -> Seq<Seq<char>>
    decreases list.len(),
{
    if list.len() == 0 {
        Seq::empty()
    } else {
        match list.last() {
            Some(tag) => present_entries(list.drop_last()).push(tag),
            None => present_entries(list.drop_last()),
        }
    }
}

/// The moment a record says it was created: what `createdAt` reads as, and
/// the Unix epoch where the field is missing or is no RFC 3339 text.
pub open spec fn created_at_of(record: RecordModel) -> (int, int) {
    match record.created_at {
        Some(text) => match rfc3339_instant(text) {
            Some(instant) => instant,
            None => (0, 0),
        },
        None => (0, 0),
    }
}

/// The post that a thread shows for a looked-up post: text, creation time
/// and language tags come from the record (empty text, the Unix epoch and no
/// tag where the record lacks them), the counters are cut to 32 bits. A post
/// without a readable record is an invalid response.
pub open spec fn projected(view: PostViewModel) -> Result<PostModel, ErrorModel> {
    match view.record {
        None => Err(ErrorModel::InvalidResponse),
        Some(record) => Ok(
            PostModel {
                uri: view.uri,
                cid: view.cid,
                text: match record.text {
                    Some(text) => text,
                    None => Seq::empty(),
                },
                created_at: created_at_of(record),
                reply_count: count_of(view.reply_count),
                repost_count: count_of(view.repost_count),
                like_count: count_of(view.like_count),
                embed: view.embed,
                langs: match record.langs {
                    Some(list) => present_entries(list),
                    None => Seq::empty(),
                },
            },
        ),
    }
}

/// A counter cut to its low 32 bits.
pub open spec fn count_of(count: Option<i64>) -> Option<u32> {
    match count {
        Some(n) => Some(n as u32),
        None => None,
    }
}

fn cut_count(count: Option<i64>) -> (r: Option<u32>)
    ensures
        r == count_of(count),
{
    match count {
        Some(n) => Some(#[verifier::truncate] (n as u32)),
        None => None,
    }
}

fn parse_created_at(record: &RecordFields) -> (t: Timestamp)
    ensures
        t@ == created_at_of(record@),
{
    match &record.created_at {
        Some(text) => match Timestamp::parse_rfc3339(text.as_str()) {
            Some(t) => t,
            None => Timestamp::epoch(),
        },
        None => Timestamp::epoch(),
    }
}

fn present_langs(list: Vec<Option<String>>) -> (r: Vec<String>)
    ensures
        r@.map_values(|s: String| s@) == present_entries(
            list@.map_values(|l: Option<String>| opt_text(l)),
        ),
{
    let ghost all = list@.map_values(|l: Option<String>| opt_text(l));
    let mut r: Vec<String> = Vec::new();
    let mut i: usize = 0;
    while i < list.len()
        invariant
            i <= list.len(),
            all == list@.map_values(|l: Option<String>| opt_text(l)),
            r@.map_values(|s: String| s@) == present_entries(all.take(i as int)),
        decreases list.len() - i,
    {
        proof {
            assert(all.take(i + 1).drop_last() =~= all.take(i as int));
        }
        match &list[i] {
            Some(tag) => {
                r.push(tag.clone());
            },
            None => {},
        }
        i += 1;
    }
    assert(all.take(i as int) =~= all);
    r
}

/// Splits a looked-up post into its author and the post that the thread
/// shows for it.
pub fn extract_post(view: PostView) -> (r: (Author, Result<ThreadPost, ClientError>))
    ensures
        r.0@ == view@.author,
        r.1 is Ok <==> projected(view@) is Ok,
        r.1 matches Ok(post) ==> projected(view@) == Ok::<PostModel, ErrorModel>(post@),
        r.1 matches Err(e) ==> projected(view@) == Err::<PostModel, ErrorModel>(e@),
{
    let PostView { uri, cid, author, record, reply_count, repost_count, like_count, embed } = view;
    match record {
        None => (author, Err(ClientError::InvalidResponse)),
        Some(record) => {
            let created_at = parse_created_at(&record);
            let RecordFields { text, created_at: _, langs } = record;
            let text = match text {
                Some(text) => text,
                None => String::new(),
            };
            let langs = match langs {
                Some(list) => present_langs(list),
                None => Vec::new(),
            };
            let post = ThreadPost {
                uri,
                cid,
                text,
                created_at,
                reply_count: cut_count(reply_count),
                repost_count: cut_count(repost_count),
                like_count: cut_count(like_count),
                embed,
                langs,
            };
            assert(post@.langs =~= projected(view@)->Ok_0.langs);
            (author, Ok(post))
        },
    }
}

} // verus!
