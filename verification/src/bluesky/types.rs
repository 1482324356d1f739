//! The posts, authors and threads that the library hands out, each with the
//! mathematical value that contracts speak of.

use crate::text::{after_last, last_segment};
use crate::time::Timestamp;
use vstd::prelude::*;
use vstd::string::*;

verus! {

/// The characters of an optional string.
pub open spec fn opt_text(s: Option<String>) -> Option<Seq<char>> {
    match s {
        Some(t) => Some(t@),
        None => None,
    }
}

/// The characters of each string of a list.
pub open spec fn texts(v: Seq<String>) -> Seq<Seq<char>> {
    v.map_values(|s: String| s@)
}

/// Width and height of a piece of media, in any unit.
#[derive(Debug, Clone, Copy, PartialEq, Eq, Structural)]
pub struct AspectRatio {
    pub width: u32,
    pub height: u32,
}

/// One image attached to a post.
#[derive(Debug, Clone, PartialEq, Eq)]
pub struct EmbedImage {
    pub thumb_url: String,
    pub fullsize_url: String,
    pub alt: String,
    pub aspect_ratio: Option<AspectRatio>,
}

/// The value of an `EmbedImage`.
pub struct ImageModel {
    pub thumb_url: Seq<char>,
    pub fullsize_url: Seq<char>,
    pub alt: Seq<char>,
    pub aspect_ratio: Option<AspectRatio>,
}

impl View for EmbedImage {
    type V = ImageModel;

    open spec fn view(&self) -> ImageModel {
        ImageModel {
            thumb_url: self.thumb_url@,
            fullsize_url: self.fullsize_url@,
            alt: self.alt@,
            aspect_ratio: self.aspect_ratio,
        }
    }
}

/// A video attached to a post.
#[derive(Debug, Clone, PartialEq, Eq)]
pub struct EmbedVideo {
    pub thumbnail_url: Option<String>,
    pub playlist_url: String,
    pub alt: Option<String>,
    pub aspect_ratio: Option<AspectRatio>,
}

/// The value of an `EmbedVideo`.
pub struct VideoModel {
    pub thumbnail_url: Option<Seq<char>>,
    pub playlist_url: Seq<char>,
    pub alt: Option<Seq<char>>,
    pub aspect_ratio: Option<AspectRatio>,
}

impl View for EmbedVideo {
    type V = VideoModel;

    open spec fn view(&self) -> VideoModel {
        VideoModel {
            thumbnail_url: opt_text(self.thumbnail_url),
            playlist_url: self.playlist_url@,
            alt: opt_text(self.alt),
            aspect_ratio: self.aspect_ratio,
        }
    }
}

/// A link card attached to a post.
#[derive(Debug, Clone, PartialEq, Eq)]
pub struct EmbedExternal {
    pub uri: String,
    pub title: String,
    pub description: String,
    pub thumb_url: Option<String>,
}

/// The value of an `EmbedExternal`.
pub struct ExternalModel {
    pub uri: Seq<char>,
    pub title: Seq<char>,
    pub description: Seq<char>,
    pub thumb_url: Option<Seq<char>>,
}

impl View for EmbedExternal {
    type V = ExternalModel;

    open spec fn view(&self) -> ExternalModel {
        ExternalModel {
            uri: self.uri@,
            title: self.title@,
            description: self.description@,
            thumb_url: opt_text(self.thumb_url),
        }
    }
}

/// The media attached to a post.
#[derive(Debug, Clone, PartialEq, Eq)]
pub enum Embed {
    Images(Vec<EmbedImage>),
    Video(EmbedVideo),
    External(EmbedExternal),
}

/// The value of an `Embed`.
pub enum EmbedModel {
    Images(Seq<ImageModel>),
    Video(VideoModel),
    External(ExternalModel),
}

impl View for Embed {
    type V = EmbedModel;

    open spec fn view(&self) -> EmbedModel {
        match self {
            Embed::Images(images) => EmbedModel::Images(images@.map_values(|i: EmbedImage| i@)),
            Embed::Video(video) => EmbedModel::Video(video@),
            Embed::External(external) => EmbedModel::External(external@),
        }
    }
}

/// The value of an optional `Embed`.
pub open spec fn opt_embed(e: Option<Embed>) -> Option<EmbedModel> {
    match e {
        Some(embed) => Some(embed@),
        None => None,
    }
}

/// Who wrote a post. Two authors are the same person where their `did`s are
/// equal; a handle can pass from one person to another.
#[derive(Debug, Clone, PartialEq, Eq)]
pub struct Author {
    pub did: String,
    pub handle: String,
    pub display_name: Option<String>,
    pub avatar_url: Option<String>,
}

/// The value of an `Author`.
pub struct AuthorModel {
    pub did: Seq<char>,
    pub handle: Seq<char>,
    pub display_name: Option<Seq<char>>,
    pub avatar_url: Option<Seq<char>>,
}

impl View for Author {
    type V = AuthorModel;

    open spec fn view(&self) -> AuthorModel {
        AuthorModel {
            did: self.did@,
            handle: self.handle@,
            display_name: opt_text(self.display_name),
            avatar_url: opt_text(self.avatar_url),
        }
    }
}

/// The address of an author's profile page.
pub open spec fn profile_url_of(handle: Seq<char>) -> Seq<char> {
    "https://bsky.app/profile/"@ + handle
}

impl Author {
    /// The address of the author's profile page.
    pub fn profile_url(&self) -> (r: String)
        ensures
            r@ == profile_url_of(self.handle@),
    {
        let mut r = String::from_str("https://bsky.app/profile/");
        r.append(self.handle.as_str());
        r
    }
}

/// One post of a thread.
#[derive(Debug, Clone, PartialEq, Eq)]
pub struct ThreadPost {
    pub uri: String,
    pub cid: String,
    pub text: String,
    pub created_at: Timestamp,
    pub reply_count: Option<u32>,
    pub repost_count: Option<u32>,
    pub like_count: Option<u32>,
    pub embed: Option<Embed>,
    pub langs: Vec<String>,
}

/// The value of a `ThreadPost`.
pub struct PostModel {
    pub uri: Seq<char>,
    pub cid: Seq<char>,
    pub text: Seq<char>,
    pub created_at: (int, int),
    pub reply_count: Option<u32>,
    pub repost_count: Option<u32>,
    pub like_count: Option<u32>,
    pub embed: Option<EmbedModel>,
    pub langs: Seq<Seq<char>>,
}

impl View for ThreadPost {
    type V = PostModel;

    open spec fn view(&self) -> PostModel {
        PostModel {
            uri: self.uri@,
            cid: self.cid@,
            text: self.text@,
            created_at: self.created_at@,
            reply_count: self.reply_count,
            repost_count: self.repost_count,
            like_count: self.like_count,
            embed: opt_embed(self.embed),
            langs: texts(self.langs@),
        }
    }
}

/// The value of each post of a list.
pub open spec fn post_models(posts: Seq<ThreadPost>) -> Seq<PostModel> {
    posts.map_values(|p: ThreadPost| p@)
}

/// A self-reply thread: the posts from the root down, and their one author.
#[derive(Debug, Clone, PartialEq, Eq)]
pub struct Thread {
    pub posts: Vec<ThreadPost>,
    pub author: Author,
}

/// The value of a `Thread`.
pub struct ThreadModel {
    pub posts: Seq<PostModel>,
    pub author: AuthorModel,
}

impl View for Thread {
    type V = ThreadModel;

    open spec fn view(&self) -> ThreadModel {
        ThreadModel { posts: post_models(self.posts@), author: self.author@ }
    }
}

/// The public address of the post `uri` on the profile of `handle`: the
/// record key is what follows the last `/` of the post's identifier.
pub open spec fn post_url_of(handle: Seq<char>, uri: Seq<char>) -> Seq<char> {
    "https://bsky.app/profile/"@ + handle + "/post/"@ + after_last(uri, '/')
}

/// The public address of the post `uri` on the profile of `handle`.
pub fn post_url(handle: &str, uri: &str) -> (r: String)
    ensures
        r@ == post_url_of(handle@, uri@),
{
    let key = last_segment(uri, '/');
    let mut r = String::from_str("https://bsky.app/profile/");
    r.append(handle);
    r.append("/post/");
    r.append(key.as_str());
    r
}

impl Thread {
    /// The public address of the thread's first post; `None` for a thread
    /// without posts.
    pub fn original_post_url(&self) -> (r: Option<String>)
        ensures
            self.posts@.len() == 0 ==> r is None,
            self.posts@.len() > 0 ==> r is Some && r->0@ == post_url_of(
                self.author.handle@,
                self.posts@[0].uri@,
            ),
    {
        if self.posts.len() == 0 {
            None
        } else {
            Some(post_url(self.author.handle.as_str(), self.posts[0].uri.as_str()))
        }
    }

    /// The first language tag of the first post, where it carries one.
    pub fn primary_language(&self) -> (r: Option<&str>)
        ensures
            self.posts@.len() > 0 && self.posts@[0].langs@.len() > 0 ==> r is Some && r->0@
                == self.posts@[0].langs@[0]@,
            !(self.posts@.len() > 0 && self.posts@[0].langs@.len() > 0) ==> r is None,
    {
        if self.posts.len() > 0 && self.posts[0].langs.len() > 0 {
            Some(self.posts[0].langs[0].as_str())
        } else {
            None
        }
    }
}

/// One step of a thread's progressive delivery.
#[derive(Debug, Clone, PartialEq, Eq)]
pub enum StreamEvent {
    /// The thread's author; comes first.
    Header(Author),
    /// The next post of the chain, root first.
    Post(ThreadPost),
    /// The chain is complete; comes last, and only where nothing failed.
    Done,
}

/// The value of a `StreamEvent`.
pub enum EventModel {
    Header(AuthorModel),
    Post(PostModel),
    Done,
}

impl View for StreamEvent {
    type V = EventModel;

    open spec fn view(&self) -> EventModel {
        match self {
            StreamEvent::Header(author) => EventModel::Header(author@),
            StreamEvent::Post(post) => EventModel::Post(post@),
            StreamEvent::Done => EventModel::Done,
        }
    }
}

} // verus!
