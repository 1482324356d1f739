//! The address of a post on the web, read for the author's handle and the
//! key of the post. The address is taken apart by `url`; which host and
//! which path make a post's address is decided here.

use crate::bluesky::types::{opt_text, texts};
use crate::text::same_text;
use vstd::prelude::*;
use vstd::string::*;

verus! {

/// Whether `url` accepts a text as an absolute address.
pub uninterp spec fn url_accepted(text: Seq<char>) -> bool;

/// The host of an address, as `url` reads it; `None` where it has none.
pub uninterp spec fn url_host(text: Seq<char>) -> Option<Seq<char>>;

/// The segments of the path of an address, as `url` reads them; `None` for
/// an address that cannot be a base.
pub uninterp spec fn url_segments(text: Seq<char>) -> Option<Seq<Seq<char>>>;

/// What `url` says of a text that it does not accept as an address.
pub uninterp spec fn url_refusal(text: Seq<char>) -> Seq<char>;

/// The parts of an address that the library reads.
#[derive(Debug, Clone, PartialEq, Eq)]
pub struct UrlParts {
    pub host: Option<String>,
    pub segments: Option<Vec<String>>,
}

/// The value of a `UrlParts`.
pub struct UrlPartsModel {
    pub host: Option<Seq<char>>,
    pub segments: Option<Seq<Seq<char>>>,
}

impl View for UrlParts {
    type V = UrlPartsModel;

    open spec fn view(&self) -> UrlPartsModel {
        UrlPartsModel {
            host: opt_text(self.host),
            segments: match self.segments {
                Some(segments) => Some(texts(segments@)),
                None => None,
            },
        }
    }
}

/// Parses with `url::Url::parse` and reads the result with `Url::host_str`
/// and `Url::path_segments`. Where `url` refuses the text, the error is
/// what the `Display` of its error says.
#[verifier::external_body]
fn split_url(text: &str) -> (r: Result<UrlParts, String>)
    ensures
        r is Ok <==> url_accepted(text@),
        r matches Ok(parts) ==> parts@ == (UrlPartsModel {
            host: url_host(text@),
            segments: url_segments(text@),
        }),
        r matches Err(reason) ==> reason@ == url_refusal(text@),
{
    let parsed = url::Url::parse(text).map_err(|e| e.to_string())?;
    Ok(
        UrlParts {
            host: parsed.host_str().map(|h| h.to_string()),
            segments: parsed.path_segments().map(|s| s.map(|p| p.to_string()).collect()),
        },
    )
}

/// The handle of an author and the key of one of the author's posts.
#[derive(Debug, Clone, PartialEq, Eq)]
pub struct BlueskyUrlParts {
    pub handle: String,
    pub post_id: String,
}

/// Why a text is not the address of a post.
#[derive(Debug, Clone, PartialEq, Eq)]
pub enum ParseError {
    /// The text is no address at all; with what `url` says of it.
    InvalidUrl(String),
    /// The address is not on `bsky.app`.
    NotBlueskyUrl,
    /// The address is on `bsky.app` but is not that of a post.
    NotPostUrl,
}

/// The value of a `ParseError`.
pub enum ParseErrorModel {
    InvalidUrl(Seq<char>),
    NotBlueskyUrl,
    NotPostUrl,
}

impl View for ParseError {
    type V = ParseErrorModel;

    open spec fn view(&self) -> ParseErrorModel {
        match self {
            ParseError::InvalidUrl(reason) => ParseErrorModel::InvalidUrl(reason@),
            ParseError::NotBlueskyUrl => ParseErrorModel::NotBlueskyUrl,
            ParseError::NotPostUrl => ParseErrorModel::NotPostUrl,
        }
    }
}

/// The sentence that describes a `ParseError`.
pub open spec fn parse_error_text(e: ParseErrorModel) -> Seq<char> {
    match e {
        ParseErrorModel::InvalidUrl(reason) => "invalid URL: "@ + reason,
        ParseErrorModel::NotBlueskyUrl => "URL must be a bsky.app link"@,
        ParseErrorModel::NotPostUrl =>
            "URL must be a post link (e.g., bsky.app/profile/user/post/id)"@,
    }
}

impl ParseError {
    /// The sentence that describes the error.
    pub fn to_string(&self) -> (r: String)
        ensures
            r@ == parse_error_text(self@),
    {
        match self {
            ParseError::InvalidUrl(reason) => {
                let mut r = String::from_str("invalid URL: ");
                r.append(reason.as_str());
                r
            },
            ParseError::NotBlueskyUrl => String::from_str("URL must be a bsky.app link"),
            ParseError::NotPostUrl => String::from_str(
                "URL must be a post link (e.g., bsky.app/profile/user/post/id)",
            ),
        }
    }
}

/// The host that posts live on.
pub const BLUESKY_HOST: &'static str = "bsky.app";

/// What the parts of an address say of a post: the address must be on
/// `bsky.app`, and its path must begin `profile`, a handle, `post`, a key,
/// with neither handle nor key empty. What follows the key is not read.
pub open spec fn post_of_parts(parts: UrlPartsModel) -> Result<
    (Seq<char>, Seq<char>),
    ParseErrorModel,
> {
    if parts.host != Some(BLUESKY_HOST@) {
        Err(ParseErrorModel::NotBlueskyUrl)
    } else {
        match parts.segments {
            None => Err(ParseErrorModel::NotPostUrl),
            Some(segments) => if segments.len() >= 4 && segments[0] == "profile"@ && segments[2]
                == "post"@ && segments[1].len() > 0 && segments[3].len() > 0 {
                Ok((segments[1], segments[3]))
            } else {
                Err(ParseErrorModel::NotPostUrl)
            },
        }
    }
}

/// What a text says of a post: it must be an address, and its parts must be
/// those of a post's address.
pub open spec fn post_of_url(text: Seq<char>) -> Result<(Seq<char>, Seq<char>), ParseErrorModel> {
    if !url_accepted(text) {
        Err(ParseErrorModel::InvalidUrl(url_refusal(text)))
    } else {
        post_of_parts(UrlPartsModel { host: url_host(text), segments: url_segments(text) })
    }
}

/// Reads the parts of an address for a post.
pub fn post_parts(parts: &UrlParts) -> (r: Result<BlueskyUrlParts, ParseError>)
    ensures
        r is Ok <==> post_of_parts(parts@) is Ok,
        r matches Ok(post) ==> post_of_parts(parts@) == Ok::<
            (Seq<char>, Seq<char>),
            ParseErrorModel,
        >((post.handle@, post.post_id@)),
        r matches Err(e) ==> post_of_parts(parts@) == Err::<
            (Seq<char>, Seq<char>),
            ParseErrorModel,
        >(e@),
{
    match &parts.host {
        None => {
            return Err(ParseError::NotBlueskyUrl);
        },
        Some(host) => {
            if !same_text(host.as_str(), BLUESKY_HOST) {
                return Err(ParseError::NotBlueskyUrl);
            }
        },
    }
    match &parts.segments {
        None => Err(ParseError::NotPostUrl),
        Some(segments) => {
            if segments.len() < 4 {
                return Err(ParseError::NotPostUrl);
            }
            if !same_text(segments[0].as_str(), "profile") || !same_text(
                segments[2].as_str(),
                "post",
            ) {
                return Err(ParseError::NotPostUrl);
            }
            if segments[1].as_str().is_empty() || segments[3].as_str().is_empty() {
                return Err(ParseError::NotPostUrl);
            }
            Ok(BlueskyUrlParts { handle: segments[1].clone(), post_id: segments[3].clone() })
        },
    }
}

/// Reads the address of a post for the author's handle and the key of the
/// post.
pub fn parse_bluesky_url(url_str: &str) -> (r: Result<BlueskyUrlParts, ParseError>)
    ensures
        r is Ok <==> post_of_url(url_str@) is Ok,
        r matches Ok(post) ==> post_of_url(url_str@) == Ok::<
            (Seq<char>, Seq<char>),
            ParseErrorModel,
        >((post.handle@, post.post_id@)),
        r matches Err(e) ==> post_of_url(url_str@) == Err::<
            (Seq<char>, Seq<char>),
            ParseErrorModel,
        >(e@),
{
    match split_url(url_str) {
        Err(e) => Err(ParseError::InvalidUrl(e)),
        Ok(parts) => post_parts(&parts),
    }
}

} // verus!
