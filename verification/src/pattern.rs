//! Searching a text for a regular expression, done by `regex_lite`. What a
//! pattern matches is not stated here; the results are named, and the
//! library's own rules are stated over the names.

use crate::bluesky::types::texts;
use vstd::prelude::*;

verus! {

/// The leftmost match of `pattern` in `text`, as `regex_lite` finds it;
/// `None` where there is none, and where `pattern` is no regular expression.
pub uninterp spec fn regex_first_match(pattern: Seq<char>, text: Seq<char>) -> Option<Seq<char>>;

/// The successive matches of `pattern` in `text` that do not overlap, from
/// left to right; `None` where `pattern` is no regular expression.
pub uninterp spec fn regex_hits(pattern: Seq<char>, text: Seq<char>) -> Option<Seq<Seq<char>>>;

/// The parts of `text` that the successive matches of `pattern` leave:
/// what comes before the first match, between each two, and after the last;
/// `None` where `pattern` is no regular expression.
pub uninterp spec fn regex_gaps(pattern: Seq<char>, text: Seq<char>) -> Option<Seq<Seq<char>>>;

/// Compiles `pattern` with `regex_lite::Regex::new` and searches `text` with
/// `Regex::find`, which returns the leftmost match.
#[verifier::external_body]
pub(crate) fn first_match(pattern: &str, text: &str) -> (r: Option<String>)
    ensures
        r is Some <==> regex_first_match(pattern@, text@) is Some,
        r matches Some(found) ==> regex_first_match(pattern@, text@) == Some(found@),
{
    let re = regex_lite::Regex::new(pattern).ok()?;
    re.find(text).map(|m| m.as_str().to_string())
}

/// Compiles `pattern` with `regex_lite::Regex::new` and cuts `text` at its
/// matches: `Regex::split` gives the parts between the matches and
/// `Regex::find_iter` the matches. `split` yields one part before each
/// match and one after the last, so there is one part more than matches.
#[verifier::external_body]
pub(crate) fn cut_at_matches(pattern: &str, text: &str) -> (r: Option<(Vec<String>, Vec<String>)>)
    ensures
        r is Some <==> regex_gaps(pattern@, text@) is Some,
        r is Some <==> regex_hits(pattern@, text@) is Some,
        r matches Some(cut) ==> regex_gaps(pattern@, text@) == Some(texts(cut.0@))
            && regex_hits(pattern@, text@) == Some(texts(cut.1@)) && cut.0@.len() == cut.1@.len()
            + 1,
{
    let re = regex_lite::Regex::new(pattern).ok()?;
    let gaps = re.split(text).map(|s| s.to_string()).collect();
    let hits = re.find_iter(text).map(|m| m.as_str().to_string()).collect();
    Some((gaps, hits))
}

} // verus!
