//! Escaping of text for HTML, done by `html_escape` and stated character by
//! character.

use vstd::prelude::*;

verus! {

/// What stands for a character in HTML text: `&`, `<` and `>` become
/// entities, every other character stays.
pub open spec fn text_entity(c: char) -> Seq<char> {
    if c == '&' {
        "&amp;"@
    } else if c == '<' {
        "&lt;"@
    } else if c == '>' {
        "&gt;"@
    } else {
        seq![c]
    }
}

/// What stands for a character in a quoted attribute: as in text, and both
/// quotes become entities too.
pub open spec fn attribute_entity(c: char) -> Seq<char> {
    if c == '"' {
        "&quot;"@
    } else if c == '\'' {
        "&#x27;"@
    } else {
        text_entity(c)
    }
}

/// A text with each character replaced by what stands for it in HTML text.
pub open spec fn text_escaped(s: Seq<char>) -> Seq<char>
    decreases s.len(),
{
    if s.len() == 0 {
        Seq::empty()
    } else {
        text_escaped(s.drop_last()) + text_entity(s.last())
    }
}

/// A text with each character replaced by what stands for it in a quoted
/// attribute.
pub open spec fn attribute_escaped(s: Seq<char>) -> Seq<char>
    decreases s.len(),
{
    if s.len() == 0 {
        Seq::empty()
    } else {
        attribute_escaped(s.drop_last()) + attribute_entity(s.last())
    }
}

/// Escapes with `html_escape::encode_text`, which replaces `&`, `<` and `>`
/// by `&amp;`, `&lt;` and `&gt;` and copies everything else.
#[verifier::external_body]
pub(crate) fn encode_text(s: &str) -> (r: String)
    ensures
        r@ == text_escaped(s@),
{
    html_escape::encode_text(s).into_owned()
}

/// Escapes with `html_escape::encode_quoted_attribute`, which replaces `&`,
/// `<`, `>`, `"` and `'` by `&amp;`, `&lt;`, `&gt;`, `&quot;` and `&#x27;`
/// and copies everything else.
#[verifier::external_body]
pub(crate) fn encode_quoted_attribute(s: &str) -> (r: String)
    ensures
        r@ == attribute_escaped(s@),
{
    html_escape::encode_quoted_attribute(s).into_owned()
}

} // verus!
