//! A person's name, validated on construction: non-blank, at most 256
//! grapheme clusters, and free of a fixed set of markup-like characters.

use unicode_segmentation::UnicodeSegmentation;
use vstd::prelude::*;

use crate::domain::parse::{
    offending_chars, has_rejected_char, CharPolicy, ParseError, Parseable,
    collect_offending_chars,
};
use crate::strings::{is_blank, str_is_blank};

verus! {

/// The limit on a name's length, counted in grapheme clusters.
pub open spec fn spec_name_max_graphemes() -> usize {
    256
}

/// The number of extended grapheme clusters in a string: the user-perceived
/// characters, which multi-code-point characters count as one of.
pub uninterp spec fn grapheme_count_of(s: Seq<char>) -> nat;

/// Relies on unicode-segmentation's `graphemes(true).count()`: the number of
/// extended grapheme clusters, a function of the characters alone.
#[verifier::external_body]
fn grapheme_count(s: &str) -> (r: usize)
    ensures
        r as nat == grapheme_count_of(s@),
{
    s.graphemes(true).count()
}

/// A valid name is non-blank, within the grapheme limit, and contains no
/// forbidden character.
pub open spec fn is_valid_name(s: Seq<char>) -> bool {
    &&& !is_blank(s)
    &&& grapheme_count_of(s) <= spec_name_max_graphemes()
    &&& !has_rejected_char(CharPolicy::NameChars, s)
}

/// The error an invalid name parses to: the first failing check — blank,
/// then length, then forbidden characters — picks the error.
pub open spec fn name_error_matches(s: Seq<char>, e: ParseError) -> bool {
    if is_blank(s) {
        e == ParseError::Empty
    } else if grapheme_count_of(s) > spec_name_max_graphemes() {
        e == ParseError::TooLong(spec_name_max_graphemes())
    } else {
        e matches ParseError::ContainsInvalidChars(cs) && cs@ == offending_chars(
            CharPolicy::NameChars,
            s,
        )
    }
}

pub struct Name(String);

impl View for Name {
    type V = Seq<char>;

    closed spec fn view(&self) -> Seq<char> {
        self.0@
    }
}

impl Parseable<String> for Name {
    /// The only way to obtain a `Name`. The checks run in a fixed order —
    /// blankness, then length, then forbidden characters — and the first
    /// failing check picks the error. A successful parse returns the input
    /// unchanged.
    fn parse(input: String) -> (r: Result<Self, ParseError>)
        ensures
            r is Ok <==> is_valid_name(input@),
            r matches Ok(name) ==> name@ == input@,
            r matches Err(e) ==> name_error_matches(input@, e),
    {
        let is_empty = str_is_blank(input.as_str());
        let is_too_long = grapheme_count(input.as_str()) > 256;
        let forbidden = collect_offending_chars(CharPolicy::NameChars, input.as_str());
        let contains_forbidden_chars = forbidden.as_str().unicode_len() > 0;

        if is_empty {
            Err(ParseError::Empty)
        } else if is_too_long {
            Err(ParseError::TooLong(256))
        } else if contains_forbidden_chars {
            Err(ParseError::ContainsInvalidChars(forbidden))
        } else {
            Ok(Name(input))
        }
    }
}

impl Name {
    /// The validated string itself.
    pub fn as_ref(&self) -> (r: &str)
        ensures
            r@ == self@,
    {
        self.0.as_str()
    }
}

} // verus!
