use crate::text::{concat, count_graphemes, grapheme_count, is_blank, is_short_text, trim_is_empty};
use vstd::prelude::*;

verus! {

/// Whether `s` is accepted as a title: not blank, at most 100 grapheme clusters.
pub open spec fn title_accepts(s: Seq<char>) -> bool {
    is_short_text(s, 100)
}

/// The message with which `Title::parse` refuses `s`.
pub open spec fn title_error_message(s: Seq<char>) -> Seq<char> {
    s + " is not a valid pattern title."@
}

/// The title of a pattern.
#[derive(Debug)]
pub struct Title(String);

impl View for Title {
    type V = Seq<char>;

    closed spec fn view(&self) -> Seq<char> {
        self.0@
    }
}

impl Title {
    #[verifier::type_invariant]
    spec fn inv(self) -> bool {
        title_accepts(self.0@)
    }

    /// Accepts `s` exactly when it is not blank and has at most 100 grapheme
    /// clusters; the value then holds `s` unchanged. In particular every
    /// text that is not blank and has at most 100 characters is accepted.
    pub fn parse(s: String) -> (r: Result<Title, String>)
        ensures
            r is Ok <==> title_accepts(s@),
            r is Ok <==> (!is_blank(s@) && grapheme_count(s@) <= 100),
            r matches Err(m) ==> m@ == s@ + " is not a valid pattern title."@,
            s@.len() <= 100 && !is_blank(s@) ==> r is Ok,
            r matches Ok(v) ==> v@ == s@,
            r matches Err(m) ==> m@ == title_error_message(s@),
    {
        let graphemes = count_graphemes(s.as_str());
        Self::parse_counted(s, graphemes)
    }

    /// The decision of `parse` once the grapheme clusters of `s` are counted.
    pub fn parse_counted(s: String, graphemes: usize) -> (r: Result<Title, String>)
        requires
            graphemes == grapheme_count(s@),
        ensures
            r is Ok <==> (graphemes <= 100 && !is_blank(s@)),
            r matches Ok(v) ==> v@ == s@,
            r matches Err(m) ==> m@ == title_error_message(s@),
    {
        let is_too_long = graphemes > 100;
        let is_empty = trim_is_empty(s.as_str());

        if is_too_long || is_empty {
            Err(concat(s, " is not a valid pattern title."))
        } else {
            Ok(Title(s))
        }
    }

    /// The text; every Title is accepted by `parse` again.
    pub fn as_ref(&self) -> (r: &str)
        ensures
            r@ == self@,
            title_accepts(r@),
            !is_blank(r@) && grapheme_count(r@) <= 100,
    {
        proof {
            use_type_invariant(self);
        }
        self.0.as_str()
    }
}

} // verus!
