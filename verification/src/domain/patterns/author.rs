use crate::text::{concat, count_graphemes, grapheme_count, is_blank, is_short_text, trim_is_empty};
use vstd::prelude::*;

verus! {

/// Whether `s` is accepted as an author: not blank, at most 50 grapheme clusters.
pub open spec fn author_accepts(s: Seq<char>) -> bool {
    is_short_text(s, 50)
}

/// The message with which `Author::parse` refuses `s`.
pub open spec fn author_error_message(s: Seq<char>) -> Seq<char> {
    s + " is not a valid author."@
}

/// The author of a pattern.
#[derive(Debug)]
pub struct Author(String);

impl View for Author {
    type V = Seq<char>;

    closed spec fn view(&self) -> Seq<char> {
        self.0@
    }
}

impl Author {
    #[verifier::type_invariant]
    spec fn inv(self) -> bool {
        author_accepts(self.0@)
    }

    /// Accepts `s` exactly when it is not blank and has at most 50 grapheme
    /// clusters; the author then holds `s` unchanged. In particular every
    /// text that is not blank and has at most 50 characters is accepted.
    pub fn parse(s: String) -> (r: Result<Author, String>)
        ensures
            r is Ok <==> author_accepts(s@),
            r is Ok <==> (!is_blank(s@) && grapheme_count(s@) <= 50),
            r matches Err(m) ==> m@ == s@ + " is not a valid author."@,
            s@.len() <= 50 && !is_blank(s@) ==> r is Ok,
            r matches Ok(a) ==> a@ == s@,
            r matches Err(m) ==> m@ == author_error_message(s@),
    {
        let graphemes = count_graphemes(s.as_str());
        Self::parse_counted(s, graphemes)
    }

    /// The decision of `parse` once the grapheme clusters of `s` are counted.
    pub fn parse_counted(s: String, graphemes: usize) -> (r: Result<Author, String>)
        requires
            graphemes == grapheme_count(s@),
        ensures
            r is Ok <==> (graphemes <= 50 && !is_blank(s@)),
            r matches Ok(a) ==> a@ == s@,
            r matches Err(m) ==> m@ == author_error_message(s@),
    {
        let is_too_long = graphemes > 50;
        let is_empty = trim_is_empty(s.as_str());

        if is_too_long || is_empty {
            Err(concat(s, " is not a valid author."))
        } else {
            Ok(Author(s))
        }
    }

    /// The author's text; every author is accepted by `parse` again.
    pub fn as_ref(&self) -> (r: &str)
        ensures
            r@ == self@,
            author_accepts(r@),
            !is_blank(r@) && grapheme_count(r@) <= 50,
    {
        proof {
            use_type_invariant(self);
        }
        self.0.as_str()
    }
}

} // verus!
