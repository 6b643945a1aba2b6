use crate::text::{concat, count_graphemes, grapheme_count, is_blank, is_short_text, trim_is_empty};
use vstd::prelude::*;

verus! {

/// Whether `s` is accepted as efx / notes: not blank, at most 500 grapheme clusters.
pub open spec fn efx_notes_accepts(s: Seq<char>) -> bool {
    is_short_text(s, 500)
}

/// The message with which `EFXNotes::parse` refuses `s`.
pub open spec fn efx_notes_error_message(s: Seq<char>) -> Seq<char> {
    s + " is not a valid efx / notes."@
}

/// Notes on the effects used with a pattern.
#[derive(Debug)]
pub struct EFXNotes(String);

impl View for EFXNotes {
    type V = Seq<char>;

    closed spec fn view(&self) -> Seq<char> {
        self.0@
    }
}

impl EFXNotes {
    #[verifier::type_invariant]
    spec fn inv(self) -> bool {
        efx_notes_accepts(self.0@)
    }

    /// Accepts `s` exactly when it is not blank and has at most 500 grapheme
    /// clusters; the value then holds `s` unchanged. In particular every
    /// text that is not blank and has at most 500 characters is accepted.
    pub fn parse(s: String) -> (r: Result<EFXNotes, String>)
        ensures
            r is Ok <==> efx_notes_accepts(s@),
            r is Ok <==> (!is_blank(s@) && grapheme_count(s@) <= 500),
            r matches Err(m) ==> m@ == s@ + " is not a valid efx / notes."@,
            s@.len() <= 500 && !is_blank(s@) ==> r is Ok,
            r matches Ok(v) ==> v@ == s@,
            r matches Err(m) ==> m@ == efx_notes_error_message(s@),
    {
        let graphemes = count_graphemes(s.as_str());
        Self::parse_counted(s, graphemes)
    }

    /// The decision of `parse` once the grapheme clusters of `s` are counted.
    pub fn parse_counted(s: String, graphemes: usize) -> (r: Result<EFXNotes, String>)
        requires
            graphemes == grapheme_count(s@),
        ensures
            r is Ok <==> (graphemes <= 500 && !is_blank(s@)),
            r matches Ok(v) ==> v@ == s@,
            r matches Err(m) ==> m@ == efx_notes_error_message(s@),
    {
        let is_too_long = graphemes > 500;
        let is_empty = trim_is_empty(s.as_str());

        if is_too_long || is_empty {
            Err(concat(s, " is not a valid efx / notes."))
        } else {
            Ok(EFXNotes(s))
        }
    }

    /// The text; every EFXNotes is accepted by `parse` again.
    pub fn as_ref(&self) -> (r: &str)
        ensures
            r@ == self@,
            efx_notes_accepts(r@),
            !is_blank(r@) && grapheme_count(r@) <= 500,
    {
        proof {
            use_type_invariant(self);
        }
        self.0.as_str()
    }
}

} // verus!
