use crate::text::{concat, str_eq};
use vstd::prelude::*;

verus! {

/// Whether `s` names a note of the TB-303 keyboard: one of C, C#, D, D#, E,
/// F, F#, G, G#, A, A#, B, or Ch (the high C).
pub open spec fn is_note_name(s: Seq<char>) -> bool {
    ||| s == "C"@
    ||| s == "C#"@
    ||| s == "D"@
    ||| s == "D#"@
    ||| s == "E"@
    ||| s == "F"@
    ||| s == "F#"@
    ||| s == "G"@
    ||| s == "G#"@
    ||| s == "A"@
    ||| s == "A#"@
    ||| s == "B"@
    ||| s == "Ch"@
}

/// The message with which `Note::parse` refuses `s`.
pub open spec fn note_error_message(s: Seq<char>) -> Seq<char> {
    s + " is not a valid note. Can only be one of C, C#, D, D#, E, F, F#, G, G#, A, A#, B, Ch"@
}

/// A note played by a step.
#[derive(Debug)]
pub struct Note(String);

impl View for Note {
    type V = Seq<char>;

    closed spec fn view(&self) -> Seq<char> {
        self.0@
    }
}

impl Note {
    #[verifier::type_invariant]
    spec fn inv(self) -> bool {
        is_note_name(self.0@)
    }

    /// Accepts `s` exactly when it names a note; the note then holds `s`.
    pub fn parse(s: String) -> (r: Result<Note, String>)
        ensures
            r is Ok <==> is_note_name(s@),
            r is Ok <==> (s@ == "C"@ || s@ == "C#"@ || s@ == "D"@ || s@ == "D#"@ || s@ == "E"@ || s@ == "F"@
                || s@ == "F#"@ || s@ == "G"@ || s@ == "G#"@ || s@ == "A"@ || s@ == "A#"@ || s@ == "B"@
                || s@ == "Ch"@),
            r matches Ok(n) ==> n@ == s@,
            r matches Err(m) ==> m@ == note_error_message(s@),
    {
        let t = s.as_str();
        let is_in_array_of_notes = str_eq(t, "C") || str_eq(t, "C#") || str_eq(t, "D") || str_eq(
            t,
            "D#",
        ) || str_eq(t, "E") || str_eq(t, "F") || str_eq(t, "F#") || str_eq(t, "G") || str_eq(
            t,
            "G#",
        ) || str_eq(t, "A") || str_eq(t, "A#") || str_eq(t, "B") || str_eq(t, "Ch");

        if !is_in_array_of_notes {
            Err(
                concat(
                    s,
                    " is not a valid note. Can only be one of C, C#, D, D#, E, F, F#, G, G#, A, A#, B, Ch",
                ),
            )
        } else {
            Ok(Note(s))
        }
    }

    /// The note's name; every note names a note, so parsing it again gives
    /// the same note.
    pub fn as_ref(&self) -> (r: &str)
        ensures
            r@ == self@,
            is_note_name(r@),
    {
        proof {
            use_type_invariant(self);
        }
        self.0.as_str()
    }
}

} // verus!
