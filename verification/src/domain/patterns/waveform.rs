use crate::text::{concat, str_eq};
use vstd::prelude::*;

verus! {

/// Whether `s` names an oscillator waveform of the TB-303: `sawtooth` or `square`.
pub open spec fn is_waveform_name(s: Seq<char>) -> bool {
    s == "sawtooth"@ || s == "square"@
}

/// The message with which `Waveform::parse` refuses `s`.
pub open spec fn waveform_error_message(s: Seq<char>) -> Seq<char> {
    s + " is not a valid waveform. Can only be 'sawtooth' or 'square'"@
}

/// The oscillator waveform of a pattern.
#[derive(Debug)]
pub struct Waveform(String);

impl View for Waveform {
    type V = Seq<char>;

    closed spec fn view(&self) -> Seq<char> {
        self.0@
    }
}

impl Waveform {
    #[verifier::type_invariant]
    spec fn inv(self) -> bool {
        is_waveform_name(self.0@)
    }

    /// Accepts `s` exactly when it is `sawtooth` or `square`.
    pub fn parse(s: String) -> (r: Result<Waveform, String>)
        ensures
            r is Ok <==> is_waveform_name(s@),
            r is Ok <==> (s@ == "sawtooth"@ || s@ == "square"@),
            r matches Err(m) ==> m@ == s@ + " is not a valid waveform. Can only be 'sawtooth' or 'square'"@,
            r matches Ok(w) ==> w@ == s@,
            r matches Err(m) ==> m@ == waveform_error_message(s@),
    {
        let is_not_sawtooth = !str_eq(s.as_str(), "sawtooth");
        let is_not_square = !str_eq(s.as_str(), "square");

        if is_not_sawtooth && is_not_square {
            Err(concat(s, " is not a valid waveform. Can only be 'sawtooth' or 'square'"))
        } else {
            Ok(Waveform(s))
        }
    }

    /// The waveform's name; every waveform is `sawtooth` or `square`.
    pub fn as_ref(&self) -> (r: &str)
        ensures
            r@ == self@,
            is_waveform_name(r@),
    {
        proof {
            use_type_invariant(self);
        }
        self.0.as_str()
    }
}

} // verus!
