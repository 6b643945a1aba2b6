use crate::text::{concat, str_eq};
use vstd::prelude::*;

verus! {

/// How long a step sounds: a new note, a note tied to the previous one, or a rest.
#[derive(Debug, Clone, Copy, PartialEq, Eq, Structural)]
pub enum Time {
    NOTE,
    TIED,
    REST,
}

/// The name of a time, as it is displayed and stored.
pub open spec fn time_name(t: Time) -> Seq<char> {
    match t {
        Time::NOTE => "NOTE"@,
        Time::TIED => "TIED"@,
        Time::REST => "REST"@,
    }
}

/// The time a request names: `note`, `tied` or `rest`.
pub open spec fn time_from_text(s: Seq<char>) -> Option<Time> {
    if s == "note"@ {
        Some(Time::NOTE)
    } else if s == "tied"@ {
        Some(Time::TIED)
    } else if s == "rest"@ {
        Some(Time::REST)
    } else {
        None
    }
}

/// The message with which `Time::parse` refuses `s`.
pub open spec fn time_error_message(s: Seq<char>) -> Seq<char> {
    s + " is not a valid time. Can only be 'note', 'tied' or 'rest'"@
}

impl Time {
    /// Reads the time named in a request: `note`, `tied` or `rest`.
    pub fn parse(s: String) -> (r: Result<Time, String>)
        ensures
            r is Ok <==> time_from_text(s@) is Some,
            r is Ok <==> (s@ == "note"@ || s@ == "tied"@ || s@ == "rest"@),
            r matches Ok(v) ==> (v == Time::NOTE <==> s@ == "note"@),
            r matches Ok(v) ==> (v == Time::TIED <==> s@ == "tied"@),
            r matches Ok(v) ==> (v == Time::REST <==> s@ == "rest"@),
            r matches Err(m) ==> m@ == s@ + " is not a valid time. Can only be 'note', 'tied' or 'rest'"@,
            r matches Ok(v) ==> time_from_text(s@) == Some(v),
            r matches Err(m) ==> m@ == time_error_message(s@),
    {
        proof {
            reveal_strlit("note");
            reveal_strlit("tied");
            reveal_strlit("rest");
            assert("note"@[0] != "tied"@[0] && "note"@[0] != "rest"@[0] && "tied"@[0] != "rest"@[0]);
        }
        if str_eq(s.as_str(), "note") {
            Ok(Time::NOTE)
        } else if str_eq(s.as_str(), "tied") {
            Ok(Time::TIED)
        } else if str_eq(s.as_str(), "rest") {
            Ok(Time::REST)
        } else {
            Err(concat(s, " is not a valid time. Can only be 'note', 'tied' or 'rest'"))
        }
    }

    /// The time's name, the variant's own name (`NOTE`, `TIED` or `REST`).
    pub fn to_string(&self) -> (r: String)
        ensures
            r@ == time_name(*self),
            *self == Time::NOTE ==> r@ == "NOTE"@,
            *self == Time::TIED ==> r@ == "TIED"@,
            *self == Time::REST ==> r@ == "REST"@,
    {
        match self {
            Time::NOTE => "NOTE".to_owned(),
            Time::TIED => "TIED".to_owned(),
            Time::REST => "REST".to_owned(),
        }
    }
}

} // verus!
