use crate::text::{concat, str_eq};
use vstd::prelude::*;

verus! {

/// The direction a step moves the pitch: an octave up or down.
#[derive(Debug, Clone, Copy, PartialEq, Eq, Structural)]
pub enum Stem {
    UP,
    DOWN,
}

/// The name of a stem, as it is displayed and stored.
pub open spec fn stem_name(s: Stem) -> Seq<char> {
    match s {
        Stem::UP => "UP"@,
        Stem::DOWN => "DOWN"@,
    }
}

/// The stem a request names: `up` or `down`.
pub open spec fn stem_from_text(s: Seq<char>) -> Option<Stem> {
    if s == "up"@ {
        Some(Stem::UP)
    } else if s == "down"@ {
        Some(Stem::DOWN)
    } else {
        None
    }
}

/// The message with which `Stem::parse` refuses `s`.
pub open spec fn stem_error_message(s: Seq<char>) -> Seq<char> {
    s + " is not a valid stem. Can only be 'up' or 'down'"@
}

impl Stem {
    /// Reads the stem named in a request: `up` or `down`.
    pub fn parse(s: String) -> (r: Result<Stem, String>)
        ensures
            r is Ok <==> stem_from_text(s@) is Some,
            r is Ok <==> (s@ == "up"@ || s@ == "down"@),
            r matches Ok(v) ==> (v == Stem::UP <==> s@ == "up"@),
            r matches Ok(v) ==> (v == Stem::DOWN <==> s@ == "down"@),
            r matches Err(m) ==> m@ == s@ + " is not a valid stem. Can only be 'up' or 'down'"@,
            r matches Ok(v) ==> stem_from_text(s@) == Some(v),
            r matches Err(m) ==> m@ == stem_error_message(s@),
    {
        proof {
            reveal_strlit("up");
            reveal_strlit("down");
            assert("up"@.len() != "down"@.len());
        }
        if str_eq(s.as_str(), "up") {
            Ok(Stem::UP)
        } else if str_eq(s.as_str(), "down") {
            Ok(Stem::DOWN)
        } else {
            Err(concat(s, " is not a valid stem. Can only be 'up' or 'down'"))
        }
    }

    /// The stem's name, the variant's own name (`UP` or `DOWN`).
    pub fn to_string(&self) -> (r: String)
        ensures
            r@ == stem_name(*self),
            *self == Stem::UP ==> r@ == "UP"@,
            *self == Stem::DOWN ==> r@ == "DOWN"@,
    {
        match self {
            Stem::UP => "UP".to_owned(),
            Stem::DOWN => "DOWN".to_owned(),
        }
    }
}

} // verus!
