use crate::text::{concat, decimal, i32_to_decimal};
use vstd::prelude::*;

verus! {

/// Whether `i` is a knob position: from 0 to 360.
pub open spec fn is_knob_value(i: i32) -> bool {
    0 <= i <= 360
}

/// The message with which `Knob::parse` refuses `i`.
pub open spec fn knob_error_message(i: i32) -> Seq<char> {
    decimal(i as int) + " is not a valid knob value. "@
}

/// The position of a knob of the synthesizer, from 0 to 360.
#[derive(Debug)]
pub struct Knob(i32);

impl View for Knob {
    type V = i32;

    closed spec fn view(&self) -> i32 {
        self.0
    }
}

impl Knob {
    #[verifier::type_invariant]
    spec fn inv(self) -> bool {
        is_knob_value(self.0)
    }

    /// Accepts `i` exactly when it lies from 0 to 360.
    pub fn parse(i: i32) -> (r: Result<Knob, String>)
        ensures
            r is Ok <==> is_knob_value(i),
            r is Ok <==> 0 <= i <= 360,
            r matches Err(m) ==> m@ == decimal(i as int) + " is not a valid knob value. "@,
            r matches Ok(k) ==> k@ == i,
            r matches Err(m) ==> m@ == knob_error_message(i),
    {
        let is_less_than_0 = i < 0;
        let is_greater_than_360 = i > 360;

        if is_greater_than_360 || is_less_than_0 {
            Err(concat(i32_to_decimal(i), " is not a valid knob value. "))
        } else {
            Ok(Knob(i))
        }
    }

    /// The position; every knob's position lies from 0 to 360, so parsing it
    /// again gives the same knob.
    pub fn as_ref(&self) -> (r: &i32)
        ensures
            *r == self@,
            is_knob_value(*r),
            0 <= *r <= 360,
    {
        proof {
            use_type_invariant(self);
        }
        &self.0
    }
}

} // verus!
