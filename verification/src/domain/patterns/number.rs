use crate::text::{concat, decimal, i32_to_decimal};
use vstd::prelude::*;

verus! {

/// Whether `i` numbers a step of a pattern: from 1 to 16.
pub open spec fn is_step_number(i: i32) -> bool {
    1 <= i <= 16
}

/// The message with which `Number::parse` refuses `i`.
pub open spec fn number_error_message(i: i32) -> Seq<char> {
    decimal(i as int) + " is not a valid step number value. "@
}

/// The number of a step in a pattern, from 1 to 16.
#[derive(Debug)]
pub struct Number(i32);

impl View for Number {
    type V = i32;

    closed spec fn view(&self) -> i32 {
        self.0
    }
}

impl Number {
    #[verifier::type_invariant]
    spec fn inv(self) -> bool {
        is_step_number(self.0)
    }

    /// Accepts `i` exactly when it lies from 1 to 16.
    pub fn parse(i: i32) -> (r: Result<Number, String>)
        ensures
            r is Ok <==> is_step_number(i),
            r is Ok <==> 1 <= i <= 16,
            r matches Err(m) ==> m@ == decimal(i as int) + " is not a valid step number value. "@,
            r matches Ok(k) ==> k@ == i,
            r matches Err(m) ==> m@ == number_error_message(i),
    {
        let is_less_than_1 = i < 1;
        let is_greater_than_16 = i > 16;

        if is_greater_than_16 || is_less_than_1 {
            Err(concat(i32_to_decimal(i), " is not a valid step number value. "))
        } else {
            Ok(Number(i))
        }
    }

    /// The step number; every step number lies from 1 to 16, so parsing it
    /// again gives the same number.
    pub fn as_ref(&self) -> (r: &i32)
        ensures
            *r == self@,
            is_step_number(*r),
            1 <= *r <= 16,
    {
        proof {
            use_type_invariant(self);
        }
        &self.0
    }
}

} // verus!
