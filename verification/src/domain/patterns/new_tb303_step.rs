use crate::domain::patterns::note::Note;
use crate::domain::patterns::number::Number;
use crate::domain::patterns::stem::Stem;
use crate::domain::patterns::time::Time;
use vstd::prelude::*;

verus! {

/// A checked step of a TB-303 pattern.
pub struct NewTB303Step {
    pub number: Number,
    pub note: Option<Note>,
    pub stem: Option<Stem>,
    pub time: Time,
    pub accent: Option<bool>,
    pub slide: Option<bool>,
}

/// A checked step as plain values.
pub struct NewTB303StepView {
    pub number: i32,
    pub note: Option<Seq<char>>,
    pub stem: Option<Stem>,
    pub time: Time,
    pub accent: Option<bool>,
    pub slide: Option<bool>,
}

/// The view of an optional value.
pub open spec fn opt_view<T: View>(o: Option<T>) -> Option<T::V> {
    match o {
        Some(v) => Some(v@),
        None => None,
    }
}

impl View for NewTB303Step {
    type V = NewTB303StepView;

    open spec fn view(&self) -> NewTB303StepView {
        NewTB303StepView {
            number: self.number@,
            note: opt_view(self.note),
            stem: self.stem,
            time: self.time,
            accent: self.accent,
            slide: self.slide,
        }
    }
}

} // verus!
