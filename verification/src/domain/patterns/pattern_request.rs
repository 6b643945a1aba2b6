use crate::domain::patterns::stem::Stem;
use crate::domain::patterns::time::Time;
use vstd::prelude::*;

verus! {

/// The sequencer data submitted with a generic pattern: either the steps of a
/// TB-303 or those of a TR-909. As JSON it is untagged: the shape of the
/// object tells which it is.
#[derive(Debug, Clone)]
pub enum PatternRequestData {
    JsonTB303(JsonTB303),
    JsonTR909(JsonTR909),
}

/// TB-303 sequencer data: a length and its steps.
#[derive(Debug, Clone)]
pub struct JsonTB303 {
    pub length: i32,
    pub steps: Vec<TB303Step>,
}

/// One step of TB-303 sequencer data, as submitted. The note is kept as
/// written: this data is stored as a whole and not checked note by note.
#[derive(Debug, Clone)]
pub struct TB303Step {
    pub note: String,
    pub stem: Stem,
    pub accent: bool,
    pub slide: bool,
    pub time: Time,
}

/// TR-909 sequencer data: a length and its steps.
#[derive(Debug, Clone)]
pub struct JsonTR909 {
    pub length: i32,
    pub steps: Vec<TR909Step>,
}

/// One step of TR-909 sequencer data: which instruments sound on it.
#[derive(Debug, Clone)]
pub struct TR909Step {
    pub accent: bool,
    pub bd: bool,
    pub sd: bool,
    pub lt: bool,
    pub mt: bool,
    pub ht: bool,
    pub rs: bool,
    pub cp: bool,
    pub oh: bool,
    pub ch: bool,
    pub cr: bool,
    pub ri: bool,
}

impl PatternRequestData {
    /// The number of steps the data holds.
    pub open spec fn step_count(self) -> nat {
        match self {
            PatternRequestData::JsonTB303(d) => d.steps@.len(),
            PatternRequestData::JsonTR909(d) => d.steps@.len(),
        }
    }

    /// Whether the data holds no step.
    pub fn has_no_steps(&self) -> (r: bool)
        ensures
            r == (self.step_count() == 0),
    {
        match self {
            PatternRequestData::JsonTB303(d) => d.steps.len() == 0,
            PatternRequestData::JsonTR909(d) => d.steps.len() == 0,
        }
    }
}

} // verus!
