use crate::domain::patterns::author::Author;
use crate::domain::patterns::efx_notes::EFXNotes;
use crate::domain::patterns::knob::Knob;
use crate::domain::patterns::new_tb303_step::{opt_view, NewTB303Step, NewTB303StepView};
use crate::domain::patterns::title::Title;
use crate::domain::patterns::waveform::Waveform;
use vstd::prelude::*;

verus! {

/// A checked TB-303 pattern, ready to be stored.
pub struct NewTB303Pattern {
    pub author: Option<Author>,
    pub title: Title,
    pub efx_notes: Option<EFXNotes>,
    pub waveform: Option<Waveform>,
    pub cut_off_freq: Option<Knob>,
    pub resonance: Option<Knob>,
    pub env_mod: Option<Knob>,
    pub decay: Option<Knob>,
    pub accent: Option<Knob>,
    pub steps: Vec<NewTB303Step>,
}

/// A checked TB-303 pattern as plain values.
pub struct NewTB303PatternView {
    pub author: Option<Seq<char>>,
    pub title: Seq<char>,
    pub efx_notes: Option<Seq<char>>,
    pub waveform: Option<Seq<char>>,
    pub cut_off_freq: Option<i32>,
    pub resonance: Option<i32>,
    pub env_mod: Option<i32>,
    pub decay: Option<i32>,
    pub accent: Option<i32>,
    pub steps: Seq<NewTB303StepView>,
}

impl View for NewTB303Pattern {
    type V = NewTB303PatternView;

    open spec fn view(&self) -> NewTB303PatternView {
        NewTB303PatternView {
            author: opt_view(self.author),
            title: self.title@,
            efx_notes: opt_view(self.efx_notes),
            waveform: opt_view(self.waveform),
            cut_off_freq: opt_view(self.cut_off_freq),
            resonance: opt_view(self.resonance),
            env_mod: opt_view(self.env_mod),
            decay: opt_view(self.decay),
            accent: opt_view(self.accent),
            steps: self.steps@.map_values(|s: NewTB303Step| s@),
        }
    }
}

} // verus!
