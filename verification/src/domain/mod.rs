//! The values a pattern is made of, each checked when it is parsed.

pub mod patterns;

pub use patterns::author::Author;
pub use patterns::device::Device;
pub use patterns::efx_notes::EFXNotes;
pub use patterns::knob::Knob;
pub use patterns::note::Note;
pub use patterns::number::Number;
pub use patterns::title::Title;
pub use patterns::waveform::Waveform;
pub use patterns::stem::Stem;
pub use patterns::time::Time;
pub use patterns::pattern_data::PatternData;
pub use patterns::pattern_request::{JsonTB303, JsonTR909, PatternRequestData, TB303Step, TR909Step};
pub use patterns::new_tb303_pattern::NewTB303Pattern;
pub use patterns::new_tb303_step::NewTB303Step;
