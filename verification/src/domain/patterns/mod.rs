pub mod author;
pub mod device;
pub mod efx_notes;
pub mod knob;
pub mod note;
pub mod number;
pub mod title;
pub mod waveform;
pub mod stem;
pub mod time;
pub mod pattern_data;
pub mod pattern_request;
pub mod new_tb303_pattern;
pub mod new_tb303_step;
