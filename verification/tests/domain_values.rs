use patternsaver::domain::{Author, Device, EFXNotes, Knob, Note, Number, Stem, Time, Title, Waveform};
use patternsaver::text::{i32_to_decimal, is_whitespace_char, trim_is_empty};

// Author

#[test]
fn an_empty_author_is_rejected() {
    let author = "".to_string();
    assert!(Author::parse(author).is_err());
}

#[test]
fn an_author_with_only_whitespace_is_rejected() {
    let author = " ".to_string();
    assert!(Author::parse(author).is_err());
}

#[test]
fn a_50_grapheme_long_author_is_valid() {
    let author = "a".repeat(50);
    assert!(Author::parse(author).is_ok());
}

#[test]
fn an_author_longer_than_50_graphemes_is_rejected() {
    let author = "a".repeat(51);
    assert!(Author::parse(author).is_err());
}

#[test]
fn a_valid_author_is_parsed_successfully() {
    let author = "myself".to_string();
    assert!(Author::parse(author).is_ok());
}

// EFX / notes

#[test]
fn a_500_grapheme_long_notes_are_valid() {
    let efx_notes = "a".repeat(500);
    assert!(EFXNotes::parse(efx_notes).is_ok());
}

#[test]
fn a_efx_note_longer_than_500_graphemes_is_rejected() {
    let efx_notes = "a".repeat(501);
    assert!(EFXNotes::parse(efx_notes).is_err());
}

#[test]
fn a_valid_efx_note_is_parsed_successfully() {
    let description = "This is efx/notes for the pattern".to_string();
    assert!(EFXNotes::parse(description).is_ok());
}

// Knob

#[test]
fn a_value_less_than_0_is_rejected() {
    let knob: i32 = -1;
    assert!(Knob::parse(knob).is_err());
}

#[test]
fn a_value_greater_than_360_is_rejected() {
    let knob: i32 = 361;
    assert!(Knob::parse(knob).is_err());
}

#[test]
fn a_value_in_a_range_between_0_and_360_is_valid() {
    let knob: i32 = 180;
    assert!(Knob::parse(knob).is_ok());
}

// Note

fn valid_notes() -> Vec<String> {
    vec![
        "C".to_string(),
        "C#".to_string(),
        "D".to_string(),
        "D#".to_string(),
        "E".to_string(),
        "F".to_string(),
        "F#".to_string(),
        "G".to_string(),
        "G#".to_string(),
        "A".to_string(),
        "A#".to_string(),
        "B".to_string(),
        "Ch".to_string(),
    ]
}

#[test]
fn invalid_note_is_rejected() {
    let note = "L".to_string();
    assert!(Note::parse(note).is_err());
}

#[test]
fn valid_notes_are_accepted() {
    for note in valid_notes() {
        assert!(Note::parse(note).is_ok());
    }
}

// Number

#[test]
fn a_value_less_than_1_is_rejected() {
    let number: i32 = -1;
    assert!(Number::parse(number).is_err());
}

#[test]
fn a_value_greater_than_16_is_rejected() {
    let number: i32 = 17;
    assert!(Number::parse(number).is_err());
}

#[test]
fn a_value_in_a_range_between_1_and_16_is_valid() {
    let number: i32 = 8;
    assert!(Number::parse(number).is_ok());
}

// Title

#[test]
fn a_100_grapheme_long_title_is_valid() {
    let title = "a".repeat(100);
    assert!(Title::parse(title).is_ok());
}

#[test]
fn a_name_longer_than_100_graphemes_is_rejected() {
    let title = "a".repeat(101);
    assert!(Title::parse(title).is_err());
}

#[test]
fn a_valid_title_is_parsed_successfully() {
    let title = "May demo".to_string();
    assert!(Title::parse(title).is_ok());
}

// Waveform

#[test]
fn a_sawtooth_waveform_is_valid() {
    let waveform = "sawtooth".to_string();
    assert!(Waveform::parse(waveform).is_ok());
}

#[test]
fn a_square_waveform_is_valid() {
    let waveform = "square".to_string();
    assert!(Waveform::parse(waveform).is_ok());
}

#[test]
fn a_waveform_other_than_sawtooth_or_square_is_rejected() {
    let waveform = "sine".to_string();
    assert!(Waveform::parse(waveform).is_err());
}

// Further cases

#[test]
fn parsed_texts_are_kept_unchanged() {
    assert_eq!(Author::parse(" Humanoid ".to_string()).unwrap().as_ref(), " Humanoid ");
    assert_eq!(Title::parse("Stakker humanoid".to_string()).unwrap().as_ref(), "Stakker humanoid");
    assert_eq!(EFXNotes::parse("acid".to_string()).unwrap().as_ref(), "acid");
    assert_eq!(Note::parse("G#".to_string()).unwrap().as_ref(), "G#");
    assert_eq!(Waveform::parse("square".to_string()).unwrap().as_ref(), "square");
    assert_eq!(*Knob::parse(0).unwrap().as_ref(), 0);
    assert_eq!(*Knob::parse(360).unwrap().as_ref(), 360);
    assert_eq!(*Number::parse(1).unwrap().as_ref(), 1);
    assert_eq!(*Number::parse(16).unwrap().as_ref(), 16);
}

#[test]
fn error_messages_name_the_refused_value() {
    assert_eq!(Author::parse("".to_string()).unwrap_err(), " is not a valid author.");
    assert_eq!(Title::parse("\t\n".to_string()).unwrap_err(), "\t\n is not a valid pattern title.");
    assert_eq!(EFXNotes::parse("  ".to_string()).unwrap_err(), "   is not a valid efx / notes.");
    assert_eq!(Knob::parse(-1).unwrap_err(), "-1 is not a valid knob value. ");
    assert_eq!(Knob::parse(361).unwrap_err(), "361 is not a valid knob value. ");
    assert_eq!(Number::parse(0).unwrap_err(), "0 is not a valid step number value. ");
    assert_eq!(
        Note::parse("Cs".to_string()).unwrap_err(),
        "Cs is not a valid note. Can only be one of C, C#, D, D#, E, F, F#, G, G#, A, A#, B, Ch"
    );
    assert_eq!(
        Waveform::parse("sine".to_string()).unwrap_err(),
        "sine is not a valid waveform. Can only be 'sawtooth' or 'square'"
    );
    assert_eq!(Stem::parse("UP".to_string()).unwrap_err(), "UP is not a valid stem. Can only be 'up' or 'down'");
    assert_eq!(
        Time::parse("".to_string()).unwrap_err(),
        " is not a valid time. Can only be 'note', 'tied' or 'rest'"
    );
}

#[test]
fn knob_and_step_number_bounds_are_inclusive() {
    for i in -5..=365 {
        assert_eq!(Knob::parse(i).is_ok(), (0..=360).contains(&i));
    }
    for i in -5..=20 {
        assert_eq!(Number::parse(i).is_ok(), (1..=16).contains(&i));
    }
    assert!(Knob::parse(i32::MIN).is_err());
    assert!(Number::parse(i32::MAX).is_err());
}

#[test]
fn text_length_counts_grapheme_clusters() {
    // "e" followed by a combining acute accent is one grapheme of two characters.
    let accented = "e\u{301}".repeat(50);
    assert_eq!(accented.chars().count(), 100);
    assert!(Author::parse(accented.clone()).is_ok());
    assert!(Author::parse(format!("{}e", accented)).is_err());
    assert!(Title::parse("\u{1F1F7}\u{1F1FA}".repeat(100)).is_ok());
    assert!(Title::parse("\u{1F1F7}\u{1F1FA}".repeat(101)).is_err());
}

#[test]
fn only_white_space_is_blank() {
    assert!(Author::parse("\u{3000}\u{2003}\u{a0}".to_string()).is_err());
    assert!(Author::parse(" x ".to_string()).is_ok());
    assert!(Title::parse("\u{200b}".to_string()).is_ok());
    assert!(trim_is_empty(""));
    assert!(trim_is_empty(" \t\r\n\u{85}"));
    assert!(!trim_is_empty(" a "));
}

#[test]
fn white_space_agrees_with_std_for_every_char() {
    for u in 0..=0x10FFFFu32 {
        if let Some(c) = char::from_u32(u) {
            assert_eq!(is_whitespace_char(c), c.is_whitespace(), "{:x}", u);
            let s = c.to_string();
            assert_eq!(trim_is_empty(&s), s.trim().is_empty());
        }
    }
}

#[test]
fn decimal_rendering_agrees_with_to_string() {
    for i in [0, 1, 9, 10, 99, 100, 360, 361, -1, -10, 12345, i32::MAX, i32::MIN, i32::MIN + 1] {
        assert_eq!(i32_to_decimal(i), i.to_string());
    }
}

#[test]
fn notes_are_case_sensitive() {
    assert!(Note::parse("c".to_string()).is_err());
    assert!(Note::parse("CH".to_string()).is_err());
    assert!(Note::parse("C ".to_string()).is_err());
    assert!(Note::parse("".to_string()).is_err());
}

#[test]
fn stems_and_times_are_read_from_lower_case_names() {
    assert_eq!(Stem::parse("up".to_string()), Ok(Stem::UP));
    assert_eq!(Stem::parse("down".to_string()), Ok(Stem::DOWN));
    assert!(Stem::parse(" ".to_string()).is_err());
    assert!(Stem::parse("invalid_stem".to_string()).is_err());
    assert_eq!(Time::parse("note".to_string()), Ok(Time::NOTE));
    assert_eq!(Time::parse("tied".to_string()), Ok(Time::TIED));
    assert_eq!(Time::parse("rest".to_string()), Ok(Time::REST));
    assert!(Time::parse("invalid_time".to_string()).is_err());
}

#[test]
fn names_are_displayed_as_variants() {
    assert_eq!(Device::TB303.to_string(), "TB303");
    assert_eq!(Device::TR909.to_string(), "TR909");
    assert_eq!(Device::TR808.to_string(), "TR808");
    assert_eq!(Device::TR606.to_string(), "TR606");
    assert_eq!(Stem::UP.to_string(), "UP");
    assert_eq!(Stem::DOWN.to_string(), "DOWN");
    assert_eq!(Time::NOTE.to_string(), "NOTE");
    assert_eq!(Time::TIED.to_string(), "TIED");
    assert_eq!(Time::REST.to_string(), "REST");
}
