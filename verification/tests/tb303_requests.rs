use patternsaver::domain::{Device, JsonTB303, JsonTR909, PatternData, PatternRequestData, Stem, TB303Step, TR909Step, Time};
use patternsaver::routes::patterns::post::CreatePatternError as GenericCreatePatternError;
use patternsaver::routes::patterns::post_tb303::{
    pattern_row, step_rows, CreatePatternError, PatternTB303Request, PatternTB303Response, StepTB303,
};

fn step(number: i32, note: Option<&str>, stem: Option<&str>, time: &str) -> StepTB303 {
    StepTB303 {
        number,
        note: note.map(|s| s.to_string()),
        stem: stem.map(|s| s.to_string()),
        time: time.to_string(),
        accent: None,
        slide: None,
    }
}

/// The pattern the service's own scenarios submit.
fn valid_request() -> PatternTB303Request {
    let mut steps = vec![
        step(1, Some("D"), None, "note"),
        step(2, Some("D"), None, "note"),
        step(3, Some("B"), Some("down"), "note"),
        step(4, None, Some("down"), "tied"),
        step(5, Some("B"), Some("down"), "note"),
        step(6, Some("B"), Some("down"), "note"),
        step(7, None, None, "tied"),
        step(8, Some("B"), Some("down"), "note"),
        step(9, Some("D"), Some("down"), "note"),
        step(10, Some("D"), None, "note"),
        step(11, Some("B"), Some("down"), "note"),
        step(12, Some("D"), None, "note"),
        step(13, None, None, "tied"),
        step(14, Some("B"), Some("down"), "note"),
        step(15, Some("F"), None, "note"),
        step(16, None, None, "tied"),
    ];
    steps[4].slide = Some(true);
    steps[5].accent = Some(true);
    steps[5].slide = Some(true);
    PatternTB303Request {
        author: Some("Humanoind".to_string()),
        title: "Stakker humanoid".to_string(),
        efx_notes: Some(
            "This is a demo pattern for the TB-303. It's a classic acid house pattern.".to_string(),
        ),
        waveform: Some("sawtooth".to_string()),
        cut_off_freq: Some(10),
        resonance: Some(20),
        env_mod: Some(30),
        decay: Some(40),
        accent: Some(50),
        steps,
    }
}

#[test]
fn a_valid_tb303_request_becomes_a_pattern() {
    let p = valid_request().try_into().unwrap();
    assert_eq!(p.author.as_ref().unwrap().as_ref(), "Humanoind");
    assert_eq!(p.title.as_ref(), "Stakker humanoid");
    assert_eq!(p.waveform.as_ref().unwrap().as_ref(), "sawtooth");
    assert_eq!(*p.cut_off_freq.as_ref().unwrap().as_ref(), 10);
    assert_eq!(*p.accent.as_ref().unwrap().as_ref(), 50);
    assert_eq!(p.steps.len(), 16);
    assert_eq!(*p.steps[2].number.as_ref(), 3);
    assert_eq!(p.steps[2].stem, Some(Stem::DOWN));
    assert_eq!(p.steps[3].time, Time::TIED);
    assert!(p.steps[3].note.is_none());
    assert_eq!(p.steps[5].accent, Some(true));
}

#[test]
fn the_stored_rows_keep_the_submitted_values() {
    let p = valid_request().try_into().unwrap();
    let row = pattern_row(&p);
    assert_eq!(row.author.as_deref(), Some("Humanoind"));
    assert_eq!(row.title, "Stakker humanoid");
    assert_eq!(
        row.efx_notes.as_deref(),
        Some("This is a demo pattern for the TB-303. It's a classic acid house pattern.")
    );
    assert_eq!(row.waveform.as_deref(), Some("sawtooth"));
    assert_eq!(
        (row.cutoff_frequency, row.resonance, row.env_mod, row.decay, row.accent),
        (10, 20, 30, 40, 50)
    );
    let rows = step_rows(&p.steps);
    assert_eq!(rows.len(), 16);
    assert_eq!(rows[2].number, 3);
    assert_eq!(rows[2].note.as_deref(), Some("B"));
    assert_eq!(rows[2].stem.as_deref(), Some("DOWN"));
    assert_eq!(rows[2].time, "NOTE");
    assert_eq!((rows[2].accent, rows[2].slide), (false, false));
    assert_eq!((rows[5].accent, rows[5].slide), (true, true));
    assert_eq!(rows[6].stem, None);
    assert_eq!(rows[6].time, "TIED");
}

#[test]
fn absent_knobs_are_stored_as_zero() {
    let mut req = valid_request();
    req.author = None;
    req.efx_notes = None;
    req.waveform = None;
    req.cut_off_freq = None;
    req.resonance = None;
    req.env_mod = None;
    req.decay = None;
    req.accent = None;
    req.steps = vec![];
    let p = req.try_into().unwrap();
    let row = pattern_row(&p);
    assert_eq!(row.author, None);
    assert_eq!(row.efx_notes, None);
    assert_eq!(row.waveform, None);
    assert_eq!(
        (row.cutoff_frequency, row.resonance, row.env_mod, row.decay, row.accent),
        (0, 0, 0, 0, 0)
    );
    assert!(step_rows(&p.steps).is_empty());
}

#[test]
fn invalid_text_fields_are_refused() {
    for v in ["", " "] {
        let mut req = valid_request();
        req.author = Some(v.to_string());
        assert_eq!(req.try_into().err(), Some(format!("{} is not a valid author.", v)));
        let mut req = valid_request();
        req.title = v.to_string();
        assert_eq!(req.try_into().err(), Some(format!("{} is not a valid pattern title.", v)));
        let mut req = valid_request();
        req.efx_notes = Some(v.to_string());
        assert_eq!(req.try_into().err(), Some(format!("{} is not a valid efx / notes.", v)));
    }
    for v in ["", "unknown_waveform", "123"] {
        let mut req = valid_request();
        req.waveform = Some(v.to_string());
        assert!(req.try_into().is_err());
    }
}

#[test]
fn knobs_out_of_bounds_are_refused() {
    for field in 0..5 {
        for v in [-1, 361] {
            let mut req = valid_request();
            match field {
                0 => req.cut_off_freq = Some(v),
                1 => req.resonance = Some(v),
                2 => req.env_mod = Some(v),
                3 => req.decay = Some(v),
                _ => req.accent = Some(v),
            }
            assert_eq!(req.try_into().err(), Some(format!("{} is not a valid knob value. ", v)));
        }
    }
}

#[test]
fn invalid_step_values_are_refused() {
    for v in ["", " ", "invalid_note"] {
        let mut req = valid_request();
        req.steps[0].note = Some(v.to_string());
        assert!(req.try_into().is_err());
    }
    for v in ["", " ", "invalid_stem"] {
        let mut req = valid_request();
        req.steps[0].stem = Some(v.to_string());
        assert!(req.try_into().is_err());
    }
    for v in ["", " ", "invalid_time"] {
        let mut req = valid_request();
        req.steps[0].time = v.to_string();
        assert!(req.try_into().is_err());
    }
    let mut req = valid_request();
    req.steps[7].number = 17;
    assert_eq!(req.try_into().err(), Some("17 is not a valid step number value. ".to_string()));
}

#[test]
fn more_than_16_steps_are_refused() {
    let mut req = valid_request();
    for _ in 0..16 {
        let first = step(1, Some("D"), None, "note");
        req.steps.push(first);
    }
    assert_eq!(req.try_into().err(), Some("A pattern can only have up to 16 steps.".to_string()));
}

#[test]
fn the_first_failing_field_decides_the_message() {
    let mut req = valid_request();
    req.title = "".to_string();
    req.decay = Some(400);
    req.steps[0].note = Some("H".to_string());
    assert_eq!(req.try_into().err(), Some(" is not a valid pattern title.".to_string()));

    let mut req = valid_request();
    req.decay = Some(400);
    req.accent = Some(-3);
    assert_eq!(req.try_into().err(), Some("400 is not a valid knob value. ".to_string()));

    // A step error comes before the step count, and the first bad step wins.
    let mut req = valid_request();
    for _ in 0..16 {
        req.steps.push(step(2, Some("E"), None, "note"));
    }
    req.steps[20].time = "later".to_string();
    req.steps[25].note = Some("Z".to_string());
    assert_eq!(
        req.try_into().err(),
        Some("later is not a valid time. Can only be 'note', 'tied' or 'rest'".to_string())
    );

    // Within a step: number, then note, then stem, then time.
    let mut req = valid_request();
    req.steps[1] = step(0, Some("Z"), Some("sideways"), "never");
    assert_eq!(req.try_into().err(), Some("0 is not a valid step number value. ".to_string()));
    let mut req = valid_request();
    req.steps[1] = step(2, Some("C"), Some("sideways"), "never");
    assert_eq!(
        req.try_into().err(),
        Some("sideways is not a valid stem. Can only be 'up' or 'down'".to_string())
    );
}

fn tb303_data(steps: usize) -> PatternRequestData {
    let s = TB303Step {
        note: "Cs".to_string(),
        stem: Stem::UP,
        accent: true,
        slide: true,
        time: Time::REST,
    };
    PatternRequestData::JsonTB303(JsonTB303 { length: 2, steps: vec![s; steps] })
}

fn tr909_data(steps: usize) -> PatternRequestData {
    let s = TR909Step {
        accent: true,
        bd: true,
        sd: true,
        lt: true,
        mt: true,
        ht: true,
        rs: false,
        cp: false,
        oh: true,
        ch: true,
        cr: true,
        ri: true,
    };
    PatternRequestData::JsonTR909(JsonTR909 { length: 2, steps: vec![s; steps] })
}

#[test]
fn pattern_data_must_fit_its_device() {
    assert!(PatternData::parse(tb303_data(2), &Device::TB303).is_ok());
    assert!(PatternData::parse(tr909_data(2), &Device::TR909).is_ok());
    assert_eq!(
        PatternData::parse(tb303_data(2), &Device::TR909).err(),
        Some("Not able to parse 909 pattern data.".to_string())
    );
    assert_eq!(
        PatternData::parse(tr909_data(2), &Device::TB303).err(),
        Some("Not able to parse 303 pattern data.".to_string())
    );
    assert!(PatternData::parse(tr909_data(0), &Device::TB303).is_ok());
    assert!(PatternData::parse(tb303_data(0), &Device::TR909).is_ok());
    for d in [Device::TR808, Device::TR606] {
        assert_eq!(
            PatternData::parse(tb303_data(2), &d).err(),
            Some("Device is not recognized".to_string())
        );
    }
    let kept = PatternData::parse(tb303_data(3), &Device::TB303).unwrap();
    match kept.data() {
        PatternRequestData::JsonTB303(d) => {
            assert_eq!(d.steps.len(), 3);
            assert_eq!(d.steps[0].note, "Cs");
        }
        PatternRequestData::JsonTR909(_) => panic!("the data changed its kind"),
    }
}

#[test]
fn create_errors_are_answered_by_kind() {
    let e = CreatePatternError::ValidationError("bad title".to_string());
    assert_eq!(e.status_code(), 400);
    let body = e.error_response();
    assert_eq!((body.status.as_str(), body.message.as_str()), ("error", "bad title"));
    let e = CreatePatternError::UnexpectedError("Failed to start a new transaction.".to_string());
    assert_eq!(e.status_code(), 500);
    assert_eq!(e.to_string(), "Failed to start a new transaction.");
    let e = GenericCreatePatternError::ValidationError("Device is not recognized".to_string());
    assert_eq!(e.status_code(), 400);
    assert_eq!(e.error_response().message, "Device is not recognized");
    let e = GenericCreatePatternError::UnexpectedError("db down".to_string());
    assert_eq!(e.status_code(), 500);
    assert_eq!(e.error_response().status, "error");
    let ok = PatternTB303Response::success("123e4567-e89b-12d3-a456-426614174000".to_string());
    assert_eq!(ok.status, "success");
    assert_eq!(ok.data.id, "123e4567-e89b-12d3-a456-426614174000");
}
