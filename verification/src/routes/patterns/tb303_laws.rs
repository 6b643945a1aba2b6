//! What checking and storing a TB-303 pattern does, stated field by field.

use crate::domain::patterns::new_tb303_pattern::NewTB303PatternView;
use crate::domain::patterns::new_tb303_step::NewTB303StepView;
use crate::domain::patterns::note::is_note_name;
use crate::domain::{Stem, Time};
use crate::routes::patterns::post_tb303::{
    lemma_steps_error_prefix, author_field_error, efx_notes_field_error, knob_field_error, lemma_steps_error_none,
    note_field_error, number_field_error, pattern_of_request, pattern_row_of, request_error,
    stem_field_error, step_error, step_of_request, step_row_of, steps_error, time_field_error,
    title_field_error, waveform_field_error, PatternTB303RequestView, StepTB303View,
};
use crate::text::{decimal, grapheme_count, is_blank};
use vstd::prelude::*;

verus! {

/// The stored step row: the number and note as checked, the stem and time
/// by their capitalised names, and the accent and slide flags as given, or
/// `false` when not given.
pub proof fn step_row_law(s: NewTB303StepView)
    ensures
        step_row_of(s).number == s.number,
        step_row_of(s).note == s.note,
        s.stem == Some(Stem::UP) ==> step_row_of(s).stem == Some("UP"@),
        s.stem == Some(Stem::DOWN) ==> step_row_of(s).stem == Some("DOWN"@),
        s.stem is None ==> step_row_of(s).stem is None,
        s.time == Time::NOTE ==> step_row_of(s).time == "NOTE"@,
        s.time == Time::TIED ==> step_row_of(s).time == "TIED"@,
        s.time == Time::REST ==> step_row_of(s).time == "REST"@,
        s.accent matches Some(b) ==> step_row_of(s).accent == b,
        s.accent is None ==> !step_row_of(s).accent,
        s.slide matches Some(b) ==> step_row_of(s).slide == b,
        s.slide is None ==> !step_row_of(s).slide,
{
}

/// The stored pattern row: every text as checked, and each knob at its
/// position when given, 0 when not.
pub proof fn pattern_row_law(p: NewTB303PatternView)
    ensures
        pattern_row_of(p).author == p.author,
        pattern_row_of(p).title == p.title,
        pattern_row_of(p).efx_notes == p.efx_notes,
        pattern_row_of(p).waveform == p.waveform,
        p.cut_off_freq matches Some(k) ==> pattern_row_of(p).cutoff_frequency == k,
        p.cut_off_freq is None ==> pattern_row_of(p).cutoff_frequency == 0,
        p.resonance matches Some(k) ==> pattern_row_of(p).resonance == k,
        p.resonance is None ==> pattern_row_of(p).resonance == 0,
        p.env_mod matches Some(k) ==> pattern_row_of(p).env_mod == k,
        p.env_mod is None ==> pattern_row_of(p).env_mod == 0,
        p.decay matches Some(k) ==> pattern_row_of(p).decay == k,
        p.decay is None ==> pattern_row_of(p).decay == 0,
        p.accent matches Some(k) ==> pattern_row_of(p).accent == k,
        p.accent is None ==> pattern_row_of(p).accent == 0,
{
}

/// Which values each field of a submission accepts, and with which message
/// it refuses the others. An absent optional field is always accepted.
pub proof fn field_error_law(
    text: Seq<char>,
    opt: Option<Seq<char>>,
    i: i32,
    knob: Option<i32>,
)
    ensures
        title_field_error(text) is None <==> (!is_blank(text) && grapheme_count(text) <= 100),
        title_field_error(text) is Some ==> title_field_error(text) == Some(
            text + " is not a valid pattern title."@,
        ),
        opt is None ==> author_field_error(opt) is None && efx_notes_field_error(opt) is None
            && waveform_field_error(opt) is None && note_field_error(opt) is None
            && stem_field_error(opt) is None,
        opt == Some(text) ==> (author_field_error(opt) is None <==> (!is_blank(text)
            && grapheme_count(text) <= 50)),
        opt == Some(text) && author_field_error(opt) is Some ==> author_field_error(opt) == Some(
            text + " is not a valid author."@,
        ),
        opt == Some(text) ==> (efx_notes_field_error(opt) is None <==> (!is_blank(text)
            && grapheme_count(text) <= 500)),
        opt == Some(text) && efx_notes_field_error(opt) is Some ==> efx_notes_field_error(opt)
            == Some(text + " is not a valid efx / notes."@),
        opt == Some(text) ==> (waveform_field_error(opt) is None <==> (text == "sawtooth"@ || text
            == "square"@)),
        opt == Some(text) ==> (note_field_error(opt) is None <==> is_note_name(text)),
        opt == Some(text) ==> (stem_field_error(opt) is None <==> (text == "up"@ || text
            == "down"@)),
        time_field_error(text) is None <==> (text == "note"@ || text == "tied"@ || text
            == "rest"@),
        number_field_error(i) is None <==> 1 <= i <= 16,
        number_field_error(i) is Some ==> number_field_error(i) == Some(
            decimal(i as int) + " is not a valid step number value. "@,
        ),
        knob is None ==> knob_field_error(knob) is None,
        knob == Some(i) ==> (knob_field_error(knob) is None <==> 0 <= i <= 360),
        knob == Some(i) && knob_field_error(knob) is Some ==> knob_field_error(knob) == Some(
            decimal(i as int) + " is not a valid knob value. "@,
        ),
{
}

/// A submitted step is accepted exactly when its number lies from 1 to 16,
/// its note (if any) names a note, its stem (if any) is `up` or `down` and its
/// time is `note`, `tied` or `rest`; a bad number is reported first.
pub proof fn step_error_law(st: StepTB303View)
    ensures
        step_error(st) is None <==> (1 <= st.number <= 16 && (st.note is None || is_note_name(
            st.note.unwrap(),
        )) && (st.stem is None || st.stem == Some("up"@) || st.stem == Some("down"@)) && (st.time
            == "note"@ || st.time == "tied"@ || st.time == "rest"@)),
        !(1 <= st.number <= 16) ==> step_error(st) == Some(
            decimal(st.number as int) + " is not a valid step number value. "@,
        ),
{
}

/// A valid submitted step becomes the step with the same number, note and
/// flags, with stem `up` read as `UP`, `down` as `DOWN`, and time `note`,
/// `tied`, `rest` read as `NOTE`, `TIED`, `REST`.
pub proof fn step_of_request_law(st: StepTB303View)
    ensures
        step_of_request(st).number == st.number,
        step_of_request(st).note == st.note,
        step_of_request(st).accent == st.accent,
        step_of_request(st).slide == st.slide,
        st.stem == Some("up"@) ==> step_of_request(st).stem == Some(Stem::UP),
        st.stem == Some("down"@) ==> step_of_request(st).stem == Some(Stem::DOWN),
        st.stem is None ==> step_of_request(st).stem is None,
        st.time == "note"@ ==> step_of_request(st).time == Time::NOTE,
        st.time == "tied"@ ==> step_of_request(st).time == Time::TIED,
        st.time == "rest"@ ==> step_of_request(st).time == Time::REST,
{
    reveal_strlit("up");
    reveal_strlit("down");
    reveal_strlit("note");
    reveal_strlit("tied");
    reveal_strlit("rest");
    assert("up"@.len() != "down"@.len());
    assert("note"@[0] != "tied"@[0] && "note"@[0] != "rest"@[0] && "tied"@[0] != "rest"@[0]);
}

/// A valid submission becomes the pattern that keeps every field as
/// submitted and reads each step as `step_of_request_law` says.
pub proof fn pattern_of_request_law(req: PatternTB303RequestView)
    ensures
        pattern_of_request(req).author == req.author,
        pattern_of_request(req).title == req.title,
        pattern_of_request(req).efx_notes == req.efx_notes,
        pattern_of_request(req).waveform == req.waveform,
        pattern_of_request(req).cut_off_freq == req.cut_off_freq,
        pattern_of_request(req).resonance == req.resonance,
        pattern_of_request(req).env_mod == req.env_mod,
        pattern_of_request(req).decay == req.decay,
        pattern_of_request(req).accent == req.accent,
        pattern_of_request(req).steps.len() == req.steps.len(),
        forall|i: int|
            0 <= i < req.steps.len() ==> #[trigger] pattern_of_request(req).steps[i]
                == step_of_request(req.steps[i]),
{
}

proof fn lemma_steps_error_all_none(steps: Seq<StepTB303View>)
    requires
        forall|i: int| 0 <= i < steps.len() ==> step_error(#[trigger] steps[i]) is None,
    ensures
        steps_error(steps) is None,
    decreases steps.len(),
{
    if steps.len() > 0 {
        assert forall|i: int| 0 <= i < steps.drop_last().len() implies step_error(
            #[trigger] steps.drop_last()[i],
        ) is None by {
            assert(steps.drop_last()[i] == steps[i]);
        }
        lemma_steps_error_all_none(steps.drop_last());
        assert(step_error(steps.last()) is None);
    }
}

/// A submitted TB-303 pattern is accepted exactly when: the author (if any)
/// is not blank and has at most 50 grapheme clusters, the title is not blank
/// and has at most 100, the efx / notes (if any) are not blank and have at
/// most 500, each knob given lies from 0 to 360, the waveform (if any) is
/// `sawtooth` or `square`, every step is valid, and there are at most 16 steps.
pub proof fn request_error_law(req: PatternTB303RequestView)
    ensures
        request_error(req) is None <==> ((req.author is None || (!is_blank(req.author.unwrap())
            && grapheme_count(req.author.unwrap()) <= 50)) && !is_blank(req.title)
            && grapheme_count(req.title) <= 100 && (req.efx_notes is None || (!is_blank(
            req.efx_notes.unwrap(),
        ) && grapheme_count(req.efx_notes.unwrap()) <= 500)) && (req.cut_off_freq is None || 0
            <= req.cut_off_freq.unwrap() <= 360) && (req.resonance is None || 0
            <= req.resonance.unwrap() <= 360) && (req.env_mod is None || 0
            <= req.env_mod.unwrap() <= 360) && (req.decay is None || 0 <= req.decay.unwrap()
            <= 360) && (req.accent is None || 0 <= req.accent.unwrap() <= 360) && (
        req.waveform is None || req.waveform == Some("sawtooth"@) || req.waveform == Some(
            "square"@,
        )) && (forall|i: int|
            0 <= i < req.steps.len() ==> {
                let st = #[trigger] req.steps[i];
                &&& 1 <= st.number <= 16
                &&& st.note is None || is_note_name(st.note.unwrap())
                &&& st.stem is None || st.stem == Some("up"@) || st.stem == Some("down"@)
                &&& st.time == "note"@ || st.time == "tied"@ || st.time == "rest"@
            }) && req.steps.len() <= 16),
{
    assert forall|i: int| 0 <= i < req.steps.len() implies (step_error(#[trigger] req.steps[i])
        is None <==> {
        let st = req.steps[i];
        &&& 1 <= st.number <= 16
        &&& st.note is None || is_note_name(st.note.unwrap())
        &&& st.stem is None || st.stem == Some("up"@) || st.stem == Some("down"@)
        &&& st.time == "note"@ || st.time == "tied"@ || st.time == "rest"@
    }) by {
        step_error_law(req.steps[i]);
    }
    if steps_error(req.steps) is None {
        lemma_steps_error_none(req.steps);
    }
    if forall|i: int| 0 <= i < req.steps.len() ==> step_error(#[trigger] req.steps[i]) is None {
        lemma_steps_error_all_none(req.steps);
    }
}

/// The author is checked first: an invalid author decides the message.
pub proof fn author_checked_first(req: PatternTB303RequestView)
    ensures
        (req.author matches Some(a) && (is_blank(a) || grapheme_count(a) > 50)) ==> request_error(
            req,
        ) == Some(req.author.unwrap() + " is not a valid author."@),
{
}

/// The title is checked right after the author.
pub proof fn title_checked_second(req: PatternTB303RequestView)
    ensures
        (req.author is None || (!is_blank(req.author.unwrap()) && grapheme_count(
            req.author.unwrap(),
        ) <= 50)) && (is_blank(req.title) || grapheme_count(req.title) > 100) ==> request_error(
            req,
        ) == Some(req.title + " is not a valid pattern title."@),
{
}

/// The number of steps is checked last: a submission that is valid in every
/// field and step but has more than 16 steps is refused with its own message.
pub proof fn step_count_checked_last(req: PatternTB303RequestView)
    requires
        req.steps.len() > 16,
        forall|i: int| 0 <= i < req.steps.len() ==> step_error(#[trigger] req.steps[i]) is None,
        req.author is None || (!is_blank(req.author.unwrap()) && grapheme_count(req.author.unwrap())
            <= 50),
        !is_blank(req.title) && grapheme_count(req.title) <= 100,
        req.efx_notes is None || (!is_blank(req.efx_notes.unwrap()) && grapheme_count(
            req.efx_notes.unwrap(),
        ) <= 500),
        req.cut_off_freq is None || 0 <= req.cut_off_freq.unwrap() <= 360,
        req.resonance is None || 0 <= req.resonance.unwrap() <= 360,
        req.env_mod is None || 0 <= req.env_mod.unwrap() <= 360,
        req.decay is None || 0 <= req.decay.unwrap() <= 360,
        req.accent is None || 0 <= req.accent.unwrap() <= 360,
        req.waveform is None || req.waveform == Some("sawtooth"@) || req.waveform == Some(
            "square"@,
        ),
    ensures
        request_error(req) == Some("A pattern can only have up to 16 steps."@),
{
    lemma_steps_error_all_none(req.steps);
}

/// Steps are checked in order, after the other fields and before the step
/// count: when every other field is valid and step `i` is the first invalid
/// step, its error is the answer.
pub proof fn first_bad_step_decides(req: PatternTB303RequestView, i: int)
    requires
        0 <= i < req.steps.len(),
        step_error(req.steps[i]) is Some,
        forall|j: int| 0 <= j < i ==> step_error(#[trigger] req.steps[j]) is None,
        req.author is None || (!is_blank(req.author.unwrap()) && grapheme_count(req.author.unwrap())
            <= 50),
        !is_blank(req.title) && grapheme_count(req.title) <= 100,
        req.efx_notes is None || (!is_blank(req.efx_notes.unwrap()) && grapheme_count(
            req.efx_notes.unwrap(),
        ) <= 500),
        req.cut_off_freq is None || 0 <= req.cut_off_freq.unwrap() <= 360,
        req.resonance is None || 0 <= req.resonance.unwrap() <= 360,
        req.env_mod is None || 0 <= req.env_mod.unwrap() <= 360,
        req.decay is None || 0 <= req.decay.unwrap() <= 360,
        req.accent is None || 0 <= req.accent.unwrap() <= 360,
        req.waveform is None || req.waveform == Some("sawtooth"@) || req.waveform == Some(
            "square"@,
        ),
    ensures
        request_error(req) == step_error(req.steps[i]),
{
    let prefix = req.steps.take(i);
    assert forall|j: int| 0 <= j < prefix.len() implies step_error(#[trigger] prefix[j]) is None by {
        assert(prefix[j] == req.steps[j]);
    }
    lemma_steps_error_all_none(prefix);
    assert(req.steps.take(i + 1).drop_last() =~= prefix);
    assert(req.steps.take(i + 1).last() == req.steps[i]);
    lemma_steps_error_prefix(req.steps, i + 1);
}

} // verus!
