use crate::domain::patterns::author::{author_accepts, author_error_message};
use crate::domain::patterns::efx_notes::{efx_notes_accepts, efx_notes_error_message};
use crate::domain::patterns::knob::{is_knob_value, knob_error_message};
use crate::domain::patterns::new_tb303_pattern::NewTB303PatternView;
use crate::domain::patterns::stem::stem_name;
use crate::domain::patterns::time::time_name;
use crate::domain::patterns::new_tb303_step::{opt_view, NewTB303StepView};
use crate::domain::patterns::note::{is_note_name, note_error_message};
use crate::domain::patterns::number::{is_step_number, number_error_message};
use crate::domain::patterns::stem::{stem_error_message, stem_from_text};
use crate::domain::patterns::time::{time_error_message, time_from_text};
use crate::domain::patterns::title::{title_accepts, title_error_message};
use crate::domain::patterns::waveform::{is_waveform_name, waveform_error_message};
use crate::domain::{
    Author, EFXNotes, Knob, NewTB303Pattern, NewTB303Step, Note, Number, Stem, Time, Title,
    Waveform,
};
use vstd::prelude::*;

verus! {

/// The largest number of steps a TB-303 pattern may have.
pub const MAX_STEPS: usize = 16;

/// A TB-303 pattern as submitted.
#[derive(Debug)]
pub struct PatternTB303Request {
    pub author: Option<String>,
    pub title: String,
    pub efx_notes: Option<String>,
    pub waveform: Option<String>,
    pub cut_off_freq: Option<i32>,
    pub resonance: Option<i32>,
    pub env_mod: Option<i32>,
    pub decay: Option<i32>,
    pub accent: Option<i32>,
    pub steps: Vec<StepTB303>,
}

/// A step of a TB-303 pattern as submitted.
#[derive(Debug)]
pub struct StepTB303 {
    pub number: i32,
    pub note: Option<String>,
    pub stem: Option<String>,
    pub time: String,
    pub accent: Option<bool>,
    pub slide: Option<bool>,
}

/// A submitted TB-303 pattern as plain values.
pub struct PatternTB303RequestView {
    pub author: Option<Seq<char>>,
    pub title: Seq<char>,
    pub efx_notes: Option<Seq<char>>,
    pub waveform: Option<Seq<char>>,
    pub cut_off_freq: Option<i32>,
    pub resonance: Option<i32>,
    pub env_mod: Option<i32>,
    pub decay: Option<i32>,
    pub accent: Option<i32>,
    pub steps: Seq<StepTB303View>,
}

/// A submitted step as plain values.
pub struct StepTB303View {
    pub number: i32,
    pub note: Option<Seq<char>>,
    pub stem: Option<Seq<char>>,
    pub time: Seq<char>,
    pub accent: Option<bool>,
    pub slide: Option<bool>,
}

impl View for StepTB303 {
    type V = StepTB303View;

    open spec fn view(&self) -> StepTB303View {
        StepTB303View {
            number: self.number,
            note: opt_view(self.note),
            stem: opt_view(self.stem),
            time: self.time@,
            accent: self.accent,
            slide: self.slide,
        }
    }
}

impl View for PatternTB303Request {
    type V = PatternTB303RequestView;

    open spec fn view(&self) -> PatternTB303RequestView {
        PatternTB303RequestView {
            author: opt_view(self.author),
            title: self.title@,
            efx_notes: opt_view(self.efx_notes),
            waveform: opt_view(self.waveform),
            cut_off_freq: self.cut_off_freq,
            resonance: self.resonance,
            env_mod: self.env_mod,
            decay: self.decay,
            accent: self.accent,
            steps: self.steps@.map_values(|s: StepTB303| s@),
        }
    }
}

/// The first of two outcomes that is an error, if any.
pub open spec fn first_error(a: Option<Seq<char>>, b: Option<Seq<char>>) -> Option<Seq<char>> {
    if a is Some {
        a
    } else {
        b
    }
}

/// The error an optional author field raises: none when it is absent.
pub open spec fn author_field_error(o: Option<Seq<char>>) -> Option<Seq<char>> {
    match o {
        Some(s) => if author_accepts(s) {
            None
        } else {
            Some(author_error_message(s))
        },
        None => None,
    }
}

/// The error the title raises.
pub open spec fn title_field_error(s: Seq<char>) -> Option<Seq<char>> {
    if title_accepts(s) {
        None
    } else {
        Some(title_error_message(s))
    }
}

/// The error an optional efx / notes field raises.
pub open spec fn efx_notes_field_error(o: Option<Seq<char>>) -> Option<Seq<char>> {
    match o {
        Some(s) => if efx_notes_accepts(s) {
            None
        } else {
            Some(efx_notes_error_message(s))
        },
        None => None,
    }
}

/// The error an optional waveform field raises.
pub open spec fn waveform_field_error(o: Option<Seq<char>>) -> Option<Seq<char>> {
    match o {
        Some(s) => if is_waveform_name(s) {
            None
        } else {
            Some(waveform_error_message(s))
        },
        None => None,
    }
}

/// The error an optional knob field raises.
pub open spec fn knob_field_error(o: Option<i32>) -> Option<Seq<char>> {
    match o {
        Some(i) => if is_knob_value(i) {
            None
        } else {
            Some(knob_error_message(i))
        },
        None => None,
    }
}

/// The error a step number raises.
pub open spec fn number_field_error(i: i32) -> Option<Seq<char>> {
    if is_step_number(i) {
        None
    } else {
        Some(number_error_message(i))
    }
}

/// The error an optional note field raises.
pub open spec fn note_field_error(o: Option<Seq<char>>) -> Option<Seq<char>> {
    match o {
        Some(s) => if is_note_name(s) {
            None
        } else {
            Some(note_error_message(s))
        },
        None => None,
    }
}

/// The error an optional stem field raises.
pub open spec fn stem_field_error(o: Option<Seq<char>>) -> Option<Seq<char>> {
    match o {
        Some(s) => if stem_from_text(s) is Some {
            None
        } else {
            Some(stem_error_message(s))
        },
        None => None,
    }
}

/// The error a step's time raises.
pub open spec fn time_field_error(s: Seq<char>) -> Option<Seq<char>> {
    if time_from_text(s) is Some {
        None
    } else {
        Some(time_error_message(s))
    }
}

/// The error a step raises: its fields are checked in the order number, note,
/// stem, time, and the first error counts.
pub open spec fn step_error(st: StepTB303View) -> Option<Seq<char>> {
    first_error(
        number_field_error(st.number),
        first_error(
            note_field_error(st.note),
            first_error(stem_field_error(st.stem), time_field_error(st.time)),
        ),
    )
}

/// The error of the first step that raises one.
pub open spec fn steps_error(steps: Seq<StepTB303View>) -> Option<Seq<char>>
    decreases steps.len(),
{
    if steps.len() == 0 {
        None
    } else {
        first_error(steps_error(steps.drop_last()), step_error(steps.last()))
    }
}

/// The message for a pattern with too many steps.
pub open spec fn too_many_steps_message() -> Seq<char> {
    "A pattern can only have up to 16 steps."@
}

/// The error the fields of a submitted TB-303 pattern other than its steps
/// raise, checked in the order author, title, efx / notes, cut-off frequency,
/// resonance, envelope modulation, decay, accent, waveform; the first counts.
pub open spec fn fields_error(req: PatternTB303RequestView) -> Option<Seq<char>> {
    first_error(
        author_field_error(req.author),
        first_error(
            title_field_error(req.title),
            first_error(
                efx_notes_field_error(req.efx_notes),
                first_error(
                    knob_field_error(req.cut_off_freq),
                    first_error(
                        knob_field_error(req.resonance),
                        first_error(
                            knob_field_error(req.env_mod),
                            first_error(
                                knob_field_error(req.decay),
                                first_error(
                                    knob_field_error(req.accent),
                                    waveform_field_error(req.waveform),
                                ),
                            ),
                        ),
                    ),
                ),
            ),
        ),
    )
}

/// The error a submitted TB-303 pattern raises, if any: first the fields
/// (see `fields_error`), then each step in turn, at last the number of steps.
pub open spec fn request_error(req: PatternTB303RequestView) -> Option<Seq<char>> {
    first_error(
        fields_error(req),
        first_error(
            steps_error(req.steps),
            if req.steps.len() > MAX_STEPS {
                Some(too_many_steps_message())
            } else {
                None
            },
        ),
    )
}

/// The checked step a valid submitted step becomes.
pub open spec fn step_of_request(st: StepTB303View) -> NewTB303StepView {
    NewTB303StepView {
        number: st.number,
        note: st.note,
        stem: match st.stem {
            Some(s) => stem_from_text(s),
            None => None,
        },
        time: time_from_text(st.time).unwrap(),
        accent: st.accent,
        slide: st.slide,
    }
}

/// The checked pattern a valid submitted pattern becomes: every field is kept
/// as submitted, stems and times are read from their names.
pub open spec fn pattern_of_request(req: PatternTB303RequestView) -> NewTB303PatternView {
    NewTB303PatternView {
        author: req.author,
        title: req.title,
        efx_notes: req.efx_notes,
        waveform: req.waveform,
        cut_off_freq: req.cut_off_freq,
        resonance: req.resonance,
        env_mod: req.env_mod,
        decay: req.decay,
        accent: req.accent,
        steps: req.steps.map_values(|st: StepTB303View| step_of_request(st)),
    }
}

pub(crate) proof fn lemma_steps_error_prefix(steps: Seq<StepTB303View>, k: int)
    requires
        0 <= k <= steps.len(),
        steps_error(steps.take(k)) is Some,
    ensures
        steps_error(steps) == steps_error(steps.take(k)),
    decreases steps.len() - k,
{
    if k == steps.len() {
        assert(steps.take(k) =~= steps);
    } else {
        assert(steps.take(k + 1).drop_last() =~= steps.take(k));
        lemma_steps_error_prefix(steps, k + 1);
    }
}

pub(crate) proof fn lemma_steps_error_none(steps: Seq<StepTB303View>)
    requires
        steps_error(steps) is None,
    ensures
        forall|i: int| 0 <= i < steps.len() ==> step_error(#[trigger] steps[i]) is None,
    decreases steps.len(),
{
    if steps.len() > 0 {
        lemma_steps_error_none(steps.drop_last());
        assert forall|i: int| 0 <= i < steps.len() implies step_error(#[trigger] steps[i]) is None by {
            if i < steps.len() - 1 {
                assert(steps[i] == steps.drop_last()[i]);
            }
        }
    }
}

fn parse_optional_author(o: Option<String>) -> (r: Result<Option<Author>, String>)
    ensures
        r is Err <==> author_field_error(opt_view(o)) is Some,
        r matches Err(m) ==> author_field_error(opt_view(o)) == Some(m@),
        r matches Ok(v) ==> opt_view(v) == opt_view(o),
{
    match o {
        None => Ok(None),
        Some(s) => match Author::parse(s) {
            Ok(v) => Ok(Some(v)),
            Err(e) => Err(e),
        },
    }
}

fn parse_optional_efx_notes(o: Option<String>) -> (r: Result<Option<EFXNotes>, String>)
    ensures
        r is Err <==> efx_notes_field_error(opt_view(o)) is Some,
        r matches Err(m) ==> efx_notes_field_error(opt_view(o)) == Some(m@),
        r matches Ok(v) ==> opt_view(v) == opt_view(o),
{
    match o {
        None => Ok(None),
        Some(s) => match EFXNotes::parse(s) {
            Ok(v) => Ok(Some(v)),
            Err(e) => Err(e),
        },
    }
}

fn parse_optional_waveform(o: Option<String>) -> (r: Result<Option<Waveform>, String>)
    ensures
        r is Err <==> waveform_field_error(opt_view(o)) is Some,
        r matches Err(m) ==> waveform_field_error(opt_view(o)) == Some(m@),
        r matches Ok(v) ==> opt_view(v) == opt_view(o),
{
    match o {
        None => Ok(None),
        Some(s) => match Waveform::parse(s) {
            Ok(v) => Ok(Some(v)),
            Err(e) => Err(e),
        },
    }
}

fn parse_optional_knob(o: Option<i32>) -> (r: Result<Option<Knob>, String>)
    ensures
        r is Err <==> knob_field_error(o) is Some,
        r matches Err(m) ==> knob_field_error(o) == Some(m@),
        r matches Ok(v) ==> opt_view(v) == o,
{
    match o {
        None => Ok(None),
        Some(i) => match Knob::parse(i) {
            Ok(v) => Ok(Some(v)),
            Err(e) => Err(e),
        },
    }
}

fn parse_optional_note(o: Option<String>) -> (r: Result<Option<Note>, String>)
    ensures
        r is Err <==> note_field_error(opt_view(o)) is Some,
        r matches Err(m) ==> note_field_error(opt_view(o)) == Some(m@),
        r matches Ok(v) ==> opt_view(v) == opt_view(o),
{
    match o {
        None => Ok(None),
        Some(s) => match Note::parse(s) {
            Ok(v) => Ok(Some(v)),
            Err(e) => Err(e),
        },
    }
}

fn parse_optional_stem(o: Option<String>) -> (r: Result<Option<Stem>, String>)
    ensures
        r is Err <==> stem_field_error(opt_view(o)) is Some,
        r matches Err(m) ==> stem_field_error(opt_view(o)) == Some(m@),
        r matches Ok(v) ==> v == match opt_view(o) {
            Some(s) => stem_from_text(s),
            None => None,
        },
{
    match o {
        None => Ok(None),
        Some(s) => match Stem::parse(s) {
            Ok(v) => Ok(Some(v)),
            Err(e) => Err(e),
        },
    }
}

/// Checks one submitted step: number, note, stem and time, in this order.
pub fn parse_step(step: StepTB303) -> (r: Result<NewTB303Step, String>)
    ensures
        r is Err <==> step_error(step@) is Some,
        r matches Err(m) ==> step_error(step@) == Some(m@),
        r matches Ok(s) ==> s@ == step_of_request(step@),
        r is Ok <==> (1 <= step.number <= 16 && (step.note matches Some(n) ==> is_note_name(n@)) && (
        step.stem matches Some(t) ==> (t@ == "up"@ || t@ == "down"@)) && (step.time@ == "note"@
            || step.time@ == "tied"@ || step.time@ == "rest"@)),
        r matches Ok(s) ==> s.number@ == step.number && s.accent == step.accent && s.slide
            == step.slide,
        r matches Ok(s) ==> (s.stem == Some(Stem::UP) <==> (step.stem matches Some(t) && t@
            == "up"@)),
        r matches Ok(s) ==> (s.stem == Some(Stem::DOWN) <==> (step.stem matches Some(t) && t@
            == "down"@)),
        r matches Ok(s) ==> (s.stem is None <==> step.stem is None),
        r matches Ok(s) ==> (s.time == Time::NOTE <==> step.time@ == "note"@),
        r matches Ok(s) ==> (s.time == Time::TIED <==> step.time@ == "tied"@),
        r matches Ok(s) ==> (s.time == Time::REST <==> step.time@ == "rest"@),
{
    proof {
        reveal_strlit("up");
        reveal_strlit("down");
        assert("up"@.len() != "down"@.len());
    }
    let number = match Number::parse(step.number) {
        Ok(v) => v,
        Err(e) => return Err(e),
    };
    let note = match parse_optional_note(step.note) {
        Ok(v) => v,
        Err(e) => return Err(e),
    };
    let stem = match parse_optional_stem(step.stem) {
        Ok(v) => v,
        Err(e) => return Err(e),
    };
    let time = match Time::parse(step.time) {
        Ok(v) => v,
        Err(e) => return Err(e),
    };
    Ok(NewTB303Step { number, note, stem, time, accent: step.accent, slide: step.slide })
}

impl PatternTB303Request {
    /// Checks a submitted TB-303 pattern. It fails exactly when a field is
    /// invalid or there are more than 16 steps, with the message of the first
    /// failure (see `request_error`); otherwise the pattern keeps every value
    /// as submitted.
    pub fn try_into(self) -> (r: Result<NewTB303Pattern, String>)
        ensures
            r is Err <==> request_error(self@) is Some,
            r matches Err(m) ==> request_error(self@) == Some(m@),
            r matches Ok(p) ==> p@ == pattern_of_request(self@),
            r matches Ok(p) ==> p.steps@.len() <= MAX_STEPS,
    {
        let ghost req = self@;
        let author = match parse_optional_author(self.author) {
            Ok(v) => v,
            Err(e) => return Err(e),
        };
        let title = match Title::parse(self.title) {
            Ok(v) => v,
            Err(e) => return Err(e),
        };
        let efx_notes = match parse_optional_efx_notes(self.efx_notes) {
            Ok(v) => v,
            Err(e) => return Err(e),
        };
        let cut_off_freq = match parse_optional_knob(self.cut_off_freq) {
            Ok(v) => v,
            Err(e) => return Err(e),
        };
        let resonance = match parse_optional_knob(self.resonance) {
            Ok(v) => v,
            Err(e) => return Err(e),
        };
        let env_mod = match parse_optional_knob(self.env_mod) {
            Ok(v) => v,
            Err(e) => return Err(e),
        };
        let decay = match parse_optional_knob(self.decay) {
            Ok(v) => v,
            Err(e) => return Err(e),
        };
        let accent = match parse_optional_knob(self.accent) {
            Ok(v) => v,
            Err(e) => return Err(e),
        };
        let waveform = match parse_optional_waveform(self.waveform) {
            Ok(v) => v,
            Err(e) => return Err(e),
        };

        let ghost submitted = self.steps@;
        let mut steps: Vec<NewTB303Step> = Vec::new();
        for step in it: self.steps.into_iter()
            invariant
                it.seq() == submitted,
                req.steps == submitted.map_values(|s: StepTB303| s@),
                steps@.len() == it.index(),
                forall|j: int|
                    0 <= j < it.index() ==> (#[trigger] steps@[j])@ == step_of_request(
                        req.steps[j],
                    ),
                steps_error(req.steps.take(it.index() as int)) is None,
                fields_error(req) is None,
                req == self@,
        {
            let ghost i = it.index();
            assert(req.steps.take(i + 1).drop_last() =~= req.steps.take(i));
            match parse_step(step) {
                Ok(s) => steps.push(s),
                Err(e) => {
                    proof {
                        lemma_steps_error_prefix(req.steps, i + 1);
                    }
                    return Err(e);
                },
            }
        }
        assert(req.steps.take(req.steps.len() as int) =~= req.steps);

        if steps.len() > MAX_STEPS {
            return Err("A pattern can only have up to 16 steps.".to_owned());
        }
        let p = NewTB303Pattern {
            author,
            title,
            efx_notes,
            waveform,
            cut_off_freq,
            resonance,
            env_mod,
            decay,
            accent,
            steps,
        };
        assert(p@.steps =~= req.steps.map_values(|st: StepTB303View| step_of_request(st)));
        Ok(p)
    }
}

/// The values stored for a TB-303 pattern.
pub struct TB303PatternRow {
    pub author: Option<String>,
    pub title: String,
    pub efx_notes: Option<String>,
    pub waveform: Option<String>,
    pub cutoff_frequency: i32,
    pub resonance: i32,
    pub env_mod: i32,
    pub decay: i32,
    pub accent: i32,
}

/// The values stored for a TB-303 pattern, as plain values.
pub struct TB303PatternRowView {
    pub author: Option<Seq<char>>,
    pub title: Seq<char>,
    pub efx_notes: Option<Seq<char>>,
    pub waveform: Option<Seq<char>>,
    pub cutoff_frequency: i32,
    pub resonance: i32,
    pub env_mod: i32,
    pub decay: i32,
    pub accent: i32,
}

impl View for TB303PatternRow {
    type V = TB303PatternRowView;

    open spec fn view(&self) -> TB303PatternRowView {
        TB303PatternRowView {
            author: opt_view(self.author),
            title: self.title@,
            efx_notes: opt_view(self.efx_notes),
            waveform: opt_view(self.waveform),
            cutoff_frequency: self.cutoff_frequency,
            resonance: self.resonance,
            env_mod: self.env_mod,
            decay: self.decay,
            accent: self.accent,
        }
    }
}

/// The values stored for a step of a TB-303 pattern.
pub struct TB303StepRow {
    pub number: i32,
    pub note: Option<String>,
    pub stem: Option<String>,
    pub time: String,
    pub accent: bool,
    pub slide: bool,
}

/// The values stored for a step, as plain values.
pub struct TB303StepRowView {
    pub number: i32,
    pub note: Option<Seq<char>>,
    pub stem: Option<Seq<char>>,
    pub time: Seq<char>,
    pub accent: bool,
    pub slide: bool,
}

impl View for TB303StepRow {
    type V = TB303StepRowView;

    open spec fn view(&self) -> TB303StepRowView {
        TB303StepRowView {
            number: self.number,
            note: opt_view(self.note),
            stem: opt_view(self.stem),
            time: self.time@,
            accent: self.accent,
            slide: self.slide,
        }
    }
}

/// A knob setting as stored: its position, or 0 when the knob was not given.
pub open spec fn knob_or_zero(o: Option<i32>) -> i32 {
    match o {
        Some(v) => v,
        None => 0,
    }
}

/// A flag as stored: its value, or `false` when it was not given.
pub open spec fn flag_or_false(o: Option<bool>) -> bool {
    match o {
        Some(v) => v,
        None => false,
    }
}

/// The row stored for a checked pattern.
pub open spec fn pattern_row_of(p: NewTB303PatternView) -> TB303PatternRowView {
    TB303PatternRowView {
        author: p.author,
        title: p.title,
        efx_notes: p.efx_notes,
        waveform: p.waveform,
        cutoff_frequency: knob_or_zero(p.cut_off_freq),
        resonance: knob_or_zero(p.resonance),
        env_mod: knob_or_zero(p.env_mod),
        decay: knob_or_zero(p.decay),
        accent: knob_or_zero(p.accent),
    }
}

/// The row stored for a checked step: stem and time by their names.
pub open spec fn step_row_of(s: NewTB303StepView) -> TB303StepRowView {
    TB303StepRowView {
        number: s.number,
        note: s.note,
        stem: match s.stem {
            Some(v) => Some(stem_name(v)),
            None => None,
        },
        time: time_name(s.time),
        accent: flag_or_false(s.accent),
        slide: flag_or_false(s.slide),
    }
}

fn copy_text(o: &Option<&str>) -> (r: Option<String>)
    ensures
        opt_view(r) == match *o {
            Some(s) => Some(s@),
            None => None::<Seq<char>>,
        },
{
    match o {
        Some(s) => Some((*s).to_owned()),
        None => None,
    }
}

fn knob_value(o: &Option<Knob>) -> (r: i32)
    ensures
        r == knob_or_zero(opt_view(*o)),
{
    match o {
        Some(k) => *k.as_ref(),
        None => 0,
    }
}

/// The values to store for a checked pattern: its texts, and its knob
/// settings with 0 for each knob not given.
pub fn pattern_row(p: &NewTB303Pattern) -> (r: TB303PatternRow)
    ensures
        r@ == pattern_row_of(p@),
        opt_view(r.author) == opt_view(p.author),
        r.title@ == p.title@,
        opt_view(r.efx_notes) == opt_view(p.efx_notes),
        opt_view(r.waveform) == opt_view(p.waveform),
        p.cut_off_freq matches Some(k) ==> r.cutoff_frequency == k@,
        p.cut_off_freq is None ==> r.cutoff_frequency == 0,
        p.resonance matches Some(k) ==> r.resonance == k@,
        p.resonance is None ==> r.resonance == 0,
        p.env_mod matches Some(k) ==> r.env_mod == k@,
        p.env_mod is None ==> r.env_mod == 0,
        p.decay matches Some(k) ==> r.decay == k@,
        p.decay is None ==> r.decay == 0,
        p.accent matches Some(k) ==> r.accent == k@,
        p.accent is None ==> r.accent == 0,
{
    let author = copy_text(
        &match &p.author {
            Some(a) => Some(a.as_ref()),
            None => None,
        },
    );
    let efx_notes = copy_text(
        &match &p.efx_notes {
            Some(e) => Some(e.as_ref()),
            None => None,
        },
    );
    let waveform = copy_text(
        &match &p.waveform {
            Some(w) => Some(w.as_ref()),
            None => None,
        },
    );
    TB303PatternRow {
        author,
        title: p.title.as_ref().to_owned(),
        efx_notes,
        waveform,
        cutoff_frequency: knob_value(&p.cut_off_freq),
        resonance: knob_value(&p.resonance),
        env_mod: knob_value(&p.env_mod),
        decay: knob_value(&p.decay),
        accent: knob_value(&p.accent),
    }
}

/// The values to store for a checked step: stem and time by their names,
/// accent and slide `false` when not given.
pub fn step_row(s: &NewTB303Step) -> (r: TB303StepRow)
    ensures
        r@ == step_row_of(s@),
        r.number == s.number@,
        opt_view(r.note) == opt_view(s.note),
        s.stem == Some(Stem::UP) ==> opt_view(r.stem) == Some("UP"@),
        s.stem == Some(Stem::DOWN) ==> opt_view(r.stem) == Some("DOWN"@),
        s.stem is None ==> r.stem is None,
        s.time == Time::NOTE ==> r.time@ == "NOTE"@,
        s.time == Time::TIED ==> r.time@ == "TIED"@,
        s.time == Time::REST ==> r.time@ == "REST"@,
        s.accent matches Some(b) ==> r.accent == b,
        s.accent is None ==> !r.accent,
        s.slide matches Some(b) ==> r.slide == b,
        s.slide is None ==> !r.slide,
{
    let note = copy_text(
        &match &s.note {
            Some(n) => Some(n.as_ref()),
            None => None,
        },
    );
    let stem = match &s.stem {
        Some(v) => Some(v.to_string()),
        None => None,
    };
    let accent = match s.accent {
        Some(v) => v,
        None => false,
    };
    let slide = match s.slide {
        Some(v) => v,
        None => false,
    };
    TB303StepRow { number: *s.number.as_ref(), note, stem, time: s.time.to_string(), accent, slide }
}

/// The values to store for each step of a pattern, in order.
pub fn step_rows(steps: &Vec<NewTB303Step>) -> (r: Vec<TB303StepRow>)
    ensures
        r@.len() == steps@.len(),
        forall|i: int| 0 <= i < steps@.len() ==> (#[trigger] r@[i])@ == step_row_of(steps@[i]@),
{
    let mut rows: Vec<TB303StepRow> = Vec::new();
    let n = steps.len();
    let mut i: usize = 0;
    while i < n
        invariant
            n == steps@.len(),
            0 <= i <= n,
            rows@.len() == i,
            forall|j: int| 0 <= j < i ==> (#[trigger] rows@[j])@ == step_row_of(steps@[j]@),
        decreases n - i,
    {
        rows.push(step_row(&steps[i]));
        i = i + 1;
    }
    rows
}

/// What a valid submission is stored as: the pattern row keeps every text as
/// submitted and each knob as submitted or 0, and each step row keeps the
/// step's number and note, names its stem and time in capitals, and stores
/// absent accent and slide flags as `false`.
pub proof fn stored_rows_follow_submission(req: PatternTB303RequestView)
    requires
        request_error(req) is None,
    ensures
        pattern_row_of(pattern_of_request(req)) == (TB303PatternRowView {
            author: req.author,
            title: req.title,
            efx_notes: req.efx_notes,
            waveform: req.waveform,
            cutoff_frequency: knob_or_zero(req.cut_off_freq),
            resonance: knob_or_zero(req.resonance),
            env_mod: knob_or_zero(req.env_mod),
            decay: knob_or_zero(req.decay),
            accent: knob_or_zero(req.accent),
        }),
        pattern_of_request(req).steps.len() == req.steps.len(),
        forall|i: int|
            0 <= i < req.steps.len() ==> step_row_of(#[trigger] pattern_of_request(req).steps[i])
                == (TB303StepRowView {
                number: req.steps[i].number,
                note: req.steps[i].note,
                stem: match req.steps[i].stem {
                    Some(s) => Some(stem_name(stem_from_text(s).unwrap())),
                    None => None,
                },
                time: time_name(time_from_text(req.steps[i].time).unwrap()),
                accent: flag_or_false(req.steps[i].accent),
                slide: flag_or_false(req.steps[i].slide),
            }),
{
    lemma_steps_error_none(req.steps);
}

/// The answer to a stored TB-303 pattern.
#[derive(Debug)]
pub struct PatternTB303Response {
    pub status: String,
    pub data: PatternTB303ResponseData,
}

/// The identifier of a stored TB-303 pattern.
#[derive(Debug)]
pub struct PatternTB303ResponseData {
    pub id: String,
}

impl PatternTB303Response {
    /// The answer when the pattern was stored under `id`: status `success`.
    pub fn success(id: String) -> (r: PatternTB303Response)
        ensures
            r.status@ == "success"@,
            r.data.id@ == id@,
    {
        PatternTB303Response { status: "success".to_owned(), data: PatternTB303ResponseData { id } }
    }
}

/// The body of an answer to a pattern that was not stored.
#[derive(Debug)]
pub struct PatternErrorResponse {
    pub status: String,
    pub message: String,
}

/// Why a TB-303 pattern was not stored: the request was invalid, or storing
/// it failed (the message of what failed).
#[derive(Debug)]
pub enum CreatePatternError {
    ValidationError(String),
    UnexpectedError(String),
}

/// The message of an error: what the request got wrong, or what failed.
pub open spec fn create_error_message(e: CreatePatternError) -> Seq<char> {
    match e {
        CreatePatternError::ValidationError(m) => m@,
        CreatePatternError::UnexpectedError(m) => m@,
    }
}

impl CreatePatternError {
    /// The error's message.
    pub fn to_string(&self) -> (r: String)
        ensures
            r@ == create_error_message(*self),
    {
        match self {
            CreatePatternError::ValidationError(m) => m.clone(),
            CreatePatternError::UnexpectedError(m) => m.clone(),
        }
    }

    /// The HTTP status of the answer: 400 for an invalid request, 500 when
    /// storing failed.
    pub fn status_code(&self) -> (r: u16)
        ensures
            r == (if *self is ValidationError {
                400u16
            } else {
                500u16
            }),
    {
        match self {
            CreatePatternError::ValidationError(_) => 400,
            CreatePatternError::UnexpectedError(_) => 500,
        }
    }

    /// The body of the answer: status `error` and the error's message.
    pub fn error_response(&self) -> (r: PatternErrorResponse)
        ensures
            r.status@ == "error"@,
            r.message@ == create_error_message(*self),
    {
        PatternErrorResponse { status: "error".to_owned(), message: self.to_string() }
    }
}

} // verus!
