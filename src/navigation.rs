use vstd::prelude::*;

use crate::entry::{edited_text, JobNumberInput};
use crate::job_number::{all_digits, lemma_sanitized_all_digits, parse_job_number, parse_spec, JobNumber};

verus! {

/// What the runtime reports for one tick.
#[derive(Debug)]
pub struct TickInput {
    /// The escape key was pressed.
    pub escape_pressed: bool,
    /// The Enter key was pressed.
    pub enter_pressed: bool,
    /// The confirm control was activated.
    pub confirm_clicked: bool,
    /// New text of the job-number field, when the operator changed it.
    pub edited_text: Option<String>,
}

impl TickInput {
    /// The field's new text, if it was edited.
    pub open spec fn edit_model(self) -> Option<Seq<char>> {
        match self.edited_text {
            Some(t) => Some(t@),
            None => None,
        }
    }

    /// The tick asks for the field to be parsed.
    pub open spec fn confirms(self) -> bool {
        self.enter_pressed || self.confirm_clicked
    }
}

/// Abstract screen: what the navigation rules look at.
pub enum ScreenModel {
    Entry { raw: Seq<char>, parsed: Option<JobNumber> },
    View { job: JobNumber },
}

/// The screen that follows `s` after `tick`, and whether the application is
/// asked to close.
pub open spec fn step(s: ScreenModel, tick: TickInput) -> (ScreenModel, bool) {
    if tick.escape_pressed {
        match s {
            ScreenModel::View { .. } => (ScreenModel::Entry { raw: Seq::empty(), parsed: None }, false),
            ScreenModel::Entry { raw, .. } => if raw.len() == 0 {
                (s, true)
            } else {
                (ScreenModel::Entry { raw: Seq::empty(), parsed: None }, false)
            },
        }
    } else {
        match s {
            ScreenModel::Entry { raw, parsed } => match parsed {
                Some(job) => (ScreenModel::View { job }, false),
                None => {
                    let text = edited_text(raw, tick);
                    (
                        ScreenModel::Entry {
                            raw: text,
                            parsed: if tick.confirms() {
                                parse_spec(text)
                            } else {
                                None
                            },
                        },
                        false,
                    )
                },
            },
            ScreenModel::View { .. } => (s, false),
        }
    }
}

/// Screen that shows a job's number and its schedule.
#[derive(Debug)]
pub struct ScheduleEditor<S> {
    pub job_num: JobNumber,
    pub schedule: S,
}

/// The screen that is live.
#[derive(Debug)]
pub enum MainAppState<S> {
    JobNumberInput(JobNumberInput),
    ScheduleEditor(ScheduleEditor<S>),
}

/// What the runtime is to do after a tick.
#[derive(Clone, Copy, Debug, PartialEq, Eq, Structural)]
pub enum TickOutcome {
    Continue,
    Close,
}

/// The navigation controller: owns the live screen and routes each tick.
#[derive(Debug)]
pub struct MainApp<S> {
    pub state: MainAppState<S>,
}

/// The first screen: the schedule of `job` when one was given, an empty
/// entry field otherwise.
pub open spec fn initial_screen(job: Option<JobNumber>) -> ScreenModel {
    match job {
        Some(job) => ScreenModel::View { job },
        None => ScreenModel::Entry { raw: Seq::empty(), parsed: None },
    }
}

impl<S> MainApp<S> {
    /// Abstract view of the live screen.
    pub open spec fn screen(&self) -> ScreenModel {
        match self.state {
            MainAppState::JobNumberInput(i) => ScreenModel::Entry { raw: i.input@, parsed: i.output },
            MainAppState::ScheduleEditor(e) => ScreenModel::View { job: e.job_num },
        }
    }

    /// The entry field, when it is live, holds digits only.
    pub open spec fn wf(&self) -> bool {
        match self.state {
            MainAppState::JobNumberInput(i) => i.wf(),
            MainAppState::ScheduleEditor(_) => true,
        }
    }

    /// Starts on the schedule of `job_num` when one is given, with a default
    /// schedule, and on an empty entry field otherwise.
    pub fn new(job_num: Option<JobNumber>) -> (r: MainApp<S>)
        where S: Default,
        ensures
            r.wf(),
            r.screen() == initial_screen(job_num),
            job_num is Some ==> (
                match r.state {
                    MainAppState::ScheduleEditor(e) => call_ensures(S::default, (), e.schedule),
                    MainAppState::JobNumberInput(_) => false,
                }),
    {
        match job_num {
            Some(job_num) => MainApp {
                state: MainAppState::ScheduleEditor(
                    ScheduleEditor { job_num, schedule: S::default() },
                ),
            },
            None => MainApp { state: MainAppState::JobNumberInput(JobNumberInput::new()) },
        }
    }

    /// Starts from the job number given at startup, as text. Text that does
    /// not parse counts as no number at all.
    pub fn from_startup_arg(arg: Option<&str>) -> (r: MainApp<S>)
        where S: Default,
        ensures
            r.wf(),
            r.screen() == initial_screen(
                match arg {
                    Some(a) => parse_spec(a@),
                    None => None,
                },
            ),
    {
        let job_num = match arg {
            Some(a) => parse_job_number(a),
            None => None,
        };
        MainApp::new(job_num)
    }

    /// Runs one tick: escape first (back to an empty entry from the schedule,
    /// clear a non-empty entry, close on an empty one), then the live screen.
    pub fn update(&mut self, tick: &TickInput) -> (r: TickOutcome)
        where S: Default,
        requires
            old(self).wf(),
        ensures
            final(self).wf(),
            final(self).screen() == step(old(self).screen(), *tick).0,
            (r == TickOutcome::Close) == step(old(self).screen(), *tick).1,
            old(self).screen() is View && !tick.escape_pressed ==> *final(self) == *old(self),
            old(self).screen() is Entry && final(self).screen() is View ==> (
                match final(self).state {
                    MainAppState::ScheduleEditor(e) => call_ensures(S::default, (), e.schedule),
                    MainAppState::JobNumberInput(_) => false,
                }),
    {
        if tick.escape_pressed {
            match &self.state {
                MainAppState::JobNumberInput(jni) => {
                    if jni.input.as_str().is_empty() {
                        return TickOutcome::Close;
                    } else {
                        self.state = MainAppState::JobNumberInput(JobNumberInput::new());
                    }
                },
                MainAppState::ScheduleEditor(_) => {
                    self.state = MainAppState::JobNumberInput(JobNumberInput::new());
                },
            }
            return TickOutcome::Continue;
        }
        let parsed = match &self.state {
            MainAppState::JobNumberInput(jni) => jni.get(),
            MainAppState::ScheduleEditor(_) => None,
        };
        match parsed {
            Some(job_num) => {
                self.state = MainAppState::ScheduleEditor(
                    ScheduleEditor { job_num, schedule: S::default() },
                );
            },
            None => {
                match &mut self.state {
                    MainAppState::JobNumberInput(jni) => jni.update(tick),
                    MainAppState::ScheduleEditor(_) => {},
                }
            },
        }
        TickOutcome::Continue
    }
}

/// An entry screen whose field stays empty and holds no parsed number after
/// a confirmation: the tick leaves it as it was, and the tick after that
/// cannot open a schedule.
pub proof fn lemma_confirm_empty_no_op(tick: TickInput, next: TickInput)
    requires
        tick.confirms(),
        !tick.escape_pressed,
        edited_text(Seq::empty(), tick).len() == 0,
    ensures
        step(ScreenModel::Entry { raw: Seq::empty(), parsed: None }, tick) == (
        ScreenModel::Entry { raw: Seq::empty(), parsed: None },
        false,
        ),
        !(step(step(ScreenModel::Entry { raw: Seq::empty(), parsed: None }, tick).0, next).0 is View),
{
    assert(edited_text(Seq::empty(), tick) =~= Seq::<char>::empty());
}

/// A confirmation on text that parses opens, on the next tick without escape,
/// the schedule of the parsed number, and nothing else.
pub proof fn lemma_confirm_opens_schedule(raw: Seq<char>, tick: TickInput, next: TickInput)
    requires
        !tick.escape_pressed,
        tick.confirms(),
        tick.edited_text is None,
        parse_spec(raw) is Some,
        !next.escape_pressed,
    ensures
        step(ScreenModel::Entry { raw, parsed: None }, tick) == (
        ScreenModel::Entry { raw, parsed: parse_spec(raw) },
        false,
        ),
        step(step(ScreenModel::Entry { raw, parsed: None }, tick).0, next) == (
        ScreenModel::View { job: parse_spec(raw)->0 },
        false,
        ),
{
}

/// Escape on a non-empty entry field clears it and keeps the application open.
pub proof fn lemma_escape_clears_nonempty(raw: Seq<char>, parsed: Option<JobNumber>, tick: TickInput)
    requires
        tick.escape_pressed,
        raw.len() > 0,
    ensures
        step(ScreenModel::Entry { raw, parsed }, tick) == (
        ScreenModel::Entry { raw: Seq::empty(), parsed: None },
        false,
        ),
{
}

/// Escape on an empty entry field asks to close and changes nothing else.
pub proof fn lemma_escape_exits_on_empty(parsed: Option<JobNumber>, tick: TickInput)
    requires
        tick.escape_pressed,
    ensures
        step(ScreenModel::Entry { raw: Seq::empty(), parsed }, tick) == (
        ScreenModel::Entry { raw: Seq::empty(), parsed },
        true,
        ),
{
}

/// Escape on any schedule screen goes back to an empty entry field.
pub proof fn lemma_escape_from_view_returns_to_entry(job: JobNumber, tick: TickInput)
    requires
        tick.escape_pressed,
    ensures
        step(ScreenModel::View { job }, tick) == (
        ScreenModel::Entry { raw: Seq::empty(), parsed: None },
        false,
        ),
{
}

/// Every tick keeps the entry field made of digits only.
pub proof fn lemma_step_keeps_digits(raw: Seq<char>, parsed: Option<JobNumber>, tick: TickInput)
    requires
        all_digits(raw),
    ensures
        match step(ScreenModel::Entry { raw, parsed }, tick).0 {
            ScreenModel::Entry { raw: r, .. } => all_digits(r),
            ScreenModel::View { .. } => true,
        },
{
    match tick.edit_model() {
        Some(t) => lemma_sanitized_all_digits(t),
        None => {},
    }
}

} // verus!
