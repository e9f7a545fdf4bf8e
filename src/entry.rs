use vstd::prelude::*;

use crate::job_number::{all_digits, parse_job_number, parse_spec, sanitize, sanitized, JobNumber};
use crate::navigation::TickInput;

verus! {

/// Text of the job-number field after a tick: the filtered edit when the field
/// was edited, the previous text otherwise.
pub open spec fn edited_text(raw: Seq<char>, tick: TickInput) -> Seq<char> {
    match tick.edit_model() {
        Some(t) => sanitized(t),
        None => raw,
    }
}

/// Screen that asks for a job number. It keeps the field's text, which holds
/// digits only, and the number parsed on the last confirmation, if any.
#[derive(Debug)]
pub struct JobNumberInput {
    pub input: String,
    pub output: Option<JobNumber>,
}

impl JobNumberInput {
    /// The field holds nothing but ASCII digits.
    pub open spec fn wf(&self) -> bool {
        all_digits(self.input@)
    }

    /// An empty field with nothing parsed.
    pub fn new() -> (r: JobNumberInput)
        ensures
            r.input@ == Seq::<char>::empty(),
            r.output is None,
            r.wf(),
    {
        JobNumberInput { input: String::new(), output: None }
    }

    /// The number parsed on the last confirmation, if it parsed.
    pub fn get(&self) -> (r: Option<JobNumber>)
        ensures
            r == self.output,
    {
        self.output
    }

    /// Current text of the field.
    pub fn text(&self) -> (r: &str)
        ensures
            r@ == self.input@,
    {
        self.input.as_str()
    }

    /// Applies one tick to the field: an edit replaces the text by its
    /// digits, and a confirmation (Enter or the confirm button) parses the
    /// resulting text once.
    pub fn update(&mut self, tick: &TickInput)
        requires
            old(self).wf(),
        ensures
            final(self).wf(),
            final(self).input@ == edited_text(old(self).input@, *tick),
            final(self).output == (if tick.confirms() {
                parse_spec(final(self).input@)
            } else {
                old(self).output
            }),
    {
        match &tick.edited_text {
            Some(t) => {
                self.input = sanitize(t.as_str());
                proof {
                    crate::job_number::lemma_sanitized_all_digits(t@);
                }
            },
            None => {},
        }
        if tick.enter_pressed || tick.confirm_clicked {
            self.output = parse_job_number(self.input.as_str());
        }
    }
}

} // verus!
