//! Navigation and input handling for a desktop shell that opens a job by
//! number and shows its schedule.
//!
//! The library holds the screen state machine, the digit filter applied to
//! the job-number field and the parser that turns that field into a
//! [`JobNumber`]. Rendering and the windowing runtime stay outside.

pub mod entry;
pub mod job_number;
pub mod navigation;

pub use job_number::{parse_job_number, sanitize, JobNumber};
