//! A one-shot code execution runner: language and runtime tables, scratch
//! file naming, standard-input framing, and the decision logic that drives
//! one execution from artifact creation to cleanup.
//!
//! The operating-system work (writing the scratch file, launching the
//! interpreter, feeding and collecting its streams, deleting the file) is
//! done by the caller, one `Action` at a time, and reported back as an
//! `Event`.

mod language;
mod scratch;
mod framing;
mod outcome;
mod execution;

pub use language::{Language, Runtime, RunError, same_text};
pub use scratch::{push_decimal, make_scratch_path, lemma_scratch_paths_distinct};
pub use framing::{frame_input, lemma_framing_ends_once};
pub use outcome::{ExecutionResult, Status, probe_verdict};
pub use execution::{Action, Event, Execution, Phase};
