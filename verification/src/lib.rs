//! Turns Greek vocabulary entries (word, part-of-speech label, English
//! meaning text) into quiz question records: one question with one answer
//! option per comma-separated synonym for ordinary entries, and up to four
//! tense-specific questions for verb entries.

pub mod laws;
pub mod questions;
pub mod text;

pub use questions::AnswerOption;
pub use questions::PartKind;
pub use questions::Question;
pub use questions::Record;
pub use questions::build_non_verb;
pub use questions::build_questions;
pub use questions::build_verb;
pub use questions::classify;
