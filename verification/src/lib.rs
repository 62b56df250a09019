//! Indicative paradigms of Ancient Greek verbs, derived from their principal parts.
//!
//! A verb is given by up to four principal parts: present, future, aorist
//! and aorist passive, the last three possibly with an alternate form behind
//! a slash. The parts are split (`entry`), classified by their endings into
//! stems (`stems`), and conjugated cell by cell (`conjugate`), with the
//! augment put on or taken off where a tense asks for it (`augment`).
//! `pipeline` runs the three steps in a row, `output` lays the cells out in
//! their fixed order, and `accents` turns away text that the matchers were
//! not made for.

pub mod accents;
pub mod augment;
pub mod conjugate;
pub mod entry;
pub mod output;
pub mod pipeline;
pub mod stems;
pub mod text;
pub mod types;
