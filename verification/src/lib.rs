//! Archival of generated output files, gated on database state.
//!
//! The library holds the rules of one batch run: which file names are archive
//! candidates, which of the entries found under a source tree are copied into a
//! dated or a category folder, and in which order the stages of a run follow
//! one another. Reading directories, copying files, talking to the database and
//! starting the generation job are left to the caller, who hands the library
//! plain values and carries out the steps it returns.

pub mod archive;
pub mod candidate;
mod clock;
pub mod folder;
pub mod gate;
pub mod pattern;
pub mod run_date;
pub mod settings;
pub mod workflow;
