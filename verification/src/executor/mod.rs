//! The rules of the executor: what it does in a phase, in which order, and what it makes of what it
//! finds.

pub mod intent;
pub mod laws;
pub mod rules;
pub mod phase_steps;
pub mod fences;
pub mod recovery;
pub mod coordinator;
pub mod effects;
