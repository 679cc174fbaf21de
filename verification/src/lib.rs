//! Decides whether a learner's source text fixes a planted defect.
//!
//! The engine works on plain text. It cuts the code under test out of a
//! document ([`region`]), looks for literal patterns on lines that are not
//! commented out ([`lines`]), and combines what it finds by the rules of each
//! class of defect ([`async_io`], [`resource_leak`], [`query_optimization`],
//! [`memory`], [`concurrency`]; [`rules`] for rule sets of one's own). Timings
//! and counter samples ([`benchmark`], [`observer`], [`evidence`]) back the
//! text where the text cannot tell. Everything ends in a verdict with a
//! message that names each thing that is still wrong ([`verdict`]).
//!
//! Beside the engine stand the rules of the three services that hold the
//! defects: [`analysis`] and [`aqua_brain`], [`aqua_monitor`],
//! [`species_hub`], and the texts that a learner is shown ([`catalog`],
//! [`lectures`]).

pub mod text;
pub mod lines;
pub mod region;
pub mod decimal;
pub mod verdict;
pub mod evidence;
pub mod benchmark;
pub mod observer;
pub mod rules;
pub mod async_io;
pub mod resource_leak;
pub mod query_optimization;
pub mod memory;
pub mod concurrency;
pub mod analysis;
pub mod aqua_brain;
pub mod aqua_monitor;
pub mod species_hub;
pub mod lectures;
pub mod catalog;
