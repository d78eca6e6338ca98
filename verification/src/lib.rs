//! phos: a universal log colorizer, with verified colorization, alerting
//! and configuration logic.
use vstd::prelude::*;

pub mod aggregator;
pub mod alert;
pub mod category;
pub mod clients;
pub mod colorizer;
pub mod commands;
pub mod clock;
pub mod colors;
pub mod config;
pub mod interactive;
pub mod pattern;
pub mod preview;
pub mod program;
pub mod rule;
pub mod settings;
pub mod style;
pub mod text;
pub mod theme;

verus! {
} // verus!
