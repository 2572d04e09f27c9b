//! A tunable progress logger for long-running, item-oriented activities.
//!
//! A [`ProgressLogger`] counts items, throttles how often a status line is
//! emitted, chooses readable time and rate units, and renders elapsed time,
//! throughput, completion percentage and optional memory figures.

pub mod laws;
pub mod numtext;
pub mod outside;
pub mod render;
pub mod tracker;
pub mod units;

pub use render::MemFigures;
pub use tracker::ProgressLogger;
pub use tracker::LIGHT_UPDATE_MASK;
pub use units::TimeUnit;
