//! Core logic of a small desktop launcher shell: window geometry derived from
//! monitor metrics, development/production configuration, log-line formatting,
//! and the decisions of the updater relay process.

pub mod config;
pub mod geometry;
pub mod launcher;
pub mod logging;
pub mod relay;
pub mod text;
