//! Rapid-fire mouse proxy: trigger tracking, humanized click timing and the
//! decision logic of the event loop that replaces a held trigger with clicks.
pub mod chance;
pub mod config;
pub mod device;
pub mod engine;
pub mod humanize;
pub mod trigger;
