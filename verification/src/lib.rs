//! Verified core of a Windows maintenance tool: text decoding, report
//! building, power-plan and turbo decisions, themes, configuration and the
//! console buffer.
pub mod text;
pub mod actions;
pub mod console;
pub mod i18n;
pub mod theme;
pub mod config;
pub mod emoji;
pub mod sections;
pub mod fit;
pub mod ui;
pub mod winutil;
pub mod laws;
