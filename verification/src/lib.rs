//! A terminal-first download/upload speed test against fast.com: the
//! decisions, text and bookkeeping of the runner, verified with Verus.
pub mod api;
pub mod app;
pub mod pattern;
pub mod text;
pub mod download;
pub mod upload;
pub mod tui;
