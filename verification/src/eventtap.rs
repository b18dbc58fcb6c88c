//! Event-tap lifecycle, payloads, correlation and output.

pub mod clipboard;
pub mod logic;
pub mod mode;
pub mod native;
pub mod output;
pub mod pasteboard;
pub mod round;
pub mod state;
pub mod support;
pub mod worker;
