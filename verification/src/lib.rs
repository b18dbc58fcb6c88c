//! Decision core of a macOS activity collector.
//!
//! Every rule that decides what a collector may read, keep, correlate or send
//! lives here and is verified; the native frameworks stay outside and hand in
//! plain values.

pub mod activity;
pub mod app_directory;
pub mod applescript;
pub mod ax;
pub mod channel;
pub mod clock;
pub mod eventtap;
pub mod focus_context;
pub mod focused_field;
pub mod input_source;
pub mod main_run_loop;
pub mod permission;
pub mod schema;
pub mod secure_input;
pub mod store_key;
pub mod subject;
pub mod text;
pub mod text_capture;
pub mod window_list;
pub mod workspace;
