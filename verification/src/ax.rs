//! Observation of applications through the accessibility interface.

pub mod accessibility;
pub mod attachment;
pub mod dispatch;
pub mod element;
pub mod focus_lifecycle;
pub mod health;
pub mod initial_snapshot;
pub mod observer;
pub mod registration;
pub mod runtime;
pub mod snapshot;
pub mod types;
pub mod value_context;
pub mod value_lifecycle;
