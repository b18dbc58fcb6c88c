//! Authorization and value capture for text observations.

pub mod authorization;
pub mod policy;
pub mod focused_target;
pub mod value;
pub mod quarantine;
pub mod routing;
