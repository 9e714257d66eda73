//! Verified core of the vision-model subsystem: request and payload
//! construction, response interpretation, independent conversation sessions,
//! the session registry, and the decision logic of the vision tools.

pub mod error;
pub mod external;
pub mod client;
pub mod json;
pub mod session;
pub mod manager;
pub mod tools;
