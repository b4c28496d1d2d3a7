//! What the agent does.
pub mod foundation;
pub mod orchestration;
