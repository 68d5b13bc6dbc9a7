//! The records that the service stores and the shapes of its requests and
//! replies.
pub mod match_model;
pub mod task;
pub mod volunteer;
