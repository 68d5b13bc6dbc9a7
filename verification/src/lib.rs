//! Verified core of the VolunteerMatch service: request validation, record
//! construction, the matching workflow, task search queries and the outgoing
//! event payloads. Database and message-bus I/O live outside this crate and
//! feed their results back through the functions here.

pub mod text;
pub mod json;
pub mod errors;
pub mod clock;
pub mod ids;
pub mod models;
pub mod volunteers;
pub mod tasks;
pub mod matching;
pub mod messaging;
pub mod store_model;
