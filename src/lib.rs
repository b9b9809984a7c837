//! An in-memory store of users, projects and tasks, with the aggregate
//! statistics and response envelopes that an HTTP front end serves.
mod square;
pub mod api;
pub mod model;
pub mod request;
pub mod stats;
pub mod store;
pub mod text;
pub mod time;

pub use square::calculate_square;
