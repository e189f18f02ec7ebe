//! Protocol layer of a command-line client for a remote task-tracking
//! service: building authenticated requests and classifying responses.

pub mod task;
pub mod interpret;
pub mod text;
pub mod request;
pub mod body;
pub mod laws;
