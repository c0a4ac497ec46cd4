//! Client-side logic for a remote comment-analysis service: which attributes
//! can be asked for, what the request for a comment looks like, and how the
//! service's reply becomes typed scores. Sending the request is left to the
//! caller, so everything here is a function of its arguments.

pub mod client;
pub mod json;
pub mod model;
pub mod request;
pub mod response;

pub use crate::client::PerspectiveClient;
