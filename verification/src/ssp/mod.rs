//! Talking to the service provider: the questions, and where in a reply the answer stands.

pub mod graphql;
pub mod instant;
pub mod requests;
