//! A typed client library for the GitHub REST API's repository lifecycle
//! operations (create, fetch metadata, delete), scoped to a user account or
//! an organization account.
//!
//! The library contains the full request/response pipeline: building
//! authenticated requests, serializing creation payloads, parsing response
//! bodies, and normalizing errors. Sending a request over the network is the
//! caller's job: every operation here returns the request to send, and the
//! raw status and body of a response are handed back in for interpretation.
mod text;

pub mod github;
pub mod json;
pub mod organizations;
pub mod repositories;
pub mod users;
