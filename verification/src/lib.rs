//! A proxy handler for serverless platforms: on each inbound HTTP request it
//! issues one outbound GET to a fixed target URL and answers with the fetched
//! body, or with the variant's failure response.
//!
//! The platform adapters (the entry points each hosting runtime dictates, and
//! the outbound call itself) live outside this crate; they reduce what the
//! outbound GET produced to a [`message::FetchOutcome`] and hand it, together
//! with the inbound request, to the handlers in [`handler`].

pub mod handler;
pub mod message;
