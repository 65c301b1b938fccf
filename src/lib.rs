//! Typed client library for the jpdb vocabulary and flashcard web service.
//!
//! The library assembles requests (endpoint URL plus JSON body), classifies
//! failure responses into a typed error taxonomy and decodes success payloads.
//! Sending the requests over HTTP is left to the caller.
pub mod client;
pub mod dedup;
pub mod error;
pub mod json;
pub mod request;
pub mod text;
