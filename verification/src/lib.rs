//! Verified request-handling logic of a small HTTP microservice: header
//! authentication, error-to-response mapping, greetings, line reversal for
//! streamed bodies, and the order of the service's middleware layers.

pub mod status;
pub mod json;
pub mod text;
pub mod errors;
pub mod middleware;
pub mod auth;
pub mod greetings;
pub mod streaming;
