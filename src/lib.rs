//! A gateway that forwards chat prompts to a language-model backend, one
//! inference call at a time, and answers every request with a uniform body.

pub mod json;
pub mod messages;
pub mod config;
pub mod forwarder;
pub mod admission;
pub mod readiness;
