//! The decisions of an HTTP router that stands in front of a set of inference workers: which
//! requests it answers itself and how, what it hands to the workers, whom it lets in from
//! another origin, and in what order it comes up.
//!
//! Nothing here touches a socket, a clock or a thread. Each function takes what was received and
//! says what to do next; the server around the library does it.

pub mod config;
pub mod cors;
pub mod exchange;
pub mod facts;
pub mod handlers;
pub mod json;
pub mod laws;
pub mod logging;
pub mod message;
pub mod routes;
pub mod startup;
pub mod state;
pub mod text;
