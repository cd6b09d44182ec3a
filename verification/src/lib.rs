//! The decision core of a compile sandbox: it turns untrusted source text
//! into one bounded invocation of an isolation runtime and classifies what
//! came back. All filesystem and process work is left to a driver, which
//! performs the actions this crate hands out and reports the events.

pub mod command;
pub mod engine;
pub mod error;
pub mod guarantees;
pub mod output;
pub mod text;
pub mod workspace;
