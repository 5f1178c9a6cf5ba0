//! A DNS query client library.
//!
//! The crate models a multi-transport query dispatcher, an
//! authoritative-server discovery chain, and a record-set diff engine.
//! Network exchanges themselves are performed by the embedding program;
//! the library decides which exchange to make next, interprets what came
//! back, and compares answer sections.

pub mod args;
pub mod client;
pub mod commands;
pub mod diff;
pub mod error;
pub mod output;
pub mod records;
pub mod table_writer;

pub use args::Args;
