//! Bit-level codec for the reports of a USB game controller: a static input
//! schema, a field decoder, an output report builder, and the decisions of
//! the transfer loop that drives them.

pub mod schema;
pub mod decoder;
pub mod output;
pub mod session;
pub mod endpoint;
pub mod args;
