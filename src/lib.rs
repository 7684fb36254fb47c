//! A typed client library for the statistics services of a hockey league and a baseball
//! league: it builds the addresses of their queries and decodes their JSON answers into
//! records, tolerating the parts of an answer that upstream leaves out or garbles.

pub mod client;
pub mod decode;
pub mod encode;
pub mod error;
pub mod json;
pub mod laws;
pub mod model;
