//! A typed client for the Scryfall card-data API: request descriptors that
//! know their own paths, decoders from JSON trees into typed records, and a
//! dispatcher that keeps a minimum gap between outgoing calls.
pub mod json;
pub mod number;
pub mod types;
pub mod encode;
pub mod requests;
pub mod client;
