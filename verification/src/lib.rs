//! Client-side logic for a network scanner that is driven over HTTP with XML
//! documents: the status model, the codec for the device's documents, the
//! rules of the HTTP conversation and the state machine of one scan.
//!
//! The crate performs no I/O. A host program sends the requests that the
//! library describes and hands the responses back.

pub mod cli;
pub mod message;
pub mod scan;
pub mod scanner;
pub mod timestamp;
