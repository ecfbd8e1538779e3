//! The XML documents exchanged with the device and their typed counterparts.

pub mod document;
pub mod emitter;
pub mod error;
pub mod job;
pub mod scan_job;
pub mod scan_status;
pub mod util;
