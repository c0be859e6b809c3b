//! The General command set: connection management commands shared by every
//! Livox device, selected on the wire by command-set byte 0.

pub mod message;
pub mod request;
pub mod response;
