//! The LiDAR-specific command set, selected on the wire by command-set
//! byte 1.

pub mod request;
pub mod response;
