//! A verified client library for Livox Mid-70 class LiDAR sensors.
//!
//! The sensor speaks a length-delimited, doubly checksummed binary control
//! protocol over UDP and streams point-cloud datagrams on a second channel.
//! This crate holds the verified core: the wire types, the frame codec, the
//! point-cloud decoder and the pure decision logic of the client. The socket
//! and task plumbing around it lives outside the library and hands it plain
//! byte buffers and typed values.

pub mod bytes_le;
pub mod checksum;
pub mod client;
pub mod frame;
pub mod general;
pub mod lidar;
pub mod payload;
pub mod point_cloud;
pub mod traits;

pub use client::{
    BROADCAST_LISTEN_PORT, COMMAND_INBOX_CAPACITY, DeviceType, HEARTBEAT_PERIOD_MS,
    HandshakeOption, LivoxError,
};
pub use frame::{ControlFrame, FrameData, ParseError};
pub use payload::{MessageData, RequestData, ResponseData};
pub use point_cloud::{
    DT2, DT3, HubStatusCode, LiDARStatusCode, Point3, PointCloudFrame, PointCloudFrameData,
    TagInfo,
};
