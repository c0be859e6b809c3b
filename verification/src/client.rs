//! The pure decisions of the client: building the handshake and sampling
//! requests, numbering outgoing frames, classifying what the sensor sent
//! back. The sockets, timers and tasks around these functions live outside
//! the library and hand them plain values.
use vstd::prelude::*;

use crate::frame::{ControlFrame, FrameData, ParseError};
use crate::general;
use crate::payload::{RequestData, ResponseData};

verus! {

/// The UDP port a host listens on for discovery broadcasts.
pub const BROADCAST_LISTEN_PORT: u16 = 55000;

/// The period between heartbeats, in milliseconds: a session survives
/// several missed beats, so this leaves comfortable headroom.
pub const HEARTBEAT_PERIOD_MS: u64 = 750;

/// Default capacity of the command inbox.
pub const COMMAND_INBOX_CAPACITY: usize = 128;

/// The model of Livox device behind a broadcast.
#[derive(Debug, PartialEq, Eq, Clone, Copy)]
pub enum DeviceType {
    /// A Livox Mid-70, device type 6.
    Mid70,
    /// Any other device type: the protocol still works, but model-specific
    /// commands are undefined.
    NotImplemented,
}

/// What a broadcast's device-type byte names.
pub open spec fn spec_device_type(dev_type: u8) -> DeviceType {
    if dev_type == 6 {
        DeviceType::Mid70
    } else {
        DeviceType::NotImplemented
    }
}

/// Classify a broadcast's device-type byte.
pub fn device_type_of(dev_type: u8) -> (r: DeviceType)
    ensures
        r == spec_device_type(dev_type),
{
    if dev_type == 6 {
        DeviceType::Mid70
    } else {
        DeviceType::NotImplemented
    }
}

/// A failure the protocol logic itself can report. Socket and channel
/// failures are reported by the surrounding I/O layer.
#[derive(Debug, PartialEq, Eq, Clone, Copy)]
pub enum LivoxError {
    /// A buffer failed to parse.
    ParseError(ParseError),
    /// Discovery received a valid frame that was not a broadcast message.
    NoneBroadcastReceived,
    /// The sensor understood a command but reported a non-zero status.
    AckFailed(u8),
    /// The sensor answered with a different variant than the request's
    /// canonical response.
    AckWrong(ResponseData),
    /// The command socket received a payload that is not a response.
    BadResponse(FrameData),
}

/// The result of a decision of the protocol logic.
pub type LivoxResult<T> = Result<T, LivoxError>;

/// Ports and host address a handshake offers to the sensor. Port 0 lets
/// the operating system choose.
#[derive(Debug, PartialEq, Eq, Clone, Copy)]
pub struct HandshakeOption {
    pub user_ip: [u8; 4],
    pub cmd_port: u16,
    pub data_port: u16,
}

impl Default for HandshakeOption {
    /// The conventional host address with OS-assigned ports.
    fn default() -> (r: Self)
        ensures
            r == (HandshakeOption { user_ip: [192u8, 168u8, 1u8, 50u8], cmd_port: 0u16, data_port: 0u16 }),
    {
        HandshakeOption { user_ip: [192, 168, 1, 50], cmd_port: 0, data_port: 0 }
    }
}

/// The broadcast message carried by a parsed frame, if it is one.
pub fn broadcast_message_of(data: &FrameData) -> (r: Option<general::message::BroadcastMessage>)
    ensures
        match r {
            Some(m) => data == FrameData::Message(
                crate::payload::MessageData::General(
                    general::message::Enum::BroadcastMessage(m),
                ),
            ),
            None => !(data matches FrameData::Message(
                crate::payload::MessageData::General(
                    general::message::Enum::BroadcastMessage(_),
                ),
            )),
        },
{
    match data {
        FrameData::Message(
            crate::payload::MessageData::General(general::message::Enum::BroadcastMessage(m)),
        ) => Some(*m),
        _ => None,
    }
}

/// The handshake request frame: sequence number 0, carrying the host
/// address, the two host ports and no IMU port.
pub fn handshake_frame(option: HandshakeOption, data_port: u16, cmd_port: u16) -> (r: ControlFrame)
    ensures
        r == (ControlFrame {
            version: 1u8,
            data: FrameData::Request(
                RequestData::General(
                    general::request::Enum::Handshake(
                        general::request::Handshake {
                            user_ip: option.user_ip,
                            data_port,
                            cmd_port,
                            imu_port: 0u16,
                        },
                    ),
                ),
            ),
            seq_num: 0u16,
        }),
{
    ControlFrame {
        version: 1,
        data: FrameData::Request(
            RequestData::General(
                general::request::Enum::Handshake(
                    general::request::Handshake {
                        user_ip: option.user_ip,
                        data_port,
                        cmd_port,
                        imu_port: 0,
                    },
                ),
            ),
        ),
        seq_num: 0,
    }
}

/// Whether a parsed frame acknowledges the handshake with status 0.
pub fn is_handshake_ok(data: &FrameData) -> (r: bool)
    ensures
        r <==> data == FrameData::Response(
            ResponseData::General(
                general::response::Enum::Handshake(general::response::Handshake { ret_code: 0u8 }),
            ),
        ),
{
    match data {
        FrameData::Response(
            ResponseData::General(general::response::Enum::Handshake(h)),
        ) => h.ret_code == 0,
        _ => false,
    }
}

/// The next frame the command multiplexer sends: the sequence number is
/// advanced by one, wrapping freely, and stamps a version-1 request frame.
pub fn next_request_frame(seq_num: u16, command: RequestData) -> (r: (u16, ControlFrame))
    ensures
        r.0 == (if seq_num == u16::MAX {
            0u16
        } else {
            (seq_num + 1) as u16
        }),
        r.1 == (ControlFrame { version: 1u8, data: FrameData::Request(command), seq_num: r.0 }),
{
    let next: u16 = if seq_num == u16::MAX {
        0
    } else {
        seq_num + 1
    };
    (next, ControlFrame { version: 1, data: FrameData::Request(command), seq_num: next })
}

/// What the multiplexer posts to the waiting caller once the reply buffer
/// is parsed: the response body on a response frame, `BadResponse` with the
/// decoded payload on any other frame, and the parse failure otherwise.
pub fn classify_reply(parsed: Result<ControlFrame, ParseError>) -> (r: LivoxResult<
    ResponseData,
>)
    ensures
        match parsed {
            Ok(f) => match f.data {
                FrameData::Response(ack) => r == Ok::<ResponseData, LivoxError>(ack),
                _ => r == Err::<ResponseData, LivoxError>(LivoxError::BadResponse(f.data)),
            },
            Err(e) => r == Err::<ResponseData, LivoxError>(LivoxError::ParseError(e)),
        },
{
    match parsed {
        Ok(f) => match f.data {
            FrameData::Response(ack) => Ok(ack),
            other => Err(LivoxError::BadResponse(other)),
        },
        Err(e) => Err(LivoxError::ParseError(e)),
    }
}

/// The heartbeat request body.
pub fn heartbeat_request() -> (r: RequestData)
    ensures
        r == RequestData::General(
            general::request::Enum::Heartbeat(general::request::Heartbeat {  }),
        ),
{
    RequestData::General(general::request::Enum::Heartbeat(general::request::Heartbeat {  }))
}

/// Whether a command response is a heartbeat acknowledged with status 0.
pub fn is_heartbeat_ok(ack: &ResponseData) -> (r: bool)
    ensures
        r <==> (ack matches ResponseData::General(general::response::Enum::Heartbeat(h))
            && h.ret_code == 0),
{
    match ack {
        ResponseData::General(general::response::Enum::Heartbeat(h)) => h.ret_code == 0,
        _ => false,
    }
}

/// The request that starts (`true`) or stops (`false`) sampling.
pub fn sampling_request(start: bool) -> (r: RequestData)
    ensures
        r == RequestData::General(
            general::request::Enum::StartStopSampling(
                general::request::StartStopSampling {
                    sample_ctrl: if start {
                        1u8
                    } else {
                        0u8
                    },
                },
            ),
        ),
{
    RequestData::General(
        general::request::Enum::StartStopSampling(
            general::request::StartStopSampling {
                sample_ctrl: if start {
                    1
                } else {
                    0
                },
            },
        ),
    )
}

/// What `set_sampling` reports for a command response: success on a
/// sampling acknowledgement with status 0, `AckFailed` on one with any
/// other status, and `AckWrong` carrying the response on any other variant.
pub fn interpret_sampling_ack(ack: ResponseData) -> (r: LivoxResult<()>)
    ensures
        match ack {
            ResponseData::General(
                general::response::Enum::StartStopSampling(b),
            ) => if b.ret_code == 0 {
                r == Ok::<(), LivoxError>(())
            } else {
                r == Err::<(), LivoxError>(LivoxError::AckFailed(b.ret_code))
            },
            _ => r == Err::<(), LivoxError>(LivoxError::AckWrong(ack)),
        },
{
    match ack {
        ResponseData::General(general::response::Enum::StartStopSampling(b)) => {
            if b.ret_code == 0 {
                Ok(())
            } else {
                Err(LivoxError::AckFailed(b.ret_code))
            }
        },
        _ => Err(LivoxError::AckWrong(ack)),
    }
}

} // verus!
