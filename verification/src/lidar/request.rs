//! Request bodies of the LiDAR command set.
//!
//! The extrinsic angles are IEEE-754 single-precision values on the wire;
//! the codec carries them as their raw 32-bit patterns (`f32::to_bits`),
//! since it only moves their bytes.
use vstd::prelude::*;

use crate::bytes_le::{get_le32, le32, push_le32, u32_of};
use crate::traits::Request;

verus! {

/// Set the power/standby mode (id 0x00).
#[derive(Debug, PartialEq, Eq, Clone, Copy)]
pub struct SetMode {
    pub lidar_mode: u8,
}

/// Write the mounting pose: roll, pitch, yaw as raw `f32` bit patterns,
/// then x, y, z in millimetres (id 0x01).
#[derive(Debug, PartialEq, Eq, Clone, Copy)]
pub struct WriteLiDARExtrinsicParameters {
    pub roll: u32,
    pub pitch: u32,
    pub yaw: u32,
    pub x: i32,
    pub y: i32,
    pub z: i32,
}

/// Read the mounting pose back (id 0x02).
#[derive(Debug, PartialEq, Eq, Clone, Copy)]
pub struct ReadLiDARExtrinsicParameters {}

/// Enable or disable rain and fog suppression (id 0x03).
#[derive(Debug, PartialEq, Eq, Clone, Copy)]
pub struct TurnOnOffRainFogSuppression {
    pub state: u8,
}

/// Turn the fan on or off (id 0x04).
#[derive(Debug, PartialEq, Eq, Clone, Copy)]
pub struct SetTurnOnOffFan {
    pub state: u8,
}

/// Query the fan state (id 0x05).
#[derive(Debug, PartialEq, Eq, Clone, Copy)]
pub struct GetTurnOnOffFanState {}

/// Select single or dual return mode (id 0x06).
#[derive(Debug, PartialEq, Eq, Clone, Copy)]
pub struct SetLiDARReturnMode {
    pub mode: u8,
}

/// Query the return mode (id 0x07).
#[derive(Debug, PartialEq, Eq, Clone, Copy)]
pub struct GetLiDARReturnMode {}

/// Set the IMU push frequency (id 0x08).
#[derive(Debug, PartialEq, Eq, Clone, Copy)]
pub struct SetIMUDataPushFrequency {
    pub frequency: u8,
}

/// Query the IMU push frequency (id 0x09).
#[derive(Debug, PartialEq, Eq, Clone, Copy)]
pub struct GetIMUDataPushFrequency {}

/// Synchronize the device clock to a UTC instant (id 0x0A).
#[derive(Debug, PartialEq, Eq, Clone, Copy)]
pub struct UpdateUTCSynchronizeTime {
    pub year: u8,
    pub month: u8,
    pub day: u8,
    pub hour: u8,
    pub microsecond: u32,
}

impl Request for SetMode {
    type Response = crate::lidar::response::SetMode;
}

impl Request for WriteLiDARExtrinsicParameters {
    type Response = crate::lidar::response::WriteLiDARExtrinsicParameters;
}

impl Request for ReadLiDARExtrinsicParameters {
    type Response = crate::lidar::response::ReadLiDARExtrinsicParameters;
}

impl Request for TurnOnOffRainFogSuppression {
    type Response = crate::lidar::response::TurnOnOffRainFogSuppression;
}

impl Request for SetTurnOnOffFan {
    type Response = crate::lidar::response::SetTurnOnOffFan;
}

impl Request for GetTurnOnOffFanState {
    type Response = crate::lidar::response::GetTurnOnOffFanState;
}

impl Request for SetLiDARReturnMode {
    type Response = crate::lidar::response::SetLiDARReturnMode;
}

impl Request for GetLiDARReturnMode {
    type Response = crate::lidar::response::GetLiDARReturnMode;
}

impl Request for SetIMUDataPushFrequency {
    type Response = crate::lidar::response::SetIMUDataPushFrequency;
}

impl Request for GetIMUDataPushFrequency {
    type Response = crate::lidar::response::GetIMUDataPushFrequency;
}

impl Request for UpdateUTCSynchronizeTime {
    type Response = crate::lidar::response::UpdateUTCSynchronizeTime;
}

/// A request of the LiDAR set: one byte of command id, then the body.
#[derive(Debug, PartialEq, Eq, Clone, Copy)]
pub enum Enum {
    SetMode(SetMode),
    WriteLiDARExtrinsicParameters(WriteLiDARExtrinsicParameters),
    ReadLiDARExtrinsicParameters(ReadLiDARExtrinsicParameters),
    TurnOnOffRainFogSuppression(TurnOnOffRainFogSuppression),
    SetTurnOnOffFan(SetTurnOnOffFan),
    GetTurnOnOffFanState(GetTurnOnOffFanState),
    SetLiDARReturnMode(SetLiDARReturnMode),
    GetLiDARReturnMode(GetLiDARReturnMode),
    SetIMUDataPushFrequency(SetIMUDataPushFrequency),
    GetIMUDataPushFrequency(GetIMUDataPushFrequency),
    UpdateUTCSynchronizeTime(UpdateUTCSynchronizeTime),
}

impl Enum {
    /// The wire bytes of this request: command id, then the packed body.
    pub open spec fn spec_bytes(self) -> Seq<u8> {
        match self {
            Enum::SetMode(b) => seq![0x00u8, b.lidar_mode],
            Enum::WriteLiDARExtrinsicParameters(b) => seq![0x01u8] + le32(b.roll) + le32(b.pitch)
                + le32(b.yaw) + le32(b.x as u32) + le32(b.y as u32) + le32(b.z as u32),
            Enum::ReadLiDARExtrinsicParameters(_) => seq![0x02u8],
            Enum::TurnOnOffRainFogSuppression(b) => seq![0x03u8, b.state],
            Enum::SetTurnOnOffFan(b) => seq![0x04u8, b.state],
            Enum::GetTurnOnOffFanState(_) => seq![0x05u8],
            Enum::SetLiDARReturnMode(b) => seq![0x06u8, b.mode],
            Enum::GetLiDARReturnMode(_) => seq![0x07u8],
            Enum::SetIMUDataPushFrequency(b) => seq![0x08u8, b.frequency],
            Enum::GetIMUDataPushFrequency(_) => seq![0x09u8],
            Enum::UpdateUTCSynchronizeTime(b) => seq![0x0Au8, b.year, b.month, b.day, b.hour]
                + le32(b.microsecond),
        }
    }

    /// The request carried by `s`, if its command id is known and its body
    /// has exactly the body's size.
    pub open spec fn spec_decode(s: Seq<u8>) -> Option<Enum> {
        if s.len() == 0 {
            None
        } else if s[0] == 0x00 {
            if s.len() == 2 {
                Some(Enum::SetMode(SetMode { lidar_mode: s[1] }))
            } else {
                None
            }
        } else if s[0] == 0x01 {
            if s.len() == 25 {
                Some(
                    Enum::WriteLiDARExtrinsicParameters(
                        WriteLiDARExtrinsicParameters {
                            roll: u32_of(s[1], s[2], s[3], s[4]),
                            pitch: u32_of(s[5], s[6], s[7], s[8]),
                            yaw: u32_of(s[9], s[10], s[11], s[12]),
                            x: u32_of(s[13], s[14], s[15], s[16]) as i32,
                            y: u32_of(s[17], s[18], s[19], s[20]) as i32,
                            z: u32_of(s[21], s[22], s[23], s[24]) as i32,
                        },
                    ),
                )
            } else {
                None
            }
        } else if s[0] == 0x02 {
            if s.len() == 1 {
                Some(Enum::ReadLiDARExtrinsicParameters(ReadLiDARExtrinsicParameters {}))
            } else {
                None
            }
        } else if s[0] == 0x03 {
            if s.len() == 2 {
                Some(Enum::TurnOnOffRainFogSuppression(TurnOnOffRainFogSuppression { state: s[1] }))
            } else {
                None
            }
        } else if s[0] == 0x04 {
            if s.len() == 2 {
                Some(Enum::SetTurnOnOffFan(SetTurnOnOffFan { state: s[1] }))
            } else {
                None
            }
        } else if s[0] == 0x05 {
            if s.len() == 1 {
                Some(Enum::GetTurnOnOffFanState(GetTurnOnOffFanState {}))
            } else {
                None
            }
        } else if s[0] == 0x06 {
            if s.len() == 2 {
                Some(Enum::SetLiDARReturnMode(SetLiDARReturnMode { mode: s[1] }))
            } else {
                None
            }
        } else if s[0] == 0x07 {
            if s.len() == 1 {
                Some(Enum::GetLiDARReturnMode(GetLiDARReturnMode {}))
            } else {
                None
            }
        } else if s[0] == 0x08 {
            if s.len() == 2 {
                Some(Enum::SetIMUDataPushFrequency(SetIMUDataPushFrequency { frequency: s[1] }))
            } else {
                None
            }
        } else if s[0] == 0x09 {
            if s.len() == 1 {
                Some(Enum::GetIMUDataPushFrequency(GetIMUDataPushFrequency {}))
            } else {
                None
            }
        } else if s[0] == 0x0A {
            if s.len() == 9 {
                Some(
                    Enum::UpdateUTCSynchronizeTime(
                        UpdateUTCSynchronizeTime {
                            year: s[1],
                            month: s[2],
                            day: s[3],
                            hour: s[4],
                            microsecond: u32_of(s[5], s[6], s[7], s[8]),
                        },
                    ),
                )
            } else {
                None
            }
        } else {
            None
        }
    }

    /// Append this request's wire bytes.
    pub fn encode(&self, out: &mut Vec<u8>)
        ensures
            final(out)@ == old(out)@ + self.spec_bytes(),
    {
        match self {
            Enum::SetMode(b) => {
                out.push(0x00);
                out.push(b.lidar_mode);
            },
            Enum::WriteLiDARExtrinsicParameters(b) => {
                out.push(0x01);
                push_le32(out, b.roll);
                push_le32(out, b.pitch);
                push_le32(out, b.yaw);
                push_le32(out, b.x as u32);
                push_le32(out, b.y as u32);
                push_le32(out, b.z as u32);
            },
            Enum::ReadLiDARExtrinsicParameters(_) => {
                out.push(0x02);
            },
            Enum::TurnOnOffRainFogSuppression(b) => {
                out.push(0x03);
                out.push(b.state);
            },
            Enum::SetTurnOnOffFan(b) => {
                out.push(0x04);
                out.push(b.state);
            },
            Enum::GetTurnOnOffFanState(_) => {
                out.push(0x05);
            },
            Enum::SetLiDARReturnMode(b) => {
                out.push(0x06);
                out.push(b.mode);
            },
            Enum::GetLiDARReturnMode(_) => {
                out.push(0x07);
            },
            Enum::SetIMUDataPushFrequency(b) => {
                out.push(0x08);
                out.push(b.frequency);
            },
            Enum::GetIMUDataPushFrequency(_) => {
                out.push(0x09);
            },
            Enum::UpdateUTCSynchronizeTime(b) => {
                out.push(0x0A);
                out.push(b.year);
                out.push(b.month);
                out.push(b.day);
                out.push(b.hour);
                push_le32(out, b.microsecond);
            },
        }
        assert(out@ =~= old(out)@ + self.spec_bytes());
    }

    /// Decode one request from `bytes`.
    pub fn decode(bytes: &[u8]) -> (r: Option<Enum>)
        ensures
            r == Enum::spec_decode(bytes@),
    {
        if bytes.len() == 0 {
            return None;
        }
        let id = bytes[0];
        let n = bytes.len();
        match id {
            0x00 => {
                if n == 2 {
                    Some(Enum::SetMode(SetMode { lidar_mode: bytes[1] }))
                } else {
                    None
                }
            },
            0x01 => {
                if n == 25 {
                    Some(
                        Enum::WriteLiDARExtrinsicParameters(
                            WriteLiDARExtrinsicParameters {
                                roll: get_le32(bytes, 1),
                                pitch: get_le32(bytes, 5),
                                yaw: get_le32(bytes, 9),
                                x: get_le32(bytes, 13) as i32,
                                y: get_le32(bytes, 17) as i32,
                                z: get_le32(bytes, 21) as i32,
                            },
                        ),
                    )
                } else {
                    None
                }
            },
            0x02 => {
                if n == 1 {
                    Some(Enum::ReadLiDARExtrinsicParameters(ReadLiDARExtrinsicParameters {}))
                } else {
                    None
                }
            },
            0x03 => {
                if n == 2 {
                    Some(
                        Enum::TurnOnOffRainFogSuppression(
                            TurnOnOffRainFogSuppression { state: bytes[1] },
                        ),
                    )
                } else {
                    None
                }
            },
            0x04 => {
                if n == 2 {
                    Some(Enum::SetTurnOnOffFan(SetTurnOnOffFan { state: bytes[1] }))
                } else {
                    None
                }
            },
            0x05 => {
                if n == 1 {
                    Some(Enum::GetTurnOnOffFanState(GetTurnOnOffFanState {}))
                } else {
                    None
                }
            },
            0x06 => {
                if n == 2 {
                    Some(Enum::SetLiDARReturnMode(SetLiDARReturnMode { mode: bytes[1] }))
                } else {
                    None
                }
            },
            0x07 => {
                if n == 1 {
                    Some(Enum::GetLiDARReturnMode(GetLiDARReturnMode {}))
                } else {
                    None
                }
            },
            0x08 => {
                if n == 2 {
                    Some(Enum::SetIMUDataPushFrequency(SetIMUDataPushFrequency { frequency: bytes[1] }))
                } else {
                    None
                }
            },
            0x09 => {
                if n == 1 {
                    Some(Enum::GetIMUDataPushFrequency(GetIMUDataPushFrequency {}))
                } else {
                    None
                }
            },
            0x0A => {
                if n == 9 {
                    Some(
                        Enum::UpdateUTCSynchronizeTime(
                            UpdateUTCSynchronizeTime {
                                year: bytes[1],
                                month: bytes[2],
                                day: bytes[3],
                                hour: bytes[4],
                                microsecond: get_le32(bytes, 5),
                            },
                        ),
                    )
                } else {
                    None
                }
            },
            _ => None,
        }
    }

    /// Decoding a request's own wire bytes yields the request again.
    pub proof fn lemma_roundtrip(e: Enum)
        ensures
            Enum::spec_decode(e.spec_bytes()) == Some(e),
    {
        broadcast use crate::bytes_le::lemma_le32_roundtrip, crate::bytes_le::lemma_i32_roundtrip;

    }
}

} // verus!
