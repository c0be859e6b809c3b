//! Response bodies of the LiDAR command set.
//!
//! As in the requests, the extrinsic angles travel as IEEE-754 bit patterns
//! and are carried here as `u32` values.
use vstd::prelude::*;

use crate::bytes_le::{get_le32, le32, push_le32, u32_of};
use crate::traits::Response;

verus! {

/// Acknowledges a mode change (id 0x00).
#[derive(Debug, PartialEq, Eq, Clone, Copy)]
pub struct SetMode {
    pub ret_code: u8,
}

/// Acknowledges writing the mounting pose (id 0x01).
#[derive(Debug, PartialEq, Eq, Clone, Copy)]
pub struct WriteLiDARExtrinsicParameters {
    pub ret_code: u8,
}

/// The stored mounting pose (id 0x02).
#[derive(Debug, PartialEq, Eq, Clone, Copy)]
pub struct ReadLiDARExtrinsicParameters {
    pub ret_code: u8,
    pub roll: u32,
    pub pitch: u32,
    pub yaw: u32,
    pub x: i32,
    pub y: i32,
    pub z: i32,
}

/// Acknowledges a suppression change (id 0x03).
#[derive(Debug, PartialEq, Eq, Clone, Copy)]
pub struct TurnOnOffRainFogSuppression {
    pub ret_code: u8,
}

/// Acknowledges a fan change (id 0x04).
#[derive(Debug, PartialEq, Eq, Clone, Copy)]
pub struct SetTurnOnOffFan {
    pub ret_code: u8,
}

/// The fan state (id 0x05).
#[derive(Debug, PartialEq, Eq, Clone, Copy)]
pub struct GetTurnOnOffFanState {
    pub ret_code: u8,
    pub state: u8,
}

/// Acknowledges a return-mode change (id 0x06).
#[derive(Debug, PartialEq, Eq, Clone, Copy)]
pub struct SetLiDARReturnMode {
    pub ret_code: u8,
}

/// The return mode; this reply alone carries a 32-bit `ret_code` (id 0x07).
#[derive(Debug, PartialEq, Eq, Clone, Copy)]
pub struct GetLiDARReturnMode {
    pub ret_code: u32,
    pub mode: u8,
}

/// Acknowledges an IMU frequency change (id 0x08).
#[derive(Debug, PartialEq, Eq, Clone, Copy)]
pub struct SetIMUDataPushFrequency {
    pub ret_code: u8,
}

/// The IMU push frequency (id 0x09).
#[derive(Debug, PartialEq, Eq, Clone, Copy)]
pub struct GetIMUDataPushFrequency {
    pub ret_code: u8,
    pub frequency: u8,
}

/// Acknowledges a clock update (id 0x0A).
#[derive(Debug, PartialEq, Eq, Clone, Copy)]
pub struct UpdateUTCSynchronizeTime {
    pub ret_code: u8,
}

impl Response for SetMode {

}

impl Response for WriteLiDARExtrinsicParameters {

}

impl Response for ReadLiDARExtrinsicParameters {

}

impl Response for TurnOnOffRainFogSuppression {

}

impl Response for SetTurnOnOffFan {

}

impl Response for GetTurnOnOffFanState {

}

impl Response for SetLiDARReturnMode {

}

impl Response for GetLiDARReturnMode {

}

impl Response for SetIMUDataPushFrequency {

}

impl Response for GetIMUDataPushFrequency {

}

impl Response for UpdateUTCSynchronizeTime {

}

/// A response of the LiDAR set: one byte of command id, then the body.
#[derive(Debug, PartialEq, Eq, Clone, Copy)]
pub enum Enum {
    SetMode(SetMode),
    WriteLiDARExtrinsicParameters(WriteLiDARExtrinsicParameters),
    ReadLiDARExtrinsicParameters(ReadLiDARExtrinsicParameters),
    TurnOnOffRainFogSuppression(TurnOnOffRainFogSuppression),
    SetTurnOnOffFan(SetTurnOnOffFan),
    GetTurnOnOffFanState(GetTurnOnOffFanState),
    SetLiDARReturnMode(SetLiDARReturnMode),
    GetLiDARReturnMode(GetLiDARReturnMode),
    SetIMUDataPushFrequency(SetIMUDataPushFrequency),
    GetIMUDataPushFrequency(GetIMUDataPushFrequency),
    UpdateUTCSynchronizeTime(UpdateUTCSynchronizeTime),
}

impl Enum {
    /// The wire bytes of this response: command id, then the packed body.
    pub open spec fn spec_bytes(self) -> Seq<u8> {
        match self {
            Enum::SetMode(b) => seq![0x00u8, b.ret_code],
            Enum::WriteLiDARExtrinsicParameters(b) => seq![0x01u8, b.ret_code],
            Enum::ReadLiDARExtrinsicParameters(b) => seq![0x02u8, b.ret_code] + le32(b.roll) + le32(
                b.pitch,
            ) + le32(b.yaw) + le32(b.x as u32) + le32(b.y as u32) + le32(b.z as u32),
            Enum::TurnOnOffRainFogSuppression(b) => seq![0x03u8, b.ret_code],
            Enum::SetTurnOnOffFan(b) => seq![0x04u8, b.ret_code],
            Enum::GetTurnOnOffFanState(b) => seq![0x05u8, b.ret_code, b.state],
            Enum::SetLiDARReturnMode(b) => seq![0x06u8, b.ret_code],
            Enum::GetLiDARReturnMode(b) => seq![0x07u8] + le32(b.ret_code) + seq![b.mode],
            Enum::SetIMUDataPushFrequency(b) => seq![0x08u8, b.ret_code],
            Enum::GetIMUDataPushFrequency(b) => seq![0x09u8, b.ret_code, b.frequency],
            Enum::UpdateUTCSynchronizeTime(b) => seq![0x0Au8, b.ret_code],
        }
    }

    /// The response carried by `s`, if its command id is known and its body
    /// has exactly the body's size.
    pub open spec fn spec_decode(s: Seq<u8>) -> Option<Enum> {
        if s.len() == 0 {
            None
        } else if s[0] == 0x00 {
            if s.len() == 2 {
                Some(Enum::SetMode(SetMode { ret_code: s[1] }))
            } else {
                None
            }
        } else if s[0] == 0x01 {
            if s.len() == 2 {
                Some(
                    Enum::WriteLiDARExtrinsicParameters(
                        WriteLiDARExtrinsicParameters { ret_code: s[1] },
                    ),
                )
            } else {
                None
            }
        } else if s[0] == 0x02 {
            if s.len() == 26 {
                Some(
                    Enum::ReadLiDARExtrinsicParameters(
                        ReadLiDARExtrinsicParameters {
                            ret_code: s[1],
                            roll: u32_of(s[2], s[3], s[4], s[5]),
                            pitch: u32_of(s[6], s[7], s[8], s[9]),
                            yaw: u32_of(s[10], s[11], s[12], s[13]),
                            x: u32_of(s[14], s[15], s[16], s[17]) as i32,
                            y: u32_of(s[18], s[19], s[20], s[21]) as i32,
                            z: u32_of(s[22], s[23], s[24], s[25]) as i32,
                        },
                    ),
                )
            } else {
                None
            }
        } else if s[0] == 0x03 {
            if s.len() == 2 {
                Some(
                    Enum::TurnOnOffRainFogSuppression(TurnOnOffRainFogSuppression { ret_code: s[1] }),
                )
            } else {
                None
            }
        } else if s[0] == 0x04 {
            if s.len() == 2 {
                Some(Enum::SetTurnOnOffFan(SetTurnOnOffFan { ret_code: s[1] }))
            } else {
                None
            }
        } else if s[0] == 0x05 {
            if s.len() == 3 {
                Some(Enum::GetTurnOnOffFanState(GetTurnOnOffFanState { ret_code: s[1], state: s[2] }))
            } else {
                None
            }
        } else if s[0] == 0x06 {
            if s.len() == 2 {
                Some(Enum::SetLiDARReturnMode(SetLiDARReturnMode { ret_code: s[1] }))
            } else {
                None
            }
        } else if s[0] == 0x07 {
            if s.len() == 6 {
                Some(
                    Enum::GetLiDARReturnMode(
                        GetLiDARReturnMode {
                            ret_code: u32_of(s[1], s[2], s[3], s[4]),
                            mode: s[5],
                        },
                    ),
                )
            } else {
                None
            }
        } else if s[0] == 0x08 {
            if s.len() == 2 {
                Some(Enum::SetIMUDataPushFrequency(SetIMUDataPushFrequency { ret_code: s[1] }))
            } else {
                None
            }
        } else if s[0] == 0x09 {
            if s.len() == 3 {
                Some(
                    Enum::GetIMUDataPushFrequency(
                        GetIMUDataPushFrequency { ret_code: s[1], frequency: s[2] },
                    ),
                )
            } else {
                None
            }
        } else if s[0] == 0x0A {
            if s.len() == 2 {
                Some(Enum::UpdateUTCSynchronizeTime(UpdateUTCSynchronizeTime { ret_code: s[1] }))
            } else {
                None
            }
        } else {
            None
        }
    }

    /// Append this response's wire bytes.
    pub fn encode(&self, out: &mut Vec<u8>)
        ensures
            final(out)@ == old(out)@ + self.spec_bytes(),
    {
        match self {
            Enum::SetMode(b) => {
                out.push(0x00);
                out.push(b.ret_code);
            },
            Enum::WriteLiDARExtrinsicParameters(b) => {
                out.push(0x01);
                out.push(b.ret_code);
            },
            Enum::ReadLiDARExtrinsicParameters(b) => {
                out.push(0x02);
                out.push(b.ret_code);
                push_le32(out, b.roll);
                push_le32(out, b.pitch);
                push_le32(out, b.yaw);
                push_le32(out, b.x as u32);
                push_le32(out, b.y as u32);
                push_le32(out, b.z as u32);
            },
            Enum::TurnOnOffRainFogSuppression(b) => {
                out.push(0x03);
                out.push(b.ret_code);
            },
            Enum::SetTurnOnOffFan(b) => {
                out.push(0x04);
                out.push(b.ret_code);
            },
            Enum::GetTurnOnOffFanState(b) => {
                out.push(0x05);
                out.push(b.ret_code);
                out.push(b.state);
            },
            Enum::SetLiDARReturnMode(b) => {
                out.push(0x06);
                out.push(b.ret_code);
            },
            Enum::GetLiDARReturnMode(b) => {
                out.push(0x07);
                push_le32(out, b.ret_code);
                out.push(b.mode);
            },
            Enum::SetIMUDataPushFrequency(b) => {
                out.push(0x08);
                out.push(b.ret_code);
            },
            Enum::GetIMUDataPushFrequency(b) => {
                out.push(0x09);
                out.push(b.ret_code);
                out.push(b.frequency);
            },
            Enum::UpdateUTCSynchronizeTime(b) => {
                out.push(0x0A);
                out.push(b.ret_code);
            },
        }
        assert(out@ =~= old(out)@ + self.spec_bytes());
    }

    /// Decode one response from `bytes`.
    pub fn decode(bytes: &[u8]) -> (r: Option<Enum>)
        ensures
            r == Enum::spec_decode(bytes@),
    {
        if bytes.len() == 0 {
            return None;
        }
        let id = bytes[0];
        let n = bytes.len();
        match id {
            0x00 => {
                if n == 2 {
                    Some(Enum::SetMode(SetMode { ret_code: bytes[1] }))
                } else {
                    None
                }
            },
            0x01 => {
                if n == 2 {
                    Some(
                        Enum::WriteLiDARExtrinsicParameters(
                            WriteLiDARExtrinsicParameters { ret_code: bytes[1] },
                        ),
                    )
                } else {
                    None
                }
            },
            0x02 => {
                if n == 26 {
                    Some(
                        Enum::ReadLiDARExtrinsicParameters(
                            ReadLiDARExtrinsicParameters {
                                ret_code: bytes[1],
                                roll: get_le32(bytes, 2),
                                pitch: get_le32(bytes, 6),
                                yaw: get_le32(bytes, 10),
                                x: get_le32(bytes, 14) as i32,
                                y: get_le32(bytes, 18) as i32,
                                z: get_le32(bytes, 22) as i32,
                            },
                        ),
                    )
                } else {
                    None
                }
            },
            0x03 => {
                if n == 2 {
                    Some(
                        Enum::TurnOnOffRainFogSuppression(
                            TurnOnOffRainFogSuppression { ret_code: bytes[1] },
                        ),
                    )
                } else {
                    None
                }
            },
            0x04 => {
                if n == 2 {
                    Some(Enum::SetTurnOnOffFan(SetTurnOnOffFan { ret_code: bytes[1] }))
                } else {
                    None
                }
            },
            0x05 => {
                if n == 3 {
                    Some(
                        Enum::GetTurnOnOffFanState(
                            GetTurnOnOffFanState { ret_code: bytes[1], state: bytes[2] },
                        ),
                    )
                } else {
                    None
                }
            },
            0x06 => {
                if n == 2 {
                    Some(Enum::SetLiDARReturnMode(SetLiDARReturnMode { ret_code: bytes[1] }))
                } else {
                    None
                }
            },
            0x07 => {
                if n == 6 {
                    Some(
                        Enum::GetLiDARReturnMode(
                            GetLiDARReturnMode {
                                ret_code: get_le32(bytes, 1),
                                mode: bytes[5],
                            },
                        ),
                    )
                } else {
                    None
                }
            },
            0x08 => {
                if n == 2 {
                    Some(Enum::SetIMUDataPushFrequency(SetIMUDataPushFrequency { ret_code: bytes[1] }))
                } else {
                    None
                }
            },
            0x09 => {
                if n == 3 {
                    Some(
                        Enum::GetIMUDataPushFrequency(
                            GetIMUDataPushFrequency { ret_code: bytes[1], frequency: bytes[2] },
                        ),
                    )
                } else {
                    None
                }
            },
            0x0A => {
                if n == 2 {
                    Some(Enum::UpdateUTCSynchronizeTime(UpdateUTCSynchronizeTime { ret_code: bytes[1] }))
                } else {
                    None
                }
            },
            _ => None,
        }
    }

    /// Decoding a response's own wire bytes yields the response again.
    #[verifier::rlimit(50)]
    pub proof fn lemma_roundtrip(e: Enum)
        ensures
            Enum::spec_decode(e.spec_bytes()) == Some(e),
    {
        broadcast use crate::bytes_le::lemma_le32_roundtrip, crate::bytes_le::lemma_i32_roundtrip;

    }
}

} // verus!
