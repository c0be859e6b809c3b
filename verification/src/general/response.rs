//! Response bodies of the General command set. Every one starts with a
//! `ret_code` byte: 0 reports success.
use vstd::prelude::*;

use crate::bytes_le::{get_le16, get_le32, le16, le32, push_le16, push_le32, u16_of, u32_of};
use crate::traits::Response;

verus! {

broadcast use vstd::array::group_array_axioms;

/// Acknowledges a handshake (id 0x01).
#[derive(Debug, PartialEq, Eq, Clone, Copy)]
pub struct Handshake {
    pub ret_code: u8,
}

/// Firmware version, one byte per component (id 0x02).
#[derive(Debug, PartialEq, Eq, Clone, Copy)]
pub struct QueryDeviceInformation {
    pub ret_code: u8,
    pub version: [u8; 4],
}

/// Work state and feature bits of the device (id 0x03).
#[derive(Debug, PartialEq, Eq, Clone, Copy)]
pub struct Heartbeat {
    pub ret_code: u8,
    pub work_state: u8,
    pub feature_msg: u8,
    pub ack_msg: u32,
}

/// Acknowledges a sampling start or stop (id 0x04).
#[derive(Debug, PartialEq, Eq, Clone, Copy)]
pub struct StartStopSampling {
    pub ret_code: u8,
}

/// Acknowledges a coordinate-system change (id 0x05).
#[derive(Debug, PartialEq, Eq, Clone, Copy)]
pub struct ChangeCoordinateSystem {
    pub ret_code: u8,
}

/// Acknowledges a disconnect (id 0x06).
#[derive(Debug, PartialEq, Eq, Clone, Copy)]
pub struct Disconnect {
    pub ret_code: u8,
}

/// Acknowledges an IP configuration (id 0x08).
#[derive(Debug, PartialEq, Eq, Clone, Copy)]
pub struct ConfigureStaticDynamicIP {
    pub ret_code: u8,
}

/// The device's IP configuration (id 0x09).
#[derive(Debug, PartialEq, Eq, Clone, Copy)]
pub struct GetDeviceIPInformation {
    pub ret_code: u8,
    pub ip_mode: u8,
    pub ip_addr: [u8; 4],
    pub net_mask: [u8; 4],
    pub gw_addr: [u8; 4],
}

/// Acknowledges a reboot request (id 0x0A).
#[derive(Debug, PartialEq, Eq, Clone, Copy)]
pub struct RebootDevice {
    pub ret_code: u8,
}

impl Response for Handshake {

}

impl Response for QueryDeviceInformation {

}

impl Response for Heartbeat {

}

impl Response for StartStopSampling {

}

impl Response for ChangeCoordinateSystem {

}

impl Response for Disconnect {

}

impl Response for ConfigureStaticDynamicIP {

}

impl Response for GetDeviceIPInformation {

}

impl Response for RebootDevice {

}

/// A response of the General set: one byte of command id, then the body.
#[derive(Debug, PartialEq, Eq, Clone, Copy)]
pub enum Enum {
    Handshake(Handshake),
    QueryDeviceInformation(QueryDeviceInformation),
    Heartbeat(Heartbeat),
    StartStopSampling(StartStopSampling),
    ChangeCoordinateSystem(ChangeCoordinateSystem),
    Disconnect(Disconnect),
    ConfigureStaticDynamicIP(ConfigureStaticDynamicIP),
    GetDeviceIPInformation(GetDeviceIPInformation),
    RebootDevice(RebootDevice),
}

impl Enum {
    /// The wire bytes of this response: command id, then the packed body.
    pub open spec fn spec_bytes(self) -> Seq<u8> {
        match self {
            Enum::Handshake(b) => seq![0x01u8, b.ret_code],
            Enum::QueryDeviceInformation(b) => seq![0x02u8, b.ret_code] + b.version@,
            Enum::Heartbeat(b) => seq![0x03u8, b.ret_code, b.work_state, b.feature_msg] + le32(
                b.ack_msg,
            ),
            Enum::StartStopSampling(b) => seq![0x04u8, b.ret_code],
            Enum::ChangeCoordinateSystem(b) => seq![0x05u8, b.ret_code],
            Enum::Disconnect(b) => seq![0x06u8, b.ret_code],
            Enum::ConfigureStaticDynamicIP(b) => seq![0x08u8, b.ret_code],
            Enum::GetDeviceIPInformation(b) => seq![0x09u8, b.ret_code, b.ip_mode] + b.ip_addr@
                + b.net_mask@ + b.gw_addr@,
            Enum::RebootDevice(b) => seq![0x0Au8, b.ret_code],
        }
    }

    /// The response carried by `s`, if its command id is known and its body
    /// has exactly the body's size.
    pub open spec fn spec_decode(s: Seq<u8>) -> Option<Enum> {
        if s.len() == 0 {
            None
        } else if s[0] == 0x01 {
            if s.len() == 2 {
                Some(Enum::Handshake(Handshake { ret_code: s[1] }))
            } else {
                None
            }
        } else if s[0] == 0x02 {
            if s.len() == 6 {
                Some(
                    Enum::QueryDeviceInformation(
                        QueryDeviceInformation {
                            ret_code: s[1],
                            version: [s[2], s[3], s[4], s[5]],
                        },
                    ),
                )
            } else {
                None
            }
        } else if s[0] == 0x03 {
            if s.len() == 8 {
                Some(
                    Enum::Heartbeat(
                        Heartbeat {
                            ret_code: s[1],
                            work_state: s[2],
                            feature_msg: s[3],
                            ack_msg: u32_of(s[4], s[5], s[6], s[7]),
                        },
                    ),
                )
            } else {
                None
            }
        } else if s[0] == 0x04 {
            if s.len() == 2 {
                Some(Enum::StartStopSampling(StartStopSampling { ret_code: s[1] }))
            } else {
                None
            }
        } else if s[0] == 0x05 {
            if s.len() == 2 {
                Some(Enum::ChangeCoordinateSystem(ChangeCoordinateSystem { ret_code: s[1] }))
            } else {
                None
            }
        } else if s[0] == 0x06 {
            if s.len() == 2 {
                Some(Enum::Disconnect(Disconnect { ret_code: s[1] }))
            } else {
                None
            }
        } else if s[0] == 0x08 {
            if s.len() == 2 {
                Some(Enum::ConfigureStaticDynamicIP(ConfigureStaticDynamicIP { ret_code: s[1] }))
            } else {
                None
            }
        } else if s[0] == 0x09 {
            if s.len() == 15 {
                Some(
                    Enum::GetDeviceIPInformation(
                        GetDeviceIPInformation {
                            ret_code: s[1],
                            ip_mode: s[2],
                            ip_addr: [s[3], s[4], s[5], s[6]],
                            net_mask: [s[7], s[8], s[9], s[10]],
                            gw_addr: [s[11], s[12], s[13], s[14]],
                        },
                    ),
                )
            } else {
                None
            }
        } else if s[0] == 0x0A {
            if s.len() == 2 {
                Some(Enum::RebootDevice(RebootDevice { ret_code: s[1] }))
            } else {
                None
            }
        } else {
            None
        }
    }

    /// Append this response's wire bytes.
    pub fn encode(&self, out: &mut Vec<u8>)
        ensures
            final(out)@ == old(out)@ + self.spec_bytes(),
    {
        match self {
            Enum::Handshake(b) => {
                out.push(0x01);
                out.push(b.ret_code);
            },
            Enum::QueryDeviceInformation(b) => {
                out.push(0x02);
                out.push(b.ret_code);
                out.push(b.version[0]);
                out.push(b.version[1]);
                out.push(b.version[2]);
                out.push(b.version[3]);
            },
            Enum::Heartbeat(b) => {
                out.push(0x03);
                out.push(b.ret_code);
                out.push(b.work_state);
                out.push(b.feature_msg);
                push_le32(out, b.ack_msg);
            },
            Enum::StartStopSampling(b) => {
                out.push(0x04);
                out.push(b.ret_code);
            },
            Enum::ChangeCoordinateSystem(b) => {
                out.push(0x05);
                out.push(b.ret_code);
            },
            Enum::Disconnect(b) => {
                out.push(0x06);
                out.push(b.ret_code);
            },
            Enum::ConfigureStaticDynamicIP(b) => {
                out.push(0x08);
                out.push(b.ret_code);
            },
            Enum::GetDeviceIPInformation(b) => {
                out.push(0x09);
                out.push(b.ret_code);
                out.push(b.ip_mode);
                out.push(b.ip_addr[0]);
                out.push(b.ip_addr[1]);
                out.push(b.ip_addr[2]);
                out.push(b.ip_addr[3]);
                out.push(b.net_mask[0]);
                out.push(b.net_mask[1]);
                out.push(b.net_mask[2]);
                out.push(b.net_mask[3]);
                out.push(b.gw_addr[0]);
                out.push(b.gw_addr[1]);
                out.push(b.gw_addr[2]);
                out.push(b.gw_addr[3]);
            },
            Enum::RebootDevice(b) => {
                out.push(0x0A);
                out.push(b.ret_code);
            },
        }
        assert(out@ =~= old(out)@ + self.spec_bytes());
    }

    /// Decode one response from `bytes`.
    pub fn decode(bytes: &[u8]) -> (r: Option<Enum>)
        ensures
            r == Enum::spec_decode(bytes@),
    {
        if bytes.len() == 0 {
            return None;
        }
        let id = bytes[0];
        let n = bytes.len();
        match id {
            0x01 => {
                if n == 2 {
                    Some(Enum::Handshake(Handshake { ret_code: bytes[1] }))
                } else {
                    None
                }
            },
            0x02 => {
                if n == 6 {
                    Some(
                        Enum::QueryDeviceInformation(
                            QueryDeviceInformation {
                                ret_code: bytes[1],
                                version: [bytes[2], bytes[3], bytes[4], bytes[5]],
                            },
                        ),
                    )
                } else {
                    None
                }
            },
            0x03 => {
                if n == 8 {
                    Some(
                        Enum::Heartbeat(
                            Heartbeat {
                                ret_code: bytes[1],
                                work_state: bytes[2],
                                feature_msg: bytes[3],
                                ack_msg: get_le32(bytes, 4),
                            },
                        ),
                    )
                } else {
                    None
                }
            },
            0x04 => {
                if n == 2 {
                    Some(Enum::StartStopSampling(StartStopSampling { ret_code: bytes[1] }))
                } else {
                    None
                }
            },
            0x05 => {
                if n == 2 {
                    Some(
                        Enum::ChangeCoordinateSystem(ChangeCoordinateSystem { ret_code: bytes[1] }),
                    )
                } else {
                    None
                }
            },
            0x06 => {
                if n == 2 {
                    Some(Enum::Disconnect(Disconnect { ret_code: bytes[1] }))
                } else {
                    None
                }
            },
            0x08 => {
                if n == 2 {
                    Some(
                        Enum::ConfigureStaticDynamicIP(
                            ConfigureStaticDynamicIP { ret_code: bytes[1] },
                        ),
                    )
                } else {
                    None
                }
            },
            0x09 => {
                if n == 15 {
                    Some(
                        Enum::GetDeviceIPInformation(
                            GetDeviceIPInformation {
                                ret_code: bytes[1],
                                ip_mode: bytes[2],
                                ip_addr: [bytes[3], bytes[4], bytes[5], bytes[6]],
                                net_mask: [bytes[7], bytes[8], bytes[9], bytes[10]],
                                gw_addr: [bytes[11], bytes[12], bytes[13], bytes[14]],
                            },
                        ),
                    )
                } else {
                    None
                }
            },
            0x0A => {
                if n == 2 {
                    Some(Enum::RebootDevice(RebootDevice { ret_code: bytes[1] }))
                } else {
                    None
                }
            },
            _ => None,
        }
    }

    /// Decoding a response's own wire bytes yields the response again.
    pub proof fn lemma_roundtrip(e: Enum)
        ensures
            Enum::spec_decode(e.spec_bytes()) == Some(e),
    {
        broadcast use crate::bytes_le::lemma_le32_roundtrip;

        let s = e.spec_bytes();
        match e {
            Enum::QueryDeviceInformation(b) => {
                assert([s[2], s[3], s[4], s[5]] =~= b.version);
            },
            Enum::GetDeviceIPInformation(b) => {
                assert([s[3], s[4], s[5], s[6]] =~= b.ip_addr);
                assert([s[7], s[8], s[9], s[10]] =~= b.net_mask);
                assert([s[11], s[12], s[13], s[14]] =~= b.gw_addr);
            },
            _ => {},
        }
    }
}

} // verus!
