//! Request bodies of the General command set.
//!
//! Each body is a fixed-size packed little-endian struct, preceded on the
//! wire by its one-byte command id.
use vstd::prelude::*;

use crate::bytes_le::{get_le16, le16, push_le16, u16_of};
use crate::traits::Request;

verus! {

broadcast use vstd::array::group_array_axioms;

/// Bind host-selected data and command ports to the sensor (id 0x01).
#[derive(Debug, PartialEq, Eq, Clone, Copy)]
pub struct Handshake {
    pub user_ip: [u8; 4],
    pub data_port: u16,
    pub cmd_port: u16,
    pub imu_port: u16,
}

/// Query firmware information (id 0x02).
#[derive(Debug, PartialEq, Eq, Clone, Copy)]
pub struct QueryDeviceInformation {}

/// Liveness command; its absence drops the session (id 0x03).
#[derive(Debug, PartialEq, Eq, Clone, Copy)]
pub struct Heartbeat {}

/// Start (1) or stop (0) point-cloud sampling (id 0x04).
#[derive(Debug, PartialEq, Eq, Clone, Copy)]
pub struct StartStopSampling {
    pub sample_ctrl: u8,
}

/// Select Cartesian (0) or spherical (1) coordinates (id 0x05).
#[derive(Debug, PartialEq, Eq, Clone, Copy)]
pub struct ChangeCoordinateSystem {
    pub coordinate_type: u8,
}

/// End the session (id 0x06).
#[derive(Debug, PartialEq, Eq, Clone, Copy)]
pub struct Disconnect {}

/// Configure a static or dynamic IP address (id 0x08).
#[derive(Debug, PartialEq, Eq, Clone, Copy)]
pub struct ConfigureStaticDynamicIP {
    pub ip_mode: u8,
    pub ip_addr: [u8; 4],
    pub net_mask: [u8; 4],
    pub gw_addr: [u8; 4],
}

/// Query the device's IP configuration (id 0x09).
#[derive(Debug, PartialEq, Eq, Clone, Copy)]
pub struct GetDeviceIPInformation {}

/// Reboot after `timeout` milliseconds (id 0x0A).
#[derive(Debug, PartialEq, Eq, Clone, Copy)]
pub struct RebootDevice {
    pub timeout: u16,
}

impl Request for Handshake {
    type Response = crate::general::response::Handshake;
}

impl Request for QueryDeviceInformation {
    type Response = crate::general::response::QueryDeviceInformation;
}

impl Request for Heartbeat {
    type Response = crate::general::response::Heartbeat;
}

impl Request for StartStopSampling {
    type Response = crate::general::response::StartStopSampling;
}

impl Request for ChangeCoordinateSystem {
    type Response = crate::general::response::ChangeCoordinateSystem;
}

impl Request for Disconnect {
    type Response = crate::general::response::Disconnect;
}

impl Request for ConfigureStaticDynamicIP {
    type Response = crate::general::response::ConfigureStaticDynamicIP;
}

impl Request for GetDeviceIPInformation {
    type Response = crate::general::response::GetDeviceIPInformation;
}

impl Request for RebootDevice {
    type Response = crate::general::response::RebootDevice;
}

/// A request of the General set: one byte of command id, then the body.
#[derive(Debug, PartialEq, Eq, Clone, Copy)]
pub enum Enum {
    Handshake(Handshake),
    QueryDeviceInformation(QueryDeviceInformation),
    Heartbeat(Heartbeat),
    StartStopSampling(StartStopSampling),
    ChangeCoordinateSystem(ChangeCoordinateSystem),
    Disconnect(Disconnect),
    ConfigureStaticDynamicIP(ConfigureStaticDynamicIP),
    GetDeviceIPInformation(GetDeviceIPInformation),
    RebootDevice(RebootDevice),
}

impl Enum {
    /// The wire bytes of this request: command id, then the packed body.
    pub open spec fn spec_bytes(self) -> Seq<u8> {
        match self {
            Enum::Handshake(b) => seq![0x01u8] + b.user_ip@ + le16(b.data_port) + le16(b.cmd_port)
                + le16(b.imu_port),
            Enum::QueryDeviceInformation(_) => seq![0x02u8],
            Enum::Heartbeat(_) => seq![0x03u8],
            Enum::StartStopSampling(b) => seq![0x04u8, b.sample_ctrl],
            Enum::ChangeCoordinateSystem(b) => seq![0x05u8, b.coordinate_type],
            Enum::Disconnect(_) => seq![0x06u8],
            Enum::ConfigureStaticDynamicIP(b) => seq![0x08u8, b.ip_mode] + b.ip_addr@ + b.net_mask@
                + b.gw_addr@,
            Enum::GetDeviceIPInformation(_) => seq![0x09u8],
            Enum::RebootDevice(b) => seq![0x0Au8] + le16(b.timeout),
        }
    }

    /// The request carried by `s`, if its command id is known and its body
    /// has exactly the body's size.
    pub open spec fn spec_decode(s: Seq<u8>) -> Option<Enum> {
        if s.len() == 0 {
            None
        } else if s[0] == 0x01 {
            if s.len() == 11 {
                Some(
                    Enum::Handshake(
                        Handshake {
                            user_ip: [s[1], s[2], s[3], s[4]],
                            data_port: u16_of(s[5], s[6]),
                            cmd_port: u16_of(s[7], s[8]),
                            imu_port: u16_of(s[9], s[10]),
                        },
                    ),
                )
            } else {
                None
            }
        } else if s[0] == 0x02 {
            if s.len() == 1 {
                Some(Enum::QueryDeviceInformation(QueryDeviceInformation {}))
            } else {
                None
            }
        } else if s[0] == 0x03 {
            if s.len() == 1 {
                Some(Enum::Heartbeat(Heartbeat {}))
            } else {
                None
            }
        } else if s[0] == 0x04 {
            if s.len() == 2 {
                Some(Enum::StartStopSampling(StartStopSampling { sample_ctrl: s[1] }))
            } else {
                None
            }
        } else if s[0] == 0x05 {
            if s.len() == 2 {
                Some(Enum::ChangeCoordinateSystem(ChangeCoordinateSystem { coordinate_type: s[1] }))
            } else {
                None
            }
        } else if s[0] == 0x06 {
            if s.len() == 1 {
                Some(Enum::Disconnect(Disconnect {}))
            } else {
                None
            }
        } else if s[0] == 0x08 {
            if s.len() == 14 {
                Some(
                    Enum::ConfigureStaticDynamicIP(
                        ConfigureStaticDynamicIP {
                            ip_mode: s[1],
                            ip_addr: [s[2], s[3], s[4], s[5]],
                            net_mask: [s[6], s[7], s[8], s[9]],
                            gw_addr: [s[10], s[11], s[12], s[13]],
                        },
                    ),
                )
            } else {
                None
            }
        } else if s[0] == 0x09 {
            if s.len() == 1 {
                Some(Enum::GetDeviceIPInformation(GetDeviceIPInformation {}))
            } else {
                None
            }
        } else if s[0] == 0x0A {
            if s.len() == 3 {
                Some(Enum::RebootDevice(RebootDevice { timeout: u16_of(s[1], s[2]) }))
            } else {
                None
            }
        } else {
            None
        }
    }

    /// Append this request's wire bytes.
    pub fn encode(&self, out: &mut Vec<u8>)
        ensures
            final(out)@ == old(out)@ + self.spec_bytes(),
    {
        match self {
            Enum::Handshake(b) => {
                out.push(0x01);
                out.push(b.user_ip[0]);
                out.push(b.user_ip[1]);
                out.push(b.user_ip[2]);
                out.push(b.user_ip[3]);
                push_le16(out, b.data_port);
                push_le16(out, b.cmd_port);
                push_le16(out, b.imu_port);
            },
            Enum::QueryDeviceInformation(_) => {
                out.push(0x02);
            },
            Enum::Heartbeat(_) => {
                out.push(0x03);
            },
            Enum::StartStopSampling(b) => {
                out.push(0x04);
                out.push(b.sample_ctrl);
            },
            Enum::ChangeCoordinateSystem(b) => {
                out.push(0x05);
                out.push(b.coordinate_type);
            },
            Enum::Disconnect(_) => {
                out.push(0x06);
            },
            Enum::ConfigureStaticDynamicIP(b) => {
                out.push(0x08);
                out.push(b.ip_mode);
                out.push(b.ip_addr[0]);
                out.push(b.ip_addr[1]);
                out.push(b.ip_addr[2]);
                out.push(b.ip_addr[3]);
                out.push(b.net_mask[0]);
                out.push(b.net_mask[1]);
                out.push(b.net_mask[2]);
                out.push(b.net_mask[3]);
                out.push(b.gw_addr[0]);
                out.push(b.gw_addr[1]);
                out.push(b.gw_addr[2]);
                out.push(b.gw_addr[3]);
            },
            Enum::GetDeviceIPInformation(_) => {
                out.push(0x09);
            },
            Enum::RebootDevice(b) => {
                out.push(0x0A);
                push_le16(out, b.timeout);
            },
        }
        assert(out@ =~= old(out)@ + self.spec_bytes());
    }

    /// Decode one request from `bytes`.
    pub fn decode(bytes: &[u8]) -> (r: Option<Enum>)
        ensures
            r == Enum::spec_decode(bytes@),
    {
        if bytes.len() == 0 {
            return None;
        }
        let id = bytes[0];
        let n = bytes.len();
        match id {
            0x01 => {
                if n == 11 {
                    let r = Some(
                        Enum::Handshake(
                            Handshake {
                                user_ip: [bytes[1], bytes[2], bytes[3], bytes[4]],
                                data_port: get_le16(bytes, 5),
                                cmd_port: get_le16(bytes, 7),
                                imu_port: get_le16(bytes, 9),
                            },
                        ),
                    );
                    assert(r == Enum::spec_decode(bytes@)) by {
                        assert([bytes@[1], bytes@[2], bytes@[3], bytes@[4]] =~= [
                            bytes@[1],
                            bytes@[2],
                            bytes@[3],
                            bytes@[4],
                        ]);
                    }
                    r
                } else {
                    None
                }
            },
            0x02 => {
                if n == 1 {
                    Some(Enum::QueryDeviceInformation(QueryDeviceInformation {}))
                } else {
                    None
                }
            },
            0x03 => {
                if n == 1 {
                    Some(Enum::Heartbeat(Heartbeat {}))
                } else {
                    None
                }
            },
            0x04 => {
                if n == 2 {
                    Some(Enum::StartStopSampling(StartStopSampling { sample_ctrl: bytes[1] }))
                } else {
                    None
                }
            },
            0x05 => {
                if n == 2 {
                    Some(
                        Enum::ChangeCoordinateSystem(
                            ChangeCoordinateSystem { coordinate_type: bytes[1] },
                        ),
                    )
                } else {
                    None
                }
            },
            0x06 => {
                if n == 1 {
                    Some(Enum::Disconnect(Disconnect {}))
                } else {
                    None
                }
            },
            0x08 => {
                if n == 14 {
                    Some(
                        Enum::ConfigureStaticDynamicIP(
                            ConfigureStaticDynamicIP {
                                ip_mode: bytes[1],
                                ip_addr: [bytes[2], bytes[3], bytes[4], bytes[5]],
                                net_mask: [bytes[6], bytes[7], bytes[8], bytes[9]],
                                gw_addr: [bytes[10], bytes[11], bytes[12], bytes[13]],
                            },
                        ),
                    )
                } else {
                    None
                }
            },
            0x09 => {
                if n == 1 {
                    Some(Enum::GetDeviceIPInformation(GetDeviceIPInformation {}))
                } else {
                    None
                }
            },
            0x0A => {
                if n == 3 {
                    Some(Enum::RebootDevice(RebootDevice { timeout: get_le16(bytes, 1) }))
                } else {
                    None
                }
            },
            _ => None,
        }
    }

    /// Decoding a request's own wire bytes yields the request again.
    pub proof fn lemma_roundtrip(e: Enum)
        ensures
            Enum::spec_decode(e.spec_bytes()) == Some(e),
    {
        broadcast use crate::bytes_le::lemma_le16_roundtrip;

        let s = e.spec_bytes();
        match e {
            Enum::Handshake(b) => {
                assert([s[1], s[2], s[3], s[4]] =~= b.user_ip);
            },
            Enum::ConfigureStaticDynamicIP(b) => {
                assert([s[2], s[3], s[4], s[5]] =~= b.ip_addr);
                assert([s[6], s[7], s[8], s[9]] =~= b.net_mask);
                assert([s[10], s[11], s[12], s[13]] =~= b.gw_addr);
            },
            _ => {},
        }
    }
}

} // verus!
