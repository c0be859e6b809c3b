//! Point-cloud datagrams from the data channel: an 18-byte header, then
//! exactly 96 point records, Cartesian (DT2) or spherical (DT3).
//!
//! Layout: version, slot id, LiDAR id, one reserved byte, a 32-bit status
//! bitfield, a timestamp type, a 64-bit timestamp, a data-type byte, then
//! the records.
use vstd::prelude::*;

use crate::bytes_le::{get_le16, get_le32, get_le64, u16_of, u32_of, u64_of};
use crate::frame::ParseError;

verus! {

/// Per-point tag byte, fields packed from the most significant bit down:
/// space (2), strength (2), return count (2), near distortion (2).
#[derive(Debug, PartialEq, Eq, Clone, Copy)]
pub struct TagInfo {
    pub space: u8,
    pub strength: u8,
    pub return_count: u8,
    pub near_distortion: u8,
}

impl TagInfo {
    /// The fields carried by the tag byte.
    pub open spec fn spec_of(b: u8) -> TagInfo {
        TagInfo {
            space: (b >> 6) & 3,
            strength: (b >> 4) & 3,
            return_count: (b >> 2) & 3,
            near_distortion: b & 3,
        }
    }

    /// Unpack one tag byte.
    pub fn from_byte(b: u8) -> (r: TagInfo)
        ensures
            r == TagInfo::spec_of(b),
    {
        TagInfo {
            space: (b >> 6) & 3,
            strength: (b >> 4) & 3,
            return_count: (b >> 2) & 3,
            near_distortion: b & 3,
        }
    }
}

/// Device status bitfield of a LiDAR unit, 31 bits packed from the most
/// significant bit down; the lowest bit is unused.
#[derive(Debug, PartialEq, Eq, Clone, Copy)]
pub struct LiDARStatusCode {
    pub temp_status: u8,
    pub volt_status: u8,
    pub motor_status: u8,
    pub dirty_warn: u8,
    pub firmware_status: u8,
    pub pps_status: u8,
    pub device_status: u8,
    pub fan_status: u8,
    pub self_heating: u8,
    pub ptp_status: u8,
    pub time_sync_status: u8,
    pub reserved: u16,
    pub system_status: u8,
}

impl LiDARStatusCode {
    /// The fields carried by the 32-bit status word.
    pub open spec fn spec_of(v: u32) -> LiDARStatusCode {
        LiDARStatusCode {
            temp_status: ((v >> 30) & 3) as u8,
            volt_status: ((v >> 28) & 3) as u8,
            motor_status: ((v >> 26) & 3) as u8,
            dirty_warn: ((v >> 24) & 3) as u8,
            firmware_status: ((v >> 23) & 1) as u8,
            pps_status: ((v >> 22) & 1) as u8,
            device_status: ((v >> 21) & 1) as u8,
            fan_status: ((v >> 20) & 1) as u8,
            self_heating: ((v >> 19) & 1) as u8,
            ptp_status: ((v >> 18) & 1) as u8,
            time_sync_status: ((v >> 16) & 3) as u8,
            reserved: ((v >> 3) & 0x1FFF) as u16,
            system_status: ((v >> 1) & 3) as u8,
        }
    }

    /// Unpack one status word.
    pub fn from_u32(v: u32) -> (r: LiDARStatusCode)
        ensures
            r == LiDARStatusCode::spec_of(v),
    {
        LiDARStatusCode {
            temp_status: ((v >> 30) & 3) as u8,
            volt_status: ((v >> 28) & 3) as u8,
            motor_status: ((v >> 26) & 3) as u8,
            dirty_warn: ((v >> 24) & 3) as u8,
            firmware_status: ((v >> 23) & 1) as u8,
            pps_status: ((v >> 22) & 1) as u8,
            device_status: ((v >> 21) & 1) as u8,
            fan_status: ((v >> 20) & 1) as u8,
            self_heating: ((v >> 19) & 1) as u8,
            ptp_status: ((v >> 18) & 1) as u8,
            time_sync_status: ((v >> 16) & 3) as u8,
            reserved: ((v >> 3) & 0x1FFF) as u16,
            system_status: ((v >> 1) & 3) as u8,
        }
    }
}

/// Device status bitfield of a hub, 32 bits packed from the most
/// significant bit down.
#[derive(Debug, PartialEq, Eq, Clone, Copy)]
pub struct HubStatusCode {
    pub sync_status: u8,
    pub temp_status: u8,
    pub lidar_status: u8,
    pub lidar_link_status: u8,
    pub firmware_status: u8,
    pub reserved: u32,
    pub system_status: u8,
}

impl HubStatusCode {
    /// The fields carried by the 32-bit status word.
    pub open spec fn spec_of(v: u32) -> HubStatusCode {
        HubStatusCode {
            sync_status: ((v >> 30) & 3) as u8,
            temp_status: ((v >> 28) & 3) as u8,
            lidar_status: ((v >> 27) & 1) as u8,
            lidar_link_status: ((v >> 26) & 1) as u8,
            firmware_status: ((v >> 25) & 1) as u8,
            reserved: (v >> 2) & 0x7FFFFF,
            system_status: (v & 3) as u8,
        }
    }

    /// Unpack one status word.
    pub fn from_u32(v: u32) -> (r: HubStatusCode)
        ensures
            r == HubStatusCode::spec_of(v),
    {
        HubStatusCode {
            sync_status: ((v >> 30) & 3) as u8,
            temp_status: ((v >> 28) & 3) as u8,
            lidar_status: ((v >> 27) & 1) as u8,
            lidar_link_status: ((v >> 26) & 1) as u8,
            firmware_status: ((v >> 25) & 1) as u8,
            reserved: (v >> 2) & 0x7FFFFF,
            system_status: (v & 3) as u8,
        }
    }
}

/// A Cartesian point record: millimetre coordinates, reflectivity, tag
/// (14 bytes on the wire, data type 2).
#[derive(Debug, PartialEq, Eq, Clone, Copy)]
pub struct DT2 {
    pub x: i32,
    pub y: i32,
    pub z: i32,
    pub reflectivity: u8,
    pub tag: TagInfo,
}

/// A spherical point record: depth, two angles, reflectivity, tag
/// (10 bytes on the wire, data type 3).
#[derive(Debug, PartialEq, Eq, Clone, Copy)]
pub struct DT3 {
    pub depth: u32,
    pub theta: u16,
    pub phi: u16,
    pub reflectivity: u8,
    pub tag: TagInfo,
}

/// An integer Cartesian point.
#[derive(Debug, PartialEq, Eq, Clone, Copy)]
pub struct Point3 {
    pub x: i32,
    pub y: i32,
    pub z: i32,
}

impl DT2 {
    /// The record starting at offset `off` of `s`.
    pub open spec fn spec_at(s: Seq<u8>, off: int) -> DT2 {
        DT2 {
            x: u32_of(s[off], s[off + 1], s[off + 2], s[off + 3]) as i32,
            y: u32_of(s[off + 4], s[off + 5], s[off + 6], s[off + 7]) as i32,
            z: u32_of(s[off + 8], s[off + 9], s[off + 10], s[off + 11]) as i32,
            reflectivity: s[off + 12],
            tag: TagInfo::spec_of(s[off + 13]),
        }
    }

    /// Read the record starting at offset `off`.
    pub fn read_at(bytes: &[u8], off: usize) -> (r: DT2)
        requires
            off + 14 <= bytes@.len(),
            bytes@.len() <= usize::MAX,
        ensures
            r == DT2::spec_at(bytes@, off as int),
    {
        DT2 {
            x: #[verifier::truncate] (get_le32(bytes, off) as i32),
            y: #[verifier::truncate] (get_le32(bytes, off + 4) as i32),
            z: #[verifier::truncate] (get_le32(bytes, off + 8) as i32),
            reflectivity: bytes[off + 12],
            tag: TagInfo::from_byte(bytes[off + 13]),
        }
    }

    /// This record's coordinates as a point.
    pub fn to_point(&self) -> (r: Point3)
        ensures
            r == (Point3 { x: self.x, y: self.y, z: self.z }),
    {
        Point3 { x: self.x, y: self.y, z: self.z }
    }
}

impl DT3 {
    /// The record starting at offset `off` of `s`.
    pub open spec fn spec_at(s: Seq<u8>, off: int) -> DT3 {
        DT3 {
            depth: u32_of(s[off], s[off + 1], s[off + 2], s[off + 3]),
            theta: u16_of(s[off + 4], s[off + 5]),
            phi: u16_of(s[off + 6], s[off + 7]),
            reflectivity: s[off + 8],
            tag: TagInfo::spec_of(s[off + 9]),
        }
    }

    /// Read the record starting at offset `off`.
    pub fn read_at(bytes: &[u8], off: usize) -> (r: DT3)
        requires
            off + 10 <= bytes@.len(),
            bytes@.len() <= usize::MAX,
        ensures
            r == DT3::spec_at(bytes@, off as int),
    {
        DT3 {
            depth: get_le32(bytes, off),
            theta: get_le16(bytes, off + 4),
            phi: get_le16(bytes, off + 6),
            reflectivity: bytes[off + 8],
            tag: TagInfo::from_byte(bytes[off + 9]),
        }
    }
}

/// The records of a point-cloud frame, by data type.
#[derive(Debug, PartialEq, Eq, Clone)]
pub enum PointCloudFrameData {
    DT2(Vec<DT2>),
    DT3(Vec<DT3>),
}

impl PointCloudFrameData {
    /// The coordinates of every Cartesian record, in order.
    pub fn extract_points(&self) -> (r: Vec<Point3>)
        requires
            self matches PointCloudFrameData::DT2(_),
        ensures
            self matches PointCloudFrameData::DT2(v) ==> {
                &&& r@.len() == v@.len()
                &&& forall|k: int|
                    0 <= k < v@.len() ==> r@[k] == (Point3 {
                        x: v@[k].x,
                        y: v@[k].y,
                        z: v@[k].z,
                    })
            },
    {
        match self {
            PointCloudFrameData::DT2(v) => {
                let mut out: Vec<Point3> = Vec::new();
                let mut i: usize = 0;
                while i < v.len()
                    invariant
                        i <= v@.len(),
                        out@.len() == i,
                        forall|k: int|
                            0 <= k < i ==> out@[k] == (Point3 {
                                x: v@[k].x,
                                y: v@[k].y,
                                z: v@[k].z,
                            }),
                    decreases v@.len() - i,
                {
                    out.push(v[i].to_point());
                    i = i + 1;
                }
                out
            },
            PointCloudFrameData::DT3(_) => {
                proof {
                    assert(false);
                }
                Vec::new()
            },
        }
    }
}

/// One decoded point-cloud datagram.
#[derive(Debug, PartialEq, Eq, Clone)]
pub struct PointCloudFrame {
    pub version: u8,
    pub slot_id: u8,
    pub lidar_id: u8,
    pub status_code: LiDARStatusCode,
    pub timestamp_type: u8,
    pub timestamp: u64,
    pub data: PointCloudFrameData,
}

impl PointCloudFrame {
    /// The header fields of `f` are the ones carried by `s`.
    pub open spec fn header_matches(self, s: Seq<u8>) -> bool {
        &&& self.version == s[0]
        &&& self.slot_id == s[1]
        &&& self.lidar_id == s[2]
        &&& self.status_code == LiDARStatusCode::spec_of(u32_of(s[4], s[5], s[6], s[7]))
        &&& self.timestamp_type == s[8]
        &&& self.timestamp == u64_of(s, 9)
    }

    /// Parse one point-cloud datagram: the 18-byte header, then exactly 96
    /// records of the declared data type.
    ///
    /// Fails `InvalidLength` on a buffer too short for the header,
    /// `InvalidData` on an unknown data type, and `WrongPointCloudSize`
    /// whenever the record region is not exactly 96 records.
    pub fn parse(bytes: &[u8]) -> (r: Result<PointCloudFrame, ParseError>)
        ensures
            bytes@.len() < 18 ==> r == Err::<PointCloudFrame, ParseError>(ParseError::InvalidLength),
            bytes@.len() >= 18 && bytes@[17] != 0x02 && bytes@[17] != 0x03 ==> r == Err::<
                PointCloudFrame,
                ParseError,
            >(ParseError::InvalidData),
            bytes@.len() >= 18 && bytes@[17] == 0x02 && bytes@.len() != 18 + 96 * 14 ==> r == Err::<
                PointCloudFrame,
                ParseError,
            >(ParseError::WrongPointCloudSize),
            bytes@.len() >= 18 && bytes@[17] == 0x03 && bytes@.len() != 18 + 96 * 10 ==> r == Err::<
                PointCloudFrame,
                ParseError,
            >(ParseError::WrongPointCloudSize),
            bytes@.len() >= 18 && bytes@[17] == 0x02 && bytes@.len() == 18 + 96 * 14 ==> (r matches
                Ok(f) && f.header_matches(bytes@) && (f.data matches PointCloudFrameData::DT2(v)
                && v@.len() == 96 && (forall|k: int|
                0 <= k < 96 ==> v@[k] == DT2::spec_at(bytes@, 18 + 14 * k)))),
            bytes@.len() >= 18 && bytes@[17] == 0x03 && bytes@.len() == 18 + 96 * 10 ==> (r matches
                Ok(f) && f.header_matches(bytes@) && (f.data matches PointCloudFrameData::DT3(v)
                && v@.len() == 96 && (forall|k: int|
                0 <= k < 96 ==> v@[k] == DT3::spec_at(bytes@, 18 + 10 * k)))),
    {
        if bytes.len() < 18 {
            return Err(ParseError::InvalidLength);
        }
        let data_type = bytes[17];
        if data_type != 0x02 && data_type != 0x03 {
            return Err(ParseError::InvalidData);
        }
        let record_len: usize = if data_type == 0x02 {
            14
        } else {
            10
        };
        if bytes.len() != 18 + 96 * record_len {
            return Err(ParseError::WrongPointCloudSize);
        }
        let data = if data_type == 0x02 {
            let mut v: Vec<DT2> = Vec::new();
            let mut k: usize = 0;
            while k < 96
                invariant
                    k <= 96,
                    v@.len() == k,
                    bytes@.len() == 18 + 96 * 14,
                    forall|j: int| 0 <= j < k ==> v@[j] == DT2::spec_at(bytes@, 18 + 14 * j),
                decreases 96 - k,
            {
                v.push(DT2::read_at(bytes, 18 + 14 * k));
                k = k + 1;
            }
            PointCloudFrameData::DT2(v)
        } else {
            let mut v: Vec<DT3> = Vec::new();
            let mut k: usize = 0;
            while k < 96
                invariant
                    k <= 96,
                    v@.len() == k,
                    bytes@.len() == 18 + 96 * 10,
                    forall|j: int| 0 <= j < k ==> v@[j] == DT3::spec_at(bytes@, 18 + 10 * j),
                decreases 96 - k,
            {
                v.push(DT3::read_at(bytes, 18 + 10 * k));
                k = k + 1;
            }
            PointCloudFrameData::DT3(v)
        };
        Ok(
            PointCloudFrame {
                version: bytes[0],
                slot_id: bytes[1],
                lidar_id: bytes[2],
                status_code: LiDARStatusCode::from_u32(get_le32(bytes, 4)),
                timestamp_type: bytes[8],
                timestamp: get_le64(bytes, 9),
                data,
            },
        )
    }
}

} // verus!
