//! Point-cloud datagram decoding: the 96-record invariant, both record
//! types, and the status and tag bitfields.
use livox_rs::frame::ParseError;
use livox_rs::point_cloud::{
    DT3, HubStatusCode, LiDARStatusCode, Point3, PointCloudFrame, PointCloudFrameData, TagInfo,
};

/// An 18-byte header: version 1, slot 2, LiDAR id 3, the given status word,
/// timestamp type 1, a fixed timestamp, and the given data type.
fn header(status: u32, data_type: u8) -> Vec<u8> {
    let mut buf = vec![1u8, 2, 3, 0];
    buf.extend_from_slice(&status.to_le_bytes());
    buf.push(1);
    buf.extend_from_slice(&0x0102030405060708u64.to_le_bytes());
    buf.push(data_type);
    buf
}

/// A DT2 datagram whose record k carries (k, 2k, 3k).
fn ascending_dt2(records: usize) -> Vec<u8> {
    let mut buf = header(0, 0x02);
    for k in 0..records as i32 {
        buf.extend_from_slice(&k.to_le_bytes());
        buf.extend_from_slice(&(2 * k).to_le_bytes());
        buf.extend_from_slice(&(3 * k).to_le_bytes());
        buf.push(k as u8);
        buf.push(k as u8);
    }
    buf
}

#[test]
fn dt2_frame_decodes_ascending_coordinates() {
    let frame = PointCloudFrame::parse(&ascending_dt2(96)).unwrap();
    assert_eq!(frame.version, 1);
    assert_eq!(frame.slot_id, 2);
    assert_eq!(frame.lidar_id, 3);
    assert_eq!(frame.timestamp_type, 1);
    assert_eq!(frame.timestamp, 0x0102030405060708);
    match &frame.data {
        PointCloudFrameData::DT2(v) => {
            assert_eq!(v.len(), 96);
            for (k, record) in v.iter().enumerate() {
                assert_eq!(record.x, k as i32);
                assert_eq!(record.y, 2 * k as i32);
                assert_eq!(record.z, 3 * k as i32);
                assert_eq!(record.reflectivity, k as u8);
            }
        }
        other => panic!("expected DT2 records, got {:?}", other),
    }
    // Column k of the homogeneous matrix comes from these points; the
    // verified part ends at the integer coordinates.
    let points = frame.data.extract_points();
    assert_eq!(points.len(), 96);
    for (k, p) in points.iter().enumerate() {
        assert_eq!(
            *p,
            Point3 {
                x: k as i32,
                y: 2 * k as i32,
                z: 3 * k as i32
            }
        );
    }
}

#[test]
fn wrong_point_cloud_size_rejected() {
    assert_eq!(
        PointCloudFrame::parse(&ascending_dt2(95)),
        Err(ParseError::WrongPointCloudSize)
    );
    assert_eq!(
        PointCloudFrame::parse(&ascending_dt2(97)),
        Err(ParseError::WrongPointCloudSize)
    );
    // A partial trailing record is a wrong size too.
    let mut buf = ascending_dt2(96);
    buf.pop();
    assert_eq!(
        PointCloudFrame::parse(&buf),
        Err(ParseError::WrongPointCloudSize)
    );
}

#[test]
fn short_or_unknown_datagrams_rejected() {
    assert_eq!(
        PointCloudFrame::parse(&[1, 2, 3]),
        Err(ParseError::InvalidLength)
    );
    let buf = header(0, 0x04);
    assert_eq!(PointCloudFrame::parse(&buf), Err(ParseError::InvalidData));
}

#[test]
fn dt3_frame_decodes() {
    let mut buf = header(0, 0x03);
    for k in 0..96u32 {
        buf.extend_from_slice(&(1000 + k).to_le_bytes());
        buf.extend_from_slice(&(k as u16).to_le_bytes());
        buf.extend_from_slice(&(2 * k as u16).to_le_bytes());
        buf.push(7);
        buf.push(0b01_10_11_00);
    }
    let frame = PointCloudFrame::parse(&buf).unwrap();
    match &frame.data {
        PointCloudFrameData::DT3(v) => {
            assert_eq!(v.len(), 96);
            assert_eq!(
                v[5],
                DT3 {
                    depth: 1005,
                    theta: 5,
                    phi: 10,
                    reflectivity: 7,
                    tag: TagInfo {
                        space: 1,
                        strength: 2,
                        return_count: 3,
                        near_distortion: 0
                    },
                }
            );
        }
        other => panic!("expected DT3 records, got {:?}", other),
    }
}

#[test]
fn tag_bitfield_unpacks_msb_first() {
    let tag = TagInfo::from_byte(0b10_01_11_00);
    assert_eq!(
        tag,
        TagInfo {
            space: 2,
            strength: 1,
            return_count: 3,
            near_distortion: 0
        }
    );
    assert_eq!(
        TagInfo::from_byte(0xFF),
        TagInfo {
            space: 3,
            strength: 3,
            return_count: 3,
            near_distortion: 3
        }
    );
}

#[test]
fn lidar_status_bitfield_unpacks_msb_first() {
    let all = LiDARStatusCode::from_u32(0xFFFFFFFF);
    assert_eq!(all.temp_status, 3);
    assert_eq!(all.volt_status, 3);
    assert_eq!(all.motor_status, 3);
    assert_eq!(all.dirty_warn, 3);
    assert_eq!(all.firmware_status, 1);
    assert_eq!(all.pps_status, 1);
    assert_eq!(all.device_status, 1);
    assert_eq!(all.fan_status, 1);
    assert_eq!(all.self_heating, 1);
    assert_eq!(all.ptp_status, 1);
    assert_eq!(all.time_sync_status, 3);
    assert_eq!(all.reserved, 0x1FFF);
    assert_eq!(all.system_status, 3);

    let one = LiDARStatusCode::from_u32(1 << 30);
    assert_eq!(one.temp_status, 1);
    assert_eq!(one.volt_status, 0);
    assert_eq!(one.system_status, 0);

    // The status word travels in the datagram at offset 4, little endian.
    let mut buf = ascending_dt2(96);
    let status: u32 = (2 << 30) | (1 << 23) | (3 << 16) | (2 << 1);
    buf[4..8].copy_from_slice(&status.to_le_bytes());
    let frame = PointCloudFrame::parse(&buf).unwrap();
    assert_eq!(frame.status_code.temp_status, 2);
    assert_eq!(frame.status_code.firmware_status, 1);
    assert_eq!(frame.status_code.time_sync_status, 3);
    assert_eq!(frame.status_code.system_status, 2);
}

#[test]
fn hub_status_bitfield_unpacks_msb_first() {
    let v: u32 = (1 << 30) | (2 << 28) | (1 << 27) | (1 << 25) | 3;
    let hub = HubStatusCode::from_u32(v);
    assert_eq!(hub.sync_status, 1);
    assert_eq!(hub.temp_status, 2);
    assert_eq!(hub.lidar_status, 1);
    assert_eq!(hub.lidar_link_status, 0);
    assert_eq!(hub.firmware_status, 1);
    assert_eq!(hub.system_status, 3);
}

#[test]
fn negative_coordinates_decode() {
    let mut buf = header(0, 0x02);
    for _ in 0..96 {
        buf.extend_from_slice(&(-1i32).to_le_bytes());
        buf.extend_from_slice(&(-2000i32).to_le_bytes());
        buf.extend_from_slice(&i32::MIN.to_le_bytes());
        buf.push(0);
        buf.push(0);
    }
    let frame = PointCloudFrame::parse(&buf).unwrap();
    match &frame.data {
        PointCloudFrameData::DT2(v) => {
            assert_eq!(v[0].x, -1);
            assert_eq!(v[0].y, -2000);
            assert_eq!(v[0].z, i32::MIN);
        }
        other => panic!("expected DT2 records, got {:?}", other),
    }
}
