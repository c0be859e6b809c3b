//! Wire-level scenarios: literal byte streams, checksum failures, and the
//! validation order of the frame parser.
use livox_rs::frame::{ControlFrame, FrameData, ParseError};
use livox_rs::general;
use livox_rs::lidar;
use livox_rs::payload::{MessageData, RequestData, ResponseData};

/// The discovery broadcast of sensor 420252100000000, byte for byte, with
/// both checksums in place.
fn broadcast_bytes() -> Vec<u8> {
    vec![
        0xAA, 0x01, 0x22, 0x00, 0x02, 0x00, 0x00, 0x59, 0x7E, 0x00, 0x00, 0x34, 0x32, 0x30, 0x32,
        0x35, 0x32, 0x31, 0x30, 0x30, 0x30, 0x30, 0x30, 0x30, 0x30, 0x30, 0x00, 0x06, 0x00, 0x00,
        0x48, 0x02, 0x89, 0x2A,
    ]
}

fn handshake_frame() -> ControlFrame {
    ControlFrame {
        version: 1,
        data: FrameData::Request(RequestData::General(general::request::Enum::Handshake(
            general::request::Handshake {
                user_ip: [192, 168, 1, 50],
                data_port: 7731,
                cmd_port: 1157,
                imu_port: 0,
            },
        ))),
        seq_num: 0,
    }
}

/// The handshake request of `handshake_frame`, byte for byte.
fn handshake_bytes() -> Vec<u8> {
    vec![
        0xAA, 0x01, 0x19, 0x00, 0x00, 0x00, 0x00, 0xDC, 0x58, 0x00, 0x01, 0xC0, 0xA8, 0x01, 0x32,
        0x33, 0x1E, 0x85, 0x04, 0x00, 0x00, 0xF0, 0x71, 0x96, 0xD8,
    ]
}

#[test]
fn broadcast_decode() {
    let parsed = ControlFrame::parse(&broadcast_bytes()).unwrap();
    let mut code = [0x30u8; 16];
    code[0] = b'4';
    code[1] = b'2';
    code[2] = b'0';
    code[3] = b'2';
    code[4] = b'5';
    code[5] = b'2';
    code[6] = b'1';
    code[15] = 0;
    assert_eq!(
        parsed,
        ControlFrame {
            version: 1,
            data: FrameData::Message(MessageData::General(
                general::message::Enum::BroadcastMessage(general::message::BroadcastMessage {
                    broadcast_code: code,
                    dev_type: 6,
                    reserved: 0,
                })
            )),
            seq_num: 0,
        }
    );
}

#[test]
fn broadcast_serialize_is_byte_exact() {
    let parsed = ControlFrame::parse(&broadcast_bytes()).unwrap();
    assert_eq!(parsed.serialize(), broadcast_bytes());
}

#[test]
fn handshake_request_roundtrip() {
    let frame = handshake_frame();
    let buf = frame.serialize();
    assert_eq!(buf, handshake_bytes());
    assert_eq!(ControlFrame::parse(&buf).unwrap(), frame);
}

#[test]
fn crc_corruption() {
    // A flipped payload byte fails the whole-frame check; a flipped header
    // byte fails the header check first.
    let mut buf = handshake_bytes();
    buf[10] ^= 0xFF;
    assert_eq!(ControlFrame::parse(&buf), Err(ParseError::InvalidCrc32));

    let mut buf = handshake_bytes();
    buf[1] ^= 0xFF;
    assert!(matches!(
        ControlFrame::parse(&buf),
        Err(ParseError::InvalidCrc16 { .. })
    ));
}

#[test]
fn crc16_error_reports_both_values() {
    let good = handshake_bytes();
    let mut buf = good.clone();
    // Corrupt the stored header checksum itself: the computed value stays
    // that of the intact header.
    buf[7] ^= 0x01;
    match ControlFrame::parse(&buf) {
        Err(ParseError::InvalidCrc16 { frame, calculated }) => {
            let good_stored = u16::from_le_bytes([good[7], good[8]]);
            assert_eq!(frame, good_stored ^ 0x01);
            assert_eq!(calculated, good_stored);
        }
        other => panic!("expected InvalidCrc16, got {:?}", other),
    }
}

#[test]
fn corrupting_stored_crc32_is_detected() {
    let mut buf = handshake_bytes();
    let last = buf.len() - 1;
    buf[last] ^= 0x80;
    assert_eq!(ControlFrame::parse(&buf), Err(ParseError::InvalidCrc32));
}

#[test]
fn sof_rejection() {
    // Any first byte other than 0xAA fails before anything else: even with
    // both checksums destroyed the error stays InvalidSOF.
    let mut buf = handshake_bytes();
    buf[0] = 0x55;
    buf[7] ^= 0xFF;
    buf[21] ^= 0xFF;
    assert_eq!(ControlFrame::parse(&buf), Err(ParseError::InvalidSOF));

    for first in [0x00u8, 0xAB, 0xFF] {
        let mut buf = handshake_bytes();
        buf[0] = first;
        assert_eq!(ControlFrame::parse(&buf), Err(ParseError::InvalidSOF));
    }
}

#[test]
fn length_validation() {
    // Empty buffer.
    assert_eq!(ControlFrame::parse(&[]), Err(ParseError::InvalidLength));
    // Too short to carry a length field.
    assert_eq!(
        ControlFrame::parse(&[0xAA, 0x01, 0x19]),
        Err(ParseError::InvalidLength)
    );
    // Declared length larger than the buffer.
    let mut buf = handshake_bytes();
    buf[2] = 0xFF;
    assert_eq!(ControlFrame::parse(&buf), Err(ParseError::InvalidLength));
    // Declared length too small for any frame.
    let mut buf = handshake_bytes();
    buf[2] = 12;
    assert_eq!(ControlFrame::parse(&buf), Err(ParseError::InvalidLength));
}

#[test]
fn trailing_bytes_are_ignored() {
    let mut buf = handshake_bytes();
    buf.push(0xDE);
    buf.push(0xAD);
    assert_eq!(ControlFrame::parse(&buf).unwrap(), handshake_frame());
}

/// Rebuild a frame's checksums after editing header or payload bytes, using
/// the `crc` crate exactly as the codec's checksum wrappers describe it.
fn refresh_crcs(buf: &mut Vec<u8>) {
    let crc16 = crc::Crc::<u16>::new(&crc::CRC_16_MCRF4XX);
    let mut d16 = crc16.digest_with_initial(0x9232);
    d16.update(&buf[..7]);
    let c16 = d16.finalize().to_le_bytes();
    buf[7] = c16[0];
    buf[8] = c16[1];
    let n = buf.len();
    let crc32 = crc::Crc::<u32>::new(&crc::CRC_32_ISO_HDLC);
    let mut d32 = crc32.digest_with_initial(0xAFE50D95);
    d32.update(&buf[..n - 4]);
    let c32 = d32.finalize().to_le_bytes();
    buf[n - 4] = c32[0];
    buf[n - 3] = c32[1];
    buf[n - 2] = c32[2];
    buf[n - 1] = c32[3];
}

#[test]
fn unknown_command_type_rejected() {
    let mut buf = handshake_bytes();
    buf[4] = 0x03;
    refresh_crcs(&mut buf);
    assert_eq!(
        ControlFrame::parse(&buf),
        Err(ParseError::InvalidCommandType)
    );
}

#[test]
fn reserved_hub_command_set_rejected() {
    let mut buf = handshake_bytes();
    buf[9] = 0x02;
    refresh_crcs(&mut buf);
    assert_eq!(
        ControlFrame::parse(&buf),
        Err(ParseError::InvalidCommandType)
    );
}

#[test]
fn unknown_command_id_rejected() {
    let mut buf = handshake_bytes();
    buf[10] = 0x42;
    refresh_crcs(&mut buf);
    assert_eq!(ControlFrame::parse(&buf), Err(ParseError::InvalidData));
}

#[test]
fn wrong_body_size_rejected() {
    // A handshake body one byte short: remove a payload byte and fix the
    // declared length and checksums.
    let mut buf = handshake_bytes();
    buf.remove(11);
    let n = buf.len() as u16;
    buf[2] = n.to_le_bytes()[0];
    buf[3] = n.to_le_bytes()[1];
    refresh_crcs(&mut buf);
    assert_eq!(ControlFrame::parse(&buf), Err(ParseError::InvalidData));
}

#[test]
fn version_byte_is_captured_not_validated() {
    let mut buf = handshake_bytes();
    buf[1] = 9;
    refresh_crcs(&mut buf);
    let parsed = ControlFrame::parse(&buf).unwrap();
    assert_eq!(parsed.version, 9);
}

#[test]
fn checksums_match_the_crc_crate() {
    // The seeds start the CRC-16 register at 0x4C49 and the CRC-32 register
    // at the complement of 0x564F580A; over "123456789" those registers
    // yield the values below (computed independently).
    let crc16 = crc::Crc::<u16>::new(&crc::CRC_16_MCRF4XX);
    let mut d16 = crc16.digest_with_initial(0x9232);
    d16.update(b"123456789");
    assert_eq!(d16.finalize(), 0xAB4E);

    let crc32 = crc::Crc::<u32>::new(&crc::CRC_32_ISO_HDLC);
    let mut d32 = crc32.digest_with_initial(0xAFE50D95);
    d32.update(b"123456789");
    assert_eq!(d32.finalize(), 0xB08DB5B1);
}

#[test]
fn every_request_variant_roundtrips() {
    let requests: Vec<RequestData> = vec![
        RequestData::General(general::request::Enum::Handshake(
            general::request::Handshake {
                user_ip: [10, 0, 0, 1],
                data_port: 60001,
                cmd_port: 60002,
                imu_port: 60003,
            },
        )),
        RequestData::General(general::request::Enum::QueryDeviceInformation(
            general::request::QueryDeviceInformation {},
        )),
        RequestData::General(general::request::Enum::Heartbeat(
            general::request::Heartbeat {},
        )),
        RequestData::General(general::request::Enum::StartStopSampling(
            general::request::StartStopSampling { sample_ctrl: 1 },
        )),
        RequestData::General(general::request::Enum::ChangeCoordinateSystem(
            general::request::ChangeCoordinateSystem { coordinate_type: 1 },
        )),
        RequestData::General(general::request::Enum::Disconnect(
            general::request::Disconnect {},
        )),
        RequestData::General(general::request::Enum::ConfigureStaticDynamicIP(
            general::request::ConfigureStaticDynamicIP {
                ip_mode: 0,
                ip_addr: [192, 168, 1, 10],
                net_mask: [255, 255, 255, 0],
                gw_addr: [192, 168, 1, 1],
            },
        )),
        RequestData::General(general::request::Enum::GetDeviceIPInformation(
            general::request::GetDeviceIPInformation {},
        )),
        RequestData::General(general::request::Enum::RebootDevice(
            general::request::RebootDevice { timeout: 1000 },
        )),
        RequestData::LiDAR(lidar::request::Enum::SetMode(lidar::request::SetMode {
            lidar_mode: 1,
        })),
        RequestData::LiDAR(lidar::request::Enum::WriteLiDARExtrinsicParameters(
            lidar::request::WriteLiDARExtrinsicParameters {
                roll: 0x3F800000, // 1.0 as IEEE-754 bits
                pitch: 0xBF800000,
                yaw: 0,
                x: -15,
                y: 2,
                z: -3,
            },
        )),
        RequestData::LiDAR(lidar::request::Enum::ReadLiDARExtrinsicParameters(
            lidar::request::ReadLiDARExtrinsicParameters {},
        )),
        RequestData::LiDAR(lidar::request::Enum::TurnOnOffRainFogSuppression(
            lidar::request::TurnOnOffRainFogSuppression { state: 1 },
        )),
        RequestData::LiDAR(lidar::request::Enum::SetTurnOnOffFan(
            lidar::request::SetTurnOnOffFan { state: 0 },
        )),
        RequestData::LiDAR(lidar::request::Enum::GetTurnOnOffFanState(
            lidar::request::GetTurnOnOffFanState {},
        )),
        RequestData::LiDAR(lidar::request::Enum::SetLiDARReturnMode(
            lidar::request::SetLiDARReturnMode { mode: 2 },
        )),
        RequestData::LiDAR(lidar::request::Enum::GetLiDARReturnMode(
            lidar::request::GetLiDARReturnMode {},
        )),
        RequestData::LiDAR(lidar::request::Enum::SetIMUDataPushFrequency(
            lidar::request::SetIMUDataPushFrequency { frequency: 1 },
        )),
        RequestData::LiDAR(lidar::request::Enum::GetIMUDataPushFrequency(
            lidar::request::GetIMUDataPushFrequency {},
        )),
        RequestData::LiDAR(lidar::request::Enum::UpdateUTCSynchronizeTime(
            lidar::request::UpdateUTCSynchronizeTime {
                year: 24,
                month: 12,
                day: 31,
                hour: 23,
                microsecond: 123456,
            },
        )),
    ];
    for (i, req) in requests.into_iter().enumerate() {
        let frame = ControlFrame {
            version: 1,
            data: FrameData::Request(req),
            seq_num: i as u16,
        };
        assert_eq!(ControlFrame::parse(&frame.serialize()).unwrap(), frame);
    }
}

#[test]
fn every_response_and_message_variant_roundtrips() {
    let responses: Vec<ResponseData> = vec![
        ResponseData::General(general::response::Enum::Handshake(
            general::response::Handshake { ret_code: 0 },
        )),
        ResponseData::General(general::response::Enum::QueryDeviceInformation(
            general::response::QueryDeviceInformation {
                ret_code: 0,
                version: [1, 2, 3, 4],
            },
        )),
        ResponseData::General(general::response::Enum::Heartbeat(
            general::response::Heartbeat {
                ret_code: 0,
                work_state: 1,
                feature_msg: 2,
                ack_msg: 0xDEADBEEF,
            },
        )),
        ResponseData::General(general::response::Enum::StartStopSampling(
            general::response::StartStopSampling { ret_code: 0 },
        )),
        ResponseData::General(general::response::Enum::ChangeCoordinateSystem(
            general::response::ChangeCoordinateSystem { ret_code: 1 },
        )),
        ResponseData::General(general::response::Enum::Disconnect(
            general::response::Disconnect { ret_code: 0 },
        )),
        ResponseData::General(general::response::Enum::ConfigureStaticDynamicIP(
            general::response::ConfigureStaticDynamicIP { ret_code: 0 },
        )),
        ResponseData::General(general::response::Enum::GetDeviceIPInformation(
            general::response::GetDeviceIPInformation {
                ret_code: 0,
                ip_mode: 1,
                ip_addr: [192, 168, 1, 12],
                net_mask: [255, 255, 0, 0],
                gw_addr: [192, 168, 1, 1],
            },
        )),
        ResponseData::General(general::response::Enum::RebootDevice(
            general::response::RebootDevice { ret_code: 0 },
        )),
        ResponseData::LiDAR(lidar::response::Enum::SetMode(lidar::response::SetMode {
            ret_code: 0,
        })),
        ResponseData::LiDAR(lidar::response::Enum::WriteLiDARExtrinsicParameters(
            lidar::response::WriteLiDARExtrinsicParameters { ret_code: 0 },
        )),
        ResponseData::LiDAR(lidar::response::Enum::ReadLiDARExtrinsicParameters(
            lidar::response::ReadLiDARExtrinsicParameters {
                ret_code: 0,
                roll: 0x40490FDB, // pi as IEEE-754 bits
                pitch: 0,
                yaw: 0x3F000000,
                x: -100,
                y: 200,
                z: -300,
            },
        )),
        ResponseData::LiDAR(lidar::response::Enum::TurnOnOffRainFogSuppression(
            lidar::response::TurnOnOffRainFogSuppression { ret_code: 0 },
        )),
        ResponseData::LiDAR(lidar::response::Enum::SetTurnOnOffFan(
            lidar::response::SetTurnOnOffFan { ret_code: 0 },
        )),
        ResponseData::LiDAR(lidar::response::Enum::GetTurnOnOffFanState(
            lidar::response::GetTurnOnOffFanState {
                ret_code: 0,
                state: 1,
            },
        )),
        ResponseData::LiDAR(lidar::response::Enum::SetLiDARReturnMode(
            lidar::response::SetLiDARReturnMode { ret_code: 0 },
        )),
        ResponseData::LiDAR(lidar::response::Enum::GetLiDARReturnMode(
            lidar::response::GetLiDARReturnMode {
                ret_code: 0x01020304,
                mode: 2,
            },
        )),
        ResponseData::LiDAR(lidar::response::Enum::SetIMUDataPushFrequency(
            lidar::response::SetIMUDataPushFrequency { ret_code: 0 },
        )),
        ResponseData::LiDAR(lidar::response::Enum::GetIMUDataPushFrequency(
            lidar::response::GetIMUDataPushFrequency {
                ret_code: 0,
                frequency: 1,
            },
        )),
        ResponseData::LiDAR(lidar::response::Enum::UpdateUTCSynchronizeTime(
            lidar::response::UpdateUTCSynchronizeTime { ret_code: 0 },
        )),
    ];
    for (i, resp) in responses.into_iter().enumerate() {
        let frame = ControlFrame {
            version: 1,
            data: FrameData::Response(resp),
            seq_num: i as u16,
        };
        assert_eq!(ControlFrame::parse(&frame.serialize()).unwrap(), frame);
    }

    let messages: Vec<MessageData> = vec![
        MessageData::General(general::message::Enum::BroadcastMessage(
            general::message::BroadcastMessage {
                broadcast_code: *b"1HDDG8M00100041\0",
                dev_type: 6,
                reserved: 0,
            },
        )),
        MessageData::General(general::message::Enum::PushAbnormalStatusInformation(
            general::message::PushAbnormalStatusInformation {
                status_code: 0x80000001,
            },
        )),
    ];
    for msg in messages {
        let frame = ControlFrame {
            version: 1,
            data: FrameData::Message(msg),
            seq_num: 7,
        };
        assert_eq!(ControlFrame::parse(&frame.serialize()).unwrap(), frame);
    }
}
