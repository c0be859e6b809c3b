//! Decode/encode round trips of payloads and whole control frames.
use livox_rs::frame::{ControlFrame, FrameData};
use livox_rs::general;
use livox_rs::general::request::ConfigureStaticDynamicIP;
use livox_rs::lidar;
use livox_rs::lidar::request::SetLiDARReturnMode;
use livox_rs::payload::{MessageData, RequestData, ResponseData};

#[test]
fn general_test_request() {
    let data: Vec<u8> = vec![
        0x00, 0x01, 127, 0, 0, 1, 0x34, 0x12, 0x78, 0x56, 0x12, 0x90,
    ];
    let val = RequestData::decode(&data).unwrap();

    assert_eq!(
        RequestData::General(general::request::Enum::Handshake(
            general::request::Handshake {
                user_ip: [127, 0, 0, 1],
                data_port: 0x1234,
                cmd_port: 0x5678,
                imu_port: 0x9012,
            }
        )),
        val
    );

    let mut data_out: Vec<u8> = Vec::new();
    val.encode(&mut data_out);
    assert_eq!(data, data_out);
}

#[test]
fn general_test_response() {
    let data: Vec<u8> = vec![0x00, 0x01, 0x01];
    let val = ResponseData::decode(&data).unwrap();

    assert_eq!(
        ResponseData::General(general::response::Enum::Handshake(
            general::response::Handshake { ret_code: 0x01 }
        )),
        val
    );

    let mut data_out: Vec<u8> = Vec::new();
    val.encode(&mut data_out);
    assert_eq!(data, data_out);
}

#[test]
fn test_message() {
    let data: Vec<u8> = vec![
        0x00, 0x00, 0, 1, 2, 3, 4, 5, 6, 7, 8, 9, 10, 11, 12, 13, 14, 15, 6, 0, 0,
    ];
    let val = MessageData::decode(&data).unwrap();

    assert_eq!(
        MessageData::General(general::message::Enum::BroadcastMessage(
            general::message::BroadcastMessage {
                broadcast_code: [0, 1, 2, 3, 4, 5, 6, 7, 8, 9, 10, 11, 12, 13, 14, 15],
                dev_type: 6,
                reserved: 0,
            }
        )),
        val
    );

    let mut data_out: Vec<u8> = Vec::new();
    val.encode(&mut data_out);
    assert_eq!(data, data_out);
}

#[test]
fn lidar_test_request() {
    let data: Vec<u8> = vec![0x01, 0x00, 0x01];
    let val = RequestData::decode(&data).unwrap();

    assert_eq!(
        RequestData::LiDAR(lidar::request::Enum::SetMode(lidar::request::SetMode {
            lidar_mode: 0x01
        })),
        val
    );

    let mut data_out: Vec<u8> = Vec::new();
    val.encode(&mut data_out);
    assert_eq!(data, data_out);
}

#[test]
fn lidar_test_response() {
    let data: Vec<u8> = vec![0x01, 0x00, 0x00];
    let val = ResponseData::decode(&data).unwrap();

    assert_eq!(
        ResponseData::LiDAR(lidar::response::Enum::SetMode(lidar::response::SetMode {
            ret_code: 0x00
        })),
        val
    );

    let mut data_out: Vec<u8> = Vec::new();
    val.encode(&mut data_out);
    assert_eq!(data, data_out);
}

#[test]
fn test_control_frame() {
    let data = ControlFrame {
        version: 1,
        data: FrameData::Request(RequestData::LiDAR(
            lidar::request::Enum::SetLiDARReturnMode(SetLiDARReturnMode { mode: 2 }),
        )),
        seq_num: 3,
    };
    let buf = data.serialize();
    let neo_data = ControlFrame::parse(&buf).unwrap();
    assert_eq!(data, neo_data);

    let data = ControlFrame {
        version: 1,
        data: FrameData::Request(RequestData::General(
            general::request::Enum::ConfigureStaticDynamicIP(ConfigureStaticDynamicIP {
                ip_mode: 1,
                ip_addr: [1, 2, 3, 4],
                net_mask: [5, 7, 9, 1],
                gw_addr: [255, 255, 255, 0],
            }),
        )),
        seq_num: 3,
    };
    let buf = data.serialize();
    let neo_data = ControlFrame::parse(&buf).unwrap();
    assert_eq!(data, neo_data);
}
