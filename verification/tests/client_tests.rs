//! The client's pure decisions: discovery, handshake, sequencing, reply
//! classification, heartbeat and sampling.
use livox_rs::client::{
    broadcast_message_of, classify_reply, device_type_of, handshake_frame, heartbeat_request,
    interpret_sampling_ack, is_handshake_ok, is_heartbeat_ok, next_request_frame,
    sampling_request, DeviceType, HandshakeOption, LivoxError,
};
use livox_rs::frame::{ControlFrame, FrameData, ParseError};
use livox_rs::general;
use livox_rs::lidar;
use livox_rs::payload::{MessageData, RequestData, ResponseData};

fn broadcast_frame() -> ControlFrame {
    ControlFrame {
        version: 1,
        data: FrameData::Message(MessageData::General(
            general::message::Enum::BroadcastMessage(general::message::BroadcastMessage {
                broadcast_code: *b"420252100000000\0",
                dev_type: 6,
                reserved: 0,
            }),
        )),
        seq_num: 0,
    }
}

#[test]
fn payload_conversions_wrap_variants() {
    let req = general::request::Enum::Heartbeat(general::request::Heartbeat {});
    let data: RequestData = req.into();
    assert_eq!(data, RequestData::General(req));
    let frame_data: FrameData = data.into();
    assert_eq!(frame_data, FrameData::Request(data));

    let resp = lidar::response::Enum::SetMode(lidar::response::SetMode { ret_code: 0 });
    let data: ResponseData = resp.into();
    assert_eq!(data, ResponseData::LiDAR(resp));
    let frame_data: FrameData = data.into();
    assert_eq!(frame_data, FrameData::Response(data));

    let msg = general::message::Enum::PushAbnormalStatusInformation(
        general::message::PushAbnormalStatusInformation { status_code: 3 },
    );
    let data: MessageData = msg.into();
    assert_eq!(data, MessageData::General(msg));
    let frame_data: FrameData = data.into();
    assert_eq!(frame_data, FrameData::Message(data));
}

#[test]
fn device_types() {
    assert_eq!(device_type_of(6), DeviceType::Mid70);
    assert_eq!(device_type_of(0), DeviceType::NotImplemented);
    assert_eq!(device_type_of(7), DeviceType::NotImplemented);
    assert_eq!(device_type_of(255), DeviceType::NotImplemented);
}

#[test]
fn discovery_accepts_only_broadcasts() {
    let msg = broadcast_message_of(&broadcast_frame().data).unwrap();
    assert_eq!(msg.dev_type, 6);
    assert_eq!(&msg.broadcast_code, b"420252100000000\0");

    // A push message is not a broadcast: the caller reports
    // NoneBroadcastReceived for it.
    let push = FrameData::Message(MessageData::General(
        general::message::Enum::PushAbnormalStatusInformation(
            general::message::PushAbnormalStatusInformation { status_code: 1 },
        ),
    ));
    assert!(broadcast_message_of(&push).is_none());
    let resp = FrameData::Response(ResponseData::General(
        general::response::Enum::Handshake(general::response::Handshake { ret_code: 0 }),
    ));
    assert!(broadcast_message_of(&resp).is_none());
}

#[test]
fn handshake_frame_and_ack() {
    let option = HandshakeOption::default();
    assert_eq!(option.user_ip, [192, 168, 1, 50]);
    assert_eq!(option.cmd_port, 0);
    assert_eq!(option.data_port, 0);

    let frame = handshake_frame(option, 7731, 1157);
    assert_eq!(frame.seq_num, 0);
    assert_eq!(frame.version, 1);
    assert_eq!(
        frame.data,
        FrameData::Request(RequestData::General(general::request::Enum::Handshake(
            general::request::Handshake {
                user_ip: [192, 168, 1, 50],
                data_port: 7731,
                cmd_port: 1157,
                imu_port: 0,
            }
        )))
    );

    let ok = FrameData::Response(ResponseData::General(
        general::response::Enum::Handshake(general::response::Handshake { ret_code: 0 }),
    ));
    assert!(is_handshake_ok(&ok));
    let refused = FrameData::Response(ResponseData::General(
        general::response::Enum::Handshake(general::response::Handshake { ret_code: 1 }),
    ));
    assert!(!is_handshake_ok(&refused));
    assert!(!is_handshake_ok(&broadcast_frame().data));
}

#[test]
fn sequence_numbers_are_strictly_increasing_and_wrap() {
    let cmd = heartbeat_request();
    let mut seq: u16 = 0;
    let mut last: u16 = 0;
    for _ in 0..5 {
        let (next, frame) = next_request_frame(seq, cmd);
        assert_eq!(next, last + 1);
        assert_eq!(frame.seq_num, next);
        assert_eq!(frame.version, 1);
        assert_eq!(frame.data, FrameData::Request(cmd));
        last = next;
        seq = next;
    }
    let (wrapped, frame) = next_request_frame(u16::MAX, cmd);
    assert_eq!(wrapped, 0);
    assert_eq!(frame.seq_num, 0);
}

#[test]
fn replies_are_classified() {
    let ack = ResponseData::General(general::response::Enum::Heartbeat(
        general::response::Heartbeat {
            ret_code: 0,
            work_state: 1,
            feature_msg: 0,
            ack_msg: 0,
        },
    ));
    let frame = ControlFrame {
        version: 1,
        data: FrameData::Response(ack),
        seq_num: 5,
    };
    assert_eq!(classify_reply(Ok(frame)), Ok(ack));

    // A non-response on the command socket is reported with its payload.
    let stray = broadcast_frame();
    assert_eq!(
        classify_reply(Ok(stray)),
        Err(LivoxError::BadResponse(stray.data))
    );

    assert_eq!(
        classify_reply(Err(ParseError::InvalidSOF)),
        Err(LivoxError::ParseError(ParseError::InvalidSOF))
    );
}

#[test]
fn heartbeat_acknowledgement() {
    assert_eq!(
        heartbeat_request(),
        RequestData::General(general::request::Enum::Heartbeat(
            general::request::Heartbeat {}
        ))
    );
    let ok = ResponseData::General(general::response::Enum::Heartbeat(
        general::response::Heartbeat {
            ret_code: 0,
            work_state: 1,
            feature_msg: 0,
            ack_msg: 0,
        },
    ));
    assert!(is_heartbeat_ok(&ok));
    let failed = ResponseData::General(general::response::Enum::Heartbeat(
        general::response::Heartbeat {
            ret_code: 2,
            work_state: 0,
            feature_msg: 0,
            ack_msg: 0,
        },
    ));
    assert!(!is_heartbeat_ok(&failed));
    let other = ResponseData::General(general::response::Enum::Handshake(
        general::response::Handshake { ret_code: 0 },
    ));
    assert!(!is_heartbeat_ok(&other));
}

#[test]
fn sampling_roundtrip_over_a_byte_loopback() {
    // The request travels as bytes, the stub responder answers with a
    // serialized ret_code-0 acknowledgement, and set_sampling's decision
    // chain resolves to success.
    let (_, frame) = next_request_frame(0, sampling_request(true));
    let wire = frame.serialize();
    let at_sensor = ControlFrame::parse(&wire).unwrap();
    assert_eq!(
        at_sensor.data,
        FrameData::Request(RequestData::General(
            general::request::Enum::StartStopSampling(general::request::StartStopSampling {
                sample_ctrl: 1
            })
        ))
    );

    let reply = ControlFrame {
        version: 1,
        data: FrameData::Response(ResponseData::General(
            general::response::Enum::StartStopSampling(general::response::StartStopSampling {
                ret_code: 0,
            }),
        )),
        seq_num: at_sensor.seq_num,
    };
    let reply_wire = reply.serialize();
    let ack = classify_reply(ControlFrame::parse(&reply_wire)).unwrap();
    assert_eq!(interpret_sampling_ack(ack), Ok(()));
}

#[test]
fn sampling_request_bodies() {
    assert_eq!(
        sampling_request(true),
        RequestData::General(general::request::Enum::StartStopSampling(
            general::request::StartStopSampling { sample_ctrl: 1 }
        ))
    );
    assert_eq!(
        sampling_request(false),
        RequestData::General(general::request::Enum::StartStopSampling(
            general::request::StartStopSampling { sample_ctrl: 0 }
        ))
    );
}

#[test]
fn sampling_ack_failure_codes() {
    let failed = ResponseData::General(general::response::Enum::StartStopSampling(
        general::response::StartStopSampling { ret_code: 5 },
    ));
    assert_eq!(
        interpret_sampling_ack(failed),
        Err(LivoxError::AckFailed(5))
    );
}

#[test]
fn wrong_variant_response_is_ack_wrong() {
    // The sensor answers StartStopSampling with a SetMode response: the
    // mismatched variant is handed back whole.
    let wrong = ResponseData::LiDAR(lidar::response::Enum::SetMode(lidar::response::SetMode {
        ret_code: 0,
    }));
    assert_eq!(
        interpret_sampling_ack(wrong),
        Err(LivoxError::AckWrong(wrong))
    );

    // A response from the right set but the wrong command is also wrong.
    let wrong_id = ResponseData::General(general::response::Enum::Handshake(
        general::response::Handshake { ret_code: 0 },
    ));
    assert_eq!(
        interpret_sampling_ack(wrong_id),
        Err(LivoxError::AckWrong(wrong_id))
    );
}
