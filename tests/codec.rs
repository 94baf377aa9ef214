use ads_client::request::{
    add_notification_request_body, delete_notification_request_body, read_request_body,
    read_write_request_body, write_control_request_body, write_request_body,
};
use ads_client::{
    parse_header, AdsCommand, AdsNotificationAttrib, AdsState, AdsTransMode, AmsAddress, AmsRoute,
    StateInfo, ERR_INVALIDAMSLENGTH, HEADER_SIZE,
};

fn route() -> AmsRoute {
    AmsRoute {
        target: AmsAddress { net_id: [5, 80, 201, 232, 1, 1], port: 10000 },
        source: AmsAddress { net_id: [192, 168, 0, 10, 1, 1], port: 0x8001 },
    }
}

fn u32_at(b: &[u8], at: usize) -> u32 {
    u32::from_le_bytes([b[at], b[at + 1], b[at + 2], b[at + 3]])
}

#[test]
fn header_layout_of_read_request() {
    let frame = route().pre_read(0xF005, 0x1234, 2, 7);
    let expected: Vec<u8> = vec![
        0, 0, 44, 0, 0, 0, // reserved, AMS length 32 + 12
        5, 80, 201, 232, 1, 1, 0x10, 0x27, // target
        192, 168, 0, 10, 1, 1, 0x01, 0x80, // source
        2, 0, 4, 0, // command Read, state flags
        12, 0, 0, 0, 0, 0, 0, 0, 7, 0, 0, 0, // length, error, invoke id
        0x05, 0xF0, 0, 0, 0x34, 0x12, 0, 0, 2, 0, 0, 0,
    ];
    assert_eq!(&frame[..], &expected[..]);
}

#[test]
fn parse_of_built_header_round_trips() {
    let body = [1u8, 2, 3, 4, 5];
    for (cmd, id) in [
        (AdsCommand::Read, 1u32),
        (AdsCommand::Write, 0xFFFF),
        (AdsCommand::ReadWrite, 0x1_0000),
        (AdsCommand::DeviceNotification, u32::MAX),
    ] {
        let frame = route().build_request(cmd, id, &body);
        let f = parse_header(&frame[..HEADER_SIZE]).unwrap();
        assert_eq!(f.payload_len, 5);
        assert_eq!(f.ams_error, 0);
        assert_eq!(f.invoke_id, id);
        assert_eq!(f.command, cmd);
    }
}

#[test]
fn frame_sizes_follow_body_sizes() {
    let r = route();
    let data = [9u8; 10];
    let attrib = AdsNotificationAttrib {
        cb_length: 2,
        trans_mode: AdsTransMode::OnChange,
        max_delay: 500,
        cycle_time: 0,
    };
    let state = StateInfo { ads_state: AdsState::Reconfig, device_state: 0 };
    let frames = [
        (r.pre_read(1, 2, 4, 1), 12usize),
        (r.pre_write(1, 2, &data, 2), 22),
        (r.pre_read_write(1, 2, 4, &data, 3), 26),
        (r.pre_write_ctrl(&state, None, 4), 8),
        (r.pre_write_ctrl(&state, Some(&data), 5), 18),
        (r.pre_add_dev_not(1, 2, &attrib, 6), 38),
        (r.pre_delete_device_notification(77, 7), 4),
        (r.pre_empty(AdsCommand::ReadState, 8), 0),
        (r.pre_empty(AdsCommand::ReadDeviceInfo, 9), 0),
    ];
    for (frame, body_len) in frames.iter() {
        assert_eq!(frame.len(), 38 + body_len);
        assert_eq!(u32_at(frame, 2) as usize, 32 + body_len);
        assert_eq!(u32_at(frame, 26) as usize, *body_len);
    }
}

#[test]
fn body_layouts() {
    assert_eq!(read_request_body(0xF005, 3, 2), vec![0x05, 0xF0, 0, 0, 3, 0, 0, 0, 2, 0, 0, 0]);
    assert_eq!(write_request_body(1, 2, &[0xE8, 0x03]), vec![1, 0, 0, 0, 2, 0, 0, 0, 2, 0, 0, 0, 0xE8, 0x03]);
    assert_eq!(
        read_write_request_body(0xF003, 0, 4, b"AB"),
        vec![0x03, 0xF0, 0, 0, 0, 0, 0, 0, 4, 0, 0, 0, 2, 0, 0, 0, b'A', b'B']
    );
    let state = StateInfo { ads_state: AdsState::Reset, device_state: 0x0102 };
    assert_eq!(write_control_request_body(&state, None), vec![2, 0, 2, 1, 0, 0, 0, 0]);
    assert_eq!(write_control_request_body(&state, Some(&[7])), vec![2, 0, 2, 1, 1, 0, 0, 0, 7]);
    let attrib = AdsNotificationAttrib {
        cb_length: 2,
        trans_mode: AdsTransMode::OnChange,
        max_delay: 500,
        cycle_time: 0,
    };
    let add = add_notification_request_body(0xF005, 9, &attrib);
    assert_eq!(add.len(), 38);
    assert_eq!(&add[..24], &[0x05, 0xF0, 0, 0, 9, 0, 0, 0, 2, 0, 0, 0, 4, 0, 0, 0, 0xF4, 1, 0, 0, 0, 0, 0, 0]);
    assert!(add[24..].iter().all(|b| *b == 0));
    let cyclic = AdsNotificationAttrib { trans_mode: AdsTransMode::ServerCycle, ..attrib };
    assert_eq!(add_notification_request_body(0, 0, &cyclic)[12], 3);
    assert_eq!(delete_notification_request_body(0x0A0B0C0D), vec![0x0D, 0x0C, 0x0B, 0x0A]);
}

#[test]
fn parse_header_rejects_short_header() {
    let frame = route().pre_read(1, 2, 4, 1);
    let e = parse_header(&frame[..37]).unwrap_err();
    assert_eq!(e.n_error, ERR_INVALIDAMSLENGTH);
}

#[test]
fn parse_header_rejects_unknown_command() {
    let mut frame = route().pre_read(1, 2, 4, 1).to_vec();
    frame[22] = 0x10;
    assert_eq!(parse_header(&frame).unwrap_err().n_error, ERR_INVALIDAMSLENGTH);
    frame[22] = 0;
    assert_eq!(parse_header(&frame).unwrap_err().n_error, ERR_INVALIDAMSLENGTH);
}

#[test]
fn parse_header_rejects_disagreeing_lengths() {
    let mut frame = route().pre_read(1, 2, 4, 1).to_vec();
    frame[2] = 45;
    assert_eq!(parse_header(&frame).unwrap_err().n_error, ERR_INVALIDAMSLENGTH);
}

#[test]
fn parse_header_reads_error_and_response_fields() {
    let mut frame = route().pre_read(1, 2, 4, 0x01020304).to_vec();
    frame[30] = 0x05;
    frame[31] = 0x07;
    let f = parse_header(&frame).unwrap();
    assert_eq!(f.ams_error, 0x0705);
    assert_eq!(f.invoke_id, 0x01020304);
    assert_eq!(f.command, AdsCommand::Read);
    assert_eq!(f.payload_len, 12);
}

#[test]
fn command_and_state_ids() {
    assert_eq!(AdsCommand::ReadDeviceInfo.id(), 1);
    assert_eq!(AdsCommand::ReadWrite.id(), 9);
    assert_eq!(AdsCommand::from_id(8), Some(AdsCommand::DeviceNotification));
    assert_eq!(AdsCommand::from_id(0), None);
    assert_eq!(AdsCommand::from_id(10), None);
    assert_eq!(AdsState::Run.value(), 5);
    assert_eq!(AdsState::from_value(16), Some(AdsState::Reconfig));
    assert_eq!(AdsState::from_value(17), None);
    assert_eq!(AdsTransMode::ServerCycle.value(), 3);
}
