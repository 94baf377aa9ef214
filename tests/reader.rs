use ads_client::{
    AdsCommand, AmsAddress, AmsRoute, NotificationTable, PendingTable, ProcessStateMachine,
    ReaderAction, HEADER_SIZE,
};
use bytes::Bytes;

fn reply_frame(cmd: AdsCommand, invoke_id: u32, ams_err: u32, payload: &[u8]) -> Vec<u8> {
    let route = AmsRoute {
        target: AmsAddress { net_id: [1, 2, 3, 4, 1, 1], port: 0x8001 },
        source: AmsAddress { net_id: [5, 80, 201, 232, 1, 1], port: 10000 },
    };
    let mut f = route.build_request(cmd, invoke_id, payload).to_vec();
    f[24] = 5;
    f[30..34].copy_from_slice(&ams_err.to_le_bytes());
    f
}

#[test]
fn reader_completes_a_reply() {
    let f = reply_frame(AdsCommand::ReadState, 42, 0, &[0, 0, 0, 0, 5, 0, 0, 0]);
    let state = ProcessStateMachine::ReadHeader;
    assert_eq!(state.bytes_wanted(), HEADER_SIZE);
    let (state, action) = state.step(Bytes::copy_from_slice(&f[..38]));
    assert!(matches!(action, ReaderAction::Continue));
    assert_eq!(state.bytes_wanted(), 8);
    let (state, action) = state.step(Bytes::copy_from_slice(&f[38..]));
    assert_eq!(state, ProcessStateMachine::ReadHeader);
    let mut table = PendingTable::new();
    table.register_command_handle(42, AdsCommand::ReadState, 0).unwrap();
    match action {
        ReaderAction::Complete { ams_err, invoke_id, payload } => {
            assert_eq!(ams_err, 0);
            assert_eq!(invoke_id, 42);
            assert!(table.process_command(ams_err, invoke_id, payload));
        },
        _ => panic!("expected a completion"),
    }
    assert_eq!(&table.take(42).unwrap().payload[..], &[0, 0, 0, 0, 5, 0, 0, 0]);
}

#[test]
fn reader_passes_ams_error_on() {
    let f = reply_frame(AdsCommand::Write, 3, 0x745, &[]);
    let (state, _) = ProcessStateMachine::ReadHeader.step(Bytes::copy_from_slice(&f));
    assert_eq!(state.bytes_wanted(), 0);
    match state.step(Bytes::new()).1 {
        ReaderAction::Complete { ams_err, invoke_id, payload } => {
            assert_eq!((ams_err, invoke_id, payload.len()), (0x745, 3, 0));
        },
        _ => panic!("expected a completion"),
    }
}

#[test]
fn reader_hands_notifications_to_dispatch() {
    let mut frame = 16u32.to_le_bytes().to_vec();
    frame.extend_from_slice(&1u32.to_le_bytes());
    frame.extend_from_slice(&99u64.to_le_bytes());
    frame.extend_from_slice(&0u32.to_le_bytes());
    let f = reply_frame(AdsCommand::DeviceNotification, 0, 0, &frame);
    let (state, _) = ProcessStateMachine::ReadHeader.step(Bytes::copy_from_slice(&f[..38]));
    match state.step(Bytes::copy_from_slice(&f[38..])).1 {
        ReaderAction::Notify(p) => {
            let table: NotificationTable<u8> = NotificationTable::new();
            assert_eq!(&p[..], &frame[..]);
            assert_eq!(table.process_device_notification(&p).len(), 0);
        },
        _ => panic!("expected a notification"),
    }
}

#[test]
fn reader_stops_on_a_broken_header() {
    let mut f = reply_frame(AdsCommand::Read, 1, 0, &[0; 4]);
    f[22] = 0x33;
    let (state, action) = ProcessStateMachine::ReadHeader.step(Bytes::copy_from_slice(&f[..38]));
    assert_eq!(state, ProcessStateMachine::ReadHeader);
    match action {
        ReaderAction::Fatal(e) => assert_eq!(e.n_error, 14),
        _ => panic!("expected a fatal error"),
    }
}
