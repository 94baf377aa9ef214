use ads_client::{
    AdsCommand, CommandCleaner, CommandManager, PendingTable, RequestPoll,
    ADSERR_CLIENT_DUPLINVOKEID, ADSERR_CLIENT_SYNCTIMEOUT,
};
use bytes::Bytes;

#[test]
fn register_complete_take() {
    let mut t = PendingTable::new();
    t.register_command_handle(1, AdsCommand::Read, 0).unwrap();
    assert!(t.take(1).is_none());
    assert!(t.process_command(0, 1, Bytes::from_static(&[1, 2])));
    let d = t.take(1).unwrap();
    assert_eq!(d.ams_err, 0);
    assert_eq!(&d.payload[..], &[1, 2]);
    assert_eq!(t.len(), 0);
    assert!(t.take(1).is_none());
}

#[test]
fn duplicate_invoke_id_is_refused() {
    let mut t = PendingTable::new();
    t.register_command_handle(3, AdsCommand::Read, 0).unwrap();
    let e = t.register_command_handle(3, AdsCommand::Write, 5).unwrap_err();
    assert_eq!(e.n_error, ADSERR_CLIENT_DUPLINVOKEID);
    assert_eq!(t.len(), 1);
}

#[test]
fn reply_for_unknown_invoke_id_is_dropped() {
    let mut t = PendingTable::new();
    t.register_command_handle(1, AdsCommand::Read, 0).unwrap();
    assert!(!t.process_command(0, 2, Bytes::from_static(&[9])));
    assert_eq!(t.len(), 1);
    assert!(t.take(1).is_none());
    assert!(t.take(2).is_none());
}

#[test]
fn second_reply_is_dropped() {
    let mut t = PendingTable::new();
    t.register_command_handle(1, AdsCommand::Read, 0).unwrap();
    assert!(t.process_command(0, 1, Bytes::from_static(&[1])));
    assert!(!t.process_command(7, 1, Bytes::from_static(&[2])));
    let d = t.take(1).unwrap();
    assert_eq!(d.ams_err, 0);
    assert_eq!(&d.payload[..], &[1]);
    assert!(!t.process_command(0, 1, Bytes::from_static(&[3])));
}

#[test]
fn interleaved_replies_reach_their_requests() {
    let mut t = PendingTable::new();
    t.register_command_handle(10, AdsCommand::ReadState, 0).unwrap();
    t.register_command_handle(11, AdsCommand::Read, 0).unwrap();
    t.register_command_handle(12, AdsCommand::ReadDeviceInfo, 0).unwrap();
    assert!(t.process_command(0, 12, Bytes::from_static(b"info")));
    assert!(t.process_command(0, 10, Bytes::from_static(b"state")));
    let m11 = CommandManager::new(5, 11, 0);
    assert!(matches!(m11.poll(&mut t, 10), RequestPoll::Pending));
    assert!(t.process_command(0, 11, Bytes::from_static(b"read")));
    for (id, want) in [(11u32, &b"read"[..]), (10, &b"state"[..]), (12, &b"info"[..])] {
        match CommandManager::new(5, id, 0).poll(&mut t, 10) {
            RequestPoll::Ready(Ok(d)) => assert_eq!(&d.payload[..], want),
            _ => panic!("no reply for {}", id),
        }
    }
    assert_eq!(t.len(), 0);
}

#[test]
fn poll_times_out_after_timeout() {
    let mut t = PendingTable::new();
    t.register_command_handle(1, AdsCommand::Read, 1_000).unwrap();
    let m = CommandManager::new(5, 1, 1_000);
    assert!(matches!(m.poll(&mut t, 6_999), RequestPoll::Pending));
    match m.poll(&mut t, 7_000) {
        RequestPoll::Ready(Err(e)) => {
            assert_eq!(e.n_error, 0x745);
            assert_eq!(e.n_error, ADSERR_CLIENT_SYNCTIMEOUT);
            assert!(e.s_msg.contains("Timeout"));
        },
        _ => panic!("expected a timeout"),
    }
    assert!(t.process_command(0, 1, Bytes::from_static(&[1])));
    assert!(matches!(m.poll(&mut t, 8_000), RequestPoll::Ready(Err(_))));
}

#[test]
fn sweep_evicts_old_requests() {
    let mut t = PendingTable::new();
    t.register_command_handle(1, AdsCommand::Read, 0).unwrap();
    t.register_command_handle(2, AdsCommand::Read, 3_000).unwrap();
    t.register_command_handle(3, AdsCommand::Read, 4_500).unwrap();
    let c = CommandCleaner::new(1, 5);
    c.sweep(&mut t, 4_999);
    assert_eq!(t.len(), 3);
    c.sweep(&mut t, 5_000);
    assert_eq!(t.len(), 2);
    assert!(!t.process_command(0, 1, Bytes::from_static(&[1])));
    assert!(t.process_command(0, 2, Bytes::from_static(&[1])));
    c.sweep(&mut t, 9_499);
    assert_eq!(t.len(), 1);
    assert!(t.take(3).is_none());
    c.sweep(&mut t, 9_500);
    assert_eq!(t.len(), 0);
}

#[test]
fn swept_table_holds_no_request_older_than_timeout_plus_interval() {
    let mut t = PendingTable::new();
    for (id, ts) in [(1u32, 0u64), (2, 1_000), (3, 2_500), (4, 6_000)] {
        t.register_command_handle(id, AdsCommand::Read, ts).unwrap();
    }
    let c = CommandCleaner::new(1, 5);
    c.sweep(&mut t, 6_000);
    // 1 and 2 are at least 5 s old at 6 s; 3 and 4 are younger.
    assert_eq!(t.len(), 2);
    assert!(t.process_command(0, 3, Bytes::new()));
    assert!(t.process_command(0, 4, Bytes::new()));
    assert!(!t.process_command(0, 2, Bytes::new()));
}
