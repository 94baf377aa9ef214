use ads_client::{parse_notification, NotificationTable};
use bytes::Bytes;

fn frame(stamps: &[(u64, Vec<(u32, Vec<u8>)>)]) -> Vec<u8> {
    let mut rest: Vec<u8> = Vec::new();
    rest.extend_from_slice(&(stamps.len() as u32).to_le_bytes());
    for (ts, samples) in stamps {
        rest.extend_from_slice(&ts.to_le_bytes());
        rest.extend_from_slice(&(samples.len() as u32).to_le_bytes());
        for (h, data) in samples {
            rest.extend_from_slice(&h.to_le_bytes());
            rest.extend_from_slice(&(data.len() as u32).to_le_bytes());
            rest.extend_from_slice(data);
        }
    }
    let mut out = (rest.len() as u32).to_le_bytes().to_vec();
    out.extend_from_slice(&rest);
    out
}

#[test]
fn notification_frame_decodes() {
    let f = frame(&[
        (0x01D9_0000_0000_0001, vec![(7, vec![1, 2]), (8, vec![3])]),
        (0x01D9_0000_0000_0002, vec![(7, vec![4, 5])]),
    ]);
    let samples = parse_notification(&Bytes::from(f)).unwrap();
    assert_eq!(samples.len(), 3);
    assert_eq!(samples[0].not_hdl, 7);
    assert_eq!(samples[0].timestamp, 0x01D9_0000_0000_0001);
    assert_eq!(&samples[0].payload[..], &[1, 2]);
    assert_eq!(samples[1].not_hdl, 8);
    assert_eq!(&samples[1].payload[..], &[3]);
    assert_eq!(samples[2].timestamp, 0x01D9_0000_0000_0002);
    assert_eq!(&samples[2].payload[..], &[4, 5]);
}

#[test]
fn empty_notification_frame_has_no_samples() {
    let f = frame(&[]);
    assert_eq!(parse_notification(&Bytes::from(f)).unwrap().len(), 0);
    let f = frame(&[(5, vec![])]);
    assert_eq!(parse_notification(&Bytes::from(f)).unwrap().len(), 0);
}

#[test]
fn oversized_sample_drops_whole_frame() {
    let mut f = frame(&[(1, vec![(7, vec![1, 2]), (7, vec![3, 4])])]);
    // Second sample claims 200 bytes.
    let at = f.len() - 2 - 4;
    f[at] = 200;
    assert!(parse_notification(&Bytes::from(f.clone())).is_none());
    let mut table: NotificationTable<u32> = NotificationTable::new();
    table.register_not_handle(7, 70);
    assert_eq!(table.process_device_notification(&Bytes::from(f)).len(), 0);
}

#[test]
fn sample_count_past_stream_size_drops_frame() {
    let mut f = frame(&[(1, vec![(7, vec![1, 2])])]);
    // Claim three samples where one fits.
    f[16] = 3;
    assert!(parse_notification(&Bytes::from(f)).is_none());
    let mut f = frame(&[(1, vec![(7, vec![1, 2])])]);
    f[4] = 2;
    assert!(parse_notification(&Bytes::from(f)).is_none());
}

#[test]
fn truncated_frames_are_dropped() {
    assert!(parse_notification(&Bytes::from_static(&[])).is_none());
    assert!(parse_notification(&Bytes::from_static(&[4, 0, 0, 0, 1, 0, 0])).is_none());
    let f = frame(&[(1, vec![(7, vec![1, 2])])]);
    let short = f[..f.len() - 1].to_vec();
    assert!(parse_notification(&Bytes::from(short)).is_none());
}

#[test]
fn samples_reach_only_their_subscribers() {
    let mut table: NotificationTable<&'static str> = NotificationTable::new();
    table.register_not_handle(7, "seven");
    table.register_not_handle(9, "nine");
    let f = Bytes::from(frame(&[(1, vec![(7, vec![1, 2]), (8, vec![3]), (9, vec![4])])]));
    let d = table.process_device_notification(&f);
    assert_eq!(d.len(), 2);
    assert_eq!(d[0].0, "seven");
    assert_eq!(d[0].1.not_hdl, 7);
    assert_eq!(&d[0].1.payload[..], &[1, 2]);
    assert_eq!(d[1].0, "nine");
    assert_eq!(&d[1].1.payload[..], &[4]);
}

#[test]
fn subscription_table_operations() {
    let mut table: NotificationTable<u32> = NotificationTable::new();
    table.register_not_handle(5, 50);
    table.register_not_handle(6, 60);
    table.register_not_handle(5, 55);
    assert_eq!(table.len(), 2);
    assert_eq!(table.lookup(5), Some(&55));
    assert_eq!(table.lookup(6), Some(&60));
    assert_eq!(table.lookup(7), None);
    assert!(table.remove(5));
    assert!(!table.remove(5));
    assert_eq!(table.lookup(5), None);
    assert_eq!(table.len(), 1);
}
