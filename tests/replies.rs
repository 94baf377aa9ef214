use ads_client::{
    post_read, post_read_device_info, post_read_state, post_read_write, post_write,
    post_write_ctrl, AdsState, HandleData, NotificationTable, StateInfo, ERR_INTERNAL,
    ERR_INVALIDAMSLENGTH,
};
use bytes::Bytes;

fn reply(ams_err: u32, payload: &[u8]) -> HandleData {
    HandleData { ams_err, payload: Bytes::copy_from_slice(payload) }
}

#[test]
fn read_state_happy_path() {
    let r = post_read_state(&reply(0, &[0, 0, 0, 0, 5, 0, 0, 0])).unwrap();
    assert_eq!(r, StateInfo { ads_state: AdsState::Run, device_state: 0 });
    let r = post_read_state(&reply(0, &[0, 0, 0, 0, 15, 0, 2, 1])).unwrap();
    assert_eq!(r, StateInfo { ads_state: AdsState::Config, device_state: 0x0102 });
}

#[test]
fn read_state_errors_in_order() {
    // AMS error first, even with a failing return code and a bad length.
    assert_eq!(post_read_state(&reply(0x706, &[1, 7, 0, 0])).unwrap_err().n_error, 0x706);
    // Then the return code.
    assert_eq!(post_read_state(&reply(0, &[0x0A, 7, 0, 0])).unwrap_err().n_error, 0x70A);
    // Then the length.
    assert_eq!(post_read_state(&reply(0, &[0, 0, 0, 0, 5, 0])).unwrap_err().n_error, ERR_INVALIDAMSLENGTH);
    assert_eq!(post_read_state(&reply(0, &[0, 0])).unwrap_err().n_error, ERR_INVALIDAMSLENGTH);
    // Then the decoding.
    assert_eq!(post_read_state(&reply(0, &[0, 0, 0, 0, 0, 0, 0, 0])).unwrap_err().n_error, ERR_INTERNAL);
    assert_eq!(post_read_state(&reply(0, &[0, 0, 0, 0, 17, 0, 0, 0])).unwrap_err().n_error, ERR_INTERNAL);
}

#[test]
fn read_copies_the_smaller_length() {
    let r = reply(0, &[0, 0, 0, 0, 3, 0, 0, 0, 0x2A, 0x00, 0x07]);
    let mut two = [0xFFu8; 2];
    assert_eq!(post_read(&r, &mut two).unwrap(), 2);
    assert_eq!(two, [0x2A, 0x00]);
    let mut five = [0xFFu8; 5];
    assert_eq!(post_read(&r, &mut five).unwrap(), 3);
    assert_eq!(five, [0x2A, 0x00, 0x07, 0xFF, 0xFF]);
}

#[test]
fn read_errors_leave_buffer() {
    let mut buf = [9u8; 4];
    assert_eq!(post_read(&reply(0, &[0x08, 0x07, 0, 0, 0, 0, 0, 0]), &mut buf).unwrap_err().n_error, 0x708);
    assert_eq!(post_read(&reply(6, &[0; 12]), &mut buf).unwrap_err().n_error, 6);
    assert_eq!(post_read(&reply(0, &[0; 6]), &mut buf).unwrap_err().n_error, ERR_INVALIDAMSLENGTH);
    assert_eq!(buf, [9; 4]);
}

#[test]
fn read_write_returns_symbol_handle() {
    let r = reply(0, &[0, 0, 0, 0, 4, 0, 0, 0, 0x38, 0x00, 0x00, 0x4D]);
    let mut hdl = [0u8; 4];
    assert_eq!(post_read_write(&r, &mut hdl).unwrap(), 4);
    let h = u32::from_le_bytes(hdl);
    assert_eq!(h, 0x4D00_0038);
    let value = reply(0, &[0, 0, 0, 0, 2, 0, 0, 0, 0x39, 0x05]);
    let mut counter = [0u8; 2];
    assert_eq!(post_read(&value, &mut counter).unwrap(), 2);
    assert_eq!(u16::from_le_bytes(counter), 1337);
}

#[test]
fn write_and_write_control_succeed_on_zero_code() {
    assert!(post_write(&reply(0, &[0, 0, 0, 0])).is_ok());
    assert!(post_write_ctrl(&reply(0, &[0, 0, 0, 0])).is_ok());
    assert_eq!(post_write(&reply(0, &[0x05, 0x07, 0, 0])).unwrap_err().n_error, 0x705);
    assert_eq!(post_write_ctrl(&reply(0x12, &[0, 0, 0, 0])).unwrap_err().n_error, 0x12);
    assert_eq!(post_write(&reply(0, &[])).unwrap_err().n_error, ERR_INVALIDAMSLENGTH);
}

#[test]
fn device_info_decodes() {
    let mut p = vec![0, 0, 0, 0, 3, 1, 0xA8, 0x0F];
    p.extend_from_slice(b"Plc30 App\0\0\0\0\0\0\0");
    let info = post_read_device_info(&reply(0, &p)).unwrap();
    assert_eq!(info.major, 3);
    assert_eq!(info.minor, 1);
    assert_eq!(info.build, 4008);
    assert_eq!(info.device_name, "Plc30 App");
}

#[test]
fn device_info_name_fills_region_and_replaces_non_ascii() {
    let mut p = vec![0, 0, 0, 0, 3, 1, 0, 0];
    p.extend_from_slice(b"ABCDEFGHIJKLMNOP");
    assert_eq!(post_read_device_info(&reply(0, &p)).unwrap().device_name, "ABCDEFGHIJKLMNOP");
    let mut p = vec![0, 0, 0, 0, 3, 1, 0, 0];
    p.extend_from_slice(&[b'T', 0xC3, 0xA9, b'x', 0, b'y', 0, 0, 0, 0, 0, 0, 0, 0, 0, 0]);
    assert_eq!(post_read_device_info(&reply(0, &p)).unwrap().device_name, "T??x");
}

#[test]
fn device_info_errors() {
    assert_eq!(post_read_device_info(&reply(0, &[0; 23])).unwrap_err().n_error, ERR_INVALIDAMSLENGTH);
    assert_eq!(post_read_device_info(&reply(0x701, &[0; 24])).unwrap_err().n_error, 0x701);
    let mut p = vec![0x02, 0x07, 0, 0];
    p.extend_from_slice(&[0; 20]);
    assert_eq!(post_read_device_info(&reply(0, &p)).unwrap_err().n_error, 0x702);
}

#[test]
fn add_and_delete_notification() {
    let mut table: NotificationTable<u8> = NotificationTable::new();
    let mut handle = 0u32;
    table.post_add_dev_not(&reply(0, &[0, 0, 0, 0, 0x2C, 1, 0, 0]), &mut handle, 1).unwrap();
    assert_eq!(handle, 300);
    assert_eq!(table.lookup(300), Some(&1));
    // A zero handle is reported but not subscribed.
    let mut zero = 5u32;
    table.post_add_dev_not(&reply(0, &[0, 0, 0, 0, 0, 0, 0, 0]), &mut zero, 2).unwrap();
    assert_eq!(zero, 0);
    assert_eq!(table.len(), 1);
    // Failures change nothing.
    let mut untouched = 5u32;
    assert_eq!(table.post_add_dev_not(&reply(0, &[0x0C, 0x07, 0, 0]), &mut untouched, 3).unwrap_err().n_error, 0x70C);
    assert_eq!(table.post_add_dev_not(&reply(0, &[0, 0, 0, 0, 1]), &mut untouched, 3).unwrap_err().n_error, ERR_INVALIDAMSLENGTH);
    assert_eq!(untouched, 5);
    assert_eq!(table.post_delete_device_notification(&reply(0, &[0x12, 0x07, 0, 0]), 300).unwrap_err().n_error, 0x712);
    assert_eq!(table.len(), 1);
    let mut frame = 26u32.to_le_bytes().to_vec();
    frame.extend_from_slice(&1u32.to_le_bytes());
    frame.extend_from_slice(&7u64.to_le_bytes());
    frame.extend_from_slice(&1u32.to_le_bytes());
    frame.extend_from_slice(&300u32.to_le_bytes());
    frame.extend_from_slice(&2u32.to_le_bytes());
    frame.extend_from_slice(&[0x10, 0x00]);
    let frame = Bytes::from(frame);
    let before = table.process_device_notification(&frame);
    assert_eq!(before.len(), 1);
    assert_eq!(before[0].1.payload.len(), 2);
    table.post_delete_device_notification(&reply(0, &[0, 0, 0, 0]), 300).unwrap();
    assert_eq!(table.lookup(300), None);
    assert_eq!(table.process_device_notification(&frame).len(), 0);
}
