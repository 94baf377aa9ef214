use crate::buffer::bytes_content;
use crate::endian::{le16, le32, push_all, push_u16_le, push_u32_le};
use crate::frame::{frame_spec, AmsRoute, MAX_BODY_LEN};
use crate::types::{
    state_value, trans_mode_value, AdsCommand, AdsNotificationAttrib, StateInfo,
};
use bytes::Bytes;
use vstd::prelude::*;

verus! {

/// Size of a Read request body.
pub const LEN_READ_REQ: usize = 12;

/// Size of a Write request body without its data.
pub const LEN_W_REQ_MIN: usize = 12;

/// Size of a ReadWrite request body without its write data.
pub const LEN_RW_REQ_MIN: usize = 16;

/// Size of a WriteControl request body without its data.
pub const LEN_WR_CTRL_MIN: usize = 8;

/// Size of an AddDeviceNotification request body, reserved bytes included.
pub const LEN_ADD_DEV_NOT: usize = 38;

/// Size of a DeleteDeviceNotification request body.
pub const LEN_DEL_DEV_NOT: usize = 4;

/// Read: index group, index offset, length to read.
pub open spec fn read_body(idx_grp: u32, idx_offs: u32, rd_len: u32) -> Seq<u8> {
    le32(idx_grp) + le32(idx_offs) + le32(rd_len)
}

/// Write: index group, index offset, data length, data.
pub open spec fn write_body(idx_grp: u32, idx_offs: u32, data: Seq<u8>) -> Seq<u8> {
    le32(idx_grp) + le32(idx_offs) + le32(data.len() as u32) + data
}

/// ReadWrite: index group, index offset, read length, write length, write data.
pub open spec fn read_write_body(idx_grp: u32, idx_offs: u32, rd_len: u32, data: Seq<u8>) -> Seq<u8> {
    le32(idx_grp) + le32(idx_offs) + le32(rd_len) + le32(data.len() as u32) + data
}

/// WriteControl: ADS state, device state, data length, data.
pub open spec fn write_control_body(state: StateInfo, data: Seq<u8>) -> Seq<u8> {
    le16(state_value(state.ads_state)) + le16(state.device_state) + le32(data.len() as u32) + data
}

/// AddDeviceNotification: index group, index offset, then the attributes
/// (length, transmission mode, maximum delay, cycle time), padded with zero
/// bytes to the fixed body size.
pub open spec fn add_notification_body(idx_grp: u32, idx_offs: u32, attrib: AdsNotificationAttrib) -> Seq<u8> {
    le32(idx_grp) + le32(idx_offs) + le32(attrib.cb_length) + le32(trans_mode_value(attrib.trans_mode))
        + le32(attrib.max_delay) + le32(attrib.cycle_time) + Seq::new(14, |i: int| 0u8)
}

/// DeleteDeviceNotification: the notification handle.
pub open spec fn delete_notification_body(handle: u32) -> Seq<u8> {
    le32(handle)
}

/// The body of a Read request.
pub fn read_request_body(idx_grp: u32, idx_offs: u32, rd_len: u32) -> (r: Vec<u8>)
    ensures
        r@ == read_body(idx_grp, idx_offs, rd_len),
        r@.len() == LEN_READ_REQ,
{
    let mut v: Vec<u8> = Vec::new();
    push_u32_le(&mut v, idx_grp);
    push_u32_le(&mut v, idx_offs);
    push_u32_le(&mut v, rd_len);
    v
}

/// The body of a Write request.
pub fn write_request_body(idx_grp: u32, idx_offs: u32, data: &[u8]) -> (r: Vec<u8>)
    requires
        data@.len() <= MAX_BODY_LEN - LEN_W_REQ_MIN,
    ensures
        r@ == write_body(idx_grp, idx_offs, data@),
        r@.len() == LEN_W_REQ_MIN + data@.len(),
{
    let mut v: Vec<u8> = Vec::new();
    push_u32_le(&mut v, idx_grp);
    push_u32_le(&mut v, idx_offs);
    push_u32_le(&mut v, data.len() as u32);
    push_all(&mut v, data);
    v
}

/// The body of a ReadWrite request.
pub fn read_write_request_body(idx_grp: u32, idx_offs: u32, rd_len: u32, data: &[u8]) -> (r: Vec<u8>)
    requires
        data@.len() <= MAX_BODY_LEN - LEN_RW_REQ_MIN,
    ensures
        r@ == read_write_body(idx_grp, idx_offs, rd_len, data@),
        r@.len() == LEN_RW_REQ_MIN + data@.len(),
{
    let mut v: Vec<u8> = Vec::new();
    push_u32_le(&mut v, idx_grp);
    push_u32_le(&mut v, idx_offs);
    push_u32_le(&mut v, rd_len);
    push_u32_le(&mut v, data.len() as u32);
    push_all(&mut v, data);
    v
}

/// The body of a WriteControl request; no data is an empty data block.
pub fn write_control_request_body(state: &StateInfo, data: Option<&[u8]>) -> (r: Vec<u8>)
    requires
        data matches Some(d) ==> d@.len() <= MAX_BODY_LEN - LEN_WR_CTRL_MIN,
    ensures
        r@ == write_control_body(*state, optional_bytes(data)),
        r@.len() == LEN_WR_CTRL_MIN + optional_bytes(data).len(),
{
    let mut v: Vec<u8> = Vec::new();
    push_u16_le(&mut v, state.ads_state.value());
    push_u16_le(&mut v, state.device_state);
    match data {
        Some(d) => {
            push_u32_le(&mut v, d.len() as u32);
            push_all(&mut v, d);
        },
        None => {
            push_u32_le(&mut v, 0);
            assert(v@ =~= write_control_body(*state, Seq::<u8>::empty()));
        },
    }
    v
}

/// The bytes of an optional data block; none is empty.
pub open spec fn optional_bytes(data: Option<&[u8]>) -> Seq<u8> {
    match data {
        Some(d) => d@,
        None => Seq::empty(),
    }
}

/// The body of an AddDeviceNotification request.
pub fn add_notification_request_body(idx_grp: u32, idx_offs: u32, attrib: &AdsNotificationAttrib) -> (r: Vec<u8>)
    ensures
        r@ == add_notification_body(idx_grp, idx_offs, *attrib),
        r@.len() == LEN_ADD_DEV_NOT,
{
    let mut v: Vec<u8> = Vec::new();
    push_u32_le(&mut v, idx_grp);
    push_u32_le(&mut v, idx_offs);
    push_u32_le(&mut v, attrib.cb_length);
    push_u32_le(&mut v, attrib.trans_mode.value());
    push_u32_le(&mut v, attrib.max_delay);
    push_u32_le(&mut v, attrib.cycle_time);
    let ghost fixed = v@;
    let mut i: usize = 0;
    while i < 14
        invariant
            i <= 14,
            v@ == fixed + Seq::new(i as nat, |k: int| 0u8),
        decreases 14 - i,
    {
        v.push(0);
        i = i + 1;
        assert(v@ =~= fixed + Seq::new(i as nat, |k: int| 0u8));
    }
    v
}

/// The body of a DeleteDeviceNotification request.
pub fn delete_notification_request_body(handle: u32) -> (r: Vec<u8>)
    ensures
        r@ == delete_notification_body(handle),
        r@.len() == LEN_DEL_DEV_NOT,
{
    let mut v: Vec<u8> = Vec::new();
    push_u32_le(&mut v, handle);
    v
}

impl AmsRoute {
    /// The frame of a Read request for `rd_len` bytes.
    pub fn pre_read(&self, idx_grp: u32, idx_offs: u32, rd_len: usize, invoke_id: u32) -> (r: Bytes)
        requires
            rd_len <= u32::MAX,
        ensures
            bytes_content(r) == frame_spec(*self, AdsCommand::Read, invoke_id, read_body(idx_grp, idx_offs, rd_len as u32)),
    {
        let body = read_request_body(idx_grp, idx_offs, rd_len as u32);
        self.build_request(AdsCommand::Read, invoke_id, body.as_slice())
    }

    /// The frame of a Write request carrying `data`.
    pub fn pre_write(&self, idx_grp: u32, idx_offs: u32, data: &[u8], invoke_id: u32) -> (r: Bytes)
        requires
            data@.len() <= MAX_BODY_LEN - LEN_W_REQ_MIN,
        ensures
            bytes_content(r) == frame_spec(*self, AdsCommand::Write, invoke_id, write_body(idx_grp, idx_offs, data@)),
    {
        let body = write_request_body(idx_grp, idx_offs, data);
        self.build_request(AdsCommand::Write, invoke_id, body.as_slice())
    }

    /// The frame of a ReadWrite request that reads `rd_len` bytes and writes `write_data`.
    pub fn pre_read_write(&self, idx_grp: u32, idx_offs: u32, rd_len: usize, write_data: &[u8], invoke_id: u32) -> (r: Bytes)
        requires
            rd_len <= u32::MAX,
            write_data@.len() <= MAX_BODY_LEN - LEN_RW_REQ_MIN,
        ensures
            bytes_content(r) == frame_spec(
                *self,
                AdsCommand::ReadWrite,
                invoke_id,
                read_write_body(idx_grp, idx_offs, rd_len as u32, write_data@),
            ),
    {
        let body = read_write_request_body(idx_grp, idx_offs, rd_len as u32, write_data);
        self.build_request(AdsCommand::ReadWrite, invoke_id, body.as_slice())
    }

    /// The frame of a WriteControl request.
    pub fn pre_write_ctrl(&self, state: &StateInfo, data: Option<&[u8]>, invoke_id: u32) -> (r: Bytes)
        requires
            data matches Some(d) ==> d@.len() <= MAX_BODY_LEN - LEN_WR_CTRL_MIN,
        ensures
            bytes_content(r) == frame_spec(
                *self,
                AdsCommand::WriteControl,
                invoke_id,
                write_control_body(*state, optional_bytes(data)),
            ),
    {
        let body = write_control_request_body(state, data);
        self.build_request(AdsCommand::WriteControl, invoke_id, body.as_slice())
    }

    /// The frame of an AddDeviceNotification request.
    pub fn pre_add_dev_not(&self, idx_grp: u32, idx_offs: u32, attributes: &AdsNotificationAttrib, invoke_id: u32) -> (r: Bytes)
        ensures
            bytes_content(r) == frame_spec(
                *self,
                AdsCommand::AddDeviceNotification,
                invoke_id,
                add_notification_body(idx_grp, idx_offs, *attributes),
            ),
    {
        let body = add_notification_request_body(idx_grp, idx_offs, attributes);
        self.build_request(AdsCommand::AddDeviceNotification, invoke_id, body.as_slice())
    }

    /// The frame of a DeleteDeviceNotification request.
    pub fn pre_delete_device_notification(&self, handle: u32, invoke_id: u32) -> (r: Bytes)
        ensures
            bytes_content(r) == frame_spec(
                *self,
                AdsCommand::DeleteDeviceNotification,
                invoke_id,
                delete_notification_body(handle),
            ),
    {
        let body = delete_notification_request_body(handle);
        self.build_request(AdsCommand::DeleteDeviceNotification, invoke_id, body.as_slice())
    }

    /// The frame of a request without a body (ReadState, ReadDeviceInfo).
    pub fn pre_empty(&self, cmd: AdsCommand, invoke_id: u32) -> (r: Bytes)
        ensures
            bytes_content(r) == frame_spec(*self, cmd, invoke_id, Seq::empty()),
    {
        let body: Vec<u8> = Vec::new();
        self.build_request(cmd, invoke_id, body.as_slice())
    }
}

} // verus!
