use crate::buffer::{bytes_content, bytes_data};
use crate::endian::{get_u16_le, get_u32_le, read_le16, read_le32};
use crate::error::{AdsError, ERR_INTERNAL, ERR_INVALIDAMSLENGTH};
use crate::text::{ascii_string, printable_ascii, printable_ascii_byte};
use crate::types::{state_of_value, AdsState, DeviceStateInfo, StateInfo};
use bytes::Bytes;
use vstd::prelude::*;

verus! {

/// A reply as the reader hands it over: the AMS error of its header and its
/// payload.
#[derive(Debug)]
pub struct HandleData {
    pub ams_err: u32,
    pub payload: Bytes,
}

impl HandleData {
    /// The bytes of the payload.
    pub open spec fn payload_bytes(&self) -> Seq<u8> {
        bytes_content(self.payload)
    }
}

/// Whether a library result `r` is the outcome `o`: the same value, or an
/// error with the same code.
pub open spec fn agrees<T>(r: Result<T, AdsError>, o: Result<T, u32>) -> bool {
    match (r, o) {
        (Ok(a), Ok(b)) => a == b,
        (Err(e), Err(c)) => e.n_error == c,
        _ => false,
    }
}

/// The error that a reply carries before its body is read: the AMS error of
/// its header first, then a payload too short for a return code, then the
/// return code that opens the payload.
pub open spec fn reply_error(ams_err: u32, p: Seq<u8>) -> Option<u32> {
    if ams_err != 0 {
        Some(ams_err)
    } else if p.len() < 4 {
        Some(ERR_INVALIDAMSLENGTH as u32)
    } else if read_le32(p, 0) != 0 {
        Some(read_le32(p, 0))
    } else {
        None
    }
}

/// Fails with the AMS error `ams_err` unless it is zero.
pub fn eval_ams_error(ams_err: u32) -> (r: Result<(), AdsError>)
    ensures
        r is Ok <==> ams_err == 0,
        r matches Err(e) ==> e.n_error == ams_err,
{
    if ams_err != 0 {
        return Err(AdsError::new(ams_err, "Errorcode of ADS response"));
    }
    Ok(())
}

/// Fails with the return code that opens `answer` unless it is zero.
pub fn eval_return_code(answer: &[u8]) -> (r: Result<u32, AdsError>)
    ensures
        answer@.len() < 4 ==> (r matches Err(e) && e.n_error == ERR_INVALIDAMSLENGTH),
        answer@.len() >= 4 ==> agrees(
            r,
            if read_le32(answer@, 0) == 0 { Ok(0u32) } else { Err(read_le32(answer@, 0)) },
        ),
{
    if answer.len() < 4 {
        return Err(AdsError::new(ERR_INVALIDAMSLENGTH, "Invalid AMS length"));
    }
    let ret_code = get_u32_le(answer, 0);
    if ret_code != 0 {
        Err(AdsError::new(ret_code, "Errorcode of ADS response"))
    } else {
        Ok(ret_code)
    }
}

/// Checks the AMS error and the return code of a reply, in that order.
pub fn eval_reply(reply: &HandleData) -> (r: Result<(), AdsError>)
    ensures
        agrees(
            r,
            match reply_error(reply.ams_err, reply.payload_bytes()) {
                Some(e) => Err(e),
                None => Ok(()),
            },
        ),
{
    eval_ams_error(reply.ams_err)?;
    eval_return_code(bytes_data(&reply.payload))?;
    Ok(())
}

/// The outcome of a reply that carries nothing but a return code (Write,
/// WriteControl, DeleteDeviceNotification).
pub open spec fn plain_outcome(ams_err: u32, p: Seq<u8>) -> Result<(), u32> {
    match reply_error(ams_err, p) {
        Some(e) => Err(e),
        None => Ok(()),
    }
}

/// The outcome of a reply to a Write request.
pub fn post_write(w_response: &HandleData) -> (r: Result<(), AdsError>)
    ensures
        agrees(r, plain_outcome(w_response.ams_err, w_response.payload_bytes())),
{
    eval_reply(w_response)
}

/// The outcome of a reply to a WriteControl request.
pub fn post_write_ctrl(wr_ctrl_response: &HandleData) -> (r: Result<(), AdsError>)
    ensures
        agrees(r, plain_outcome(wr_ctrl_response.ams_err, wr_ctrl_response.payload_bytes())),
{
    eval_reply(wr_ctrl_response)
}

/// The outcome of a reply that carries data after return code and length
/// (Read, ReadWrite): the number of bytes copied into a buffer of
/// `buf_len` bytes, the smaller of `buf_len` and the data length.
pub open spec fn data_outcome(ams_err: u32, p: Seq<u8>, buf_len: nat) -> Result<u32, u32> {
    match reply_error(ams_err, p) {
        Some(e) => Err(e),
        None => if p.len() < 8 {
            Err(ERR_INVALIDAMSLENGTH as u32)
        } else if buf_len <= p.len() - 8 {
            Ok(buf_len as u32)
        } else {
            Ok((p.len() - 8) as u32)
        },
    }
}

/// The buffer after a data reply was copied into it: the first `n` bytes of
/// the data, then what the buffer held past them.
pub open spec fn copied_into(old_buf: Seq<u8>, p: Seq<u8>, n: int) -> Seq<u8> {
    p.subrange(8, 8 + n) + old_buf.subrange(n, old_buf.len() as int)
}

/// Copies the data of a Read or ReadWrite reply into `data`.
fn copy_reply_data(response: &HandleData, data: &mut [u8]) -> (r: Result<u32, AdsError>)
    requires
        old(data)@.len() <= u32::MAX,
    ensures
        agrees(r, data_outcome(response.ams_err, response.payload_bytes(), old(data)@.len())),
        r matches Ok(n) ==> final(data)@ == copied_into(old(data)@, response.payload_bytes(), n as int),
        r is Err ==> final(data)@ == old(data)@,
{
    eval_reply(response)?;
    let p = bytes_data(&response.payload);
    let plen = p.len();
    if plen < 8 {
        return Err(AdsError::new(ERR_INVALIDAMSLENGTH, "Invalid AMS length"));
    }
    let avail = plen - 8;
    let n = if data.len() <= avail { data.len() } else { avail };
    let ghost old_buf = data@;
    let mut i: usize = 0;
    while i < n
        invariant
            n <= data@.len(),
            n + 8 <= plen,
            plen == p@.len(),
            i <= n,
            data@.len() == old_buf.len(),
            data@ == p@.subrange(8, 8 + i as int) + old_buf.subrange(i as int, old_buf.len() as int),
        decreases n - i,
    {
        data[i] = p[8 + i];
        i = i + 1;
        assert(data@ =~= p@.subrange(8, 8 + i as int) + old_buf.subrange(i as int, old_buf.len() as int));
    }
    Ok(n as u32)
}

/// The outcome of a Read reply, copied into `data`.
pub fn post_read(read_response: &HandleData, data: &mut [u8]) -> (r: Result<u32, AdsError>)
    requires
        old(data)@.len() <= u32::MAX,
    ensures
        agrees(r, data_outcome(read_response.ams_err, read_response.payload_bytes(), old(data)@.len())),
        r matches Ok(n) ==> final(data)@ == copied_into(old(data)@, read_response.payload_bytes(), n as int),
        r is Err ==> final(data)@ == old(data)@,
{
    copy_reply_data(read_response, data)
}

/// The outcome of a ReadWrite reply, copied into `read_data`.
pub fn post_read_write(rw_response: &HandleData, read_data: &mut [u8]) -> (r: Result<u32, AdsError>)
    requires
        old(read_data)@.len() <= u32::MAX,
    ensures
        agrees(r, data_outcome(rw_response.ams_err, rw_response.payload_bytes(), old(read_data)@.len())),
        r matches Ok(n) ==> final(read_data)@ == copied_into(old(read_data)@, rw_response.payload_bytes(), n as int),
        r is Err ==> final(read_data)@ == old(read_data)@,
{
    copy_reply_data(rw_response, read_data)
}

/// The outcome of a ReadState reply: eight payload bytes, return code, ADS
/// state and device state. A state value that names no state, or the
/// all-zero state, is an internal error.
pub open spec fn read_state_outcome(ams_err: u32, p: Seq<u8>) -> Result<StateInfo, u32> {
    match reply_error(ams_err, p) {
        Some(e) => Err(e),
        None => if p.len() != 8 {
            Err(ERR_INVALIDAMSLENGTH as u32)
        } else {
            match state_of_value(read_le16(p, 4)) {
                None => Err(ERR_INTERNAL as u32),
                Some(s) => {
                    let info = StateInfo { ads_state: s, device_state: read_le16(p, 6) };
                    if info.spec_is_unset() {
                        Err(ERR_INTERNAL as u32)
                    } else {
                        Ok(info)
                    }
                },
            }
        },
    }
}

/// The outcome of a ReadState reply.
pub fn post_read_state(rs_response: &HandleData) -> (r: Result<StateInfo, AdsError>)
    ensures
        agrees(r, read_state_outcome(rs_response.ams_err, rs_response.payload_bytes())),
{
    eval_reply(rs_response)?;
    let p = bytes_data(&rs_response.payload);
    if p.len() != 8 {
        return Err(AdsError::new(ERR_INVALIDAMSLENGTH, "Invalid AMS length"));
    }
    let ads_state = match AdsState::from_value(get_u16_le(p, 4)) {
        Some(s) => s,
        None => {
            return Err(AdsError::new(ERR_INTERNAL, "AdsState: Conversion from u16 failed"));
        },
    };
    let info = StateInfo { ads_state, device_state: get_u16_le(p, 6) };
    if info.is_unset() {
        return Err(AdsError::new(ERR_INTERNAL, "Internal error - conversion of payload failed."));
    }
    Ok(info)
}

/// Size of a ReadDeviceInfo reply payload.
pub const LEN_DEVICE_INFO: usize = 24;

/// Size of the NUL-terminated device-name region of a ReadDeviceInfo reply.
pub const LEN_DEVICE_NAME: usize = 16;

/// The index of the first NUL byte of `s` at or after `i`, or `s.len()`.
pub open spec fn first_nul(s: Seq<u8>, i: int) -> int
    decreases s.len() - i,
{
    if i >= s.len() {
        s.len() as int
    } else if s[i] == 0 {
        i
    } else {
        first_nul(s, i + 1)
    }
}

/// The name held by a NUL-terminated region, with each non-ASCII byte
/// replaced.
pub open spec fn device_name_of(region: Seq<u8>) -> Seq<char> {
    printable_ascii(region.subrange(0, first_nul(region, 0)))
}

/// The outcome of a ReadDeviceInfo reply: 24 payload bytes, return code,
/// major, minor, build and the 16-byte name region.
pub open spec fn device_info_error(ams_err: u32, p: Seq<u8>) -> Option<u32> {
    match reply_error(ams_err, p) {
        Some(e) => Some(e),
        None => if p.len() != LEN_DEVICE_INFO {
            Some(ERR_INVALIDAMSLENGTH as u32)
        } else {
            None
        },
    }
}

/// The outcome of a ReadDeviceInfo reply.
pub fn post_read_device_info(rd_dinfo_response: &HandleData) -> (r: Result<DeviceStateInfo, AdsError>)
    ensures
        match device_info_error(rd_dinfo_response.ams_err, rd_dinfo_response.payload_bytes()) {
            Some(c) => (r matches Err(e) && e.n_error == c),
            None => (r matches Ok(info) && {
                let p = rd_dinfo_response.payload_bytes();
                &&& info.major == p[4]
                &&& info.minor == p[5]
                &&& info.build == read_le16(p, 6)
                &&& info.device_name@ == device_name_of(p.subrange(8, 24))
            }),
        },
{
    eval_reply(rd_dinfo_response)?;
    let p = bytes_data(&rd_dinfo_response.payload);
    if p.len() != LEN_DEVICE_INFO {
        return Err(AdsError::new(ERR_INVALIDAMSLENGTH, "Invalid AMS length"));
    }
    let ghost region = p@.subrange(8, 24);
    let mut end: usize = 0;
    while end < LEN_DEVICE_NAME && p[8 + end] != 0
        invariant
            p@.len() == LEN_DEVICE_INFO,
            region == p@.subrange(8, 24),
            end <= LEN_DEVICE_NAME,
            first_nul(region, 0) == first_nul(region, end as int),
        decreases LEN_DEVICE_NAME - end,
    {
        assert(region[end as int] == p@[8 + end]);
        end = end + 1;
    }
    assert(first_nul(region, end as int) == end);
    let mut name: Vec<u8> = Vec::new();
    let mut i: usize = 0;
    while i < end
        invariant
            p@.len() == LEN_DEVICE_INFO,
            region == p@.subrange(8, 24),
            end <= LEN_DEVICE_NAME,
            i <= end,
            name@ == region.subrange(0, i as int).map_values(|b: u8| printable_ascii_byte(b)),
        decreases end - i,
    {
        name.push(if p[8 + i] < 128 { p[8 + i] } else { 0x3F });
        i = i + 1;
        assert(name@ =~= region.subrange(0, i as int).map_values(|b: u8| printable_ascii_byte(b)));
    }
    let device_name = ascii_string(name);
    assert(device_name@ =~= device_name_of(region));
    Ok(DeviceStateInfo { major: p[4], minor: p[5], build: get_u16_le(p, 6), device_name })
}

} // verus!
