use crate::buffer::{bytes_content, bytes_from_vec};
use crate::endian::{
    le16, le32, lemma_le16_round_trip, lemma_le32_round_trip, push_all, push_u16_le, push_u32_le,
    read_le16, read_le32, get_u16_le, get_u32_le,
};
use crate::error::{AdsError, ERR_INVALIDAMSLENGTH};
use crate::types::{command_id, command_of_id, lemma_command_id_round_trip, AdsCommand};
use bytes::Bytes;
use vstd::prelude::*;

verus! {

/// Size of the AMS/TCP prefix and the AMS header that start every frame.
pub const HEADER_SIZE: usize = 38;

/// Size of the AMS header alone, without the six-byte AMS/TCP prefix.
pub const AMS_HEADER_SIZE: usize = 32;

/// State flags of a request.
pub const STATE_FLAGS_REQUEST: u16 = 4;

/// Largest body that the 32-bit length fields of a frame can describe.
pub const MAX_BODY_LEN: usize = 0xFFFF_FFDF;

/// Six-byte identifier `a.b.c.d.e.f` of an ADS endpoint.
pub type AmsNetId = [u8; 6];

/// An ADS endpoint: its NetId and AMS port.
#[derive(Debug, Clone, Copy, PartialEq, Eq)]
pub struct AmsAddress {
    pub net_id: AmsNetId,
    pub port: u16,
}

/// The two endpoints that every frame of a client names: the target that
/// requests go to and the source that the router assigned to the client.
#[derive(Debug, Clone, Copy, PartialEq, Eq)]
pub struct AmsRoute {
    pub target: AmsAddress,
    pub source: AmsAddress,
}

/// The 38 bytes that precede a request body of `payload_len` bytes.
pub open spec fn header_spec(route: AmsRoute, cmd: AdsCommand, invoke_id: u32, payload_len: nat) -> Seq<u8> {
    seq![0u8, 0u8]
        + le32((AMS_HEADER_SIZE + payload_len) as u32)
        + route.target.net_id@
        + le16(route.target.port)
        + route.source.net_id@
        + le16(route.source.port)
        + le16(command_id(cmd))
        + le16(STATE_FLAGS_REQUEST)
        + le32(payload_len as u32)
        + le32(0)
        + le32(invoke_id)
}

/// The complete request frame: header, then body.
pub open spec fn frame_spec(route: AmsRoute, cmd: AdsCommand, invoke_id: u32, body: Seq<u8>) -> Seq<u8> {
    header_spec(route, cmd, invoke_id, body.len()) + body
}

/// The fields of a frame header that a reader acts on.
#[derive(Debug, Clone, Copy, PartialEq, Eq)]
pub struct HeaderFields {
    pub payload_len: u32,
    pub ams_error: u32,
    pub invoke_id: u32,
    pub command: AdsCommand,
}

/// The fields of the header at the start of `s`; `None` when `s` is shorter
/// than a header, when the AMS length disagrees with the payload length, or
/// when the command id names no command.
pub open spec fn header_fields(s: Seq<u8>) -> Option<HeaderFields> {
    if s.len() >= HEADER_SIZE && read_le32(s, 2) == AMS_HEADER_SIZE + read_le32(s, 26)
        && command_of_id(read_le16(s, 22)) is Some {
        Some(
            HeaderFields {
                payload_len: read_le32(s, 26),
                ams_error: read_le32(s, 30),
                invoke_id: read_le32(s, 34),
                command: command_of_id(read_le16(s, 22))->0,
            },
        )
    } else {
        None
    }
}

/// Reads the header at the start of `header`.
///
/// Fails with `ERR_INVALIDAMSLENGTH` exactly when [`header_fields`] is `None`.
pub fn parse_header(header: &[u8]) -> (r: Result<HeaderFields, AdsError>)
    ensures
        match r {
            Ok(f) => header_fields(header@) == Some(f),
            Err(e) => header_fields(header@) is None && e.n_error == ERR_INVALIDAMSLENGTH,
        },
{
    if header.len() < HEADER_SIZE {
        return Err(AdsError::new(ERR_INVALIDAMSLENGTH, "Invalid AMS length"));
    }
    let ams_len = get_u32_le(header, 2);
    let payload_len = get_u32_le(header, 26);
    if ams_len as u64 != AMS_HEADER_SIZE as u64 + payload_len as u64 {
        return Err(AdsError::new(ERR_INVALIDAMSLENGTH, "Invalid AMS length"));
    }
    match AdsCommand::from_id(get_u16_le(header, 22)) {
        Some(command) => Ok(
            HeaderFields {
                payload_len,
                ams_error: get_u32_le(header, 30),
                invoke_id: get_u32_le(header, 34),
                command,
            },
        ),
        None => Err(AdsError::new(ERR_INVALIDAMSLENGTH, "Invalid AMS length")),
    }
}

/// Reading back the header of a request frame gives the payload length, a
/// zero AMS error, the invoke-id and the command that it was built with.
pub proof fn lemma_parse_built_header(route: AmsRoute, cmd: AdsCommand, invoke_id: u32, body: Seq<u8>)
    requires
        body.len() <= MAX_BODY_LEN,
    ensures
        header_fields(frame_spec(route, cmd, invoke_id, body)) == Some(
            HeaderFields { payload_len: body.len() as u32, ams_error: 0, invoke_id, command: cmd },
        ),
{
    let f = frame_spec(route, cmd, invoke_id, body);
    let n = body.len();
    assert(f.subrange(2, 6) =~= le32((AMS_HEADER_SIZE + n) as u32));
    assert(f.subrange(22, 24) =~= le16(command_id(cmd)));
    assert(f.subrange(26, 30) =~= le32(n as u32));
    assert(f.subrange(30, 34) =~= le32(0));
    assert(f.subrange(34, 38) =~= le32(invoke_id));
    lemma_le32_round_trip((AMS_HEADER_SIZE + n) as u32, f, 2);
    lemma_le16_round_trip(command_id(cmd), f, 22);
    lemma_le32_round_trip(n as u32, f, 26);
    lemma_le32_round_trip(0, f, 30);
    lemma_le32_round_trip(invoke_id, f, 34);
    lemma_command_id_round_trip(cmd, 0);
}

/// A request frame is 38 bytes longer than its body, and its AMS length
/// field counts the 32-byte AMS header and the body.
pub proof fn lemma_frame_size(route: AmsRoute, cmd: AdsCommand, invoke_id: u32, body: Seq<u8>)
    requires
        body.len() <= MAX_BODY_LEN,
    ensures
        frame_spec(route, cmd, invoke_id, body).len() == HEADER_SIZE + body.len(),
        read_le32(frame_spec(route, cmd, invoke_id, body), 2) == AMS_HEADER_SIZE + body.len(),
{
    let f = frame_spec(route, cmd, invoke_id, body);
    assert(f.subrange(2, 6) =~= le32((AMS_HEADER_SIZE + body.len()) as u32));
    lemma_le32_round_trip((AMS_HEADER_SIZE + body.len()) as u32, f, 2);
}

impl AmsRoute {
    /// The request frame for command `cmd` with invoke-id `invoke_id` and
    /// body `body`.
    pub fn build_request(&self, cmd: AdsCommand, invoke_id: u32, body: &[u8]) -> (r: Bytes)
        requires
            body@.len() <= MAX_BODY_LEN,
        ensures
            bytes_content(r) == frame_spec(*self, cmd, invoke_id, body@),
    {
        let payload_len = body.len() as u32;
        let mut v: Vec<u8> = Vec::new();
        v.push(0);
        v.push(0);
        push_u32_le(&mut v, AMS_HEADER_SIZE as u32 + payload_len);
        push_all(&mut v, self.target.net_id.as_slice());
        push_u16_le(&mut v, self.target.port);
        push_all(&mut v, self.source.net_id.as_slice());
        push_u16_le(&mut v, self.source.port);
        push_u16_le(&mut v, cmd.id());
        push_u16_le(&mut v, STATE_FLAGS_REQUEST);
        push_u32_le(&mut v, payload_len);
        push_u32_le(&mut v, 0);
        push_u32_le(&mut v, invoke_id);
        push_all(&mut v, body);
        assert(v@ =~= frame_spec(*self, cmd, invoke_id, body@));
        bytes_from_vec(v)
    }
}

} // verus!
