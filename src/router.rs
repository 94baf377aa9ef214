use crate::endian::{get_u16_le, read_le16};
use crate::error::{AdsError, ERR_PORTDISABLED};
use crate::frame::AmsAddress;
use vstd::prelude::*;

verus! {

/// TCP port on which the local ADS router listens.
pub const ROUTER_PORT: u16 = 48898;

/// Length of the router's reply to the port-open request.
pub const PORT_OPEN_REPLY_LEN: usize = 14;

/// The port-open request: an AMS/TCP frame of command 0x1000 with an empty
/// body, asking the router to assign the client a port.
pub fn port_open_request() -> (r: [u8; 8])
    ensures
        r@ == seq![0x00u8, 0x10u8, 0x02u8, 0x00u8, 0x00u8, 0x00u8, 0x00u8, 0x00u8],
{
    let r: [u8; 8] = [0x00, 0x10, 0x02, 0x00, 0x00, 0x00, 0x00, 0x00];
    assert(r@ =~= seq![0x00u8, 0x10u8, 0x02u8, 0x00u8, 0x00u8, 0x00u8, 0x00u8, 0x00u8]);
    r
}

/// The address that the router assigned, read from its reply to the
/// port-open request: six header bytes, the NetId, the port.
///
/// A reply of any other length than 14 bytes fails with `ERR_PORTDISABLED`.
pub fn parse_port_open_reply(answer: &[u8]) -> (r: Result<AmsAddress, AdsError>)
    ensures
        answer@.len() != PORT_OPEN_REPLY_LEN ==> (r matches Err(e) && e.n_error == ERR_PORTDISABLED),
        answer@.len() == PORT_OPEN_REPLY_LEN ==> (r matches Ok(a) && a.net_id@ == answer@.subrange(6, 12)
            && a.port == read_le16(answer@, 12)),
{
    if answer.len() != PORT_OPEN_REPLY_LEN {
        return Err(AdsError::new(ERR_PORTDISABLED, "Port disabled - TwinCAT system service not started."));
    }
    let net_id: [u8; 6] = [answer[6], answer[7], answer[8], answer[9], answer[10], answer[11]];
    assert(net_id@ =~= answer@.subrange(6, 12));
    Ok(AmsAddress { net_id, port: get_u16_le(answer, 12) })
}

} // verus!
