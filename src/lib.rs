//! Client-side building blocks of the Beckhoff ADS/AMS protocol.
//!
//! The library holds the parts of an ADS client that decide what goes on the
//! wire and what a reply means: the AMS/TCP frame codec, the error taxonomy,
//! the router handshake reply, the table of pending requests keyed by
//! invoke-id, the table of notification subscriptions, the decoder of
//! device-notification frames and the state machine of the reader task.
//! Sockets, tasks and timers are left to the program that uses it.

pub mod buffer;
pub mod endian;
pub mod error;
pub mod frame;
pub mod net_id;
pub mod notification;
pub mod pending;
pub mod reader;
pub mod request;
pub mod response;
pub mod router;
pub mod text;
pub mod types;

pub use error::{
    AdsError, AdsErrorCode, ADSERR_CLIENT_DUPLINVOKEID, ADSERR_CLIENT_SYNCTIMEOUT, ERR_INTERNAL,
    ERR_INVALIDAMSLENGTH, ERR_NOIO, ERR_PORTDISABLED,
};
pub use frame::{parse_header, AmsAddress, AmsNetId, AmsRoute, HeaderFields, HEADER_SIZE};
pub use net_id::parse_net_id;
pub use notification::{
    parse_notification, AdsNotificationSample, AdsStampHeader, NotHandle, NotificationData,
    NotificationTable,
};
pub use pending::{CommandCleaner, CommandManager, Handle, PendingTable, RequestPoll};
pub use reader::{ProcessStateMachine, ReaderAction};
pub use response::{
    post_read, post_read_device_info, post_read_state, post_read_write, post_write,
    post_write_ctrl, HandleData,
};
pub use router::{parse_port_open_reply, port_open_request, ROUTER_PORT};
pub use types::{
    AdsCommand, AdsNotificationAttrib, AdsState, AdsTimeout, AdsTransMode, DeviceStateInfo,
    StateInfo,
};
