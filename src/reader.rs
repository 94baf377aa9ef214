use crate::buffer::{bytes_content, bytes_data};
use crate::error::AdsError;
use crate::frame::{header_fields, parse_header, HEADER_SIZE};
use crate::types::AdsCommand;
use bytes::Bytes;
use vstd::prelude::*;

verus! {

/// Where the reader of the connection stands: waiting for a frame header,
/// or for the payload of the header it has read.
#[derive(Debug, Clone, Copy, PartialEq, Eq)]
pub enum ProcessStateMachine {
    ReadHeader,
    ReadPayload { len_payload: usize, err_code: u32, invoke_id: u32, cmd: AdsCommand },
}

/// What the reader must do after a step.
#[derive(Debug)]
pub enum ReaderAction {
    /// Read on: nothing to hand over yet.
    Continue,
    /// Hand this reply to the pending-request table.
    Complete { ams_err: u32, invoke_id: u32, payload: Bytes },
    /// Hand this device-notification payload to the dispatcher.
    Notify(Bytes),
    /// The framing is lost; the reader stops.
    Fatal(AdsError),
}

impl ProcessStateMachine {
    /// The number of bytes that the reader must read before the next step.
    pub open spec fn spec_bytes_wanted(&self) -> usize {
        match *self {
            ProcessStateMachine::ReadHeader => HEADER_SIZE,
            ProcessStateMachine::ReadPayload { len_payload, .. } => len_payload,
        }
    }

    /// See [`ProcessStateMachine::spec_bytes_wanted`].
    #[verifier::when_used_as_spec(spec_bytes_wanted)]
    pub fn bytes_wanted(&self) -> (r: usize)
        ensures
            r == self.spec_bytes_wanted(),
    {
        match self {
            ProcessStateMachine::ReadHeader => HEADER_SIZE,
            ProcessStateMachine::ReadPayload { len_payload, .. } => *len_payload,
        }
    }

    /// One step of the reader on the bytes `input` that it has read.
    ///
    /// After a header it waits for that header's payload, or stops on a
    /// header that cannot be parsed. After a payload it hands it over, to
    /// the dispatcher for a device notification and to the pending-request
    /// table for any other command, and waits for the next header.
    pub fn step(self, input: Bytes) -> (r: (ProcessStateMachine, ReaderAction))
        ensures
            match self {
                ProcessStateMachine::ReadHeader => match header_fields(bytes_content(input)) {
                    Some(f) => r.0 == (ProcessStateMachine::ReadPayload {
                        len_payload: f.payload_len as usize,
                        err_code: f.ams_error,
                        invoke_id: f.invoke_id,
                        cmd: f.command,
                    }) && r.1 is Continue,
                    None => r.0 == ProcessStateMachine::ReadHeader && r.1 is Fatal,
                },
                ProcessStateMachine::ReadPayload { err_code, invoke_id, cmd, .. } => {
                    &&& r.0 == ProcessStateMachine::ReadHeader
                    &&& cmd == AdsCommand::DeviceNotification ==> (r.1 matches ReaderAction::Notify(p) && p == input)
                    &&& cmd != AdsCommand::DeviceNotification ==> (r.1 matches ReaderAction::Complete { ams_err, invoke_id: id, payload } && ams_err == err_code && id == invoke_id && payload == input)
                },
            },
    {
        match self {
            ProcessStateMachine::ReadHeader => match parse_header(bytes_data(&input)) {
                Ok(f) => (
                    ProcessStateMachine::ReadPayload {
                        len_payload: f.payload_len as usize,
                        err_code: f.ams_error,
                        invoke_id: f.invoke_id,
                        cmd: f.command,
                    },
                    ReaderAction::Continue,
                ),
                Err(e) => (ProcessStateMachine::ReadHeader, ReaderAction::Fatal(e)),
            },
            ProcessStateMachine::ReadPayload { err_code, invoke_id, cmd, .. } => {
                if cmd == AdsCommand::DeviceNotification {
                    (ProcessStateMachine::ReadHeader, ReaderAction::Notify(input))
                } else {
                    (ProcessStateMachine::ReadHeader, ReaderAction::Complete { ams_err: err_code, invoke_id, payload: input })
                }
            },
        }
    }
}

} // verus!
