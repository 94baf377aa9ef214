use vstd::prelude::*;

verus! {

/// The error of every fallible operation of this library: a numeric ADS
/// error code and a diagnostic text.
#[derive(Debug, Clone)]
pub struct AdsError {
    pub n_error: u32,
    pub s_msg: String,
}

impl AdsError {
    /// An error with code `n_error` and message `s_msg`.
    pub fn new(n_error: u32, s_msg: &str) -> (r: AdsError)
        ensures
            r.n_error == n_error,
            r.s_msg@ == s_msg@,
    {
        AdsError { n_error, s_msg: s_msg.to_owned() }
    }
}

/// Internal error; also what a malformed address or number turns into.
pub const ERR_INTERNAL: u32 = 1;

/// No I/O: what a failed socket operation turns into.
pub const ERR_NOIO: u32 = 10;

/// Invalid AMS length: a frame or reply that is too short or inconsistent.
pub const ERR_INVALIDAMSLENGTH: u32 = 14;

/// Port disabled: the router refused or garbled the port-open handshake.
pub const ERR_PORTDISABLED: u32 = 18;

/// The invoke-id is already in use by a pending request.
pub const ADSERR_CLIENT_DUPLINVOKEID: u32 = 1860;

/// The reply did not arrive within the request's timeout.
pub const ADSERR_CLIENT_SYNCTIMEOUT: u32 = 0x745;

/// Named ADS, router, real-time and socket error codes.
#[derive(Debug, Clone, Copy, PartialEq, Eq, Structural)]
#[allow(non_camel_case_types)]
pub enum AdsErrorCode {
    /// No error.
    ERR_NOERROR,
    /// Internal error.
    ERR_INTERNAL,
    /// No real time.
    ERR_NORTIME,
    /// Allocation locked – memory error.
    ERR_ALLOCLOCKEDMEM,
    /// Mailbox full – the ADS message could not be sent. Reducing the number of ADS messages per cycle will help.
    ERR_INSERTMAILBOX,
    /// Wrong HMSG.
    ERR_WRONGRECEIVEHMSG,
    /// Target port not found – ADS server is not started or is not reachable.
    ERR_TARGETPORTNOTFOUND,
    /// Target computer not found – AMS route was not found.
    ERR_TARGETMACHINENOTFOUND,
    /// Unknown command ID.
    ERR_UNKNOWNCMDID,
    /// Invalid task ID.
    ERR_BADTASKID,
    /// No IO.
    ERR_NOIO,
    /// Unknown AMS command.
    ERR_UNKNOWNAMSCMD,
    /// Win32 error.
    ERR_WIN32ERROR,
    /// Port not connected.
    ERR_PORTNOTCONNECTED,
    /// Invalid AMS length.
    ERR_INVALIDAMSLENGTH,
    /// Invalid AMS Net ID.
    ERR_INVALIDAMSNETID,
    /// Installation level is too low –TwinCAT 2 license error.
    ERR_LOWINSTLEVEL,
    /// No debugging available.
    ERR_NODEBUGINTAVAILABLE,
    /// Port disabled – TwinCAT system service not started.
    ERR_PORTDISABLED,
    /// Port already connected.
    ERR_PORTALREADYCONNECTED,
    /// AMS Sync Win32 error.
    ERR_AMSSYNC_W32ERROR,
    /// AMS Sync Timeout.
    ERR_AMSSYNC_TIMEOUT,
    /// AMS Sync error.
    ERR_AMSSYNC_AMSERROR,
    /// No index map for AMS Sync available.
    ERR_AMSSYNC_NOINDEXINMAP,
    /// Invalid AMS port.
    ERR_INVALIDAMSPORT,
    /// No memory.
    ERR_NOMEMORY,
    /// TCP send error.
    ERR_TCPSEND,
    /// Host unreachable.
    ERR_HOSTUNREACHABLE,
    /// Invalid AMS fragment.
    ERR_INVALIDAMSFRAGMENT,
    /// TLS send error – secure ADS connection failed.
    ERR_TLSSEND,
    /// Access denied – secure ADS access denied.
    ERR_ACCESSDENIED,
    /// Locked memory cannot be allocated.
    ROUTERERR_NOLOCKEDMEMORY,
    /// The router memory size could not be changed.
    ROUTERERR_RESIZEMEMORY,
    /// The mailbox has reached the maximum number of possible messages.
    ROUTERERR_MAILBOXFULL,
    /// The Debug mailbox has reached the maximum number of possible messages.
    ROUTERERR_DEBUGBOXFULL,
    /// The port type is unknown.
    ROUTERERR_UNKNOWNPORTTYPE,
    /// The router is not initialized.
    ROUTERERR_NOTINITIALIZED,
    /// The port number is already assigned.
    ROUTERERR_PORTALREADYINUSE,
    /// The port is not registered.
    ROUTERERR_NOTREGISTERED,
    /// The maximum number of ports has been reached.
    ROUTERERR_NOMOREQUEUES,
    /// The port is invalid.
    ROUTERERR_INVALIDPORT,
    /// The router is not active.
    ROUTERERR_NOTACTIVATED,
    /// The mailbox has reached the maximum number for fragmented messages.
    ROUTERERR_FRAGMENTBOXFULL,
    /// A fragment timeout has occurred.
    ROUTERERR_FRAGMENTTIMEOUT,
    /// The port is removed.
    ROUTERERR_TOBEREMOVED,
    /// General device error.
    ADSERR_DEVICE_ERROR,
    /// Service is not supported by the server.
    ADSERR_DEVICE_SRVNOTSUPP,
    /// Invalid index group.
    ADSERR_DEVICE_INVALIDGRP,
    /// Invalid index offset.
    ADSERR_DEVICE_INVALIDOFFSET,
    /// Reading or writing not permitted.
    ADSERR_DEVICE_INVALIDACCESS,
    /// Parameter size not correct.
    ADSERR_DEVICE_INVALIDSIZE,
    /// Invalid data values.
    ADSERR_DEVICE_INVALIDDATA,
    /// Device is not ready to operate.
    ADSERR_DEVICE_NOTREADY,
    /// Device is busy.
    ADSERR_DEVICE_BUSY,
    /// Invalid operating system context. This can result from use of ADS blocks in different tasks. It may be possible to resolve this through multitasking synchronization in the PLC.
    ADSERR_DEVICE_INVALIDCONTEXT,
    /// Insufficient memory.
    ADSERR_DEVICE_NOMEMORY,
    /// Invalid parameter values.
    ADSERR_DEVICE_INVALIDPARM,
    /// Not found (files, ...).
    ADSERR_DEVICE_NOTFOUND,
    /// Syntax error in file or command.
    ADSERR_DEVICE_SYNTAX,
    /// Objects do not match.
    ADSERR_DEVICE_INCOMPATIBLE,
    /// Object already exists.
    ADSERR_DEVICE_EXISTS,
    /// Symbol not found.
    ADSERR_DEVICE_SYMBOLNOTFOUND,
    /// Invalid symbol version. This can occur due to an online change. Create a new handle.
    ADSERR_DEVICE_SYMBOLVERSIONINVALID,
    /// Device (server) is in invalid state.
    ADSERR_DEVICE_INVALIDSTATE,
    /// AdsTransMode not supported.
    ADSERR_DEVICE_TRANSMODENOTSUPP,
    /// Notification handle is invalid.
    ADSERR_DEVICE_NOTIFYHNDINVALID,
    /// Notification client not registered.
    ADSERR_DEVICE_CLIENTUNKNOWN,
    /// No further handle available.
    ADSERR_DEVICE_NOMOREHDLS,
    /// Notification size too large.
    ADSERR_DEVICE_INVALIDWATCHSIZE,
    /// Device not initialized.
    ADSERR_DEVICE_NOTINIT,
    /// Device has a timeout.
    ADSERR_DEVICE_TIMEOUT,
    /// Interface query failed.
    ADSERR_DEVICE_NOINTERFACE,
    /// Wrong interface requested.
    ADSERR_DEVICE_INVALIDINTERFACE,
    /// Class ID is invalid.
    ADSERR_DEVICE_INVALIDCLSID,
    /// Object ID is invalid.
    ADSERR_DEVICE_INVALIDOBJID,
    /// Request pending.
    ADSERR_DEVICE_PENDING,
    /// Request is aborted.
    ADSERR_DEVICE_ABORTED,
    /// Signal warning.
    ADSERR_DEVICE_WARNING,
    /// Invalid array index.
    ADSERR_DEVICE_INVALIDARRAYIDX,
    /// Symbol not active.
    ADSERR_DEVICE_SYMBOLNOTACTIVE,
    /// Access denied.
    ADSERR_DEVICE_ACCESSDENIED,
    /// Missing license.
    ADSERR_DEVICE_LICENSENOTFOUND,
    /// License expired.
    ADSERR_DEVICE_LICENSEEXPIRED,
    /// License exceeded.
    ADSERR_DEVICE_LICENSEEXCEEDED,
    /// Invalid license.
    ADSERR_DEVICE_LICENSEINVALID,
    /// License problem: System ID is invalid.
    ADSERR_DEVICE_LICENSESYSTEMID,
    /// License not limited in time.
    ADSERR_DEVICE_LICENSENOTIMELIMIT,
    /// Licensing problem: time in the future.
    ADSERR_DEVICE_LICENSEFUTUREISSUE,
    /// License period too long.
    ADSERR_DEVICE_LICENSETIMETOLONG,
    /// Exception at system startup.
    ADSERR_DEVICE_EXCEPTION,
    /// License file read twice.
    ADSERR_DEVICE_LICENSEDUPLICATED,
    /// Invalid signature.
    ADSERR_DEVICE_SIGNATUREINVALID,
    /// Invalid certificate.
    ADSERR_DEVICE_CERTIFICATEINVALID,
    /// Public key not known from OEM.
    ADSERR_DEVICE_LICENSEOEMNOTFOUND,
    /// License not valid for this system ID.
    ADSERR_DEVICE_LICENSERESTRICTED,
    /// Demo license prohibited.
    ADSERR_DEVICE_LICENSEDEMODENIED,
    /// Invalid function ID.
    ADSERR_DEVICE_INVALIDFNCID,
    /// Outside the valid range.
    ADSERR_DEVICE_OUTOFRANGE,
    /// Invalid alignment.
    ADSERR_DEVICE_INVALIDALIGNMENT,
    /// Invalid platform level.
    ADSERR_DEVICE_LICENSEPLATFORM,
    /// Context – forward to passive level.
    ADSERR_DEVICE_FORWARD_PL,
    /// Context – forward to dispatch level.
    ADSERR_DEVICE_FORWARD_DL,
    /// Context – forward to real time.
    ADSERR_DEVICE_FORWARD_RT,
    /// Client error.
    ADSERR_CLIENT_ERROR,
    /// Service contains an invalid parameter.
    ADSERR_CLIENT_INVALIDPARM,
    /// Polling list is empty.
    ADSERR_CLIENT_LISTEMPTY,
    /// Var connection already in use.
    ADSERR_CLIENT_VARUSED,
    /// The called ID is already in use.
    ADSERR_CLIENT_DUPLINVOKEID,
    /// Timeout has occurred – the remote terminal is not responding in the specified ADS timeout. The route setting of the remote terminal may be configured incorrectly.
    ADSERR_CLIENT_SYNCTIMEOUT,
    /// Error in Win32 subsystem.
    ADSERR_CLIENT_W32ERROR,
    /// Invalid client timeout value.
    ADSERR_CLIENT_TIMEOUTINVALID,
    /// Port not open.
    ADSERR_CLIENT_PORTNOTOPEN,
    /// No AMS address.
    ADSERR_CLIENT_NOAMSADDR,
    /// Internal error in Ads sync.
    ADSERR_CLIENT_SYNCINTERNAL,
    /// Hash table overflow.
    ADSERR_CLIENT_ADDHASH,
    /// Key not found in the table.
    ADSERR_CLIENT_REMOVEHASH,
    /// No symbols in the cache.
    ADSERR_CLIENT_NOMORESYM,
    /// Invalid response received.
    ADSERR_CLIENT_SYNCRESINVALID,
    /// Sync Port is locked.
    ADSERR_CLIENT_SYNCPORTLOCKED,
    /// The request was cancelled.
    ADSERR_CLIENT_REQUESTCANCELLED,
    /// Internal error in the real-time system.
    RTERR_INTERNAL,
    /// Timer value is not valid.
    RTERR_BADTIMERPERIODS,
    /// Task pointer has the invalid value 0 (zero).
    RTERR_INVALIDTASKPTR,
    /// Stack pointer has the invalid value 0 (zero).
    RTERR_INVALIDSTACKPTR,
    /// The request task priority is already assigned.
    RTERR_PRIOEXISTS,
    /// No free TCB (Task Control Block) available. The maximum number of TCBs is 64.
    RTERR_NOMORETCB,
    /// No free semaphores available. The maximum number of semaphores is 64.
    RTERR_NOMORESEMAS,
    /// No free space available in the queue. The maximum number of positions in the queue is 64.
    RTERR_NOMOREQUEUES,
    /// An external synchronization interrupt is already applied.
    RTERR_EXTIRQALREADYDEF,
    /// No external sync interrupt applied.
    RTERR_EXTIRQNOTDEF,
    /// Application of the external synchronization interrupt has failed.
    RTERR_EXTIRQINSTALLFAILED,
    /// Call of a service function in the wrong context
    RTERR_IRQLNOTLESSOREQUAL,
    /// Intel VT-x extension is not supported.
    RTERR_VMXNOTSUPPORTED,
    /// Intel VT-x extension is not enabled in the BIOS.
    RTERR_VMXDISABLED,
    /// Missing function in Intel VT-x extension.
    RTERR_VMXCONTROLSMISSING,
    /// Activation of Intel VT-x fails.
    RTERR_VMXENABLEFAILS,
    /// A connection timeout has occurred - error while establishing the connection, because the remote terminal did not respond properly after a certain period of time, or the established connection could not be maintained because the connected host did not respond.
    WSAETIMEDOUT,
    /// Connection refused - no connection could be established because the target computer has explicitly rejected it. This error usually results from an attempt to connect to a service that is inactive on the external host, that is, a service for which no server application is running.
    WSAECONNREFUSED,
    /// No route to host - a socket operation referred to an unavailable host.
    WSAEHOSTUNREACH,
    /// Unknown ads error
    UNKNOWN,
}

/// The numeric code of a named error.
pub open spec fn error_code_value(e: AdsErrorCode) -> u32 {
    match e {
        AdsErrorCode::ERR_NOERROR => 0,
        AdsErrorCode::ERR_INTERNAL => 1,
        AdsErrorCode::ERR_NORTIME => 2,
        AdsErrorCode::ERR_ALLOCLOCKEDMEM => 3,
        AdsErrorCode::ERR_INSERTMAILBOX => 4,
        AdsErrorCode::ERR_WRONGRECEIVEHMSG => 5,
        AdsErrorCode::ERR_TARGETPORTNOTFOUND => 6,
        AdsErrorCode::ERR_TARGETMACHINENOTFOUND => 7,
        AdsErrorCode::ERR_UNKNOWNCMDID => 8,
        AdsErrorCode::ERR_BADTASKID => 9,
        AdsErrorCode::ERR_NOIO => 10,
        AdsErrorCode::ERR_UNKNOWNAMSCMD => 11,
        AdsErrorCode::ERR_WIN32ERROR => 12,
        AdsErrorCode::ERR_PORTNOTCONNECTED => 13,
        AdsErrorCode::ERR_INVALIDAMSLENGTH => 14,
        AdsErrorCode::ERR_INVALIDAMSNETID => 15,
        AdsErrorCode::ERR_LOWINSTLEVEL => 16,
        AdsErrorCode::ERR_NODEBUGINTAVAILABLE => 17,
        AdsErrorCode::ERR_PORTDISABLED => 18,
        AdsErrorCode::ERR_PORTALREADYCONNECTED => 19,
        AdsErrorCode::ERR_AMSSYNC_W32ERROR => 20,
        AdsErrorCode::ERR_AMSSYNC_TIMEOUT => 21,
        AdsErrorCode::ERR_AMSSYNC_AMSERROR => 22,
        AdsErrorCode::ERR_AMSSYNC_NOINDEXINMAP => 23,
        AdsErrorCode::ERR_INVALIDAMSPORT => 24,
        AdsErrorCode::ERR_NOMEMORY => 25,
        AdsErrorCode::ERR_TCPSEND => 26,
        AdsErrorCode::ERR_HOSTUNREACHABLE => 27,
        AdsErrorCode::ERR_INVALIDAMSFRAGMENT => 28,
        AdsErrorCode::ERR_TLSSEND => 29,
        AdsErrorCode::ERR_ACCESSDENIED => 30,
        AdsErrorCode::ROUTERERR_NOLOCKEDMEMORY => 1280,
        AdsErrorCode::ROUTERERR_RESIZEMEMORY => 1281,
        AdsErrorCode::ROUTERERR_MAILBOXFULL => 1282,
        AdsErrorCode::ROUTERERR_DEBUGBOXFULL => 1283,
        AdsErrorCode::ROUTERERR_UNKNOWNPORTTYPE => 1284,
        AdsErrorCode::ROUTERERR_NOTINITIALIZED => 1285,
        AdsErrorCode::ROUTERERR_PORTALREADYINUSE => 1286,
        AdsErrorCode::ROUTERERR_NOTREGISTERED => 1287,
        AdsErrorCode::ROUTERERR_NOMOREQUEUES => 1288,
        AdsErrorCode::ROUTERERR_INVALIDPORT => 1289,
        AdsErrorCode::ROUTERERR_NOTACTIVATED => 1290,
        AdsErrorCode::ROUTERERR_FRAGMENTBOXFULL => 1291,
        AdsErrorCode::ROUTERERR_FRAGMENTTIMEOUT => 1292,
        AdsErrorCode::ROUTERERR_TOBEREMOVED => 1293,
        AdsErrorCode::ADSERR_DEVICE_ERROR => 1792,
        AdsErrorCode::ADSERR_DEVICE_SRVNOTSUPP => 1793,
        AdsErrorCode::ADSERR_DEVICE_INVALIDGRP => 1794,
        AdsErrorCode::ADSERR_DEVICE_INVALIDOFFSET => 1795,
        AdsErrorCode::ADSERR_DEVICE_INVALIDACCESS => 1796,
        AdsErrorCode::ADSERR_DEVICE_INVALIDSIZE => 1797,
        AdsErrorCode::ADSERR_DEVICE_INVALIDDATA => 1798,
        AdsErrorCode::ADSERR_DEVICE_NOTREADY => 1799,
        AdsErrorCode::ADSERR_DEVICE_BUSY => 1800,
        AdsErrorCode::ADSERR_DEVICE_INVALIDCONTEXT => 1801,
        AdsErrorCode::ADSERR_DEVICE_NOMEMORY => 1802,
        AdsErrorCode::ADSERR_DEVICE_INVALIDPARM => 1803,
        AdsErrorCode::ADSERR_DEVICE_NOTFOUND => 1804,
        AdsErrorCode::ADSERR_DEVICE_SYNTAX => 1805,
        AdsErrorCode::ADSERR_DEVICE_INCOMPATIBLE => 1806,
        AdsErrorCode::ADSERR_DEVICE_EXISTS => 1807,
        AdsErrorCode::ADSERR_DEVICE_SYMBOLNOTFOUND => 1808,
        AdsErrorCode::ADSERR_DEVICE_SYMBOLVERSIONINVALID => 1809,
        AdsErrorCode::ADSERR_DEVICE_INVALIDSTATE => 1810,
        AdsErrorCode::ADSERR_DEVICE_TRANSMODENOTSUPP => 1811,
        AdsErrorCode::ADSERR_DEVICE_NOTIFYHNDINVALID => 1812,
        AdsErrorCode::ADSERR_DEVICE_CLIENTUNKNOWN => 1813,
        AdsErrorCode::ADSERR_DEVICE_NOMOREHDLS => 1814,
        AdsErrorCode::ADSERR_DEVICE_INVALIDWATCHSIZE => 1815,
        AdsErrorCode::ADSERR_DEVICE_NOTINIT => 1816,
        AdsErrorCode::ADSERR_DEVICE_TIMEOUT => 1817,
        AdsErrorCode::ADSERR_DEVICE_NOINTERFACE => 1818,
        AdsErrorCode::ADSERR_DEVICE_INVALIDINTERFACE => 1819,
        AdsErrorCode::ADSERR_DEVICE_INVALIDCLSID => 1820,
        AdsErrorCode::ADSERR_DEVICE_INVALIDOBJID => 1821,
        AdsErrorCode::ADSERR_DEVICE_PENDING => 1822,
        AdsErrorCode::ADSERR_DEVICE_ABORTED => 1823,
        AdsErrorCode::ADSERR_DEVICE_WARNING => 1824,
        AdsErrorCode::ADSERR_DEVICE_INVALIDARRAYIDX => 1825,
        AdsErrorCode::ADSERR_DEVICE_SYMBOLNOTACTIVE => 1826,
        AdsErrorCode::ADSERR_DEVICE_ACCESSDENIED => 1827,
        AdsErrorCode::ADSERR_DEVICE_LICENSENOTFOUND => 1828,
        AdsErrorCode::ADSERR_DEVICE_LICENSEEXPIRED => 1829,
        AdsErrorCode::ADSERR_DEVICE_LICENSEEXCEEDED => 1830,
        AdsErrorCode::ADSERR_DEVICE_LICENSEINVALID => 1831,
        AdsErrorCode::ADSERR_DEVICE_LICENSESYSTEMID => 1832,
        AdsErrorCode::ADSERR_DEVICE_LICENSENOTIMELIMIT => 1833,
        AdsErrorCode::ADSERR_DEVICE_LICENSEFUTUREISSUE => 1834,
        AdsErrorCode::ADSERR_DEVICE_LICENSETIMETOLONG => 1835,
        AdsErrorCode::ADSERR_DEVICE_EXCEPTION => 1836,
        AdsErrorCode::ADSERR_DEVICE_LICENSEDUPLICATED => 1837,
        AdsErrorCode::ADSERR_DEVICE_SIGNATUREINVALID => 1838,
        AdsErrorCode::ADSERR_DEVICE_CERTIFICATEINVALID => 1839,
        AdsErrorCode::ADSERR_DEVICE_LICENSEOEMNOTFOUND => 1840,
        AdsErrorCode::ADSERR_DEVICE_LICENSERESTRICTED => 1841,
        AdsErrorCode::ADSERR_DEVICE_LICENSEDEMODENIED => 1842,
        AdsErrorCode::ADSERR_DEVICE_INVALIDFNCID => 1843,
        AdsErrorCode::ADSERR_DEVICE_OUTOFRANGE => 1844,
        AdsErrorCode::ADSERR_DEVICE_INVALIDALIGNMENT => 1845,
        AdsErrorCode::ADSERR_DEVICE_LICENSEPLATFORM => 1846,
        AdsErrorCode::ADSERR_DEVICE_FORWARD_PL => 1847,
        AdsErrorCode::ADSERR_DEVICE_FORWARD_DL => 1848,
        AdsErrorCode::ADSERR_DEVICE_FORWARD_RT => 1849,
        AdsErrorCode::ADSERR_CLIENT_ERROR => 1856,
        AdsErrorCode::ADSERR_CLIENT_INVALIDPARM => 1857,
        AdsErrorCode::ADSERR_CLIENT_LISTEMPTY => 1858,
        AdsErrorCode::ADSERR_CLIENT_VARUSED => 1859,
        AdsErrorCode::ADSERR_CLIENT_DUPLINVOKEID => 1860,
        AdsErrorCode::ADSERR_CLIENT_SYNCTIMEOUT => 1861,
        AdsErrorCode::ADSERR_CLIENT_W32ERROR => 1862,
        AdsErrorCode::ADSERR_CLIENT_TIMEOUTINVALID => 1863,
        AdsErrorCode::ADSERR_CLIENT_PORTNOTOPEN => 1864,
        AdsErrorCode::ADSERR_CLIENT_NOAMSADDR => 1865,
        AdsErrorCode::ADSERR_CLIENT_SYNCINTERNAL => 1872,
        AdsErrorCode::ADSERR_CLIENT_ADDHASH => 1873,
        AdsErrorCode::ADSERR_CLIENT_REMOVEHASH => 1874,
        AdsErrorCode::ADSERR_CLIENT_NOMORESYM => 1875,
        AdsErrorCode::ADSERR_CLIENT_SYNCRESINVALID => 1876,
        AdsErrorCode::ADSERR_CLIENT_SYNCPORTLOCKED => 1877,
        AdsErrorCode::ADSERR_CLIENT_REQUESTCANCELLED => 1878,
        AdsErrorCode::RTERR_INTERNAL => 4096,
        AdsErrorCode::RTERR_BADTIMERPERIODS => 4097,
        AdsErrorCode::RTERR_INVALIDTASKPTR => 4098,
        AdsErrorCode::RTERR_INVALIDSTACKPTR => 4099,
        AdsErrorCode::RTERR_PRIOEXISTS => 4100,
        AdsErrorCode::RTERR_NOMORETCB => 4101,
        AdsErrorCode::RTERR_NOMORESEMAS => 4102,
        AdsErrorCode::RTERR_NOMOREQUEUES => 4103,
        AdsErrorCode::RTERR_EXTIRQALREADYDEF => 4109,
        AdsErrorCode::RTERR_EXTIRQNOTDEF => 4110,
        AdsErrorCode::RTERR_EXTIRQINSTALLFAILED => 4111,
        AdsErrorCode::RTERR_IRQLNOTLESSOREQUAL => 4112,
        AdsErrorCode::RTERR_VMXNOTSUPPORTED => 4119,
        AdsErrorCode::RTERR_VMXDISABLED => 4120,
        AdsErrorCode::RTERR_VMXCONTROLSMISSING => 4121,
        AdsErrorCode::RTERR_VMXENABLEFAILS => 4122,
        AdsErrorCode::WSAETIMEDOUT => 10060,
        AdsErrorCode::WSAECONNREFUSED => 10061,
        AdsErrorCode::WSAEHOSTUNREACH => 10065,
        AdsErrorCode::UNKNOWN => 10066,
    }
}

/// The named error with code `v`; `UNKNOWN` where no name has that code.
pub open spec fn error_code_of(v: u32) -> AdsErrorCode {
    match v {
        0 => AdsErrorCode::ERR_NOERROR,
        1 => AdsErrorCode::ERR_INTERNAL,
        2 => AdsErrorCode::ERR_NORTIME,
        3 => AdsErrorCode::ERR_ALLOCLOCKEDMEM,
        4 => AdsErrorCode::ERR_INSERTMAILBOX,
        5 => AdsErrorCode::ERR_WRONGRECEIVEHMSG,
        6 => AdsErrorCode::ERR_TARGETPORTNOTFOUND,
        7 => AdsErrorCode::ERR_TARGETMACHINENOTFOUND,
        8 => AdsErrorCode::ERR_UNKNOWNCMDID,
        9 => AdsErrorCode::ERR_BADTASKID,
        10 => AdsErrorCode::ERR_NOIO,
        11 => AdsErrorCode::ERR_UNKNOWNAMSCMD,
        12 => AdsErrorCode::ERR_WIN32ERROR,
        13 => AdsErrorCode::ERR_PORTNOTCONNECTED,
        14 => AdsErrorCode::ERR_INVALIDAMSLENGTH,
        15 => AdsErrorCode::ERR_INVALIDAMSNETID,
        16 => AdsErrorCode::ERR_LOWINSTLEVEL,
        17 => AdsErrorCode::ERR_NODEBUGINTAVAILABLE,
        18 => AdsErrorCode::ERR_PORTDISABLED,
        19 => AdsErrorCode::ERR_PORTALREADYCONNECTED,
        20 => AdsErrorCode::ERR_AMSSYNC_W32ERROR,
        21 => AdsErrorCode::ERR_AMSSYNC_TIMEOUT,
        22 => AdsErrorCode::ERR_AMSSYNC_AMSERROR,
        23 => AdsErrorCode::ERR_AMSSYNC_NOINDEXINMAP,
        24 => AdsErrorCode::ERR_INVALIDAMSPORT,
        25 => AdsErrorCode::ERR_NOMEMORY,
        26 => AdsErrorCode::ERR_TCPSEND,
        27 => AdsErrorCode::ERR_HOSTUNREACHABLE,
        28 => AdsErrorCode::ERR_INVALIDAMSFRAGMENT,
        29 => AdsErrorCode::ERR_TLSSEND,
        30 => AdsErrorCode::ERR_ACCESSDENIED,
        1280 => AdsErrorCode::ROUTERERR_NOLOCKEDMEMORY,
        1281 => AdsErrorCode::ROUTERERR_RESIZEMEMORY,
        1282 => AdsErrorCode::ROUTERERR_MAILBOXFULL,
        1283 => AdsErrorCode::ROUTERERR_DEBUGBOXFULL,
        1284 => AdsErrorCode::ROUTERERR_UNKNOWNPORTTYPE,
        1285 => AdsErrorCode::ROUTERERR_NOTINITIALIZED,
        1286 => AdsErrorCode::ROUTERERR_PORTALREADYINUSE,
        1287 => AdsErrorCode::ROUTERERR_NOTREGISTERED,
        1288 => AdsErrorCode::ROUTERERR_NOMOREQUEUES,
        1289 => AdsErrorCode::ROUTERERR_INVALIDPORT,
        1290 => AdsErrorCode::ROUTERERR_NOTACTIVATED,
        1291 => AdsErrorCode::ROUTERERR_FRAGMENTBOXFULL,
        1292 => AdsErrorCode::ROUTERERR_FRAGMENTTIMEOUT,
        1293 => AdsErrorCode::ROUTERERR_TOBEREMOVED,
        1792 => AdsErrorCode::ADSERR_DEVICE_ERROR,
        1793 => AdsErrorCode::ADSERR_DEVICE_SRVNOTSUPP,
        1794 => AdsErrorCode::ADSERR_DEVICE_INVALIDGRP,
        1795 => AdsErrorCode::ADSERR_DEVICE_INVALIDOFFSET,
        1796 => AdsErrorCode::ADSERR_DEVICE_INVALIDACCESS,
        1797 => AdsErrorCode::ADSERR_DEVICE_INVALIDSIZE,
        1798 => AdsErrorCode::ADSERR_DEVICE_INVALIDDATA,
        1799 => AdsErrorCode::ADSERR_DEVICE_NOTREADY,
        1800 => AdsErrorCode::ADSERR_DEVICE_BUSY,
        1801 => AdsErrorCode::ADSERR_DEVICE_INVALIDCONTEXT,
        1802 => AdsErrorCode::ADSERR_DEVICE_NOMEMORY,
        1803 => AdsErrorCode::ADSERR_DEVICE_INVALIDPARM,
        1804 => AdsErrorCode::ADSERR_DEVICE_NOTFOUND,
        1805 => AdsErrorCode::ADSERR_DEVICE_SYNTAX,
        1806 => AdsErrorCode::ADSERR_DEVICE_INCOMPATIBLE,
        1807 => AdsErrorCode::ADSERR_DEVICE_EXISTS,
        1808 => AdsErrorCode::ADSERR_DEVICE_SYMBOLNOTFOUND,
        1809 => AdsErrorCode::ADSERR_DEVICE_SYMBOLVERSIONINVALID,
        1810 => AdsErrorCode::ADSERR_DEVICE_INVALIDSTATE,
        1811 => AdsErrorCode::ADSERR_DEVICE_TRANSMODENOTSUPP,
        1812 => AdsErrorCode::ADSERR_DEVICE_NOTIFYHNDINVALID,
        1813 => AdsErrorCode::ADSERR_DEVICE_CLIENTUNKNOWN,
        1814 => AdsErrorCode::ADSERR_DEVICE_NOMOREHDLS,
        1815 => AdsErrorCode::ADSERR_DEVICE_INVALIDWATCHSIZE,
        1816 => AdsErrorCode::ADSERR_DEVICE_NOTINIT,
        1817 => AdsErrorCode::ADSERR_DEVICE_TIMEOUT,
        1818 => AdsErrorCode::ADSERR_DEVICE_NOINTERFACE,
        1819 => AdsErrorCode::ADSERR_DEVICE_INVALIDINTERFACE,
        1820 => AdsErrorCode::ADSERR_DEVICE_INVALIDCLSID,
        1821 => AdsErrorCode::ADSERR_DEVICE_INVALIDOBJID,
        1822 => AdsErrorCode::ADSERR_DEVICE_PENDING,
        1823 => AdsErrorCode::ADSERR_DEVICE_ABORTED,
        1824 => AdsErrorCode::ADSERR_DEVICE_WARNING,
        1825 => AdsErrorCode::ADSERR_DEVICE_INVALIDARRAYIDX,
        1826 => AdsErrorCode::ADSERR_DEVICE_SYMBOLNOTACTIVE,
        1827 => AdsErrorCode::ADSERR_DEVICE_ACCESSDENIED,
        1828 => AdsErrorCode::ADSERR_DEVICE_LICENSENOTFOUND,
        1829 => AdsErrorCode::ADSERR_DEVICE_LICENSEEXPIRED,
        1830 => AdsErrorCode::ADSERR_DEVICE_LICENSEEXCEEDED,
        1831 => AdsErrorCode::ADSERR_DEVICE_LICENSEINVALID,
        1832 => AdsErrorCode::ADSERR_DEVICE_LICENSESYSTEMID,
        1833 => AdsErrorCode::ADSERR_DEVICE_LICENSENOTIMELIMIT,
        1834 => AdsErrorCode::ADSERR_DEVICE_LICENSEFUTUREISSUE,
        1835 => AdsErrorCode::ADSERR_DEVICE_LICENSETIMETOLONG,
        1836 => AdsErrorCode::ADSERR_DEVICE_EXCEPTION,
        1837 => AdsErrorCode::ADSERR_DEVICE_LICENSEDUPLICATED,
        1838 => AdsErrorCode::ADSERR_DEVICE_SIGNATUREINVALID,
        1839 => AdsErrorCode::ADSERR_DEVICE_CERTIFICATEINVALID,
        1840 => AdsErrorCode::ADSERR_DEVICE_LICENSEOEMNOTFOUND,
        1841 => AdsErrorCode::ADSERR_DEVICE_LICENSERESTRICTED,
        1842 => AdsErrorCode::ADSERR_DEVICE_LICENSEDEMODENIED,
        1843 => AdsErrorCode::ADSERR_DEVICE_INVALIDFNCID,
        1844 => AdsErrorCode::ADSERR_DEVICE_OUTOFRANGE,
        1845 => AdsErrorCode::ADSERR_DEVICE_INVALIDALIGNMENT,
        1846 => AdsErrorCode::ADSERR_DEVICE_LICENSEPLATFORM,
        1847 => AdsErrorCode::ADSERR_DEVICE_FORWARD_PL,
        1848 => AdsErrorCode::ADSERR_DEVICE_FORWARD_DL,
        1849 => AdsErrorCode::ADSERR_DEVICE_FORWARD_RT,
        1856 => AdsErrorCode::ADSERR_CLIENT_ERROR,
        1857 => AdsErrorCode::ADSERR_CLIENT_INVALIDPARM,
        1858 => AdsErrorCode::ADSERR_CLIENT_LISTEMPTY,
        1859 => AdsErrorCode::ADSERR_CLIENT_VARUSED,
        1860 => AdsErrorCode::ADSERR_CLIENT_DUPLINVOKEID,
        1861 => AdsErrorCode::ADSERR_CLIENT_SYNCTIMEOUT,
        1862 => AdsErrorCode::ADSERR_CLIENT_W32ERROR,
        1863 => AdsErrorCode::ADSERR_CLIENT_TIMEOUTINVALID,
        1864 => AdsErrorCode::ADSERR_CLIENT_PORTNOTOPEN,
        1865 => AdsErrorCode::ADSERR_CLIENT_NOAMSADDR,
        1872 => AdsErrorCode::ADSERR_CLIENT_SYNCINTERNAL,
        1873 => AdsErrorCode::ADSERR_CLIENT_ADDHASH,
        1874 => AdsErrorCode::ADSERR_CLIENT_REMOVEHASH,
        1875 => AdsErrorCode::ADSERR_CLIENT_NOMORESYM,
        1876 => AdsErrorCode::ADSERR_CLIENT_SYNCRESINVALID,
        1877 => AdsErrorCode::ADSERR_CLIENT_SYNCPORTLOCKED,
        1878 => AdsErrorCode::ADSERR_CLIENT_REQUESTCANCELLED,
        4096 => AdsErrorCode::RTERR_INTERNAL,
        4097 => AdsErrorCode::RTERR_BADTIMERPERIODS,
        4098 => AdsErrorCode::RTERR_INVALIDTASKPTR,
        4099 => AdsErrorCode::RTERR_INVALIDSTACKPTR,
        4100 => AdsErrorCode::RTERR_PRIOEXISTS,
        4101 => AdsErrorCode::RTERR_NOMORETCB,
        4102 => AdsErrorCode::RTERR_NOMORESEMAS,
        4103 => AdsErrorCode::RTERR_NOMOREQUEUES,
        4109 => AdsErrorCode::RTERR_EXTIRQALREADYDEF,
        4110 => AdsErrorCode::RTERR_EXTIRQNOTDEF,
        4111 => AdsErrorCode::RTERR_EXTIRQINSTALLFAILED,
        4112 => AdsErrorCode::RTERR_IRQLNOTLESSOREQUAL,
        4119 => AdsErrorCode::RTERR_VMXNOTSUPPORTED,
        4120 => AdsErrorCode::RTERR_VMXDISABLED,
        4121 => AdsErrorCode::RTERR_VMXCONTROLSMISSING,
        4122 => AdsErrorCode::RTERR_VMXENABLEFAILS,
        10060 => AdsErrorCode::WSAETIMEDOUT,
        10061 => AdsErrorCode::WSAECONNREFUSED,
        10065 => AdsErrorCode::WSAEHOSTUNREACH,
        _ => AdsErrorCode::UNKNOWN,
    }
}

impl AdsErrorCode {
    /// The numeric code of `self`.
    pub fn code(&self) -> (r: u32)
        ensures
            r == error_code_value(*self),
    {
        match self {
            AdsErrorCode::ERR_NOERROR => 0,
            AdsErrorCode::ERR_INTERNAL => 1,
            AdsErrorCode::ERR_NORTIME => 2,
            AdsErrorCode::ERR_ALLOCLOCKEDMEM => 3,
            AdsErrorCode::ERR_INSERTMAILBOX => 4,
            AdsErrorCode::ERR_WRONGRECEIVEHMSG => 5,
            AdsErrorCode::ERR_TARGETPORTNOTFOUND => 6,
            AdsErrorCode::ERR_TARGETMACHINENOTFOUND => 7,
            AdsErrorCode::ERR_UNKNOWNCMDID => 8,
            AdsErrorCode::ERR_BADTASKID => 9,
            AdsErrorCode::ERR_NOIO => 10,
            AdsErrorCode::ERR_UNKNOWNAMSCMD => 11,
            AdsErrorCode::ERR_WIN32ERROR => 12,
            AdsErrorCode::ERR_PORTNOTCONNECTED => 13,
            AdsErrorCode::ERR_INVALIDAMSLENGTH => 14,
            AdsErrorCode::ERR_INVALIDAMSNETID => 15,
            AdsErrorCode::ERR_LOWINSTLEVEL => 16,
            AdsErrorCode::ERR_NODEBUGINTAVAILABLE => 17,
            AdsErrorCode::ERR_PORTDISABLED => 18,
            AdsErrorCode::ERR_PORTALREADYCONNECTED => 19,
            AdsErrorCode::ERR_AMSSYNC_W32ERROR => 20,
            AdsErrorCode::ERR_AMSSYNC_TIMEOUT => 21,
            AdsErrorCode::ERR_AMSSYNC_AMSERROR => 22,
            AdsErrorCode::ERR_AMSSYNC_NOINDEXINMAP => 23,
            AdsErrorCode::ERR_INVALIDAMSPORT => 24,
            AdsErrorCode::ERR_NOMEMORY => 25,
            AdsErrorCode::ERR_TCPSEND => 26,
            AdsErrorCode::ERR_HOSTUNREACHABLE => 27,
            AdsErrorCode::ERR_INVALIDAMSFRAGMENT => 28,
            AdsErrorCode::ERR_TLSSEND => 29,
            AdsErrorCode::ERR_ACCESSDENIED => 30,
            AdsErrorCode::ROUTERERR_NOLOCKEDMEMORY => 1280,
            AdsErrorCode::ROUTERERR_RESIZEMEMORY => 1281,
            AdsErrorCode::ROUTERERR_MAILBOXFULL => 1282,
            AdsErrorCode::ROUTERERR_DEBUGBOXFULL => 1283,
            AdsErrorCode::ROUTERERR_UNKNOWNPORTTYPE => 1284,
            AdsErrorCode::ROUTERERR_NOTINITIALIZED => 1285,
            AdsErrorCode::ROUTERERR_PORTALREADYINUSE => 1286,
            AdsErrorCode::ROUTERERR_NOTREGISTERED => 1287,
            AdsErrorCode::ROUTERERR_NOMOREQUEUES => 1288,
            AdsErrorCode::ROUTERERR_INVALIDPORT => 1289,
            AdsErrorCode::ROUTERERR_NOTACTIVATED => 1290,
            AdsErrorCode::ROUTERERR_FRAGMENTBOXFULL => 1291,
            AdsErrorCode::ROUTERERR_FRAGMENTTIMEOUT => 1292,
            AdsErrorCode::ROUTERERR_TOBEREMOVED => 1293,
            AdsErrorCode::ADSERR_DEVICE_ERROR => 1792,
            AdsErrorCode::ADSERR_DEVICE_SRVNOTSUPP => 1793,
            AdsErrorCode::ADSERR_DEVICE_INVALIDGRP => 1794,
            AdsErrorCode::ADSERR_DEVICE_INVALIDOFFSET => 1795,
            AdsErrorCode::ADSERR_DEVICE_INVALIDACCESS => 1796,
            AdsErrorCode::ADSERR_DEVICE_INVALIDSIZE => 1797,
            AdsErrorCode::ADSERR_DEVICE_INVALIDDATA => 1798,
            AdsErrorCode::ADSERR_DEVICE_NOTREADY => 1799,
            AdsErrorCode::ADSERR_DEVICE_BUSY => 1800,
            AdsErrorCode::ADSERR_DEVICE_INVALIDCONTEXT => 1801,
            AdsErrorCode::ADSERR_DEVICE_NOMEMORY => 1802,
            AdsErrorCode::ADSERR_DEVICE_INVALIDPARM => 1803,
            AdsErrorCode::ADSERR_DEVICE_NOTFOUND => 1804,
            AdsErrorCode::ADSERR_DEVICE_SYNTAX => 1805,
            AdsErrorCode::ADSERR_DEVICE_INCOMPATIBLE => 1806,
            AdsErrorCode::ADSERR_DEVICE_EXISTS => 1807,
            AdsErrorCode::ADSERR_DEVICE_SYMBOLNOTFOUND => 1808,
            AdsErrorCode::ADSERR_DEVICE_SYMBOLVERSIONINVALID => 1809,
            AdsErrorCode::ADSERR_DEVICE_INVALIDSTATE => 1810,
            AdsErrorCode::ADSERR_DEVICE_TRANSMODENOTSUPP => 1811,
            AdsErrorCode::ADSERR_DEVICE_NOTIFYHNDINVALID => 1812,
            AdsErrorCode::ADSERR_DEVICE_CLIENTUNKNOWN => 1813,
            AdsErrorCode::ADSERR_DEVICE_NOMOREHDLS => 1814,
            AdsErrorCode::ADSERR_DEVICE_INVALIDWATCHSIZE => 1815,
            AdsErrorCode::ADSERR_DEVICE_NOTINIT => 1816,
            AdsErrorCode::ADSERR_DEVICE_TIMEOUT => 1817,
            AdsErrorCode::ADSERR_DEVICE_NOINTERFACE => 1818,
            AdsErrorCode::ADSERR_DEVICE_INVALIDINTERFACE => 1819,
            AdsErrorCode::ADSERR_DEVICE_INVALIDCLSID => 1820,
            AdsErrorCode::ADSERR_DEVICE_INVALIDOBJID => 1821,
            AdsErrorCode::ADSERR_DEVICE_PENDING => 1822,
            AdsErrorCode::ADSERR_DEVICE_ABORTED => 1823,
            AdsErrorCode::ADSERR_DEVICE_WARNING => 1824,
            AdsErrorCode::ADSERR_DEVICE_INVALIDARRAYIDX => 1825,
            AdsErrorCode::ADSERR_DEVICE_SYMBOLNOTACTIVE => 1826,
            AdsErrorCode::ADSERR_DEVICE_ACCESSDENIED => 1827,
            AdsErrorCode::ADSERR_DEVICE_LICENSENOTFOUND => 1828,
            AdsErrorCode::ADSERR_DEVICE_LICENSEEXPIRED => 1829,
            AdsErrorCode::ADSERR_DEVICE_LICENSEEXCEEDED => 1830,
            AdsErrorCode::ADSERR_DEVICE_LICENSEINVALID => 1831,
            AdsErrorCode::ADSERR_DEVICE_LICENSESYSTEMID => 1832,
            AdsErrorCode::ADSERR_DEVICE_LICENSENOTIMELIMIT => 1833,
            AdsErrorCode::ADSERR_DEVICE_LICENSEFUTUREISSUE => 1834,
            AdsErrorCode::ADSERR_DEVICE_LICENSETIMETOLONG => 1835,
            AdsErrorCode::ADSERR_DEVICE_EXCEPTION => 1836,
            AdsErrorCode::ADSERR_DEVICE_LICENSEDUPLICATED => 1837,
            AdsErrorCode::ADSERR_DEVICE_SIGNATUREINVALID => 1838,
            AdsErrorCode::ADSERR_DEVICE_CERTIFICATEINVALID => 1839,
            AdsErrorCode::ADSERR_DEVICE_LICENSEOEMNOTFOUND => 1840,
            AdsErrorCode::ADSERR_DEVICE_LICENSERESTRICTED => 1841,
            AdsErrorCode::ADSERR_DEVICE_LICENSEDEMODENIED => 1842,
            AdsErrorCode::ADSERR_DEVICE_INVALIDFNCID => 1843,
            AdsErrorCode::ADSERR_DEVICE_OUTOFRANGE => 1844,
            AdsErrorCode::ADSERR_DEVICE_INVALIDALIGNMENT => 1845,
            AdsErrorCode::ADSERR_DEVICE_LICENSEPLATFORM => 1846,
            AdsErrorCode::ADSERR_DEVICE_FORWARD_PL => 1847,
            AdsErrorCode::ADSERR_DEVICE_FORWARD_DL => 1848,
            AdsErrorCode::ADSERR_DEVICE_FORWARD_RT => 1849,
            AdsErrorCode::ADSERR_CLIENT_ERROR => 1856,
            AdsErrorCode::ADSERR_CLIENT_INVALIDPARM => 1857,
            AdsErrorCode::ADSERR_CLIENT_LISTEMPTY => 1858,
            AdsErrorCode::ADSERR_CLIENT_VARUSED => 1859,
            AdsErrorCode::ADSERR_CLIENT_DUPLINVOKEID => 1860,
            AdsErrorCode::ADSERR_CLIENT_SYNCTIMEOUT => 1861,
            AdsErrorCode::ADSERR_CLIENT_W32ERROR => 1862,
            AdsErrorCode::ADSERR_CLIENT_TIMEOUTINVALID => 1863,
            AdsErrorCode::ADSERR_CLIENT_PORTNOTOPEN => 1864,
            AdsErrorCode::ADSERR_CLIENT_NOAMSADDR => 1865,
            AdsErrorCode::ADSERR_CLIENT_SYNCINTERNAL => 1872,
            AdsErrorCode::ADSERR_CLIENT_ADDHASH => 1873,
            AdsErrorCode::ADSERR_CLIENT_REMOVEHASH => 1874,
            AdsErrorCode::ADSERR_CLIENT_NOMORESYM => 1875,
            AdsErrorCode::ADSERR_CLIENT_SYNCRESINVALID => 1876,
            AdsErrorCode::ADSERR_CLIENT_SYNCPORTLOCKED => 1877,
            AdsErrorCode::ADSERR_CLIENT_REQUESTCANCELLED => 1878,
            AdsErrorCode::RTERR_INTERNAL => 4096,
            AdsErrorCode::RTERR_BADTIMERPERIODS => 4097,
            AdsErrorCode::RTERR_INVALIDTASKPTR => 4098,
            AdsErrorCode::RTERR_INVALIDSTACKPTR => 4099,
            AdsErrorCode::RTERR_PRIOEXISTS => 4100,
            AdsErrorCode::RTERR_NOMORETCB => 4101,
            AdsErrorCode::RTERR_NOMORESEMAS => 4102,
            AdsErrorCode::RTERR_NOMOREQUEUES => 4103,
            AdsErrorCode::RTERR_EXTIRQALREADYDEF => 4109,
            AdsErrorCode::RTERR_EXTIRQNOTDEF => 4110,
            AdsErrorCode::RTERR_EXTIRQINSTALLFAILED => 4111,
            AdsErrorCode::RTERR_IRQLNOTLESSOREQUAL => 4112,
            AdsErrorCode::RTERR_VMXNOTSUPPORTED => 4119,
            AdsErrorCode::RTERR_VMXDISABLED => 4120,
            AdsErrorCode::RTERR_VMXCONTROLSMISSING => 4121,
            AdsErrorCode::RTERR_VMXENABLEFAILS => 4122,
            AdsErrorCode::WSAETIMEDOUT => 10060,
            AdsErrorCode::WSAECONNREFUSED => 10061,
            AdsErrorCode::WSAEHOSTUNREACH => 10065,
            AdsErrorCode::UNKNOWN => 10066,
        }
    }

    /// The named error with code `v`, or `UNKNOWN`.
    pub fn from_code(v: u32) -> (r: AdsErrorCode)
        ensures
            r == error_code_of(v),
    {
        match v {
            0 => AdsErrorCode::ERR_NOERROR,
            1 => AdsErrorCode::ERR_INTERNAL,
            2 => AdsErrorCode::ERR_NORTIME,
            3 => AdsErrorCode::ERR_ALLOCLOCKEDMEM,
            4 => AdsErrorCode::ERR_INSERTMAILBOX,
            5 => AdsErrorCode::ERR_WRONGRECEIVEHMSG,
            6 => AdsErrorCode::ERR_TARGETPORTNOTFOUND,
            7 => AdsErrorCode::ERR_TARGETMACHINENOTFOUND,
            8 => AdsErrorCode::ERR_UNKNOWNCMDID,
            9 => AdsErrorCode::ERR_BADTASKID,
            10 => AdsErrorCode::ERR_NOIO,
            11 => AdsErrorCode::ERR_UNKNOWNAMSCMD,
            12 => AdsErrorCode::ERR_WIN32ERROR,
            13 => AdsErrorCode::ERR_PORTNOTCONNECTED,
            14 => AdsErrorCode::ERR_INVALIDAMSLENGTH,
            15 => AdsErrorCode::ERR_INVALIDAMSNETID,
            16 => AdsErrorCode::ERR_LOWINSTLEVEL,
            17 => AdsErrorCode::ERR_NODEBUGINTAVAILABLE,
            18 => AdsErrorCode::ERR_PORTDISABLED,
            19 => AdsErrorCode::ERR_PORTALREADYCONNECTED,
            20 => AdsErrorCode::ERR_AMSSYNC_W32ERROR,
            21 => AdsErrorCode::ERR_AMSSYNC_TIMEOUT,
            22 => AdsErrorCode::ERR_AMSSYNC_AMSERROR,
            23 => AdsErrorCode::ERR_AMSSYNC_NOINDEXINMAP,
            24 => AdsErrorCode::ERR_INVALIDAMSPORT,
            25 => AdsErrorCode::ERR_NOMEMORY,
            26 => AdsErrorCode::ERR_TCPSEND,
            27 => AdsErrorCode::ERR_HOSTUNREACHABLE,
            28 => AdsErrorCode::ERR_INVALIDAMSFRAGMENT,
            29 => AdsErrorCode::ERR_TLSSEND,
            30 => AdsErrorCode::ERR_ACCESSDENIED,
            1280 => AdsErrorCode::ROUTERERR_NOLOCKEDMEMORY,
            1281 => AdsErrorCode::ROUTERERR_RESIZEMEMORY,
            1282 => AdsErrorCode::ROUTERERR_MAILBOXFULL,
            1283 => AdsErrorCode::ROUTERERR_DEBUGBOXFULL,
            1284 => AdsErrorCode::ROUTERERR_UNKNOWNPORTTYPE,
            1285 => AdsErrorCode::ROUTERERR_NOTINITIALIZED,
            1286 => AdsErrorCode::ROUTERERR_PORTALREADYINUSE,
            1287 => AdsErrorCode::ROUTERERR_NOTREGISTERED,
            1288 => AdsErrorCode::ROUTERERR_NOMOREQUEUES,
            1289 => AdsErrorCode::ROUTERERR_INVALIDPORT,
            1290 => AdsErrorCode::ROUTERERR_NOTACTIVATED,
            1291 => AdsErrorCode::ROUTERERR_FRAGMENTBOXFULL,
            1292 => AdsErrorCode::ROUTERERR_FRAGMENTTIMEOUT,
            1293 => AdsErrorCode::ROUTERERR_TOBEREMOVED,
            1792 => AdsErrorCode::ADSERR_DEVICE_ERROR,
            1793 => AdsErrorCode::ADSERR_DEVICE_SRVNOTSUPP,
            1794 => AdsErrorCode::ADSERR_DEVICE_INVALIDGRP,
            1795 => AdsErrorCode::ADSERR_DEVICE_INVALIDOFFSET,
            1796 => AdsErrorCode::ADSERR_DEVICE_INVALIDACCESS,
            1797 => AdsErrorCode::ADSERR_DEVICE_INVALIDSIZE,
            1798 => AdsErrorCode::ADSERR_DEVICE_INVALIDDATA,
            1799 => AdsErrorCode::ADSERR_DEVICE_NOTREADY,
            1800 => AdsErrorCode::ADSERR_DEVICE_BUSY,
            1801 => AdsErrorCode::ADSERR_DEVICE_INVALIDCONTEXT,
            1802 => AdsErrorCode::ADSERR_DEVICE_NOMEMORY,
            1803 => AdsErrorCode::ADSERR_DEVICE_INVALIDPARM,
            1804 => AdsErrorCode::ADSERR_DEVICE_NOTFOUND,
            1805 => AdsErrorCode::ADSERR_DEVICE_SYNTAX,
            1806 => AdsErrorCode::ADSERR_DEVICE_INCOMPATIBLE,
            1807 => AdsErrorCode::ADSERR_DEVICE_EXISTS,
            1808 => AdsErrorCode::ADSERR_DEVICE_SYMBOLNOTFOUND,
            1809 => AdsErrorCode::ADSERR_DEVICE_SYMBOLVERSIONINVALID,
            1810 => AdsErrorCode::ADSERR_DEVICE_INVALIDSTATE,
            1811 => AdsErrorCode::ADSERR_DEVICE_TRANSMODENOTSUPP,
            1812 => AdsErrorCode::ADSERR_DEVICE_NOTIFYHNDINVALID,
            1813 => AdsErrorCode::ADSERR_DEVICE_CLIENTUNKNOWN,
            1814 => AdsErrorCode::ADSERR_DEVICE_NOMOREHDLS,
            1815 => AdsErrorCode::ADSERR_DEVICE_INVALIDWATCHSIZE,
            1816 => AdsErrorCode::ADSERR_DEVICE_NOTINIT,
            1817 => AdsErrorCode::ADSERR_DEVICE_TIMEOUT,
            1818 => AdsErrorCode::ADSERR_DEVICE_NOINTERFACE,
            1819 => AdsErrorCode::ADSERR_DEVICE_INVALIDINTERFACE,
            1820 => AdsErrorCode::ADSERR_DEVICE_INVALIDCLSID,
            1821 => AdsErrorCode::ADSERR_DEVICE_INVALIDOBJID,
            1822 => AdsErrorCode::ADSERR_DEVICE_PENDING,
            1823 => AdsErrorCode::ADSERR_DEVICE_ABORTED,
            1824 => AdsErrorCode::ADSERR_DEVICE_WARNING,
            1825 => AdsErrorCode::ADSERR_DEVICE_INVALIDARRAYIDX,
            1826 => AdsErrorCode::ADSERR_DEVICE_SYMBOLNOTACTIVE,
            1827 => AdsErrorCode::ADSERR_DEVICE_ACCESSDENIED,
            1828 => AdsErrorCode::ADSERR_DEVICE_LICENSENOTFOUND,
            1829 => AdsErrorCode::ADSERR_DEVICE_LICENSEEXPIRED,
            1830 => AdsErrorCode::ADSERR_DEVICE_LICENSEEXCEEDED,
            1831 => AdsErrorCode::ADSERR_DEVICE_LICENSEINVALID,
            1832 => AdsErrorCode::ADSERR_DEVICE_LICENSESYSTEMID,
            1833 => AdsErrorCode::ADSERR_DEVICE_LICENSENOTIMELIMIT,
            1834 => AdsErrorCode::ADSERR_DEVICE_LICENSEFUTUREISSUE,
            1835 => AdsErrorCode::ADSERR_DEVICE_LICENSETIMETOLONG,
            1836 => AdsErrorCode::ADSERR_DEVICE_EXCEPTION,
            1837 => AdsErrorCode::ADSERR_DEVICE_LICENSEDUPLICATED,
            1838 => AdsErrorCode::ADSERR_DEVICE_SIGNATUREINVALID,
            1839 => AdsErrorCode::ADSERR_DEVICE_CERTIFICATEINVALID,
            1840 => AdsErrorCode::ADSERR_DEVICE_LICENSEOEMNOTFOUND,
            1841 => AdsErrorCode::ADSERR_DEVICE_LICENSERESTRICTED,
            1842 => AdsErrorCode::ADSERR_DEVICE_LICENSEDEMODENIED,
            1843 => AdsErrorCode::ADSERR_DEVICE_INVALIDFNCID,
            1844 => AdsErrorCode::ADSERR_DEVICE_OUTOFRANGE,
            1845 => AdsErrorCode::ADSERR_DEVICE_INVALIDALIGNMENT,
            1846 => AdsErrorCode::ADSERR_DEVICE_LICENSEPLATFORM,
            1847 => AdsErrorCode::ADSERR_DEVICE_FORWARD_PL,
            1848 => AdsErrorCode::ADSERR_DEVICE_FORWARD_DL,
            1849 => AdsErrorCode::ADSERR_DEVICE_FORWARD_RT,
            1856 => AdsErrorCode::ADSERR_CLIENT_ERROR,
            1857 => AdsErrorCode::ADSERR_CLIENT_INVALIDPARM,
            1858 => AdsErrorCode::ADSERR_CLIENT_LISTEMPTY,
            1859 => AdsErrorCode::ADSERR_CLIENT_VARUSED,
            1860 => AdsErrorCode::ADSERR_CLIENT_DUPLINVOKEID,
            1861 => AdsErrorCode::ADSERR_CLIENT_SYNCTIMEOUT,
            1862 => AdsErrorCode::ADSERR_CLIENT_W32ERROR,
            1863 => AdsErrorCode::ADSERR_CLIENT_TIMEOUTINVALID,
            1864 => AdsErrorCode::ADSERR_CLIENT_PORTNOTOPEN,
            1865 => AdsErrorCode::ADSERR_CLIENT_NOAMSADDR,
            1872 => AdsErrorCode::ADSERR_CLIENT_SYNCINTERNAL,
            1873 => AdsErrorCode::ADSERR_CLIENT_ADDHASH,
            1874 => AdsErrorCode::ADSERR_CLIENT_REMOVEHASH,
            1875 => AdsErrorCode::ADSERR_CLIENT_NOMORESYM,
            1876 => AdsErrorCode::ADSERR_CLIENT_SYNCRESINVALID,
            1877 => AdsErrorCode::ADSERR_CLIENT_SYNCPORTLOCKED,
            1878 => AdsErrorCode::ADSERR_CLIENT_REQUESTCANCELLED,
            4096 => AdsErrorCode::RTERR_INTERNAL,
            4097 => AdsErrorCode::RTERR_BADTIMERPERIODS,
            4098 => AdsErrorCode::RTERR_INVALIDTASKPTR,
            4099 => AdsErrorCode::RTERR_INVALIDSTACKPTR,
            4100 => AdsErrorCode::RTERR_PRIOEXISTS,
            4101 => AdsErrorCode::RTERR_NOMORETCB,
            4102 => AdsErrorCode::RTERR_NOMORESEMAS,
            4103 => AdsErrorCode::RTERR_NOMOREQUEUES,
            4109 => AdsErrorCode::RTERR_EXTIRQALREADYDEF,
            4110 => AdsErrorCode::RTERR_EXTIRQNOTDEF,
            4111 => AdsErrorCode::RTERR_EXTIRQINSTALLFAILED,
            4112 => AdsErrorCode::RTERR_IRQLNOTLESSOREQUAL,
            4119 => AdsErrorCode::RTERR_VMXNOTSUPPORTED,
            4120 => AdsErrorCode::RTERR_VMXDISABLED,
            4121 => AdsErrorCode::RTERR_VMXCONTROLSMISSING,
            4122 => AdsErrorCode::RTERR_VMXENABLEFAILS,
            10060 => AdsErrorCode::WSAETIMEDOUT,
            10061 => AdsErrorCode::WSAECONNREFUSED,
            10065 => AdsErrorCode::WSAEHOSTUNREACH,
            _ => AdsErrorCode::UNKNOWN,
        }
    }
}

impl From<AdsError> for AdsErrorCode {
    fn from(value: AdsError) -> (r: AdsErrorCode)
        ensures
            r == error_code_of(value.n_error),
    {
        AdsErrorCode::from_code(value.n_error)
    }
}

impl vstd::std_specs::convert::FromSpecImpl<AdsError> for AdsErrorCode {
    open spec fn obeys_from_spec() -> bool {
        true
    }

    open spec fn from_spec(v: AdsError) -> AdsErrorCode {
        error_code_of(v.n_error)
    }
}

/// Naming an error by its code and reading the code back gives the same
/// error; a code that no name has maps to `UNKNOWN`.
pub proof fn lemma_error_code_round_trip(e: AdsErrorCode, v: u32)
    ensures
        error_code_of(error_code_value(e)) == e,
        error_code_of(v) != AdsErrorCode::UNKNOWN ==> error_code_value(error_code_of(v)) == v,
{
}

} // verus!
