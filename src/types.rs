use vstd::prelude::*;

verus! {

/// The ADS commands this client issues or receives.
#[derive(Debug, Clone, Copy, PartialEq, Eq, Structural)]
pub enum AdsCommand {
    ReadDeviceInfo,
    Read,
    Write,
    ReadState,
    WriteControl,
    AddDeviceNotification,
    DeleteDeviceNotification,
    DeviceNotification,
    ReadWrite,
}

/// The command id that stands for `c` in an AMS header.
pub open spec fn command_id(c: AdsCommand) -> u16 {
    match c {
        AdsCommand::ReadDeviceInfo => 1,
        AdsCommand::Read => 2,
        AdsCommand::Write => 3,
        AdsCommand::ReadState => 4,
        AdsCommand::WriteControl => 5,
        AdsCommand::AddDeviceNotification => 6,
        AdsCommand::DeleteDeviceNotification => 7,
        AdsCommand::DeviceNotification => 8,
        AdsCommand::ReadWrite => 9,
    }
}

/// The command whose id is `v`, if there is one.
pub open spec fn command_of_id(v: u16) -> Option<AdsCommand> {
    if v == 1 {
        Some(AdsCommand::ReadDeviceInfo)
    } else if v == 2 {
        Some(AdsCommand::Read)
    } else if v == 3 {
        Some(AdsCommand::Write)
    } else if v == 4 {
        Some(AdsCommand::ReadState)
    } else if v == 5 {
        Some(AdsCommand::WriteControl)
    } else if v == 6 {
        Some(AdsCommand::AddDeviceNotification)
    } else if v == 7 {
        Some(AdsCommand::DeleteDeviceNotification)
    } else if v == 8 {
        Some(AdsCommand::DeviceNotification)
    } else if v == 9 {
        Some(AdsCommand::ReadWrite)
    } else {
        None
    }
}

impl AdsCommand {
    /// The command id of `self`, as it is written into an AMS header.
    pub fn id(&self) -> (r: u16)
        ensures
            r == command_id(*self),
    {
        match self {
            AdsCommand::ReadDeviceInfo => 1,
            AdsCommand::Read => 2,
            AdsCommand::Write => 3,
            AdsCommand::ReadState => 4,
            AdsCommand::WriteControl => 5,
            AdsCommand::AddDeviceNotification => 6,
            AdsCommand::DeleteDeviceNotification => 7,
            AdsCommand::DeviceNotification => 8,
            AdsCommand::ReadWrite => 9,
        }
    }

    /// The command with id `v`; `None` for an id that names no command.
    pub fn from_id(v: u16) -> (r: Option<AdsCommand>)
        ensures
            r == command_of_id(v),
    {
        match v {
            1 => Some(AdsCommand::ReadDeviceInfo),
            2 => Some(AdsCommand::Read),
            3 => Some(AdsCommand::Write),
            4 => Some(AdsCommand::ReadState),
            5 => Some(AdsCommand::WriteControl),
            6 => Some(AdsCommand::AddDeviceNotification),
            7 => Some(AdsCommand::DeleteDeviceNotification),
            8 => Some(AdsCommand::DeviceNotification),
            9 => Some(AdsCommand::ReadWrite),
            _ => None,
        }
    }
}

/// Every command id decodes back to its command, and only known ids decode.
pub proof fn lemma_command_id_round_trip(c: AdsCommand, v: u16)
    ensures
        command_of_id(command_id(c)) == Some(c),
        command_of_id(v) matches Some(d) ==> command_id(d) == v,
{
}

/// The condition under which the server emits a notification.
#[derive(Debug, Clone, Copy, PartialEq, Eq, Structural)]
pub enum AdsTransMode {
    ServerCycle,
    OnChange,
}

/// The value of a transmission mode on the wire.
pub open spec fn trans_mode_value(m: AdsTransMode) -> u32 {
    match m {
        AdsTransMode::ServerCycle => 3,
        AdsTransMode::OnChange => 4,
    }
}

impl AdsTransMode {
    /// The value of `self` on the wire.
    pub fn value(&self) -> (r: u32)
        ensures
            r == trans_mode_value(*self),
    {
        match self {
            AdsTransMode::ServerCycle => 3,
            AdsTransMode::OnChange => 4,
        }
    }
}

/// Attributes of a notification subscription; `max_delay` and `cycle_time`
/// count units of 100 ns.
#[derive(Debug, Clone, Copy, PartialEq, Eq, Structural)]
pub struct AdsNotificationAttrib {
    pub cb_length: u32,
    pub trans_mode: AdsTransMode,
    pub max_delay: u32,
    pub cycle_time: u32,
}


/// How long a request may wait for its reply.
#[derive(Debug, Clone, Copy, PartialEq, Eq, Structural)]
pub enum AdsTimeout {
    DefaultTimeout,
    CustomTimeout(u64),
}

/// Seconds that a request waits for its reply unless told otherwise.
pub const DEFAULT_TIMEOUT_SECS: u64 = 5;

/// The number of seconds that a timeout setting stands for.
pub open spec fn timeout_secs(t: AdsTimeout) -> u64 {
    match t {
        AdsTimeout::DefaultTimeout => DEFAULT_TIMEOUT_SECS,
        AdsTimeout::CustomTimeout(s) => s,
    }
}

impl AdsTimeout {
    /// The number of seconds that `self` stands for.
    pub fn seconds(&self) -> (r: u64)
        ensures
            r == timeout_secs(*self),
    {
        match self {
            AdsTimeout::DefaultTimeout => DEFAULT_TIMEOUT_SECS,
            AdsTimeout::CustomTimeout(s) => *s,
        }
    }
}

/// ADS run state of a device.
#[derive(Debug, Clone, Copy, PartialEq, Eq, Structural)]
pub enum AdsState {
    Invalid,
    Idle,
    Reset,
    Init,
    Start,
    Run,
    Stop,
    SaveCFG,
    LoadCFG,
    Powerfailure,
    PowerGood,
    Error,
    Shutdown,
    Suspend,
    Resume,
    Config,
    Reconfig,
}

/// The numeric value of an ADS state on the wire.
pub open spec fn state_value(s: AdsState) -> u16 {
    match s {
        AdsState::Invalid => 0,
        AdsState::Idle => 1,
        AdsState::Reset => 2,
        AdsState::Init => 3,
        AdsState::Start => 4,
        AdsState::Run => 5,
        AdsState::Stop => 6,
        AdsState::SaveCFG => 7,
        AdsState::LoadCFG => 8,
        AdsState::Powerfailure => 9,
        AdsState::PowerGood => 10,
        AdsState::Error => 11,
        AdsState::Shutdown => 12,
        AdsState::Suspend => 13,
        AdsState::Resume => 14,
        AdsState::Config => 15,
        AdsState::Reconfig => 16,
    }
}

/// The ADS state with numeric value `v`, if there is one.
pub open spec fn state_of_value(v: u16) -> Option<AdsState> {
    if v == 0 {
        Some(AdsState::Invalid)
    } else if v == 1 {
        Some(AdsState::Idle)
    } else if v == 2 {
        Some(AdsState::Reset)
    } else if v == 3 {
        Some(AdsState::Init)
    } else if v == 4 {
        Some(AdsState::Start)
    } else if v == 5 {
        Some(AdsState::Run)
    } else if v == 6 {
        Some(AdsState::Stop)
    } else if v == 7 {
        Some(AdsState::SaveCFG)
    } else if v == 8 {
        Some(AdsState::LoadCFG)
    } else if v == 9 {
        Some(AdsState::Powerfailure)
    } else if v == 10 {
        Some(AdsState::PowerGood)
    } else if v == 11 {
        Some(AdsState::Error)
    } else if v == 12 {
        Some(AdsState::Shutdown)
    } else if v == 13 {
        Some(AdsState::Suspend)
    } else if v == 14 {
        Some(AdsState::Resume)
    } else if v == 15 {
        Some(AdsState::Config)
    } else if v == 16 {
        Some(AdsState::Reconfig)
    } else {
        None
    }
}

impl AdsState {
    /// The numeric value of `self` on the wire.
    pub fn value(&self) -> (r: u16)
        ensures
            r == state_value(*self),
    {
        match self {
            AdsState::Invalid => 0,
            AdsState::Idle => 1,
            AdsState::Reset => 2,
            AdsState::Init => 3,
            AdsState::Start => 4,
            AdsState::Run => 5,
            AdsState::Stop => 6,
            AdsState::SaveCFG => 7,
            AdsState::LoadCFG => 8,
            AdsState::Powerfailure => 9,
            AdsState::PowerGood => 10,
            AdsState::Error => 11,
            AdsState::Shutdown => 12,
            AdsState::Suspend => 13,
            AdsState::Resume => 14,
            AdsState::Config => 15,
            AdsState::Reconfig => 16,
        }
    }

    /// The state with value `v`; `None` for a value that names no state.
    pub fn from_value(v: u16) -> (r: Option<AdsState>)
        ensures
            r == state_of_value(v),
    {
        match v {
            0 => Some(AdsState::Invalid),
            1 => Some(AdsState::Idle),
            2 => Some(AdsState::Reset),
            3 => Some(AdsState::Init),
            4 => Some(AdsState::Start),
            5 => Some(AdsState::Run),
            6 => Some(AdsState::Stop),
            7 => Some(AdsState::SaveCFG),
            8 => Some(AdsState::LoadCFG),
            9 => Some(AdsState::Powerfailure),
            10 => Some(AdsState::PowerGood),
            11 => Some(AdsState::Error),
            12 => Some(AdsState::Shutdown),
            13 => Some(AdsState::Suspend),
            14 => Some(AdsState::Resume),
            15 => Some(AdsState::Config),
            16 => Some(AdsState::Reconfig),
            _ => None,
        }
    }
}

/// Every state value decodes back to its state, and only known values decode.
pub proof fn lemma_state_value_round_trip(s: AdsState, v: u16)
    ensures
        state_of_value(state_value(s)) == Some(s),
        state_of_value(v) matches Some(t) ==> state_value(t) == v,
{
}

/// ADS state and device state of a target.
#[derive(Debug, Clone, Copy, PartialEq, Eq, Structural)]
pub struct StateInfo {
    pub ads_state: AdsState,
    pub device_state: u16,
}

impl Default for AdsState {
    fn default() -> (r: AdsState)
        ensures
            r == AdsState::Invalid,
    {
        AdsState::Invalid
    }
}

impl Default for StateInfo {
    fn default() -> (r: StateInfo)
        ensures
            r.spec_is_unset(),
    {
        StateInfo { ads_state: AdsState::Invalid, device_state: 0 }
    }
}

impl StateInfo {
    /// `true` when `self` is the default state (`Invalid`, device state 0),
    /// which a well-formed reply never carries.
    pub open spec fn spec_is_unset(&self) -> bool {
        self.ads_state == AdsState::Invalid && self.device_state == 0
    }

    /// See [`StateInfo::spec_is_unset`].
    #[verifier::when_used_as_spec(spec_is_unset)]
    pub fn is_unset(&self) -> (r: bool)
        ensures
            r == self.spec_is_unset(),
    {
        self.ads_state == AdsState::Invalid && self.device_state == 0
    }
}

/// Version and name of a target device.
#[derive(Debug, Clone)]
pub struct DeviceStateInfo {
    pub major: u8,
    pub minor: u8,
    pub build: u16,
    pub device_name: String,
}

} // verus!
