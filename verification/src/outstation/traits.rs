use vstd::prelude::*;
use crate::app::function_code::FunctionCode;
use crate::app::header::RequestHeader;
use crate::app::iin::{Iin1, Iin2, Iin};
use crate::app::sequence::Sequence;
use crate::app::timestamp::Timestamp;
use crate::outstation::control::{CommandStatus, Control};
use crate::outstation::database::Database;

verus! {

/// How long the outstation will take to restart.
#[derive(Copy, Clone, Debug, PartialEq, Eq, Structural)]
pub enum RestartDelay {
    /// delay in seconds
    Seconds(u16),
    /// delay in milliseconds
    Milliseconds(u16),
}

/// What the application made of a time written by the master.
#[derive(Copy, Clone, Debug, PartialEq, Eq, Structural)]
pub enum WriteTimeResult {
    /// the application does not accept time from the master
    NotSupported,
    /// the time was not acceptable
    InvalidValue,
    /// the time was taken
    Accepted,
}

impl WriteTimeResult {
    /// The indication bits that report this outcome.
    pub open spec fn spec_iin2(self) -> u8 {
        match self {
            WriteTimeResult::NotSupported => Iin2::NO_FUNC_CODE_SUPPORT,
            WriteTimeResult::InvalidValue => Iin2::PARAMETER_ERROR,
            WriteTimeResult::Accepted => 0,
        }
    }

    /// The indication bits that report this outcome.
    pub fn iin2(self) -> (r: Iin2)
        ensures
            r.value == self.spec_iin2(),
    {
        match self {
            WriteTimeResult::NotSupported => Iin2 { value: Iin2::NO_FUNC_CODE_SUPPORT },
            WriteTimeResult::InvalidValue => Iin2 { value: Iin2::PARAMETER_ERROR },
            WriteTimeResult::Accepted => Iin2 { value: 0 },
        }
    }
}

/// The counters that a freeze addresses.
#[derive(Copy, Clone, Debug, PartialEq, Eq, Structural)]
pub enum FreezeIndices {
    /// every counter
    All,
    /// the counters from the first index to the second, both included
    Range(u16, u16),
}

/// What a freeze does to the counters.
#[derive(Copy, Clone, Debug, PartialEq, Eq, Structural)]
pub enum FreezeType {
    /// copy the counters to the frozen counters
    ImmediateFreeze,
    /// copy the counters to the frozen counters and clear them
    FreezeAndClear,
}

/// What the application made of a freeze.
#[derive(Copy, Clone, Debug, PartialEq, Eq, Structural)]
pub enum FreezeResult {
    /// the counters were frozen
    Success,
    /// one of the counters does not exist
    ParameterError,
    /// the application does not freeze counters
    NotSupported,
}

impl FreezeResult {
    /// The indication bits that report this outcome.
    pub open spec fn spec_iin2(self) -> u8 {
        match self {
            FreezeResult::Success => 0,
            FreezeResult::ParameterError => Iin2::PARAMETER_ERROR,
            FreezeResult::NotSupported => Iin2::NO_FUNC_CODE_SUPPORT,
        }
    }

    /// The indication bits that report this outcome.
    pub fn iin2(self) -> (r: u8)
        ensures
            r == self.spec_iin2(),
    {
        match self {
            FreezeResult::Success => 0,
            FreezeResult::ParameterError => Iin2::PARAMETER_ERROR,
            FreezeResult::NotSupported => Iin2::NO_FUNC_CODE_SUPPORT,
        }
    }
}

/// The way an operate reached the outstation.
#[derive(Copy, Clone, Debug, PartialEq, Eq, Structural)]
pub enum OperateType {
    /// after a matching select
    SelectBeforeOperate,
    /// directly, with a response
    DirectOperate,
    /// directly, without a response
    DirectOperateNoAck,
}

/// What the session did with a broadcast request.
#[derive(Copy, Clone, Debug, PartialEq, Eq, Structural)]
pub enum BroadcastAction {
    /// the request was carried out
    Processed,
    /// broadcast is disabled by configuration
    IgnoredByConfiguration,
    /// the object headers could not be read
    BadObjectHeaders,
    /// the function may not be broadcast
    UnsupportedFunction(FunctionCode),
}

/// Indication bits that the application controls.
#[derive(Copy, Clone, Debug, PartialEq, Eq, Structural)]
pub struct ApplicationIin {
    /// the outstation asks for time synchronization
    pub need_time: bool,
    /// some output points are under local control
    pub local_control: bool,
    /// an abnormal condition exists in the outstation
    pub device_trouble: bool,
    /// the outstation found its configuration corrupt
    pub config_corrupt: bool,
}

/// The bits of `mask` when `set`, else none.
pub open spec fn bits_if(set: bool, mask: u8) -> u8 {
    if set {
        mask
    } else {
        0
    }
}

impl ApplicationIin {
    /// The indications that carry these bits.
    pub open spec fn spec_to_iin(self) -> Iin {
        Iin {
            iin1: Iin1 {
                value: bits_if(self.need_time, Iin1::NEED_TIME) | bits_if(
                    self.local_control,
                    Iin1::LOCAL_CONTROL,
                ) | bits_if(self.device_trouble, Iin1::DEVICE_TROUBLE),
            },
            iin2: Iin2 { value: bits_if(self.config_corrupt, Iin2::CONFIG_CORRUPT) },
        }
    }

    /// The indications that carry these bits.
    pub fn to_iin(self) -> (r: Iin)
        ensures
            r == self.spec_to_iin(),
    {
        let need_time: u8 = if self.need_time {
            Iin1::NEED_TIME
        } else {
            0
        };
        let local_control: u8 = if self.local_control {
            Iin1::LOCAL_CONTROL
        } else {
            0
        };
        let device_trouble: u8 = if self.device_trouble {
            Iin1::DEVICE_TROUBLE
        } else {
            0
        };
        let config_corrupt: u8 = if self.config_corrupt {
            Iin2::CONFIG_CORRUPT
        } else {
            0
        };
        Iin {
            iin1: Iin1 { value: need_time | local_control | device_trouble },
            iin2: Iin2 { value: config_corrupt },
        }
    }
}

/// What a session asks of the application behind the outstation. The session
/// makes no assumption about what an implementation returns.
pub trait OutstationApplication {
    /// Time in milliseconds that the outstation takes to process a request.
    fn get_processing_delay_ms(&self) -> u16;

    /// The master wrote the absolute time.
    fn write_absolute_time(&mut self, time: Timestamp) -> WriteTimeResult;

    /// Indication bits that the application wants reported.
    fn get_application_iin(&self) -> ApplicationIin;

    /// The master asked for a cold restart. `None` when not supported.
    fn cold_restart(&mut self) -> Option<RestartDelay>;

    /// The master asked for a warm restart. `None` when not supported.
    fn warm_restart(&mut self) -> Option<RestartDelay>;

    /// The master asked to freeze counters.
    fn freeze_counter(
        &mut self,
        indices: FreezeIndices,
        freeze_type: FreezeType,
        database: &mut Database,
    ) -> FreezeResult;
}

/// Notifications of what happens inside a session, for whoever wants to
/// observe it. None of them influences the session.
pub trait OutstationInformation {
    /// A request is about to be processed from the idle state.
    fn process_request_from_idle(&mut self, header: RequestHeader);

    /// A broadcast request was received and handled as `action` says.
    fn broadcast_received(&mut self, function: FunctionCode, action: BroadcastAction);

    /// A solicited response was sent and its confirmation is awaited.
    fn enter_solicited_confirm_wait(&mut self, ecsn: Sequence);

    /// No confirmation of a solicited response came in time.
    fn solicited_confirm_timeout(&mut self, ecsn: Sequence);

    /// The awaited confirmation of a solicited response came.
    fn solicited_confirm_received(&mut self, ecsn: Sequence);

    /// A new request ended the wait for a solicited confirmation.
    fn solicited_confirm_wait_new_request(&mut self);

    /// A solicited confirmation came with another sequence number than awaited.
    fn wrong_solicited_confirm_seq(&mut self, ecsn: Sequence, seq: Sequence);

    /// A confirmation came that nothing awaited.
    fn unexpected_confirm(&mut self, unsolicited: bool, seq: Sequence);

    /// An unsolicited response was sent and its confirmation is awaited.
    fn enter_unsolicited_confirm_wait(&mut self, ecsn: Sequence);

    /// No confirmation of an unsolicited response came in time.
    fn unsolicited_confirm_timeout(&mut self, ecsn: Sequence, retry: bool);

    /// The awaited confirmation of an unsolicited response came.
    fn unsolicited_confirmed(&mut self, ecsn: Sequence);

    /// The master cleared the restart indication.
    fn clear_restart_iin(&mut self);
}

/// What a session asks of the code that carries out controls. The session
/// makes no assumption about the status an implementation returns.
pub trait ControlHandler {
    /// Controls of one fragment follow.
    fn begin_fragment(&mut self);

    /// The controls of the fragment have all been handed over.
    fn end_fragment(&mut self);

    /// Checks that the control could be carried out, without carrying it out.
    fn select(&mut self, control: Control, index: u16, database: &mut Database) -> CommandStatus;

    /// Carries out the control.
    fn operate(
        &mut self,
        control: Control,
        index: u16,
        op_type: OperateType,
        database: &mut Database,
    ) -> CommandStatus;
}

} // verus!
