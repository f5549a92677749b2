use vstd::prelude::*;

verus! {

/// What a function code allows in the fragment that carries it.
#[derive(Copy, Clone, Debug, PartialEq, Eq, Structural)]
pub struct FunctionInfo {
    /// whether a request with this function may carry object headers
    pub objects_allowed: bool,
}

/// Application-layer function codes.
#[derive(Copy, Clone, Debug, PartialEq, Eq, Structural)]
pub enum FunctionCode {
    /// acknowledges a fragment that asked for confirmation (value 0)
    Confirm,
    /// asks for the objects named in the request (value 1)
    Read,
    /// stores the objects of the request in the outstation (value 2)
    Write,
    /// first step of a select-before-operate control (value 3)
    Select,
    /// second step of a select-before-operate control (value 4)
    Operate,
    /// control without a preceding select (value 5)
    DirectOperate,
    /// control without a preceding select and without a reply (value 6)
    DirectOperateNoResponse,
    /// copies counters to their frozen counterparts (value 7)
    ImmediateFreeze,
    /// copies counters to their frozen counterparts, without a reply (value 8)
    ImmediateFreezeNoResponse,
    /// freezes counters and clears them (value 9)
    FreezeClear,
    /// freezes counters and clears them, without a reply (value 10)
    FreezeClearNoResponse,
    /// freezes counters at a given time (value 11)
    FreezeAtTime,
    /// freezes counters at a given time, without a reply (value 12)
    FreezeAtTimeNoResponse,
    /// complete restart of the outstation (value 13)
    ColdRestart,
    /// partial restart of the outstation (value 14)
    WarmRestart,
    /// obsolete (value 15)
    InitializeData,
    /// prepares applications to run (value 16)
    InitializeApplication,
    /// starts applications (value 17)
    StartApplication,
    /// stops applications (value 18)
    StopApplication,
    /// deprecated (value 19)
    SaveConfiguration,
    /// enables unsolicited reporting for the named classes (value 20)
    EnableUnsolicited,
    /// disables unsolicited reporting for the named classes (value 21)
    DisableUnsolicited,
    /// assigns points to event classes (value 22)
    AssignClass,
    /// measures the outstation's processing delay (value 23)
    DelayMeasure,
    /// asks the outstation to note the time of receipt (value 24)
    RecordCurrentTime,
    /// reply to a request (value 129)
    Response,
    /// report that no request asked for (value 130)
    UnsolicitedResponse,
}

impl FunctionCode {
    /// The function code that the octet `x` names, if it names one.
    pub open spec fn spec_from_u8(x: u8) -> Option<FunctionCode> {
        if x == 0 {
            Some(FunctionCode::Confirm)
        } else if x == 1 {
            Some(FunctionCode::Read)
        } else if x == 2 {
            Some(FunctionCode::Write)
        } else if x == 3 {
            Some(FunctionCode::Select)
        } else if x == 4 {
            Some(FunctionCode::Operate)
        } else if x == 5 {
            Some(FunctionCode::DirectOperate)
        } else if x == 6 {
            Some(FunctionCode::DirectOperateNoResponse)
        } else if x == 7 {
            Some(FunctionCode::ImmediateFreeze)
        } else if x == 8 {
            Some(FunctionCode::ImmediateFreezeNoResponse)
        } else if x == 9 {
            Some(FunctionCode::FreezeClear)
        } else if x == 10 {
            Some(FunctionCode::FreezeClearNoResponse)
        } else if x == 11 {
            Some(FunctionCode::FreezeAtTime)
        } else if x == 12 {
            Some(FunctionCode::FreezeAtTimeNoResponse)
        } else if x == 13 {
            Some(FunctionCode::ColdRestart)
        } else if x == 14 {
            Some(FunctionCode::WarmRestart)
        } else if x == 15 {
            Some(FunctionCode::InitializeData)
        } else if x == 16 {
            Some(FunctionCode::InitializeApplication)
        } else if x == 17 {
            Some(FunctionCode::StartApplication)
        } else if x == 18 {
            Some(FunctionCode::StopApplication)
        } else if x == 19 {
            Some(FunctionCode::SaveConfiguration)
        } else if x == 20 {
            Some(FunctionCode::EnableUnsolicited)
        } else if x == 21 {
            Some(FunctionCode::DisableUnsolicited)
        } else if x == 22 {
            Some(FunctionCode::AssignClass)
        } else if x == 23 {
            Some(FunctionCode::DelayMeasure)
        } else if x == 24 {
            Some(FunctionCode::RecordCurrentTime)
        } else if x == 129 {
            Some(FunctionCode::Response)
        } else if x == 130 {
            Some(FunctionCode::UnsolicitedResponse)
        } else {
            None
        }
    }

    /// The octet that names this function code.
    pub open spec fn spec_as_u8(self) -> u8 {
        match self {
            FunctionCode::Confirm => 0,
            FunctionCode::Read => 1,
            FunctionCode::Write => 2,
            FunctionCode::Select => 3,
            FunctionCode::Operate => 4,
            FunctionCode::DirectOperate => 5,
            FunctionCode::DirectOperateNoResponse => 6,
            FunctionCode::ImmediateFreeze => 7,
            FunctionCode::ImmediateFreezeNoResponse => 8,
            FunctionCode::FreezeClear => 9,
            FunctionCode::FreezeClearNoResponse => 10,
            FunctionCode::FreezeAtTime => 11,
            FunctionCode::FreezeAtTimeNoResponse => 12,
            FunctionCode::ColdRestart => 13,
            FunctionCode::WarmRestart => 14,
            FunctionCode::InitializeData => 15,
            FunctionCode::InitializeApplication => 16,
            FunctionCode::StartApplication => 17,
            FunctionCode::StopApplication => 18,
            FunctionCode::SaveConfiguration => 19,
            FunctionCode::EnableUnsolicited => 20,
            FunctionCode::DisableUnsolicited => 21,
            FunctionCode::AssignClass => 22,
            FunctionCode::DelayMeasure => 23,
            FunctionCode::RecordCurrentTime => 24,
            FunctionCode::Response => 129,
            FunctionCode::UnsolicitedResponse => 130,
        }
    }

    /// Whether a request with this function code may carry object headers.
    pub open spec fn spec_objects_allowed(self) -> bool {
        match self {
            FunctionCode::Confirm
            | FunctionCode::ColdRestart
            | FunctionCode::WarmRestart
            | FunctionCode::InitializeData
            | FunctionCode::SaveConfiguration
            | FunctionCode::DelayMeasure
            | FunctionCode::RecordCurrentTime => false,
            _ => true,
        }
    }

    /// Reads a function code from its octet.
    pub fn from(x: u8) -> (r: Option<FunctionCode>)
        ensures
            r == Self::spec_from_u8(x),
    {
        match x {
            0 => Some(FunctionCode::Confirm),
            1 => Some(FunctionCode::Read),
            2 => Some(FunctionCode::Write),
            3 => Some(FunctionCode::Select),
            4 => Some(FunctionCode::Operate),
            5 => Some(FunctionCode::DirectOperate),
            6 => Some(FunctionCode::DirectOperateNoResponse),
            7 => Some(FunctionCode::ImmediateFreeze),
            8 => Some(FunctionCode::ImmediateFreezeNoResponse),
            9 => Some(FunctionCode::FreezeClear),
            10 => Some(FunctionCode::FreezeClearNoResponse),
            11 => Some(FunctionCode::FreezeAtTime),
            12 => Some(FunctionCode::FreezeAtTimeNoResponse),
            13 => Some(FunctionCode::ColdRestart),
            14 => Some(FunctionCode::WarmRestart),
            15 => Some(FunctionCode::InitializeData),
            16 => Some(FunctionCode::InitializeApplication),
            17 => Some(FunctionCode::StartApplication),
            18 => Some(FunctionCode::StopApplication),
            19 => Some(FunctionCode::SaveConfiguration),
            20 => Some(FunctionCode::EnableUnsolicited),
            21 => Some(FunctionCode::DisableUnsolicited),
            22 => Some(FunctionCode::AssignClass),
            23 => Some(FunctionCode::DelayMeasure),
            24 => Some(FunctionCode::RecordCurrentTime),
            129 => Some(FunctionCode::Response),
            130 => Some(FunctionCode::UnsolicitedResponse),
            _ => None,
        }
    }

    /// The octet that names this function code.
    pub fn as_u8(self) -> (x: u8)
        ensures
            x == self.spec_as_u8(),
    {
        match self {
            FunctionCode::Confirm => 0,
            FunctionCode::Read => 1,
            FunctionCode::Write => 2,
            FunctionCode::Select => 3,
            FunctionCode::Operate => 4,
            FunctionCode::DirectOperate => 5,
            FunctionCode::DirectOperateNoResponse => 6,
            FunctionCode::ImmediateFreeze => 7,
            FunctionCode::ImmediateFreezeNoResponse => 8,
            FunctionCode::FreezeClear => 9,
            FunctionCode::FreezeClearNoResponse => 10,
            FunctionCode::FreezeAtTime => 11,
            FunctionCode::FreezeAtTimeNoResponse => 12,
            FunctionCode::ColdRestart => 13,
            FunctionCode::WarmRestart => 14,
            FunctionCode::InitializeData => 15,
            FunctionCode::InitializeApplication => 16,
            FunctionCode::StartApplication => 17,
            FunctionCode::StopApplication => 18,
            FunctionCode::SaveConfiguration => 19,
            FunctionCode::EnableUnsolicited => 20,
            FunctionCode::DisableUnsolicited => 21,
            FunctionCode::AssignClass => 22,
            FunctionCode::DelayMeasure => 23,
            FunctionCode::RecordCurrentTime => 24,
            FunctionCode::Response => 129,
            FunctionCode::UnsolicitedResponse => 130,
        }
    }

    /// What this function code allows in its fragment.
    pub fn get_function_info(&self) -> (info: FunctionInfo)
        ensures
            info.objects_allowed == self.spec_objects_allowed(),
    {
        match self {
            FunctionCode::Confirm
            | FunctionCode::ColdRestart
            | FunctionCode::WarmRestart
            | FunctionCode::InitializeData
            | FunctionCode::SaveConfiguration
            | FunctionCode::DelayMeasure
            | FunctionCode::RecordCurrentTime => FunctionInfo { objects_allowed: false },
            _ => FunctionInfo { objects_allowed: true },
        }
    }

    /// True when both are the same function code.
    pub fn same(&self, other: &FunctionCode) -> (b: bool)
        ensures
            b == (*self == *other),
    {
        self.as_u8() == other.as_u8()
    }

    /// An octet names at most one function code, and that code names it back.
    pub proof fn lemma_round_trip(self)
        ensures
            Self::spec_from_u8(self.spec_as_u8()) == Some(self),
    {
    }
}

} // verus!
