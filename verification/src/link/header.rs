use vstd::prelude::*;

verus! {

/// The functions of the link layer. The primary functions go from the
/// station that starts an exchange, the secondary ones answer them.
#[derive(Copy, Clone, Debug, PartialEq, Eq, Structural)]
pub enum Function {
    /// primary: reset the link states
    PriResetLinkStates,
    /// primary: test the link states
    PriTestLinkStates,
    /// primary: user data, to be confirmed
    PriConfirmedUserData,
    /// primary: user data, not to be confirmed
    PriUnconfirmedUserData,
    /// primary: request the status of the link
    PriRequestLinkStatus,
    /// secondary: positive acknowledgement
    SecAck,
    /// secondary: negative acknowledgement
    SecNack,
    /// secondary: status of the link
    SecLinkStatus,
    /// secondary: function not supported
    SecNotSupported,
    /// a code that names no function
    Unknown(u8),
}

impl Function {
    /// The function that a code of five bits names: the PRM bit and the
    /// four bits of the function code.
    pub open spec fn spec_from(code: u8) -> Function {
        if code == 0x40 {
            Function::PriResetLinkStates
        } else if code == 0x42 {
            Function::PriTestLinkStates
        } else if code == 0x43 {
            Function::PriConfirmedUserData
        } else if code == 0x44 {
            Function::PriUnconfirmedUserData
        } else if code == 0x49 {
            Function::PriRequestLinkStatus
        } else if code == 0x00 {
            Function::SecAck
        } else if code == 0x01 {
            Function::SecNack
        } else if code == 0x0B {
            Function::SecLinkStatus
        } else if code == 0x0F {
            Function::SecNotSupported
        } else {
            Function::Unknown(code)
        }
    }

    /// The code that names the function.
    pub open spec fn spec_to_u8(self) -> u8 {
        match self {
            Function::PriResetLinkStates => 0x40,
            Function::PriTestLinkStates => 0x42,
            Function::PriConfirmedUserData => 0x43,
            Function::PriUnconfirmedUserData => 0x44,
            Function::PriRequestLinkStatus => 0x49,
            Function::SecAck => 0x00,
            Function::SecNack => 0x01,
            Function::SecLinkStatus => 0x0B,
            Function::SecNotSupported => 0x0F,
            Function::Unknown(code) => code,
        }
    }

    /// The function that a code names.
    pub fn from(code: u8) -> (f: Function)
        ensures
            f == Self::spec_from(code),
    {
        match code {
            0x40 => Function::PriResetLinkStates,
            0x42 => Function::PriTestLinkStates,
            0x43 => Function::PriConfirmedUserData,
            0x44 => Function::PriUnconfirmedUserData,
            0x49 => Function::PriRequestLinkStatus,
            0x00 => Function::SecAck,
            0x01 => Function::SecNack,
            0x0B => Function::SecLinkStatus,
            0x0F => Function::SecNotSupported,
            _ => Function::Unknown(code),
        }
    }

    /// The code that names the function.
    pub fn to_u8(self) -> (code: u8)
        ensures
            code == self.spec_to_u8(),
    {
        match self {
            Function::PriResetLinkStates => 0x40,
            Function::PriTestLinkStates => 0x42,
            Function::PriConfirmedUserData => 0x43,
            Function::PriUnconfirmedUserData => 0x44,
            Function::PriRequestLinkStatus => 0x49,
            Function::SecAck => 0x00,
            Function::SecNack => 0x01,
            Function::SecLinkStatus => 0x0B,
            Function::SecNotSupported => 0x0F,
            Function::Unknown(code) => code,
        }
    }
}

/// The control octet of a link frame.
#[derive(Copy, Clone, Debug, PartialEq, Eq, Structural)]
pub struct ControlField {
    /// function of the frame
    pub func: Function,
    /// the frame comes from a master
    pub master: bool,
    /// frame count bit
    pub fcb: bool,
    /// the frame count bit is valid
    pub fcv: bool,
}

impl ControlField {
    /// The control field that the octet `x` carries: direction in bit 7,
    /// frame count bit in bit 5, its validity in bit 4, and the function in
    /// bit 6 and the four lowest bits.
    pub open spec fn spec_from(x: u8) -> ControlField {
        ControlField {
            func: Function::spec_from((((x / 64) % 2) * 64 + x % 16) as u8),
            master: (x / 128) % 2 == 1,
            fcb: (x / 32) % 2 == 1,
            fcv: (x / 16) % 2 == 1,
        }
    }

    /// The control field that the octet `x` carries.
    pub fn from(x: u8) -> (c: ControlField)
        ensures
            c == Self::spec_from(x),
    {
        let code: u8 = ((x / 64) % 2) * 64 + x % 16;
        ControlField {
            func: Function::from(code),
            master: (x / 128) % 2 == 1,
            fcb: (x / 32) % 2 == 1,
            fcv: (x / 16) % 2 == 1,
        }
    }

    /// The octet that carries the control field. Bits of the function
    /// code that collide with the flags are dropped.
    pub open spec fn spec_to_u8(self) -> u8 {
        let code = self.func.spec_to_u8();
        ((if self.master {
            128int
        } else {
            0int
        }) + ((code / 64) % 2) * 64 + (if self.fcb {
            32int
        } else {
            0int
        }) + (if self.fcv {
            16int
        } else {
            0int
        }) + code % 16) as u8
    }

    /// The octet that carries the control field.
    pub fn to_u8(self) -> (x: u8)
        ensures
            x == self.spec_to_u8(),
    {
        let code: u8 = self.func.to_u8();
        let mut x: u8 = ((code / 64) % 2) * 64 + code % 16;
        if self.master {
            x = x + 128;
        }
        if self.fcb {
            x = x + 32;
        }
        if self.fcv {
            x = x + 16;
        }
        x
    }
}

/// The header of a link frame, without sync octets, length and checksum.
#[derive(Copy, Clone, Debug, PartialEq, Eq, Structural)]
pub struct Header {
    /// control octet
    pub control: ControlField,
    /// address of the station that the frame is for
    pub destination: u16,
    /// address of the station that the frame is from
    pub source: u16,
}

impl Header {
    /// A header made of its fields.
    pub fn new(control: ControlField, destination: u16, source: u16) -> (h: Header)
        ensures
            h == (Header { control, destination, source }),
    {
        Header { control, destination, source }
    }
}

} // verus!
