use vstd::prelude::*;
use crate::app::control_field::ControlField;
use crate::app::function_code::FunctionCode;
use crate::app::iin::Iin;

verus! {

/// The two function codes that a response can carry.
#[derive(Copy, Clone, Debug, PartialEq, Eq, Structural)]
pub enum ResponseFunction {
    /// reply to a request
    Response,
    /// report that no request asked for
    UnsolicitedResponse,
}

impl ResponseFunction {
    /// The octet that names this function.
    pub open spec fn spec_as_u8(self) -> u8 {
        match self {
            ResponseFunction::Response => 129,
            ResponseFunction::UnsolicitedResponse => 130,
        }
    }

    /// The octet that names this function.
    pub fn as_u8(self) -> (x: u8)
        ensures
            x == self.spec_as_u8(),
    {
        match self {
            ResponseFunction::Response => 129,
            ResponseFunction::UnsolicitedResponse => 130,
        }
    }

    /// The function code of the same name.
    pub fn function(self) -> (f: FunctionCode)
        ensures
            f.spec_as_u8() == self.spec_as_u8(),
    {
        match self {
            ResponseFunction::Response => FunctionCode::Response,
            ResponseFunction::UnsolicitedResponse => FunctionCode::UnsolicitedResponse,
        }
    }
}

/// Header of a request fragment.
#[derive(Copy, Clone, Debug, PartialEq, Eq, Structural)]
pub struct RequestHeader {
    /// control octet
    pub control: ControlField,
    /// what the master asks for
    pub function: FunctionCode,
}

impl RequestHeader {
    /// Number of octets that a request header takes on the wire.
    pub const LENGTH: usize = 2;

    /// A request header made of its two fields.
    pub fn new(control: ControlField, function: FunctionCode) -> (h: RequestHeader)
        ensures
            h == (RequestHeader { control, function }),
    {
        RequestHeader { control, function }
    }

    /// The octets that carry this header.
    pub open spec fn spec_bytes(self) -> Seq<u8> {
        seq![self.control.spec_to_u8() as u8, self.function.spec_as_u8()]
    }
}

/// Header of a response fragment.
#[derive(Copy, Clone, Debug, PartialEq, Eq, Structural)]
pub struct ResponseHeader {
    /// control octet
    pub control: ControlField,
    /// solicited or unsolicited
    pub function: ResponseFunction,
    /// internal indications
    pub iin: Iin,
}

/// Failure to write because the buffer is too short.
#[derive(Copy, Clone, Debug, PartialEq, Eq, Structural)]
pub struct WriteError;

impl ResponseHeader {
    /// Number of octets that a response header takes on the wire.
    pub const LENGTH: usize = 4;

    /// A response header made of its three fields.
    pub fn new(control: ControlField, function: ResponseFunction, iin: Iin) -> (h: ResponseHeader)
        ensures
            h == (ResponseHeader { control, function, iin }),
    {
        ResponseHeader { control, function, iin }
    }

    /// The four octets that carry this header.
    pub open spec fn spec_bytes(self) -> Seq<u8> {
        seq![
            self.control.spec_to_u8() as u8,
            self.function.spec_as_u8(),
            self.iin.iin1.value,
            self.iin.iin2.value,
        ]
    }

    /// `buffer` with its first four octets replaced by this header.
    pub open spec fn spec_written(self, buffer: Seq<u8>) -> Seq<u8> {
        self.spec_bytes() + buffer.subrange(4, buffer.len() as int)
    }

    /// Writes the header over the first four octets of `buffer` and leaves
    /// the rest as it is. Fails, writing nothing, when the buffer is shorter.
    pub fn write(&self, buffer: &mut Vec<u8>) -> (r: Result<(), WriteError>)
        ensures
            old(buffer)@.len() >= 4 ==> r is Ok && final(buffer)@ == self.spec_written(old(buffer)@),
            old(buffer)@.len() < 4 ==> r is Err && final(buffer)@ == old(buffer)@,
    {
        if buffer.len() < 4 {
            return Err(WriteError);
        }
        buffer.set(0, self.control.to_u8());
        buffer.set(1, self.function.as_u8());
        buffer.set(2, self.iin.iin1.value);
        buffer.set(3, self.iin.iin2.value);
        proof {
            assert(buffer@ =~= self.spec_written(old(buffer)@));
        }
        Ok(())
    }

    /// Writing a header over a buffer that already starts with it changes nothing.
    pub proof fn lemma_rewrite_is_identity(self, buffer: Seq<u8>)
        requires
            buffer.len() >= 4,
            buffer.subrange(0, 4) == self.spec_bytes(),
        ensures
            self.spec_written(buffer) == buffer,
    {
        assert(self.spec_written(buffer) =~= buffer) by {
            assert forall|i: int| 0 <= i < 4 implies self.spec_bytes()[i] == buffer[i] by {
                assert(buffer.subrange(0, 4)[i] == buffer[i]);
            }
        }
    }
}

} // verus!
