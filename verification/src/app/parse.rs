use vstd::prelude::*;
use crate::app::header::{RequestHeader, ResponseHeader};
use crate::app::variations::{
    Group12Var1,
    Group41Var1,
    Group41Var2,
    Group41Var3,
    Group41Var4,
    Group50Var1,
    Group50Var3,
    Group52Var1,
    Group52Var2,
    Variation,
};
use crate::util::hash::{digest, spec_digest};

verus! {

/// Why the object headers of a fragment could not be read.
#[derive(Copy, Clone, Debug, PartialEq, Eq, Structural)]
pub enum ObjectParseError {
    /// the fragment ends inside an object header or its objects
    InsufficientBytes,
    /// the qualifier cannot be used with the variation
    InvalidQualifierForVariation(Variation, u8),
    /// the range stops before it starts
    InvalidRange(u16, u16),
    /// no object has this group and variation
    UnknownGroupVariation(u8, u8),
    /// the qualifier is known but not supported
    UnsupportedQualifierCode(u8),
    /// no qualifier has this code
    UnknownQualifier(u8),
    /// an octet string of length zero
    ZeroLengthOctetData,
}

/// Variations that a header can name without objects, meaning all of them.
#[derive(Copy, Clone, Debug, PartialEq, Eq, Structural)]
pub enum AllObjectsVariation {
    /// counters, any variation
    Group20Var0,
    /// class 0 data
    Group60Var1,
    /// class 1 events
    Group60Var2,
    /// class 2 events
    Group60Var3,
    /// class 3 events
    Group60Var4,
}

/// Objects that follow a count.
#[derive(Clone, Debug)]
pub enum CountVariation {
    /// absolute times
    Group50Var1(Vec<Group50Var1>),
    /// absolute times relative to the last recorded time
    Group50Var3(Vec<Group50Var3>),
    /// coarse time delays
    Group52Var1(Vec<Group52Var1>),
    /// fine time delays
    Group52Var2(Vec<Group52Var2>),
}

/// Objects that a start and a stop index address.
#[derive(Clone, Debug)]
pub enum RangedVariation {
    /// counters, any variation; a request carries no objects for it
    Group20Var0,
    /// internal indication bits, each with its index
    Group80Var1(Vec<(bool, u16)>),
}

/// Objects that each carry their index in front.
#[derive(Clone, Debug)]
pub enum PrefixedVariation {
    /// control relay output blocks
    Group12Var1(Vec<(Group12Var1, u16)>),
    /// analog outputs, 32-bit integer
    Group41Var1(Vec<(Group41Var1, u16)>),
    /// analog outputs, 16-bit integer
    Group41Var2(Vec<(Group41Var2, u16)>),
    /// analog outputs, single precision
    Group41Var3(Vec<(Group41Var3, u16)>),
    /// analog outputs, double precision
    Group41Var4(Vec<(Group41Var4, u16)>),
}

/// What follows group and variation in an object header: the qualifier's
/// range or count, and the objects.
#[derive(Clone, Debug)]
pub enum HeaderDetails {
    /// all objects of the variation, qualifier 0x06
    AllObjects(AllObjectsVariation),
    /// one-octet start and stop, qualifier 0x00
    OneByteStartStop(u8, u8, RangedVariation),
    /// two-octet start and stop, qualifier 0x01
    TwoByteStartStop(u16, u16, RangedVariation),
    /// one-octet count, qualifier 0x07
    OneByteCount(u8, CountVariation),
    /// two-octet count, qualifier 0x08
    TwoByteCount(u16, CountVariation),
    /// one-octet count, each object with a one-octet index, qualifier 0x17
    OneByteCountAndPrefix(u8, PrefixedVariation),
    /// two-octet count, each object with a two-octet index, qualifier 0x28
    TwoByteCountAndPrefix(u16, PrefixedVariation),
}

impl HeaderDetails {
    /// The counted objects, where the header counts its objects.
    pub open spec fn spec_count(&self) -> Option<&CountVariation> {
        match self {
            HeaderDetails::OneByteCount(_, v) => Some(v),
            HeaderDetails::TwoByteCount(_, v) => Some(v),
            _ => None,
        }
    }

    /// The counted objects, where the header counts its objects.
    pub fn count(&self) -> (r: Option<&CountVariation>)
        ensures
            r == self.spec_count(),
    {
        match self {
            HeaderDetails::OneByteCount(_, v) => Some(v),
            HeaderDetails::TwoByteCount(_, v) => Some(v),
            _ => None,
        }
    }
}

/// One object header with its objects.
#[derive(Clone, Debug)]
pub struct ObjectHeader {
    /// group and variation
    pub variation: Variation,
    /// qualifier, range or count, and objects
    pub details: HeaderDetails,
}

/// The object headers of one fragment, with the octets they were read from.
#[derive(Clone, Debug)]
pub struct HeaderCollection {
    /// the octets after the fragment's header
    pub data: Vec<u8>,
    /// the headers read from them, in order
    pub headers: Vec<ObjectHeader>,
}

impl HeaderCollection {
    /// The collection of a fragment without objects.
    pub fn empty() -> (c: HeaderCollection)
        ensures
            c.data@.len() == 0,
            c.headers@.len() == 0,
    {
        HeaderCollection { data: Vec::new(), headers: Vec::new() }
    }

    /// The only header, when there is exactly one.
    pub open spec fn spec_only_header(&self) -> Option<&ObjectHeader> {
        if self.headers@.len() == 1 {
            Some(&self.headers@[0])
        } else {
            None
        }
    }

    /// Digest of the octets that the headers were read from.
    pub open spec fn spec_hash(&self) -> u64 {
        spec_digest(self.data@)
    }

    /// True when the fragment carried no octets after its header.
    pub fn is_empty(&self) -> (b: bool)
        ensures
            b == (self.data@.len() == 0),
    {
        self.data.len() == 0
    }

    /// The only header, when there is exactly one.
    pub fn get_only_header(&self) -> (r: Option<&ObjectHeader>)
        ensures
            r == self.spec_only_header(),
    {
        if self.headers.len() == 1 {
            Some(&self.headers[0])
        } else {
            None
        }
    }

    /// Digest of the octets that the headers were read from.
    pub fn hash(&self) -> (h: u64)
        ensures
            h == self.spec_hash(),
    {
        digest(&self.data)
    }
}

/// A request fragment as the transport layer hands it over.
#[derive(Debug)]
pub struct Request {
    /// control octet and function code
    pub header: RequestHeader,
    /// every octet of the fragment, header included
    pub raw_fragment: Vec<u8>,
    /// the object headers, or why they could not be read
    pub objects: Result<HeaderCollection, ObjectParseError>,
}

/// A response fragment as the transport layer hands it over.
#[derive(Debug)]
pub struct Response {
    /// control octet, function code and internal indications
    pub header: ResponseHeader,
    /// every octet of the fragment, header included
    pub raw_fragment: Vec<u8>,
    /// the object headers, or why they could not be read
    pub objects: Result<HeaderCollection, ObjectParseError>,
}

/// The single element of `s`, when it has exactly one.
pub open spec fn spec_single<T>(s: Seq<T>) -> Option<T> {
    if s.len() == 1 {
        Some(s[0])
    } else {
        None
    }
}

/// The single element of `v`, when it has exactly one.
pub fn single<T: Copy>(v: &Vec<T>) -> (r: Option<T>)
    ensures
        r == spec_single(v@),
{
    if v.len() == 1 {
        Some(v[0])
    } else {
        None
    }
}

} // verus!
