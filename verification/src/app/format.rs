use vstd::prelude::*;
use crate::app::control_field::ControlField;
use crate::app::function_code::FunctionCode;
use crate::app::header::{ResponseFunction, WriteError};
use crate::app::iin::Iin;
use crate::app::variations::{FixedSize, Variation};
use crate::outstation::control::append;

verus! {

/// The octets of an object header that counts one object.
pub open spec fn count_of_one<T: FixedSize>(item: T) -> Seq<u8> {
    seq![T::spec_variation().group, T::spec_variation().var, 0x07u8, 1u8] + item.spec_encode()
}

/// The octets of an object header that names all objects of a variation.
pub open spec fn all_objects(variation: Variation) -> Seq<u8> {
    seq![variation.group, variation.var, 0x06u8]
}

/// The octets of `n` objects with one-octet indices in front, from the
/// first on.
pub open spec fn prefixed_items<T: FixedSize>(items: Seq<(T, u16)>, n: int) -> Seq<u8>
    decreases n,
{
    if n <= 0 {
        Seq::empty()
    } else {
        prefixed_items(items, n - 1) + seq![items[n - 1].1 as u8] + items[n - 1].0.spec_encode()
    }
}

/// The octets of an object header with a one-octet count and objects with
/// one-octet indices.
pub open spec fn prefixed_header<T: FixedSize>(items: Seq<(T, u16)>) -> Seq<u8> {
    seq![T::spec_variation().group, T::spec_variation().var, 0x17u8, items.len() as u8]
        + prefixed_items(items, items.len() as int)
}

/// Composes a fragment in a buffer of limited size: the header first, then
/// object headers, one after the other.
pub struct HeaderWriter {
    buffer: Vec<u8>,
    capacity: usize,
}

/// A fragment under composition as a value: the octets written so far and
/// the size of the buffer that the fragment must fit.
pub struct FragmentView {
    pub bytes: Seq<u8>,
    pub capacity: nat,
}

impl View for HeaderWriter {
    type V = FragmentView;

    closed spec fn view(&self) -> FragmentView {
        FragmentView { bytes: self.buffer@, capacity: self.capacity as nat }
    }
}

/// Starts a request fragment in a buffer of `capacity` octets.
pub fn start_request(control: ControlField, function: FunctionCode, capacity: usize) -> (r: Result<
    HeaderWriter,
    WriteError,
>)
    ensures
        capacity < 2 ==> r is Err,
        capacity >= 2 ==> r is Ok && r->Ok_0@.bytes == seq![
            control.spec_to_u8() as u8,
            function.spec_as_u8(),
        ] && r->Ok_0@.capacity == capacity,
{
    if capacity < 2 {
        return Err(WriteError);
    }
    let mut buffer: Vec<u8> = Vec::new();
    buffer.push(control.to_u8());
    buffer.push(function.as_u8());
    let w = HeaderWriter { buffer, capacity };
    proof {
        assert(w@.bytes =~= seq![control.spec_to_u8() as u8, function.spec_as_u8()]);
    }
    Ok(w)
}

/// Starts a response fragment in a buffer of `capacity` octets.
pub fn start_response(
    control: ControlField,
    function: ResponseFunction,
    iin: Iin,
    capacity: usize,
) -> (r: Result<HeaderWriter, WriteError>)
    ensures
        capacity < 4 ==> r is Err,
        capacity >= 4 ==> r is Ok && r->Ok_0@.bytes == seq![
            control.spec_to_u8() as u8,
            function.spec_as_u8(),
            iin.iin1.value,
            iin.iin2.value,
        ] && r->Ok_0@.capacity == capacity,
{
    if capacity < 4 {
        return Err(WriteError);
    }
    let mut buffer: Vec<u8> = Vec::new();
    buffer.push(control.to_u8());
    buffer.push(function.as_u8());
    buffer.push(iin.iin1.value);
    buffer.push(iin.iin2.value);
    let w = HeaderWriter { buffer, capacity };
    proof {
        assert(w@.bytes =~= seq![
            control.spec_to_u8() as u8,
            function.spec_as_u8(),
            iin.iin1.value,
            iin.iin2.value,
        ]);
    }
    Ok(w)
}

impl HeaderWriter {
    /// Appends `bytes` if the fragment then still fits its buffer; else
    /// leaves the fragment as it is.
    fn put(&mut self, bytes: &Vec<u8>) -> (r: Result<(), WriteError>)
        ensures
            final(self)@.capacity == old(self)@.capacity,
            old(self)@.bytes.len() + bytes@.len() <= old(self)@.capacity ==> r is Ok && final(self)@.bytes
                == old(self)@.bytes + bytes@,
            old(self)@.bytes.len() + bytes@.len() > old(self)@.capacity ==> r is Err && final(self)@.bytes
                == old(self)@.bytes,
    {
        if self.buffer.len() > self.capacity || bytes.len() > self.capacity - self.buffer.len() {
            return Err(WriteError);
        }
        append(&mut self.buffer, bytes);
        Ok(())
    }

    /// Writes an object header that counts one object, and the object. The
    /// fragment stays as it is when they do not fit.
    pub fn write_count_of_one<T: FixedSize>(&mut self, item: T) -> (r: Result<(), WriteError>)
        ensures
            final(self)@.capacity == old(self)@.capacity,
            old(self)@.bytes.len() + count_of_one(item).len() <= old(self)@.capacity ==> r is Ok
                && final(self)@.bytes == old(self)@.bytes + count_of_one(item),
            old(self)@.bytes.len() + count_of_one(item).len() > old(self)@.capacity ==> r is Err
                && final(self)@.bytes == old(self)@.bytes,
    {
        let variation = T::variation();
        let mut bytes: Vec<u8> = Vec::new();
        bytes.push(variation.group);
        bytes.push(variation.var);
        bytes.push(0x07);
        bytes.push(1);
        item.encode(&mut bytes);
        proof {
            assert(bytes@ =~= count_of_one(item));
        }
        self.put(&bytes)
    }

    /// Writes an object header that names all objects of a variation. The
    /// fragment stays as it is when the header does not fit.
    pub fn write_all_objects_header(&mut self, variation: Variation) -> (r: Result<(), WriteError>)
        ensures
            final(self)@.capacity == old(self)@.capacity,
            old(self)@.bytes.len() + 3 <= old(self)@.capacity ==> r is Ok && final(self)@.bytes == old(self)@.bytes
                + all_objects(variation),
            old(self)@.bytes.len() + 3 > old(self)@.capacity ==> r is Err && final(self)@.bytes == old(self)@.bytes,
    {
        let mut bytes: Vec<u8> = Vec::new();
        bytes.push(variation.group);
        bytes.push(variation.var);
        bytes.push(0x06);
        proof {
            assert(bytes@ =~= all_objects(variation));
        }
        self.put(&bytes)
    }

    /// Writes an object header with a one-octet count and the objects with
    /// their indices, each index in one octet in front of its object. There
    /// can be 255 objects at most, and no index above 255. The fragment
    /// stays as it is when header and objects do not fit.
    pub fn write_prefixed_items<T: FixedSize>(&mut self, items: &Vec<(T, u16)>) -> (r: Result<
        (),
        WriteError,
    >)
        ensures
            final(self)@.capacity == old(self)@.capacity,
            r is Ok ==> final(self)@.bytes == old(self)@.bytes + prefixed_header(items@),
            r is Err ==> final(self)@.bytes == old(self)@.bytes,
            r is Ok <==> items@.len() <= 255 && (forall|i: int|
                0 <= i < items@.len() ==> (#[trigger] items@[i]).1 <= 255) && old(self)@.bytes.len()
                + prefixed_header(items@).len() <= old(self)@.capacity,
    {
        let n: usize = items.len();
        if n > 255 {
            return Err(WriteError);
        }
        let variation = T::variation();
        let mut bytes: Vec<u8> = Vec::new();
        bytes.push(variation.group);
        bytes.push(variation.var);
        bytes.push(0x17);
        bytes.push(n as u8);
        let ghost head = bytes@;
        let mut i: usize = 0;
        while i < n
            invariant
                n == items@.len(),
                n <= 255,
                i <= n,
                bytes@ == head + prefixed_items(items@, i as int),
                forall|j: int| 0 <= j < i ==> (#[trigger] items@[j]).1 <= 255,
            decreases n - i,
        {
            let (item, index) = items[i];
            if index > 255 {
                return Err(WriteError);
            }
            bytes.push(index as u8);
            item.encode(&mut bytes);
            i = i + 1;
            proof {
                assert(bytes@ =~= head + prefixed_items(items@, i as int));
            }
        }
        proof {
            assert(bytes@ =~= prefixed_header(items@));
        }
        self.put(&bytes)
    }

    /// The octets of the fragment so far.
    pub fn bytes(&self) -> (b: &[u8])
        ensures
            b@ == self@.bytes,
    {
        self.buffer.as_slice()
    }
}

} // verus!
