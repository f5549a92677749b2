use vstd::prelude::*;
use crate::app::control_field::ControlField;
use crate::app::function_code::FunctionCode;
use crate::app::header::{RequestHeader, ResponseFunction, ResponseHeader};
use crate::app::iin::{Iin1, Iin2, Iin};
use crate::app::parse::{
    AllObjectsVariation,
    CountVariation,
    HeaderCollection,
    HeaderDetails,
    ObjectHeader,
    ObjectParseError,
    PrefixedVariation,
    RangedVariation,
    Request,
    Response,
};
use crate::app::sequence::Sequence;
use crate::app::variations::{
    FixedSize,
    Group12Var1,
    Group41Var1,
    Group41Var2,
    Group41Var3,
    Group41Var4,
    Group50Var1,
    Group50Var3,
    Group52Var1,
    Group52Var2,
    Variation,
};
use crate::link::parser::{le16, read_u16_le};
use crate::transport::HeaderParseError;

verus! {

/// True when the library knows objects of this group and variation.
pub open spec fn known_variation(v: Variation) -> bool {
    ||| v.group == 12 && v.var == 1
    ||| v.group == 20 && v.var == 0
    ||| v.group == 41 && 1 <= v.var <= 4
    ||| v.group == 50 && (v.var == 1 || v.var == 3)
    ||| v.group == 52 && (v.var == 1 || v.var == 2)
    ||| v.group == 60 && 1 <= v.var <= 4
    ||| v.group == 80 && v.var == 1
}

/// Number of octets that one object of the variation takes, where all
/// objects of the variation take the same number.
pub open spec fn object_size(v: Variation) -> int {
    if v.group == 12 {
        11
    } else if v.group == 41 {
        if v.var == 1 || v.var == 3 {
            5
        } else if v.var == 2 {
            3
        } else {
            9
        }
    } else if v.group == 50 {
        6
    } else if v.group == 52 {
        2
    } else {
        0
    }
}

/// True for the qualifier codes that the library reads.
pub open spec fn known_qualifier(q: u8) -> bool {
    q == 0x00 || q == 0x01 || q == 0x06 || q == 0x07 || q == 0x08 || q == 0x17 || q == 0x28
}

/// Number of octets of range or count that follow the qualifier.
pub open spec fn field_length(q: u8) -> int {
    if q == 0x00 {
        2
    } else if q == 0x01 {
        4
    } else if q == 0x06 {
        0
    } else if q == 0x07 {
        1
    } else if q == 0x08 {
        2
    } else if q == 0x17 {
        1
    } else {
        2
    }
}

/// Number of octets of index in front of each object.
pub open spec fn prefix_length(q: u8) -> int {
    if q == 0x17 {
        1
    } else if q == 0x28 {
        2
    } else {
        0
    }
}

/// True when objects of the variation can stand under the qualifier.
pub open spec fn qualifier_allowed(v: Variation, q: u8) -> bool {
    if q == 0x06 {
        v.group == 60 || v.group == 20
    } else if q == 0x07 || q == 0x08 {
        v.group == 50 || v.group == 52
    } else if q == 0x00 || q == 0x01 {
        v.group == 80 || v.group == 20
    } else {
        v.group == 12 || v.group == 41
    }
}

/// The start of the range, for a qualifier with a range.
pub open spec fn range_start(data: Seq<u8>, at: int, q: u8) -> int {
    if q == 0x00 {
        data[at] as int
    } else {
        le16(data[at], data[at + 1])
    }
}

/// The stop of the range, for a qualifier with a range.
pub open spec fn range_stop(data: Seq<u8>, at: int, q: u8) -> int {
    if q == 0x00 {
        data[at + 1] as int
    } else {
        le16(data[at + 2], data[at + 3])
    }
}

/// The number of objects that the octets of range or count announce.
pub open spec fn announced_count(data: Seq<u8>, at: int, q: u8) -> int {
    if q == 0x00 || q == 0x01 {
        range_stop(data, at, q) - range_start(data, at, q) + 1
    } else if q == 0x06 {
        0
    } else if q == 0x07 || q == 0x17 {
        data[at] as int
    } else {
        le16(data[at], data[at + 1])
    }
}

/// Number of octets that the objects of a header take.
pub open spec fn objects_length(v: Variation, q: u8, count: int) -> int {
    if q == 0x06 {
        0
    } else if q == 0x00 || q == 0x01 {
        if v.group == 80 {
            (count + 7) / 8
        } else {
            0
        }
    } else {
        count * (object_size(v) + prefix_length(q))
    }
}

/// Where the parts of an object header lie in the octets of a fragment.
pub struct HeaderLayout {
    /// group and variation
    pub variation: Variation,
    /// qualifier code
    pub qualifier: u8,
    /// index of the first object, for a range
    pub first: int,
    /// number of objects
    pub count: int,
    /// position of the first octet of the objects
    pub objects_at: int,
    /// position after the last octet of the header and its objects
    pub end: int,
}

/// The layout of the object header that starts at `pos`, or why there is
/// none. The header names group and variation, then the qualifier, then a
/// range or a count as the qualifier asks; the objects follow.
pub open spec fn spec_parse_header(data: Seq<u8>, pos: int) -> Result<
    HeaderLayout,
    ObjectParseError,
> {
    if data.len() - pos < 2 {
        Err(ObjectParseError::InsufficientBytes)
    } else {
        let variation = Variation { group: data[pos], var: data[pos + 1] };
        if !known_variation(variation) {
            Err(ObjectParseError::UnknownGroupVariation(variation.group, variation.var))
        } else if data.len() - pos < 3 {
            Err(ObjectParseError::InsufficientBytes)
        } else {
            let q = data[pos + 2];
            if q == 0x5B {
                Err(ObjectParseError::UnsupportedQualifierCode(q))
            } else if !known_qualifier(q) {
                Err(ObjectParseError::UnknownQualifier(q))
            } else if data.len() - (pos + 3) < field_length(q) {
                Err(ObjectParseError::InsufficientBytes)
            } else if (q == 0x00 || q == 0x01) && range_start(data, pos + 3, q) > range_stop(
                data,
                pos + 3,
                q,
            ) {
                Err(
                    ObjectParseError::InvalidRange(
                        range_start(data, pos + 3, q) as u16,
                        range_stop(data, pos + 3, q) as u16,
                    ),
                )
            } else if !qualifier_allowed(variation, q) {
                Err(ObjectParseError::InvalidQualifierForVariation(variation, q))
            } else {
                let count = announced_count(data, pos + 3, q);
                let objects_at = pos + 3 + field_length(q);
                let length = objects_length(variation, q, count);
                if data.len() - objects_at < length {
                    Err(ObjectParseError::InsufficientBytes)
                } else {
                    Ok(
                        HeaderLayout {
                            variation,
                            qualifier: q,
                            first: if q == 0x00 || q == 0x01 {
                                range_start(data, pos + 3, q)
                            } else {
                                0
                            },
                            count,
                            objects_at,
                            end: objects_at + length,
                        },
                    )
                }
            }
        }
    }
}

/// The layouts of the object headers from `pos` to the end of the octets,
/// after those in `found`, or the first error among them.
pub open spec fn spec_parse_headers(data: Seq<u8>, pos: int, found: Seq<HeaderLayout>) -> Result<
    Seq<HeaderLayout>,
    ObjectParseError,
>
    decreases data.len() - pos,
{
    if pos >= data.len() || pos < 0 {
        Ok(found)
    } else {
        match spec_parse_header(data, pos) {
            Err(err) => Err(err),
            Ok(layout) => if layout.end >= pos + 3 {
                spec_parse_headers(data, layout.end, found.push(layout))
            } else {
                Err(ObjectParseError::InsufficientBytes)
            },
        }
    }
}

/// True when `items` are the `count` objects that the octets from `at` on
/// encode, one after the other.
pub open spec fn objects_ok<T: FixedSize>(items: Seq<T>, data: Seq<u8>, at: int, count: int) -> bool {
    &&& items.len() == count
    &&& forall|i: int|
        0 <= i < count ==> (#[trigger] items[i]).spec_decodes(
            data.subrange(at + i * T::spec_size(), at + i * T::spec_size() + T::spec_size()),
        )
}

/// The index in front of an object: one octet, or two, lowest first.
pub open spec fn index_at(data: Seq<u8>, at: int, prefix: int) -> int {
    if prefix == 1 {
        data[at] as int
    } else {
        le16(data[at], data[at + 1])
    }
}

/// True when `items` are the `count` objects with their indices that the
/// octets from `at` on encode, each index in front of its object.
pub open spec fn prefixed_ok<T: FixedSize>(
    items: Seq<(T, u16)>,
    data: Seq<u8>,
    at: int,
    count: int,
    prefix: int,
) -> bool {
    &&& items.len() == count
    &&& forall|i: int|
        0 <= i < count ==> {
            let base = at + i * (T::spec_size() + prefix);
            &&& (#[trigger] items[i]).1 == index_at(data, base, prefix)
            &&& items[i].0.spec_decodes(
                data.subrange(base + prefix, base + prefix + T::spec_size()),
            )
        }
}

/// True when `items` are the `count` bits from index `first` on that the
/// octets from `at` on hold, eight to the octet, lowest bit first.
pub open spec fn bits_ok(items: Seq<(bool, u16)>, data: Seq<u8>, at: int, first: int, count: int) -> bool {
    &&& items.len() == count
    &&& forall|i: int|
        0 <= i < count ==> (#[trigger] items[i]) == (
            spec_bit(data[at + i / 8], i % 8),
            (first + i) as u16,
        )
}

/// Bit `k` of an octet.
pub open spec fn spec_bit(byte: u8, k: int) -> bool {
    if k == 0 {
        byte % 2 == 1
    } else if k == 1 {
        (byte / 2) % 2 == 1
    } else if k == 2 {
        (byte / 4) % 2 == 1
    } else if k == 3 {
        (byte / 8) % 2 == 1
    } else if k == 4 {
        (byte / 16) % 2 == 1
    } else if k == 5 {
        (byte / 32) % 2 == 1
    } else if k == 6 {
        (byte / 64) % 2 == 1
    } else {
        (byte / 128) % 2 == 1
    }
}

/// The variation without objects that group and variation name.
pub open spec fn all_objects_of(v: Variation) -> AllObjectsVariation {
    if v.group == 20 {
        AllObjectsVariation::Group20Var0
    } else if v.var == 1 {
        AllObjectsVariation::Group60Var1
    } else if v.var == 2 {
        AllObjectsVariation::Group60Var2
    } else if v.var == 3 {
        AllObjectsVariation::Group60Var3
    } else {
        AllObjectsVariation::Group60Var4
    }
}

/// True when the counted objects are those that the layout announces.
pub open spec fn count_ok(objects: CountVariation, l: HeaderLayout, data: Seq<u8>) -> bool {
    if l.variation.group == 50 && l.variation.var == 1 {
        objects matches CountVariation::Group50Var1(v) && objects_ok(
            v@,
            data,
            l.objects_at,
            l.count,
        )
    } else if l.variation.group == 50 {
        objects matches CountVariation::Group50Var3(v) && objects_ok(
            v@,
            data,
            l.objects_at,
            l.count,
        )
    } else if l.variation.var == 1 {
        objects matches CountVariation::Group52Var1(v) && objects_ok(
            v@,
            data,
            l.objects_at,
            l.count,
        )
    } else {
        objects matches CountVariation::Group52Var2(v) && objects_ok(
            v@,
            data,
            l.objects_at,
            l.count,
        )
    }
}

/// True when the objects of a range are those that the layout announces.
pub open spec fn ranged_ok(objects: RangedVariation, l: HeaderLayout, data: Seq<u8>) -> bool {
    if l.variation.group == 80 {
        objects matches RangedVariation::Group80Var1(v) && bits_ok(
            v@,
            data,
            l.objects_at,
            l.first,
            l.count,
        )
    } else {
        objects is Group20Var0
    }
}

/// True when the objects with indices are those that the layout announces.
pub open spec fn prefixed_objects_ok(objects: PrefixedVariation, l: HeaderLayout, data: Seq<u8>) -> bool {
    let prefix = prefix_length(l.qualifier);
    if l.variation.group == 12 {
        objects matches PrefixedVariation::Group12Var1(v) && prefixed_ok(
            v@,
            data,
            l.objects_at,
            l.count,
            prefix,
        )
    } else if l.variation.var == 1 {
        objects matches PrefixedVariation::Group41Var1(v) && prefixed_ok(
            v@,
            data,
            l.objects_at,
            l.count,
            prefix,
        )
    } else if l.variation.var == 2 {
        objects matches PrefixedVariation::Group41Var2(v) && prefixed_ok(
            v@,
            data,
            l.objects_at,
            l.count,
            prefix,
        )
    } else if l.variation.var == 3 {
        objects matches PrefixedVariation::Group41Var3(v) && prefixed_ok(
            v@,
            data,
            l.objects_at,
            l.count,
            prefix,
        )
    } else {
        objects matches PrefixedVariation::Group41Var4(v) && prefixed_ok(
            v@,
            data,
            l.objects_at,
            l.count,
            prefix,
        )
    }
}

/// True when `header` is the object header that the layout describes: the
/// same variation, the range or count of the layout, and the objects that
/// the octets encode.
pub open spec fn header_ok(header: ObjectHeader, l: HeaderLayout, data: Seq<u8>) -> bool {
    &&& header.variation == l.variation
    &&& if l.qualifier == 0x06 {
        header.details == HeaderDetails::AllObjects(all_objects_of(l.variation))
    } else if l.qualifier == 0x07 {
        header.details matches HeaderDetails::OneByteCount(count, objects) && count == l.count
            && count_ok(objects, l, data)
    } else if l.qualifier == 0x08 {
        header.details matches HeaderDetails::TwoByteCount(count, objects) && count == l.count
            && count_ok(objects, l, data)
    } else if l.qualifier == 0x00 {
        header.details matches HeaderDetails::OneByteStartStop(start, stop, objects) && start
            == l.first && stop == l.first + l.count - 1 && ranged_ok(objects, l, data)
    } else if l.qualifier == 0x01 {
        header.details matches HeaderDetails::TwoByteStartStop(start, stop, objects) && start
            == l.first && stop == l.first + l.count - 1 && ranged_ok(objects, l, data)
    } else if l.qualifier == 0x17 {
        header.details matches HeaderDetails::OneByteCountAndPrefix(count, objects) && count
            == l.count && prefixed_objects_ok(objects, l, data)
    } else {
        header.details matches HeaderDetails::TwoByteCountAndPrefix(count, objects) && count
            == l.count && prefixed_objects_ok(objects, l, data)
    }
}

/// True when `headers` are the object headers that the layouts describe.
pub open spec fn headers_ok(headers: Seq<ObjectHeader>, layouts: Seq<HeaderLayout>, data: Seq<u8>) -> bool {
    &&& headers.len() == layouts.len()
    &&& forall|i: int| 0 <= i < headers.len() ==> header_ok(#[trigger] headers[i], layouts[i], data)
}

/// Reads `count` objects from the octets at `at`, one after the other.
fn read_objects<T: FixedSize>(data: &[u8], at: usize, count: usize) -> (items: Vec<T>)
    requires
        count <= 0xFFFF,
        at + count * T::spec_size() <= data@.len(),
    ensures
        objects_ok(items@, data@, at as int, count as int),
{
    let total: usize = data.len();
    let size: usize = T::size();
    let mut items: Vec<T> = Vec::new();
    let mut offset: usize = at;
    let mut i: usize = 0;
    while i < count
        invariant
            total == data@.len(),
            size == T::spec_size(),
            1 <= size <= 16,
            count <= 0xFFFF,
            at + count * size <= total,
            i <= count,
            offset == at + i * size,
            objects_ok(items@, data@, at as int, i as int),
        decreases count - i,
    {
        proof {
            assert((i + 1) * size == i * size + size) by (nonlinear_arith);
            assert((i + 1) * size <= count * size) by (nonlinear_arith)
                requires
                    i + 1 <= count,
                    size >= 0,
            ;
        }
        let item = T::decode(data, offset);
        let ghost prior = items@;
        items.push(item);
        offset = offset + size;
        i = i + 1;
        proof {
            assert forall|j: int| 0 <= j < i implies (#[trigger] items@[j]).spec_decodes(
                data@.subrange(at + j * T::spec_size(), at + j * T::spec_size() + T::spec_size()),
            ) by {
                if j < i - 1 {
                    assert(items@[j] == prior[j]);
                }
            }
        }
    }
    items
}

/// Reads `count` objects with their indices from the octets at `at`.
fn read_prefixed<T: FixedSize>(data: &[u8], at: usize, count: usize, wide: bool) -> (items: Vec<
    (T, u16),
>)
    requires
        count <= 0xFFFF,
        at + count * (T::spec_size() + if wide {
            2int
        } else {
            1int
        }) <= data@.len(),
    ensures
        prefixed_ok(items@, data@, at as int, count as int, if wide {
            2int
        } else {
            1int
        }),
{
    let total: usize = data.len();
    let size: usize = T::size();
    let prefix: usize = if wide {
        2
    } else {
        1
    };
    let step: usize = size + prefix;
    let mut items: Vec<(T, u16)> = Vec::new();
    let mut offset: usize = at;
    let mut i: usize = 0;
    while i < count
        invariant
            total == data@.len(),
            size == T::spec_size(),
            1 <= size <= 16,
            prefix == if wide {
                2int
            } else {
                1int
            },
            step == size + prefix,
            count <= 0xFFFF,
            at + count * step <= total,
            i <= count,
            offset == at + i * step,
            prefixed_ok(items@, data@, at as int, i as int, prefix as int),
        decreases count - i,
    {
        proof {
            assert((i + 1) * step == i * step + step) by (nonlinear_arith);
            assert((i + 1) * step <= count * step) by (nonlinear_arith)
                requires
                    i + 1 <= count,
                    step >= 0,
            ;
        }
        let index: u16 = if wide {
            read_u16_le(data[offset], data[offset + 1])
        } else {
            data[offset] as u16
        };
        let item = T::decode(data, offset + prefix);
        let ghost prior = items@;
        items.push((item, index));
        proof {
            assert forall|j: int| 0 <= j < i + 1 implies {
                let base = at + j * (T::spec_size() + prefix);
                &&& (#[trigger] items@[j]).1 == index_at(data@, base, prefix as int)
                &&& items@[j].0.spec_decodes(
                    data@.subrange(base + prefix, base + prefix + T::spec_size()),
                )
            } by {
                if j < i {
                    assert(items@[j] == prior[j]);
                }
            }
        }
        offset = offset + step;
        i = i + 1;
    }
    items
}

/// Bit `k` of an octet.
fn bit(byte: u8, k: usize) -> (b: bool)
    requires
        k < 8,
    ensures
        b == spec_bit(byte, k as int),
{
    match k {
        0 => byte % 2 == 1,
        1 => (byte / 2) % 2 == 1,
        2 => (byte / 4) % 2 == 1,
        3 => (byte / 8) % 2 == 1,
        4 => (byte / 16) % 2 == 1,
        5 => (byte / 32) % 2 == 1,
        6 => (byte / 64) % 2 == 1,
        _ => (byte / 128) % 2 == 1,
    }
}

/// Reads `count` bits from index `first` on from the octets at `at`.
fn read_bits(data: &[u8], at: usize, first: usize, count: usize) -> (items: Vec<(bool, u16)>)
    requires
        first + count <= 0x1_0000,
        at + (count + 7) / 8 <= data@.len(),
    ensures
        bits_ok(items@, data@, at as int, first as int, count as int),
{
    let total: usize = data.len();
    let mut items: Vec<(bool, u16)> = Vec::new();
    let mut i: usize = 0;
    while i < count
        invariant
            total == data@.len(),
            first + count <= 0x1_0000,
            at + (count + 7) / 8 <= total,
            i <= count,
            bits_ok(items@, data@, at as int, first as int, i as int),
        decreases count - i,
    {
        let value = bit(data[at + i / 8], i % 8);
        let index: u16 = (first + i) as u16;
        let ghost prior = items@;
        items.push((value, index));
        proof {
            assert forall|j: int| 0 <= j < i + 1 implies (#[trigger] items@[j]) == (
                spec_bit(data@[at + j / 8], j % 8),
                (first + j) as u16,
            ) by {
                if j < i {
                    assert(items@[j] == prior[j]);
                }
            }
        }
        i = i + 1;
    }
    items
}

/// Reads the object header that starts at `pos`, with its objects. Returns
/// the header and the position after it.
pub fn parse_header(data: &[u8], pos: usize) -> (r: Result<(ObjectHeader, usize), ObjectParseError>)
    requires
        pos <= data@.len(),
    ensures
        match spec_parse_header(data@, pos as int) {
            Err(err) => r == Err::<(ObjectHeader, usize), ObjectParseError>(err),
            Ok(layout) => r is Ok && r->Ok_0.1 == layout.end && pos + 3 <= layout.end
                <= data@.len() && header_ok(r->Ok_0.0, layout, data@),
        },
{
    let total: usize = data.len();
    if total - pos < 2 {
        return Err(ObjectParseError::InsufficientBytes);
    }
    let variation = Variation { group: data[pos], var: data[pos + 1] };
    let g: u8 = variation.group;
    let v: u8 = variation.var;
    let known = (g == 12 && v == 1) || (g == 20 && v == 0) || (g == 41 && 1 <= v && v <= 4) || (g
        == 50 && (v == 1 || v == 3)) || (g == 52 && (v == 1 || v == 2)) || (g == 60 && 1 <= v && v
        <= 4) || (g == 80 && v == 1);
    if !known {
        return Err(ObjectParseError::UnknownGroupVariation(g, v));
    }
    if total - pos < 3 {
        return Err(ObjectParseError::InsufficientBytes);
    }
    let q: u8 = data[pos + 2];
    if q == 0x5B {
        return Err(ObjectParseError::UnsupportedQualifierCode(q));
    }
    if !(q == 0x00 || q == 0x01 || q == 0x06 || q == 0x07 || q == 0x08 || q == 0x17 || q == 0x28) {
        return Err(ObjectParseError::UnknownQualifier(q));
    }
    let fields: usize = match q {
        0x00 => 2,
        0x01 => 4,
        0x06 => 0,
        0x07 => 1,
        0x08 => 2,
        0x17 => 1,
        _ => 2,
    };
    let at: usize = pos + 3;
    if total - at < fields {
        return Err(ObjectParseError::InsufficientBytes);
    }
    let mut first: usize = 0;
    let mut count: usize = 0;
    if q == 0x00 || q == 0x01 {
        let start: u16 = if q == 0x00 {
            data[at] as u16
        } else {
            read_u16_le(data[at], data[at + 1])
        };
        let stop: u16 = if q == 0x00 {
            data[at + 1] as u16
        } else {
            read_u16_le(data[at + 2], data[at + 3])
        };
        if start > stop {
            return Err(ObjectParseError::InvalidRange(start, stop));
        }
        first = start as usize;
        count = (stop - start) as usize + 1;
    } else if q == 0x07 || q == 0x17 {
        count = data[at] as usize;
    } else if q == 0x08 || q == 0x28 {
        count = read_u16_le(data[at], data[at + 1]) as usize;
    }
    let allowed = if q == 0x06 {
        g == 60 || g == 20
    } else if q == 0x07 || q == 0x08 {
        g == 50 || g == 52
    } else if q == 0x00 || q == 0x01 {
        g == 80 || g == 20
    } else {
        g == 12 || g == 41
    };
    if !allowed {
        return Err(ObjectParseError::InvalidQualifierForVariation(variation, q));
    }
    let size: usize = if g == 12 {
        11
    } else if g == 41 {
        if v == 1 || v == 3 {
            5
        } else if v == 2 {
            3
        } else {
            9
        }
    } else if g == 50 {
        6
    } else if g == 52 {
        2
    } else {
        0
    };
    let prefix: usize = if q == 0x17 {
        1
    } else if q == 0x28 {
        2
    } else {
        0
    };
    let objects_at: usize = at + fields;
    let length: usize = if q == 0x06 {
        0
    } else if q == 0x00 || q == 0x01 {
        if g == 80 {
            (count + 7) / 8
        } else {
            0
        }
    } else {
        proof {
            assert(count * (size + prefix) <= 0x1_0000 * 13) by (nonlinear_arith)
                requires
                    count <= 0x1_0000,
                    size + prefix <= 13,
            ;
        }
        count * (size + prefix)
    };
    if total - objects_at < length {
        return Err(ObjectParseError::InsufficientBytes);
    }
    let end: usize = objects_at + length;
    let details = if q == 0x06 {
        HeaderDetails::AllObjects(
            if g == 20 {
                AllObjectsVariation::Group20Var0
            } else if v == 1 {
                AllObjectsVariation::Group60Var1
            } else if v == 2 {
                AllObjectsVariation::Group60Var2
            } else if v == 3 {
                AllObjectsVariation::Group60Var3
            } else {
                AllObjectsVariation::Group60Var4
            },
        )
    } else if q == 0x07 || q == 0x08 {
        let objects = if g == 50 && v == 1 {
            CountVariation::Group50Var1(read_objects(data, objects_at, count))
        } else if g == 50 {
            CountVariation::Group50Var3(read_objects(data, objects_at, count))
        } else if v == 1 {
            CountVariation::Group52Var1(read_objects(data, objects_at, count))
        } else {
            CountVariation::Group52Var2(read_objects(data, objects_at, count))
        };
        if q == 0x07 {
            HeaderDetails::OneByteCount(count as u8, objects)
        } else {
            HeaderDetails::TwoByteCount(count as u16, objects)
        }
    } else if q == 0x00 || q == 0x01 {
        let objects = if g == 80 {
            RangedVariation::Group80Var1(read_bits(data, objects_at, first, count))
        } else {
            RangedVariation::Group20Var0
        };
        if q == 0x00 {
            HeaderDetails::OneByteStartStop(first as u8, (first + count - 1) as u8, objects)
        } else {
            HeaderDetails::TwoByteStartStop(first as u16, (first + count - 1) as u16, objects)
        }
    } else {
        let wide = q == 0x28;
        let objects = if g == 12 {
            PrefixedVariation::Group12Var1(read_prefixed(data, objects_at, count, wide))
        } else if v == 1 {
            PrefixedVariation::Group41Var1(read_prefixed(data, objects_at, count, wide))
        } else if v == 2 {
            PrefixedVariation::Group41Var2(read_prefixed(data, objects_at, count, wide))
        } else if v == 3 {
            PrefixedVariation::Group41Var3(read_prefixed(data, objects_at, count, wide))
        } else {
            PrefixedVariation::Group41Var4(read_prefixed(data, objects_at, count, wide))
        };
        if wide {
            HeaderDetails::TwoByteCountAndPrefix(count as u16, objects)
        } else {
            HeaderDetails::OneByteCountAndPrefix(count as u8, objects)
        }
    };
    Ok((ObjectHeader { variation, details }, end))
}

/// Reads the object headers of a fragment from the octets after its
/// header. Either every header can be read, or the first that cannot
/// decides the error.
pub fn parse_headers(data: &[u8]) -> (r: Result<Vec<ObjectHeader>, ObjectParseError>)
    ensures
        match spec_parse_headers(data@, 0, Seq::empty()) {
            Err(err) => r == Err::<Vec<ObjectHeader>, ObjectParseError>(err),
            Ok(layouts) => r is Ok && headers_ok(r->Ok_0@, layouts, data@),
        },
{
    let total: usize = data.len();
    let mut headers: Vec<ObjectHeader> = Vec::new();
    let ghost mut layouts: Seq<HeaderLayout> = Seq::empty();
    let mut pos: usize = 0;
    while pos < total
        invariant
            total == data@.len(),
            pos <= total,
            spec_parse_headers(data@, 0, Seq::empty()) == spec_parse_headers(
                data@,
                pos as int,
                layouts,
            ),
            headers_ok(headers@, layouts, data@),
        decreases total - pos,
    {
        match parse_header(data, pos) {
            Err(err) => {
                return Err(err);
            },
            Ok((header, end)) => {
                proof {
                    let layout = spec_parse_header(data@, pos as int)->Ok_0;
                    layouts = layouts.push(layout);
                }
                let ghost prior = headers@;
                headers.push(header);
                proof {
                    assert forall|i: int| 0 <= i < headers@.len() implies header_ok(
                        #[trigger] headers@[i],
                        layouts[i],
                        data@,
                    ) by {
                        if i < prior.len() {
                            assert(headers@[i] == prior[i]);
                        }
                    }
                }
                pos = end;
            },
        }
    }
    Ok(headers)
}

/// The request that the octets of a fragment encode, given its header.
pub open spec fn spec_request_header(fragment: Seq<u8>) -> Result<RequestHeader, HeaderParseError> {
    if fragment.len() < 2 {
        Err(HeaderParseError::InsufficientBytes)
    } else {
        match FunctionCode::spec_from_u8(fragment[1]) {
            None => Err(
                HeaderParseError::UnknownFunction(
                    Sequence::spec_new(fragment[0]),
                    fragment[1],
                ),
            ),
            Some(function) => Ok(
                RequestHeader { control: spec_control(fragment[0]), function },
            ),
        }
    }
}

/// The control field that an octet carries.
pub open spec fn spec_control(x: u8) -> ControlField {
    ControlField {
        fir: ControlField::spec_from_u8(x).0,
        fin: ControlField::spec_from_u8(x).1,
        con: ControlField::spec_from_u8(x).2,
        uns: ControlField::spec_from_u8(x).3,
        seq: Sequence::spec_new(x),
    }
}

/// A copy of the octets `from..` of `data`.
fn copy_from(data: &[u8], from: usize) -> (v: Vec<u8>)
    requires
        from <= data@.len(),
    ensures
        v@ == data@.subrange(from as int, data@.len() as int),
{
    let total: usize = data.len();
    let mut v: Vec<u8> = Vec::new();
    let mut i: usize = from;
    while i < total
        invariant
            total == data@.len(),
            from <= i <= total,
            v@ == data@.subrange(from as int, i as int),
        decreases total - i,
    {
        v.push(data[i]);
        i = i + 1;
        proof {
            assert(v@ =~= data@.subrange(from as int, i as int));
        }
    }
    v
}

/// True when `objects` is what reading the object headers in `data`
/// gives: the headers that the octets encode, with the octets, or the
/// first error among them.
pub open spec fn objects_parsed(
    objects: Result<HeaderCollection, ObjectParseError>,
    data: Seq<u8>,
) -> bool {
    match spec_parse_headers(data, 0, Seq::empty()) {
        Err(err) => objects == Err::<HeaderCollection, ObjectParseError>(err),
        Ok(layouts) => objects is Ok && objects->Ok_0.data@ == data && headers_ok(
            objects->Ok_0.headers@,
            layouts,
            data,
        ),
    }
}

/// Reads the object headers of a fragment into a collection.
fn parse_collection(fragment: &[u8], from: usize) -> (r: Result<HeaderCollection, ObjectParseError>)
    requires
        from <= fragment@.len(),
    ensures
        ({
            let data = fragment@.subrange(from as int, fragment@.len() as int);
            match spec_parse_headers(data, 0, Seq::empty()) {
                Err(err) => r == Err::<HeaderCollection, ObjectParseError>(err),
                Ok(layouts) => r is Ok && r->Ok_0.data@ == data && headers_ok(
                    r->Ok_0.headers@,
                    layouts,
                    data,
                ),
            }
        }),
{
    let data = copy_from(fragment, from);
    match parse_headers(data.as_slice()) {
        Ok(headers) => Ok(HeaderCollection { data, headers }),
        Err(err) => Err(err),
    }
}

/// Reads a request fragment: control octet, function code and object
/// headers. A fragment shorter than its header, or with a function code
/// that names no function, cannot be read. Object headers that cannot be
/// read are reported inside the request.
pub fn parse_request(fragment: &[u8]) -> (r: Result<Request, HeaderParseError>)
    ensures
        match spec_request_header(fragment@) {
            Err(err) => r == Err::<Request, HeaderParseError>(err),
            Ok(header) => {
                let data = fragment@.subrange(2, fragment@.len() as int);
                &&& r is Ok
                &&& r->Ok_0.header == header
                &&& r->Ok_0.raw_fragment@ == fragment@
                &&& objects_parsed(r->Ok_0.objects, data)
            },
        },
{
    if fragment.len() < 2 {
        return Err(HeaderParseError::InsufficientBytes);
    }
    let control = ControlField::from(fragment[0]);
    let function = match FunctionCode::from(fragment[1]) {
        Some(function) => function,
        None => {
            return Err(HeaderParseError::UnknownFunction(control.seq, fragment[1]));
        },
    };
    let raw_fragment = copy_from(fragment, 0);
    proof {
        assert(raw_fragment@ =~= fragment@);
    }
    let objects = parse_collection(fragment, 2);
    Ok(Request { header: RequestHeader::new(control, function), raw_fragment, objects })
}

/// The header of the response that the octets of a fragment encode.
pub open spec fn spec_response_header(fragment: Seq<u8>) -> Result<
    ResponseHeader,
    HeaderParseError,
> {
    if fragment.len() < 4 {
        Err(HeaderParseError::InsufficientBytes)
    } else if fragment[1] == 129 {
        Ok(
            ResponseHeader {
                control: spec_control(fragment[0]),
                function: ResponseFunction::Response,
                iin: Iin { iin1: Iin1 { value: fragment[2] }, iin2: Iin2 { value: fragment[3] } },
            },
        )
    } else if fragment[1] == 130 {
        Ok(
            ResponseHeader {
                control: spec_control(fragment[0]),
                function: ResponseFunction::UnsolicitedResponse,
                iin: Iin { iin1: Iin1 { value: fragment[2] }, iin2: Iin2 { value: fragment[3] } },
            },
        )
    } else {
        Err(HeaderParseError::UnknownFunction(Sequence::spec_new(fragment[0]), fragment[1]))
    }
}

/// Reads a response fragment: control octet, function code, internal
/// indications and object headers. A fragment shorter than its header, or
/// with a function code that is not that of a response, cannot be read.
pub fn parse_response(fragment: &[u8]) -> (r: Result<Response, HeaderParseError>)
    ensures
        match spec_response_header(fragment@) {
            Err(err) => r == Err::<Response, HeaderParseError>(err),
            Ok(header) => {
                let data = fragment@.subrange(4, fragment@.len() as int);
                &&& r is Ok
                &&& r->Ok_0.header == header
                &&& r->Ok_0.raw_fragment@ == fragment@
                &&& objects_parsed(r->Ok_0.objects, data)
            },
        },
{
    if fragment.len() < 4 {
        return Err(HeaderParseError::InsufficientBytes);
    }
    let control = ControlField::from(fragment[0]);
    let function = match fragment[1] {
        129 => ResponseFunction::Response,
        130 => ResponseFunction::UnsolicitedResponse,
        _ => {
            return Err(HeaderParseError::UnknownFunction(control.seq, fragment[1]));
        },
    };
    let iin = Iin::new(Iin1::new(fragment[2]), Iin2::new(fragment[3]));
    let raw_fragment = copy_from(fragment, 0);
    proof {
        assert(raw_fragment@ =~= fragment@);
    }
    let objects = parse_collection(fragment, 4);
    Ok(Response { header: ResponseHeader::new(control, function, iin), raw_fragment, objects })
}

} // verus!
