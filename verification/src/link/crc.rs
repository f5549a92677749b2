use vstd::prelude::*;

verus! {

/// One step of the checksum register: a shift to the right, with the
/// generator folded in when a one falls out.
pub open spec fn spec_shift(crc: u16) -> u16 {
    if crc & 1 == 1 {
        (crc >> 1) ^ 0xA6BC
    } else {
        crc >> 1
    }
}

/// The checksum register after one more octet.
pub open spec fn spec_update(crc: u16, byte: u8) -> u16 {
    let c0 = crc ^ (byte as u16);
    let c1 = spec_shift(c0);
    let c2 = spec_shift(c1);
    let c3 = spec_shift(c2);
    let c4 = spec_shift(c3);
    let c5 = spec_shift(c4);
    let c6 = spec_shift(c5);
    let c7 = spec_shift(c6);
    spec_shift(c7)
}

/// The checksum register after the octets `from..to` of `data`, starting
/// from zero.
pub open spec fn spec_register(data: Seq<u8>, from: int, to: int) -> u16
    decreases to - from,
{
    if to <= from {
        0
    } else {
        spec_update(spec_register(data, from, to - 1), data[to - 1])
    }
}

/// The 16-bit checksum of the link layer over the octets `from..to` of
/// `data`: generator x^16 + x^13 + x^12 + x^11 + x^10 + x^8 + x^6 + x^5 +
/// x^2 + 1, bits taken lowest first, the result inverted.
pub open spec fn spec_crc(data: Seq<u8>, from: int, to: int) -> u16 {
    !spec_register(data, from, to)
}

/// One step of the checksum register.
fn shift(crc: u16) -> (r: u16)
    ensures
        r == spec_shift(crc),
{
    if crc & 1 == 1 {
        (crc >> 1) ^ 0xA6BC
    } else {
        crc >> 1
    }
}

/// The checksum register after one more octet.
fn update(crc: u16, byte: u8) -> (r: u16)
    ensures
        r == spec_update(crc, byte),
{
    let mut c: u16 = crc ^ (byte as u16);
    c = shift(c);
    c = shift(c);
    c = shift(c);
    c = shift(c);
    c = shift(c);
    c = shift(c);
    c = shift(c);
    c = shift(c);
    c
}

/// Computes the checksum of the link layer over the octets `from..to` of
/// `data`.
pub fn crc(data: &[u8], from: usize, to: usize) -> (r: u16)
    requires
        from <= to <= data@.len(),
    ensures
        r == spec_crc(data@, from as int, to as int),
{
    let mut register: u16 = 0;
    let mut i: usize = from;
    while i < to
        invariant
            from <= i <= to,
            to <= data@.len(),
            register == spec_register(data@, from as int, i as int),
        decreases to - i,
    {
        register = update(register, data[i]);
        i = i + 1;
    }
    !register
}

/// The checksum depends only on the octets it covers.
pub proof fn lemma_crc_of_equal_ranges(a: Seq<u8>, a_from: int, b: Seq<u8>, b_from: int, len: int)
    requires
        0 <= a_from,
        0 <= b_from,
        0 <= len,
        a_from + len <= a.len(),
        b_from + len <= b.len(),
        a.subrange(a_from, a_from + len) == b.subrange(b_from, b_from + len),
    ensures
        spec_register(a, a_from, a_from + len) == spec_register(b, b_from, b_from + len),
        spec_crc(a, a_from, a_from + len) == spec_crc(b, b_from, b_from + len),
    decreases len,
{
    if len > 0 {
        let sa = a.subrange(a_from, a_from + len);
        let sb = b.subrange(b_from, b_from + len);
        assert(a.subrange(a_from, a_from + len - 1) =~= sa.subrange(0, len - 1));
        assert(b.subrange(b_from, b_from + len - 1) =~= sb.subrange(0, len - 1));
        lemma_crc_of_equal_ranges(a, a_from, b, b_from, len - 1);
        assert(a[a_from + len - 1] == sa[len - 1]);
        assert(b[b_from + len - 1] == sb[len - 1]);
    }
}

} // verus!
