use vstd::prelude::*;
use crate::link::crc::{crc, lemma_crc_of_equal_ranges, spec_crc};
use crate::link::header::{ControlField, Header};
use crate::link::parser::{
    MAX_APP_BYTES_PER_FRAME,
    ParseState,
    Parsed,
    block_crc_ok,
    block_size,
    blocks_data,
    blocks_ok,
    body_length,
    header_at,
    header_crc_ok,
    le16,
    num_blocks,
    spec_parse,
};

verus! {

/// The two octets that carry a checksum or an address, lowest first.
pub open spec fn spec_le_octets(v: u16) -> Seq<u8> {
    seq![(v % 256) as u8, (v / 256) as u8]
}

/// The first eight octets of a frame with `len` octets of user data: sync
/// octets, length, control, destination and source.
pub open spec fn spec_header_octets(header: Header, len: int) -> Seq<u8> {
    seq![0x05u8, 0x64u8, (len + 5) as u8, header.control.spec_to_u8()] + spec_le_octets(
        header.destination,
    ) + spec_le_octets(header.source)
}

/// The first `k` blocks of the body of a frame: each block holds up to 16
/// octets of user data and their checksum.
pub open spec fn spec_blocks(payload: Seq<u8>, k: int) -> Seq<u8>
    decreases k,
{
    if k <= 0 {
        Seq::empty()
    } else {
        let start = 16 * (k - 1);
        let stop = start + block_size(payload.len() as int, k - 1);
        spec_blocks(payload, k - 1) + payload.subrange(start, stop) + spec_le_octets(
            spec_crc(payload, start, stop),
        )
    }
}

/// The octets of the frame with the given header and user data.
pub open spec fn spec_frame(header: Header, payload: Seq<u8>) -> Seq<u8> {
    let head = spec_header_octets(header, payload.len() as int);
    head + spec_le_octets(spec_crc(head, 0, 8)) + spec_blocks(
        payload,
        num_blocks(payload.len() as int),
    )
}

/// The user data is longer than a frame can hold.
#[derive(Copy, Clone, Debug, PartialEq, Eq, Structural)]
pub struct PayloadTooLong {
    /// number of octets that were to be framed
    pub length: usize,
}

/// Appends two octets that carry `v`, lowest first.
fn push_le(out: &mut Vec<u8>, v: u16)
    ensures
        final(out)@ == old(out)@ + spec_le_octets(v),
{
    out.push((v % 256) as u8);
    out.push((v / 256) as u8);
    proof {
        assert(out@ =~= old(out)@ + spec_le_octets(v));
    }
}

/// Composes the frame with the given header and user data: the header
/// with its checksum, then the user data in blocks of up to 16 octets, each
/// with its checksum. A frame holds 250 octets of user data at most.
pub fn format_frame(header: Header, payload: &[u8]) -> (r: Result<Vec<u8>, PayloadTooLong>)
    ensures
        payload@.len() > MAX_APP_BYTES_PER_FRAME ==> r == Err::<Vec<u8>, PayloadTooLong>(
            PayloadTooLong { length: payload@.len() as usize },
        ),
        payload@.len() <= MAX_APP_BYTES_PER_FRAME ==> r is Ok && r->Ok_0@ == spec_frame(
            header,
            payload@,
        ),
{
    let len: usize = payload.len();
    if len > MAX_APP_BYTES_PER_FRAME {
        return Err(PayloadTooLong { length: len });
    }
    let mut out: Vec<u8> = Vec::new();
    out.push(0x05);
    out.push(0x64);
    out.push((len + 5) as u8);
    out.push(header.control.to_u8());
    push_le(&mut out, header.destination);
    push_le(&mut out, header.source);
    proof {
        assert(out@ =~= spec_header_octets(header, len as int));
    }
    let c = crc(out.as_slice(), 0, 8);
    push_le(&mut out, c);
    let ghost head = out@;
    let blocks: usize = (len + 15) / 16;
    let mut k: usize = 0;
    while k < blocks
        invariant
            len == payload@.len(),
            len <= MAX_APP_BYTES_PER_FRAME,
            blocks == num_blocks(len as int),
            k <= blocks,
            out@ == head + spec_blocks(payload@, k as int),
        decreases blocks - k,
    {
        proof {
            assert(16 * k < len);
        }
        let start: usize = 16 * k;
        let size: usize = if len - start >= 16 {
            16
        } else {
            len - start
        };
        let mut j: usize = 0;
        let ghost before = out@;
        while j < size
            invariant
                start + size <= len,
                len == payload@.len(),
                j <= size,
                out@ == before + payload@.subrange(start as int, start + j),
            decreases size - j,
        {
            out.push(payload[start + j]);
            j = j + 1;
            proof {
                assert(out@ =~= before + payload@.subrange(start as int, start + j));
            }
        }
        let c = crc(payload, start, start + size);
        push_le(&mut out, c);
        k = k + 1;
        proof {
            assert(out@ =~= head + spec_blocks(payload@, k as int));
        }
    }
    Ok(out)
}

/// Number of octets of user data in the first `k` blocks.
pub open spec fn data_in_blocks(len: int, k: int) -> int {
    if 16 * k <= len {
        16 * k
    } else {
        len
    }
}

/// The first `k` blocks take their user data and two octets each.
pub proof fn lemma_blocks_len(payload: Seq<u8>, k: int)
    requires
        0 <= k <= num_blocks(payload.len() as int),
    ensures
        spec_blocks(payload, k).len() == data_in_blocks(payload.len() as int, k) + 2 * k,
    decreases k,
{
    if k > 0 {
        lemma_blocks_len(payload, k - 1);
    }
}

/// The first blocks of a body are the start of the body with more blocks.
pub proof fn lemma_blocks_prefix(payload: Seq<u8>, k: int, m: int)
    requires
        0 <= k <= m <= num_blocks(payload.len() as int),
    ensures
        spec_blocks(payload, k).len() <= spec_blocks(payload, m).len(),
        spec_blocks(payload, m).subrange(0, spec_blocks(payload, k).len() as int) == spec_blocks(
            payload,
            k,
        ),
    decreases m - k,
{
    if m > k {
        lemma_blocks_prefix(payload, k, m - 1);
        let a = spec_blocks(payload, k);
        let b = spec_blocks(payload, m - 1);
        let c = spec_blocks(payload, m);
        assert(c.subrange(0, b.len() as int) =~= b);
        assert(c.subrange(0, a.len() as int) =~= b.subrange(0, a.len() as int));
    } else {
        assert(spec_blocks(payload, m).subrange(0, spec_blocks(payload, k).len() as int)
            =~= spec_blocks(payload, k));
    }
}

/// Where block `j` lies in a frame: its user data from octet `10 + 18 j`
/// on, its checksum behind.
pub proof fn lemma_block_in_frame(header: Header, payload: Seq<u8>, j: int)
    requires
        payload.len() <= MAX_APP_BYTES_PER_FRAME,
        0 <= j < num_blocks(payload.len() as int),
    ensures
        ({
            let frame = spec_frame(header, payload);
            let size = block_size(payload.len() as int, j);
            let at = 10 + 18 * j;
            &&& frame.len() == 10 + body_length(payload.len() as int)
            &&& 0 < size <= 16
            &&& at + size + 2 <= frame.len()
            &&& frame.subrange(at, at + size) == payload.subrange(16 * j, 16 * j + size)
            &&& le16(frame[at + size], frame[at + size + 1]) == spec_crc(
                payload,
                16 * j,
                16 * j + size,
            )
        }),
{
    let n = payload.len() as int;
    let nb = num_blocks(n);
    let frame = spec_frame(header, payload);
    let size = block_size(n, j);
    let body = spec_blocks(payload, nb);
    let before = spec_blocks(payload, j);
    let with = spec_blocks(payload, j + 1);
    lemma_blocks_len(payload, nb);
    lemma_blocks_len(payload, j);
    lemma_blocks_len(payload, j + 1);
    lemma_blocks_prefix(payload, j + 1, nb);
    let data = payload.subrange(16 * j, 16 * j + size);
    let check = spec_le_octets(spec_crc(payload, 16 * j, 16 * j + size));
    assert(with == before + data + check);
    assert(before.len() == 18 * j);
    assert(with =~= body.subrange(0, with.len() as int));
    assert forall|i: int| 0 <= i < size implies frame[10 + 18 * j + i] == data[i] by {
        assert(frame[10 + 18 * j + i] == body[18 * j + i]);
        assert(body[18 * j + i] == with[18 * j + i]);
    }
    assert(frame.subrange(10 + 18 * j, 10 + 18 * j + size) =~= data);
    assert(frame[10 + 18 * j + size] == with[18 * j + size]);
    assert(frame[10 + 18 * j + size + 1] == with[18 * j + size + 1]);
    assert(with[18 * j + size] == check[0]);
    assert(with[18 * j + size + 1] == check[1]);
}

/// In a frame as composed, the first `k` blocks carry matching checksums
/// and hold the user data from its start.
pub proof fn lemma_blocks_round_trip(header: Header, payload: Seq<u8>, k: int)
    requires
        payload.len() <= MAX_APP_BYTES_PER_FRAME,
        0 <= k <= num_blocks(payload.len() as int),
    ensures
        blocks_ok(spec_frame(header, payload), 10, payload.len() as int, k),
        blocks_data(spec_frame(header, payload), 10, payload.len() as int, k) == payload.subrange(
            0,
            data_in_blocks(payload.len() as int, k),
        ),
    decreases k,
{
    let n = payload.len() as int;
    let frame = spec_frame(header, payload);
    if k > 0 {
        lemma_blocks_round_trip(header, payload, k - 1);
        lemma_block_in_frame(header, payload, k - 1);
        let size = block_size(n, k - 1);
        let at = 10 + 18 * (k - 1);
        lemma_crc_of_equal_ranges(frame, at, payload, 16 * (k - 1), size);
        assert(block_crc_ok(frame, 10, n, k - 1));
        assert(blocks_data(frame, 10, n, k) =~= payload.subrange(0, data_in_blocks(n, k)));
    } else {
        assert(blocks_data(frame, 10, n, 0) =~= payload.subrange(0, 0));
    }
}

/// A frame as composed is read back as it was written: the parser finds
/// the header and the user data that went into it, and consumes the frame
/// to its last octet. This holds for a header whose control octet reads
/// back as the control field, as it does for every function the library
/// knows.
pub proof fn lemma_frame_round_trip(header: Header, payload: Seq<u8>)
    requires
        payload.len() <= MAX_APP_BYTES_PER_FRAME,
        ControlField::spec_from(header.control.spec_to_u8()) == header.control,
    ensures
        spec_parse(ParseState::FindSync1, spec_frame(header, payload), 0) == (Parsed {
            state: ParseState::FindSync1,
            pos: spec_frame(header, payload).len() as int,
            outcome: Ok(Some((header, payload))),
        }),
{
    let n = payload.len() as int;
    let nb = num_blocks(n);
    let frame = spec_frame(header, payload);
    let head = spec_header_octets(header, n);
    lemma_blocks_len(payload, nb);
    assert(head.len() == 8);
    assert(frame.len() == 10 + body_length(n));
    assert(frame[0] == 0x05 && frame[1] == 0x64);
    assert(frame[2] == (n + 5) as u8);
    assert(seq![0x05u8, 0x64u8] + frame.subrange(2, 8) =~= head);
    let c = spec_crc(head, 0, 8);
    assert(frame[8] == (c % 256) as u8 && frame[9] == (c / 256) as u8);
    assert(header_crc_ok(frame, 2));
    assert(frame[3] == header.control.spec_to_u8());
    assert(frame[4] == (header.destination % 256) as u8);
    assert(frame[5] == (header.destination / 256) as u8);
    assert(frame[6] == (header.source % 256) as u8);
    assert(frame[7] == (header.source / 256) as u8);
    assert(header_at(frame, 2) == header);
    lemma_blocks_round_trip(header, payload, nb);
    assert(payload.subrange(0, data_in_blocks(n, nb)) =~= payload);
    let body = spec_parse(ParseState::ReadBody(header, n as usize), frame, 10);
    assert(body == (Parsed {
        state: ParseState::FindSync1,
        pos: frame.len() as int,
        outcome: Ok(Some((header, payload))),
    }));
    assert(spec_parse(ParseState::ReadHeader, frame, 2) == body);
    assert(spec_parse(ParseState::FindSync2, frame, 1) == body);
}

} // verus!
