use vstd::prelude::*;
use crate::link::crc::{crc, spec_crc};
use crate::link::header::{ControlField, Header};

verus! {

/// Largest number of octets in a link frame: a header of 10 octets and 250
/// octets of user data in blocks of 16, each block with its checksum.
pub const MAX_LINK_FRAME_LENGTH: usize = 292;

/// Largest number of octets of user data in a link frame.
pub const MAX_APP_BYTES_PER_FRAME: usize = 250;

/// Why a run of octets is no link frame.
#[derive(Copy, Clone, Debug, PartialEq, Eq, Structural)]
pub enum ParseError {
    /// the length octet is below 5, the length of control and addresses
    BadLength(u8),
    /// the checksum of the header does not match
    BadHeaderCrc,
    /// the checksum of a block of user data does not match
    BadBodyCrc,
}

/// Where the parser stands in a frame.
#[derive(Copy, Clone, Debug, PartialEq, Eq, Structural)]
pub enum ParseState {
    /// looking for the first sync octet, 0x05
    FindSync1,
    /// the first sync octet was found; looking for the second, 0x64
    FindSync2,
    /// both sync octets were found; the rest of the header follows
    ReadHeader,
    /// the header was read; so many octets of user data follow, in blocks
    ReadBody(Header, usize),
}

/// The user data of one frame: 250 octets at most.
#[derive(Debug)]
pub struct FramePayload {
    data: Vec<u8>,
}

impl View for FramePayload {
    type V = Seq<u8>;

    closed spec fn view(&self) -> Seq<u8> {
        self.data@
    }
}

impl FramePayload {
    /// An empty payload.
    pub fn new() -> (p: FramePayload)
        ensures
            p@.len() == 0,
    {
        FramePayload { data: Vec::new() }
    }

    /// The octets of the payload.
    pub fn get(&self) -> (d: &[u8])
        ensures
            d@ == self@,
    {
        self.data.as_slice()
    }

    /// Empties the payload.
    pub fn clear(&mut self)
        ensures
            final(self)@.len() == 0,
    {
        self.data.clear();
    }

    /// Appends the octets `from..to` of `input`.
    fn push_range(&mut self, input: &[u8], from: usize, to: usize)
        requires
            from <= to <= input@.len(),
        ensures
            final(self)@ == old(self)@ + input@.subrange(from as int, to as int),
    {
        let mut i: usize = from;
        while i < to
            invariant
                from <= i <= to,
                to <= input@.len(),
                self@ == old(self)@ + input@.subrange(from as int, i as int),
            decreases to - i,
        {
            self.data.push(input[i]);
            i = i + 1;
            proof {
                assert(self@ =~= old(self)@ + input@.subrange(from as int, i as int));
            }
        }
    }
}

/// The number that two octets encode, lowest first.
pub open spec fn le16(low: u8, high: u8) -> int {
    low + 256 * high
}

/// Number of blocks that `len` octets of user data take.
pub open spec fn num_blocks(len: int) -> int {
    (len + 15) / 16
}

/// Number of octets in a frame after the header for `len` octets of user
/// data: the data and two octets of checksum for each block.
pub open spec fn body_length(len: int) -> int {
    len + 2 * num_blocks(len)
}

/// Number of octets of user data in block `k` of `len` octets of user data.
pub open spec fn block_size(len: int, k: int) -> int {
    if len - 16 * k >= 16 {
        16
    } else {
        len - 16 * k
    }
}

/// True when the header that starts at `at`, after the sync octets, has
/// the checksum it carries. The checksum covers the sync octets too.
pub open spec fn header_crc_ok(input: Seq<u8>, at: int) -> bool {
    spec_crc(seq![0x05u8, 0x64u8] + input.subrange(at, at + 6), 0, 8) == le16(
        input[at + 6],
        input[at + 7],
    )
}

/// The header that starts at `at`, after the sync octets and the length.
pub open spec fn header_at(input: Seq<u8>, at: int) -> Header {
    Header {
        control: ControlField::spec_from(input[at + 1]),
        destination: le16(input[at + 2], input[at + 3]) as u16,
        source: le16(input[at + 4], input[at + 5]) as u16,
    }
}

/// True when block `k` of a body that starts at `at` has the checksum it
/// carries.
pub open spec fn block_crc_ok(input: Seq<u8>, at: int, len: int, k: int) -> bool {
    let start = at + 18 * k;
    let size = block_size(len, k);
    spec_crc(input, start, start + size) == le16(input[start + size], input[start + size + 1])
}

/// True when the first `k` blocks of a body that starts at `at` have the
/// checksums they carry.
pub open spec fn blocks_ok(input: Seq<u8>, at: int, len: int, k: int) -> bool
    decreases k,
{
    if k <= 0 {
        true
    } else {
        blocks_ok(input, at, len, k - 1) && block_crc_ok(input, at, len, k - 1)
    }
}

/// The user data in the first `k` blocks of a body that starts at `at`.
pub open spec fn blocks_data(input: Seq<u8>, at: int, len: int, k: int) -> Seq<u8>
    decreases k,
{
    if k <= 0 {
        Seq::empty()
    } else {
        let start = at + 18 * (k - 1);
        blocks_data(input, at, len, k - 1) + input.subrange(
            start,
            start + block_size(len, k - 1),
        )
    }
}

/// What parsing brings: the state to go on from, the position reached,
/// and a frame, an error, or neither when more octets are needed.
pub struct Parsed {
    /// state of the parser afterwards
    pub state: ParseState,
    /// position after the last octet consumed
    pub pos: int,
    /// the frame found, the error met, or neither
    pub outcome: Result<Option<(Header, Seq<u8>)>, ParseError>,
}

/// Parsing `input` from `pos` on in the given state. Octets are skipped
/// until the sync octets 0x05 0x64 are found. The header follows: length,
/// control, destination, source and a checksum. Then the user data follows
/// in blocks of up to 16 octets, each with a checksum. Parsing stops with
/// a frame when one is complete, with an error at a checksum that does not
/// match or a length below 5, and without either when the input ends
/// first. After a frame and after an error, the search for sync octets
/// starts again.
pub open spec fn spec_parse(state: ParseState, input: Seq<u8>, pos: int) -> Parsed
    decreases input.len() - pos,
{
    if pos < 0 {
        Parsed { state, pos, outcome: Ok(None) }
    } else {
        match state {
            ParseState::FindSync1 => if pos >= input.len() {
                Parsed { state, pos, outcome: Ok(None) }
            } else if input[pos] == 0x05 {
                spec_parse(ParseState::FindSync2, input, pos + 1)
            } else {
                spec_parse(ParseState::FindSync1, input, pos + 1)
            },
            ParseState::FindSync2 => if pos >= input.len() {
                Parsed { state, pos, outcome: Ok(None) }
            } else if input[pos] == 0x64 {
                spec_parse(ParseState::ReadHeader, input, pos + 1)
            } else if input[pos] == 0x05 {
                spec_parse(ParseState::FindSync2, input, pos + 1)
            } else {
                spec_parse(ParseState::FindSync1, input, pos + 1)
            },
            ParseState::ReadHeader => if input.len() - pos < 8 {
                Parsed { state, pos, outcome: Ok(None) }
            } else if !header_crc_ok(input, pos) {
                Parsed {
                    state: ParseState::FindSync1,
                    pos: pos + 8,
                    outcome: Err(ParseError::BadHeaderCrc),
                }
            } else if input[pos] < 5 {
                Parsed {
                    state: ParseState::FindSync1,
                    pos: pos + 8,
                    outcome: Err(ParseError::BadLength(input[pos])),
                }
            } else {
                spec_parse(
                    ParseState::ReadBody(header_at(input, pos), (input[pos] - 5) as usize),
                    input,
                    pos + 8,
                )
            },
            ParseState::ReadBody(header, len) => if len > MAX_APP_BYTES_PER_FRAME {
                Parsed {
                    state: ParseState::FindSync1,
                    pos,
                    outcome: Err(ParseError::BadLength(255)),
                }
            } else if input.len() - pos < body_length(len as int) {
                Parsed { state, pos, outcome: Ok(None) }
            } else if !blocks_ok(input, pos, len as int, num_blocks(len as int)) {
                Parsed {
                    state: ParseState::FindSync1,
                    pos: pos + body_length(len as int),
                    outcome: Err(ParseError::BadBodyCrc),
                }
            } else {
                Parsed {
                    state: ParseState::FindSync1,
                    pos: pos + body_length(len as int),
                    outcome: Ok(
                        Some((header, blocks_data(input, pos, len as int, num_blocks(len as int)))),
                    ),
                }
            },
        }
    }
}

/// Finds link frames in a stream of octets.
pub struct Parser {
    state: ParseState,
}

impl View for Parser {
    type V = ParseState;

    closed spec fn view(&self) -> ParseState {
        self.state
    }
}

/// What a call of the parser returns.
#[derive(Copy, Clone, Debug, PartialEq, Eq)]
pub struct ParseStep {
    /// the header of the frame found, the error met, or neither
    pub outcome: Result<Option<Header>, ParseError>,
    /// number of octets of the input that were consumed
    pub consumed: usize,
}

/// The number that two octets encode, lowest first.
pub fn read_u16_le(low: u8, high: u8) -> (v: u16)
    ensures
        v == le16(low, high),
{
    let l: u16 = low as u16;
    let h: u16 = high as u16;
    l + 256 * h
}

impl Parser {
    /// A parser that looks for the start of a frame.
    pub fn new() -> (p: Parser)
        ensures
            p@ == ParseState::FindSync1,
    {
        Parser { state: ParseState::FindSync1 }
    }

    /// Returns to looking for the start of a frame.
    pub fn reset(&mut self)
        ensures
            final(self)@ == ParseState::FindSync1,
    {
        self.state = ParseState::FindSync1;
    }

    /// Tests the checksum of the header that starts at `at`, after the
    /// sync octets.
    fn check_header_crc(input: &[u8], at: usize) -> (ok: bool)
        requires
            at + 8 <= input@.len(),
        ensures
            ok == header_crc_ok(input@, at as int),
    {
        let mut covered: Vec<u8> = Vec::new();
        covered.push(0x05);
        covered.push(0x64);
        covered.push(input[at]);
        covered.push(input[at + 1]);
        covered.push(input[at + 2]);
        covered.push(input[at + 3]);
        covered.push(input[at + 4]);
        covered.push(input[at + 5]);
        proof {
            assert(covered@ =~= seq![0x05u8, 0x64u8] + input@.subrange(at as int, at + 6));
        }
        let computed = crc(covered.as_slice(), 0, 8);
        computed == read_u16_le(input[at + 6], input[at + 7])
    }

    /// Tests the checksums of the body that starts at `at` and gathers its
    /// user data in `payload`.
    fn read_body(input: &[u8], at: usize, len: usize, payload: &mut FramePayload) -> (ok: bool)
        requires
            len <= MAX_APP_BYTES_PER_FRAME,
            at + body_length(len as int) <= input@.len(),
        ensures
            ok == blocks_ok(input@, at as int, len as int, num_blocks(len as int)),
            ok ==> final(payload)@ == blocks_data(
                input@,
                at as int,
                len as int,
                num_blocks(len as int),
            ),
    {
        payload.clear();
        let total: usize = input.len();
        let blocks: usize = (len + 15) / 16;
        let mut k: usize = 0;
        let mut ok = true;
        proof {
            assert(payload@ =~= blocks_data(input@, at as int, len as int, 0));
        }
        while k < blocks
            invariant
                len <= MAX_APP_BYTES_PER_FRAME,
                blocks == num_blocks(len as int),
                total == input@.len(),
                at + body_length(len as int) <= total,
                k <= blocks,
                ok == blocks_ok(input@, at as int, len as int, k as int),
                ok ==> payload@ == blocks_data(input@, at as int, len as int, k as int),
            decreases blocks - k,
        {
            proof {
                assert(16 * k < len);
                assert(18 * k + block_size(len as int, k as int) + 2 <= body_length(len as int));
            }
            let start: usize = at + 18 * k;
            let size: usize = if len - 16 * k >= 16 {
                16
            } else {
                len - 16 * k
            };
            let computed = crc(input, start, start + size);
            let carried = read_u16_le(input[start + size], input[start + size + 1]);
            if computed != carried {
                ok = false;
            }
            if ok {
                payload.push_range(input, start, start + size);
            }
            k = k + 1;
        }
        ok
    }

    /// Parses the octets of `input` as far as they go, from the state that
    /// earlier calls have left. Returns the header of a frame when one is
    /// complete, with its user data in `payload`; an error for a frame that
    /// is damaged; neither when more octets are needed. The octets counted
    /// as consumed are done with; the others are to be offered again, with
    /// more behind them.
    pub fn parse(&mut self, input: &[u8], payload: &mut FramePayload) -> (step: ParseStep)
        ensures
            ({
                let parsed = spec_parse(old(self)@, input@, 0);
                &&& final(self)@ == parsed.state
                &&& step.consumed == parsed.pos
                &&& step.consumed <= input@.len()
                &&& match parsed.outcome {
                    Ok(Some((header, data))) => step.outcome == Ok::<Option<Header>, ParseError>(
                        Some(header),
                    ) && final(payload)@ == data,
                    Ok(None) => step.outcome == Ok::<Option<Header>, ParseError>(None),
                    Err(err) => step.outcome == Err::<Option<Header>, ParseError>(err),
                }
            }),
    {
        let n: usize = input.len();
        let mut pos: usize = 0;
        loop
            invariant
                n == input@.len(),
                pos <= n,
                spec_parse(old(self)@, input@, 0) == spec_parse(self@, input@, pos as int),
            decreases n - pos,
        {
            match self.state {
                ParseState::FindSync1 => {
                    if pos >= n {
                        return ParseStep { outcome: Ok(None), consumed: pos };
                    }
                    if input[pos] == 0x05 {
                        self.state = ParseState::FindSync2;
                    }
                    pos = pos + 1;
                },
                ParseState::FindSync2 => {
                    if pos >= n {
                        return ParseStep { outcome: Ok(None), consumed: pos };
                    }
                    let b: u8 = input[pos];
                    if b == 0x64 {
                        self.state = ParseState::ReadHeader;
                    } else if b != 0x05 {
                        self.state = ParseState::FindSync1;
                    }
                    pos = pos + 1;
                },
                ParseState::ReadHeader => {
                    if n - pos < 8 {
                        return ParseStep { outcome: Ok(None), consumed: pos };
                    }
                    if !Self::check_header_crc(input, pos) {
                        self.state = ParseState::FindSync1;
                        return ParseStep {
                            outcome: Err(ParseError::BadHeaderCrc),
                            consumed: pos + 8,
                        };
                    }
                    let len: u8 = input[pos];
                    if len < 5 {
                        self.state = ParseState::FindSync1;
                        return ParseStep {
                            outcome: Err(ParseError::BadLength(len)),
                            consumed: pos + 8,
                        };
                    }
                    let header = Header::new(
                        ControlField::from(input[pos + 1]),
                        read_u16_le(input[pos + 2], input[pos + 3]),
                        read_u16_le(input[pos + 4], input[pos + 5]),
                    );
                    let data_len: usize = (len - 5) as usize;
                    self.state = ParseState::ReadBody(header, data_len);
                    pos = pos + 8;
                },
                ParseState::ReadBody(header, len) => {
                    if len > MAX_APP_BYTES_PER_FRAME {
                        self.state = ParseState::FindSync1;
                        return ParseStep { outcome: Err(ParseError::BadLength(255)), consumed: pos };
                    }
                    let needed: usize = len + 2 * ((len + 15) / 16);
                    if n - pos < needed {
                        return ParseStep { outcome: Ok(None), consumed: pos };
                    }
                    let ok = Self::read_body(input, pos, len, payload);
                    self.state = ParseState::FindSync1;
                    if ok {
                        return ParseStep { outcome: Ok(Some(header)), consumed: pos + needed };
                    } else {
                        return ParseStep {
                            outcome: Err(ParseError::BadBodyCrc),
                            consumed: pos + needed,
                        };
                    }
                },
            }
        }
    }
}

} // verus!
