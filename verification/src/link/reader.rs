use vstd::prelude::*;
use vstd::slice::slice_subrange;
use crate::link::header::Header;
use crate::link::parser::{
    FramePayload,
    MAX_LINK_FRAME_LENGTH,
    ParseError,
    ParseState,
    Parser,
    spec_parse,
};

verus! {

/// Why reading a frame failed.
#[derive(Copy, Clone, Debug, PartialEq, Eq, Structural)]
pub enum ReadError {
    /// the stream ended: a read brought no octet
    UnexpectedEof,
    /// the octets read are no frame
    BadFrame(ParseError),
}

/// The reader as contracts see it.
pub struct ReaderView {
    /// where the parser stands in a frame
    pub state: ParseState,
    /// the octets read from the stream and not yet consumed by the parser
    pub pending: Seq<u8>,
}

/// Gathers the octets of a stream into link frames. It keeps the octets
/// that the parser has not consumed yet in a buffer the size of the largest
/// frame. Reading proceeds in steps that each leave the reader in a
/// consistent state, so a read can be given up between any two of them
/// without losing octets.
pub struct Reader {
    parser: Parser,
    begin: usize,
    end: usize,
    buffer: Vec<u8>,
}

impl View for Reader {
    type V = ReaderView;

    closed spec fn view(&self) -> ReaderView {
        ReaderView {
            state: self.parser@,
            pending: self.buffer@.subrange(self.begin as int, self.end as int),
        }
    }
}

/// Parsing stops for want of octets only when fewer are left than the
/// body of the largest frame: a buffer the size of the largest frame then
/// has room for more.
pub proof fn lemma_needs_more_leaves_room(state: ParseState, input: Seq<u8>, pos: int)
    requires
        0 <= pos <= input.len(),
    ensures
        ({
            let parsed = spec_parse(state, input, pos);
            &&& pos <= parsed.pos <= input.len()
            &&& parsed.outcome == Ok::<Option<(Header, Seq<u8>)>, ParseError>(None) ==> input.len()
                - parsed.pos < 282
        }),
    decreases input.len() - pos,
{
    match state {
        ParseState::FindSync1 => {
            if pos < input.len() {
                if input[pos] == 0x05 {
                    lemma_needs_more_leaves_room(ParseState::FindSync2, input, pos + 1);
                } else {
                    lemma_needs_more_leaves_room(ParseState::FindSync1, input, pos + 1);
                }
            }
        },
        ParseState::FindSync2 => {
            if pos < input.len() {
                if input[pos] == 0x64 {
                    lemma_needs_more_leaves_room(ParseState::ReadHeader, input, pos + 1);
                } else if input[pos] == 0x05 {
                    lemma_needs_more_leaves_room(ParseState::FindSync2, input, pos + 1);
                } else {
                    lemma_needs_more_leaves_room(ParseState::FindSync1, input, pos + 1);
                }
            }
        },
        ParseState::ReadHeader => {
            if input.len() - pos >= 8 && crate::link::parser::header_crc_ok(input, pos)
                && input[pos] >= 5 {
                lemma_needs_more_leaves_room(
                    ParseState::ReadBody(
                        crate::link::parser::header_at(input, pos),
                        (input[pos] - 5) as usize,
                    ),
                    input,
                    pos + 8,
                );
            }
        },
        ParseState::ReadBody(_, len) => {},
    }
}

impl Reader {
    /// The bounds of the pending octets lie within the buffer, which has
    /// the size of the largest frame.
    pub closed spec fn wf(&self) -> bool {
        &&& self.begin <= self.end <= self.buffer@.len()
        &&& self.buffer@.len() == MAX_LINK_FRAME_LENGTH
    }

    /// A reader without pending octets that looks for the start of a frame.
    pub fn new() -> (r: Reader)
        ensures
            r.wf(),
            r@.state == ParseState::FindSync1,
            r@.pending.len() == 0,
    {
        let mut buffer: Vec<u8> = Vec::new();
        let mut i: usize = 0;
        while i < MAX_LINK_FRAME_LENGTH
            invariant
                i <= MAX_LINK_FRAME_LENGTH,
                buffer@.len() == i,
            decreases MAX_LINK_FRAME_LENGTH - i,
        {
            buffer.push(0);
            i = i + 1;
        }
        Reader { parser: Parser::new(), begin: 0, end: 0, buffer }
    }

    /// Drops the pending octets and returns to looking for the start of a
    /// frame.
    pub fn reset(&mut self)
        requires
            old(self).wf(),
        ensures
            final(self).wf(),
            final(self)@.state == ParseState::FindSync1,
            final(self)@.pending.len() == 0,
    {
        self.begin = 0;
        self.end = 0;
        self.parser.reset();
    }

    /// Number of octets that the reader can take in.
    pub fn room(&self) -> (n: usize)
        requires
            self.wf(),
        ensures
            n == MAX_LINK_FRAME_LENGTH - self@.pending.len(),
    {
        MAX_LINK_FRAME_LENGTH - (self.end - self.begin)
    }

    /// Offers the pending octets to the parser. Returns the header of a
    /// frame when one is complete, with its user data in `payload`; an error
    /// for a damaged frame; neither when more octets are needed, and then
    /// there is room for more. What the parser consumed is pending no longer.
    pub fn read(&mut self, payload: &mut FramePayload) -> (r: Result<
        Option<Header>,
        ReadError,
    >)
        requires
            old(self).wf(),
        ensures
            final(self).wf(),
            ({
                let parsed = spec_parse(old(self)@.state, old(self)@.pending, 0);
                &&& final(self)@.state == parsed.state
                &&& 0 <= parsed.pos <= old(self)@.pending.len()
                &&& final(self)@.pending == old(self)@.pending.subrange(
                    parsed.pos,
                    old(self)@.pending.len() as int,
                )
                &&& match parsed.outcome {
                    Ok(Some((header, data))) => r == Ok::<Option<Header>, ReadError>(Some(header))
                        && final(payload)@ == data,
                    Ok(None) => r == Ok::<Option<Header>, ReadError>(None) && final(self)@.pending.len() < MAX_LINK_FRAME_LENGTH,
                    Err(err) => r == Err::<Option<Header>, ReadError>(ReadError::BadFrame(err)),
                }
            }),
    {
        if self.begin == self.end {
            self.begin = 0;
            self.end = 0;
            proof {
                assert(self@.pending =~= old(self)@.pending);
            }
        }
        let input = slice_subrange(self.buffer.as_slice(), self.begin, self.end);
        let step = self.parser.parse(input, payload);
        proof {
            lemma_needs_more_leaves_room(old(self)@.state, old(self)@.pending, 0);
        }
        self.begin = self.begin + step.consumed;
        proof {
            assert(self@.pending =~= old(self)@.pending.subrange(
                step.consumed as int,
                old(self)@.pending.len() as int,
            ));
        }
        match step.outcome {
            Ok(Some(header)) => Ok(Some(header)),
            Ok(None) => Ok(None),
            Err(err) => Err(ReadError::BadFrame(err)),
        }
    }

    /// Moves the pending octets to the start of the buffer.
    fn compact(&mut self)
        requires
            old(self).wf(),
        ensures
            final(self).wf(),
            final(self)@ == old(self)@,
            final(self).begin == 0,
            final(self).end == old(self)@.pending.len(),
    {
        let n: usize = self.end - self.begin;
        let begin: usize = self.begin;
        let mut i: usize = 0;
        while i < n
            invariant
                self.wf(),
                self.begin == begin,
                self.begin == old(self).begin,
                self.end == old(self).end,
                self.parser == old(self).parser,
                n == self.end - self.begin,
                i <= n,
                forall|j: int| 0 <= j < i ==> self.buffer@[j] == old(self).buffer@[begin + j],
                forall|j: int|
                    begin + i <= j < self.buffer@.len() ==> self.buffer@[j] == old(self).buffer@[j],
            decreases n - i,
        {
            let b: u8 = self.buffer[begin + i];
            self.buffer.set(i, b);
            i = i + 1;
        }
        self.begin = 0;
        self.end = n;
        proof {
            assert(self@.pending =~= old(self)@.pending);
        }
    }

    /// Takes in octets that were read from the stream: as many of `bytes`
    /// as there is room for, from the front. Returns how many were taken. A
    /// read that brought no octet means that the stream has ended.
    pub fn fill(&mut self, bytes: &[u8]) -> (r: Result<usize, ReadError>)
        requires
            old(self).wf(),
        ensures
            final(self).wf(),
            final(self)@.state == old(self)@.state,
            bytes@.len() == 0 ==> r == Err::<usize, ReadError>(ReadError::UnexpectedEof) && final(self)@ == old(self)@,
            bytes@.len() > 0 ==> ({
                let room = MAX_LINK_FRAME_LENGTH - old(self)@.pending.len();
                let taken = if bytes@.len() <= room {
                    bytes@.len() as int
                } else {
                    room
                };
                &&& r == Ok::<usize, ReadError>(taken as usize)
                &&& final(self)@.pending == old(self)@.pending + bytes@.subrange(0, taken)
            }),
    {
        let count: usize = bytes.len();
        if count == 0 {
            return Err(ReadError::UnexpectedEof);
        }
        if count > MAX_LINK_FRAME_LENGTH - self.end {
            self.compact();
        }
        let room: usize = MAX_LINK_FRAME_LENGTH - self.end;
        let taken: usize = if count <= room {
            count
        } else {
            room
        };
        let start: usize = self.end;
        let ghost before = self.buffer@;
        let ghost begin = self.begin;
        proof {
            assert(before.subrange(begin as int, start as int) == old(self)@.pending);
        }
        let mut i: usize = 0;
        while i < taken
            invariant
                self.wf(),
                self.begin == begin,
                self.begin <= start,
                start + taken <= MAX_LINK_FRAME_LENGTH,
                taken <= bytes@.len(),
                self.end == start,
                i <= taken,
                self.parser@ == old(self).parser@,
                self.buffer@.len() == before.len(),
                forall|j: int| 0 <= j < start ==> self.buffer@[j] == before[j],
                forall|j: int| 0 <= j < i ==> self.buffer@[start + j] == bytes@[j],
            decreases taken - i,
        {
            self.buffer.set(start + i, bytes[i]);
            i = i + 1;
        }
        self.end = start + taken;
        proof {
            assert(self@.pending =~= old(self)@.pending + bytes@.subrange(0, taken as int));
        }
        Ok(taken)
    }
}

impl Default for Reader {
    fn default() -> (r: Reader)
        ensures
            r.wf(),
            r@.state == ParseState::FindSync1,
            r@.pending.len() == 0,
    {
        Reader::new()
    }
}

} // verus!
