use vstd::prelude::*;
use crate::link::address::EndpointAddress;
use crate::link::format::{format_frame, lemma_frame_round_trip, spec_frame};
use crate::link::parser::{ParseState, spec_parse};
use crate::link::header::{ControlField, Function, Header};
use crate::transport::assembler::{TransportHeader, next_seq};

verus! {

/// Largest number of octets of a fragment in one segment: a frame holds
/// 250 octets, and one of them is the transport header.
pub const MAX_SEGMENT_LENGTH: usize = 249;

/// Number of segments that a fragment of `len` octets takes.
pub open spec fn num_segments(len: int) -> int {
    (len + 248) / 249
}

/// The sequence number `k` steps after `seq`.
pub open spec fn seq_after(seq: u8, k: int) -> u8
    decreases k,
{
    if k <= 0 {
        seq
    } else {
        next_seq(seq_after(seq, k - 1))
    }
}

/// The link header of a frame with user data from the outstation at
/// `source` to `destination`.
pub open spec fn spec_data_header(source: u16, destination: u16) -> Header {
    Header {
        control: ControlField {
            func: Function::PriUnconfirmedUserData,
            master: false,
            fcb: false,
            fcv: false,
        },
        destination,
        source,
    }
}

/// The link frame of segment `k` of a fragment, when the first segment
/// has the sequence number `seq`.
pub open spec fn spec_segment_frame(
    fragment: Seq<u8>,
    seq: u8,
    k: int,
    source: u16,
    destination: u16,
) -> Seq<u8> {
    let start = 249 * k;
    let stop = if fragment.len() - start > 249 {
        start + 249
    } else {
        fragment.len() as int
    };
    let header = TransportHeader {
        fin: k + 1 == num_segments(fragment.len() as int),
        fir: k == 0,
        seq: seq_after(seq, k),
    };
    spec_frame(
        spec_data_header(source, destination),
        seq![header.spec_to_u8() as u8] + fragment.subrange(start, stop),
    )
}

/// Cuts fragments into transport segments and frames them for the link.
pub struct TransportWriter {
    source: EndpointAddress,
    seq: u8,
}

/// The transport writer as contracts see it.
pub struct TransportWriterView {
    /// address of the outstation
    pub source: u16,
    /// sequence number of the next segment
    pub seq: u8,
}

impl View for TransportWriter {
    type V = TransportWriterView;

    closed spec fn view(&self) -> TransportWriterView {
        TransportWriterView { source: self.source@, seq: self.seq % 64 }
    }
}

impl TransportWriter {
    /// The transport writer of the outstation at `source`.
    pub fn new(source: EndpointAddress) -> (w: TransportWriter)
        ensures
            w@ == (TransportWriterView { source: source@, seq: 0 }),
    {
        TransportWriter { source, seq: 0 }
    }

    /// Starts the sequence numbers over.
    pub fn reset(&mut self)
        ensures
            final(self)@ == (TransportWriterView { seq: 0, ..old(self)@ }),
    {
        self.seq = 0;
    }

    /// Frames a fragment for `destination`: one link frame for each
    /// segment of up to 249 octets, the first marked as first, the last as
    /// last, with sequence numbers that follow one another.
    pub fn write(&mut self, destination: u16, fragment: &[u8]) -> (frames: Vec<Vec<u8>>)
        ensures
            frames@.len() == num_segments(fragment@.len() as int),
            forall|k: int|
                0 <= k < frames@.len() ==> (#[trigger] frames@[k])@ == spec_segment_frame(
                    fragment@,
                    old(self)@.seq,
                    k,
                    old(self)@.source,
                    destination,
                ),
            final(self)@ == (TransportWriterView {
                seq: seq_after(old(self)@.seq, frames@.len() as int),
                ..old(self)@
            }),
    {
        let len: usize = fragment.len();
        let count: usize = if len == 0 {
            0
        } else {
            (len - 1) / 249 + 1
        };
        let link = Header::new(
            ControlField {
                func: Function::PriUnconfirmedUserData,
                master: false,
                fcb: false,
                fcv: false,
            },
            destination,
            self.source.raw_value(),
        );
        let mut frames: Vec<Vec<u8>> = Vec::new();
        self.seq = self.seq % 64;
        let mut k: usize = 0;
        while k < count
            invariant
                len == fragment@.len(),
                count == num_segments(len as int),
                k <= count,
                link == spec_data_header(old(self)@.source, destination),
                self.source == old(self).source,
                self.seq < 64,
                self.seq == seq_after(old(self)@.seq, k as int),
                frames@.len() == k,
                forall|i: int|
                    0 <= i < k ==> (#[trigger] frames@[i])@ == spec_segment_frame(
                        fragment@,
                        old(self)@.seq,
                        i,
                        old(self)@.source,
                        destination,
                    ),
            decreases count - k,
        {
            proof {
                assert(249 * k < len);
            }
            let start: usize = 249 * k;
            let stop: usize = if len - start > 249 {
                start + 249
            } else {
                len
            };
            let header = TransportHeader { fin: k + 1 == count, fir: k == 0, seq: self.seq };
            let mut segment: Vec<u8> = Vec::new();
            segment.push(header.to_u8());
            let mut j: usize = start;
            while j < stop
                invariant
                    start <= j <= stop,
                    stop <= len,
                    stop - start <= 249,
                    len == fragment@.len(),
                    segment@ == seq![header.spec_to_u8() as u8] + fragment@.subrange(
                        start as int,
                        j as int,
                    ),
                decreases stop - j,
            {
                segment.push(fragment[j]);
                j = j + 1;
                proof {
                    assert(segment@ =~= seq![header.spec_to_u8() as u8] + fragment@.subrange(
                        start as int,
                        j as int,
                    ));
                }
            }
            let frame = match format_frame(link, segment.as_slice()) {
                Ok(frame) => frame,
                Err(_) => Vec::new(),
            };
            let ghost prior = frames@;
            frames.push(frame);
            proof {
                assert forall|i: int| 0 <= i < k + 1 implies (#[trigger] frames@[i])@
                    == spec_segment_frame(
                    fragment@,
                    old(self)@.seq,
                    i,
                    old(self)@.source,
                    destination,
                ) by {
                    if i < k {
                        assert(frames@[i] == prior[i]);
                    }
                }
            }
            self.seq = if self.seq >= 63 {
                0
            } else {
                self.seq + 1
            };
            k = k + 1;
        }
        frames
    }

    /// The frame that asks the station at `destination` for the status of
    /// the link.
    pub fn write_link_status_request(&self, destination: u16) -> (frame: Vec<u8>)
        ensures
            frame@ == spec_frame(
                Header {
                    control: ControlField {
                        func: Function::PriRequestLinkStatus,
                        master: false,
                        fcb: false,
                        fcv: false,
                    },
                    destination,
                    source: self@.source,
                },
                Seq::empty(),
            ),
    {
        let link = Header::new(
            ControlField {
                func: Function::PriRequestLinkStatus,
                master: false,
                fcb: false,
                fcv: false,
            },
            destination,
            self.source.raw_value(),
        );
        let empty: Vec<u8> = Vec::new();
        match format_frame(link, empty.as_slice()) {
            Ok(frame) => frame,
            Err(_) => Vec::new(),
        }
    }
}

/// Every frame of a fragment is read back by the link parser as the
/// segment that went into it: the header of the data frame, and the
/// transport header followed by the octets of the segment.
pub proof fn lemma_segment_frame_round_trip(
    fragment: Seq<u8>,
    seq: u8,
    k: int,
    source: u16,
    destination: u16,
)
    requires
        0 <= k < num_segments(fragment.len() as int),
    ensures
        ({
            let frame = spec_segment_frame(fragment, seq, k, source, destination);
            let parsed = spec_parse(ParseState::FindSync1, frame, 0);
            &&& parsed.pos == frame.len()
            &&& parsed.state == ParseState::FindSync1
            &&& parsed.outcome matches Ok(Some((header, payload)))
            &&& header == spec_data_header(source, destination)
            &&& payload.len() >= 1
            &&& TransportHeader::spec_from(payload[0]).fir == (k == 0)
            &&& TransportHeader::spec_from(payload[0]).fin == (k + 1 == num_segments(
                fragment.len() as int,
            ))
            &&& payload.subrange(1, payload.len() as int) == fragment.subrange(
                249 * k,
                249 * k + payload.len() - 1,
            )
        }),
{
    let start = 249 * k;
    let stop = if fragment.len() - start > 249 {
        start + 249
    } else {
        fragment.len() as int
    };
    let header = TransportHeader {
        fin: k + 1 == num_segments(fragment.len() as int),
        fir: k == 0,
        seq: seq_after(seq, k),
    };
    let payload = seq![header.spec_to_u8() as u8] + fragment.subrange(start, stop);
    lemma_frame_round_trip(spec_data_header(source, destination), payload);
    assert(payload.subrange(1, payload.len() as int) =~= fragment.subrange(start, stop));
}

} // verus!
