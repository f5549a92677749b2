use vstd::prelude::*;
use crate::link::address::BroadcastConfirmMode;

verus! {

/// The octet in front of each transport segment: whether the segment is
/// the first or the last of its fragment, and its sequence number.
#[derive(Copy, Clone, Debug, PartialEq, Eq, Structural)]
pub struct TransportHeader {
    /// last segment of the fragment
    pub fin: bool,
    /// first segment of the fragment
    pub fir: bool,
    /// sequence number, from 0 to 63
    pub seq: u8,
}

impl TransportHeader {
    /// The header that the octet `x` carries: FIN in bit 7, FIR in bit 6,
    /// the sequence number below.
    pub open spec fn spec_from(x: u8) -> TransportHeader {
        TransportHeader { fin: x / 128 == 1, fir: (x / 64) % 2 == 1, seq: x % 64 }
    }

    /// The octet that carries the header.
    pub open spec fn spec_to_u8(self) -> int {
        (if self.fin {
            128int
        } else {
            0int
        }) + (if self.fir {
            64int
        } else {
            0int
        }) + self.seq % 64
    }

    /// The header that the octet `x` carries.
    pub fn from(x: u8) -> (h: TransportHeader)
        ensures
            h == Self::spec_from(x),
    {
        TransportHeader { fin: x / 128 == 1, fir: (x / 64) % 2 == 1, seq: x % 64 }
    }

    /// The octet that carries the header.
    pub fn to_u8(self) -> (x: u8)
        ensures
            x == self.spec_to_u8(),
    {
        let mut x: u8 = self.seq % 64;
        if self.fin {
            x = x + 128;
        }
        if self.fir {
            x = x + 64;
        }
        x
    }

    /// Reading an octet and writing it back gives the same octet, and a
    /// header with a sequence number below 64 is read back as written.
    pub proof fn lemma_round_trip(x: u8, h: TransportHeader)
        ensures
            Self::spec_from(x).spec_to_u8() == x,
            h.seq < 64 ==> Self::spec_from(h.spec_to_u8() as u8) == h,
    {
    }
}

/// The sequence number that follows `seq`, wrapping from 63 to 0.
pub open spec fn next_seq(seq: u8) -> u8 {
    if seq >= 63 {
        0
    } else {
        (seq + 1) as u8
    }
}

/// How far the assembly of a fragment has come.
#[derive(Copy, Clone, Debug, PartialEq, Eq, Structural)]
pub enum AssemblyState {
    /// no fragment is under way
    Empty,
    /// segments have been taken, the last with this sequence number
    Running(u8),
    /// the fragment is complete and waits to be taken
    Complete,
}

/// The assembler as contracts see it.
pub struct AssemblerView {
    /// how far the assembly has come
    pub state: AssemblyState,
    /// the octets assembled so far
    pub data: Seq<u8>,
    /// how the fragment under way reached the outstation
    pub broadcast: Option<BroadcastConfirmMode>,
    /// largest fragment that can be assembled
    pub max_size: int,
}

impl AssemblerView {
    /// The assembly after one more segment. A first segment starts a new
    /// fragment, whatever was under way. Any other segment continues the
    /// fragment under way if its sequence number follows that of the one
    /// before, and is dropped if not, or if no fragment is under way. A
    /// fragment that grows beyond the largest size is given up. A last
    /// segment completes the fragment.
    pub open spec fn assemble(
        self,
        header: TransportHeader,
        payload: Seq<u8>,
        broadcast: Option<BroadcastConfirmMode>,
    ) -> AssemblerView {
        if header.fir {
            if payload.len() > self.max_size {
                AssemblerView { state: AssemblyState::Empty, data: Seq::empty(), ..self }
            } else {
                AssemblerView {
                    state: if header.fin {
                        AssemblyState::Complete
                    } else {
                        AssemblyState::Running(header.seq)
                    },
                    data: payload,
                    broadcast,
                    max_size: self.max_size,
                }
            }
        } else {
            match self.state {
                AssemblyState::Running(last) => if header.seq != next_seq(last) {
                    self
                } else if self.data.len() + payload.len() > self.max_size {
                    AssemblerView { state: AssemblyState::Empty, data: Seq::empty(), ..self }
                } else {
                    AssemblerView {
                        state: if header.fin {
                            AssemblyState::Complete
                        } else {
                            AssemblyState::Running(header.seq)
                        },
                        data: self.data + payload,
                        ..self
                    }
                },
                _ => self,
            }
        }
    }
}

/// Puts the segments of the transport layer together into fragments.
pub struct Assembler {
    state: AssemblyState,
    buffer: Vec<u8>,
    broadcast: Option<BroadcastConfirmMode>,
    max_size: usize,
}

impl View for Assembler {
    type V = AssemblerView;

    closed spec fn view(&self) -> AssemblerView {
        AssemblerView {
            state: self.state,
            data: self.buffer@,
            broadcast: self.broadcast,
            max_size: self.max_size as int,
        }
    }
}

impl Assembler {
    /// An assembler without a fragment under way, for fragments of up to
    /// `max_size` octets.
    pub fn new(max_size: usize) -> (a: Assembler)
        ensures
            a@ == (AssemblerView {
                state: AssemblyState::Empty,
                data: Seq::empty(),
                broadcast: None,
                max_size: max_size as int,
            }),
    {
        Assembler { state: AssemblyState::Empty, buffer: Vec::new(), broadcast: None, max_size }
    }

    /// Gives up the fragment under way.
    pub fn reset(&mut self)
        ensures
            final(self)@ == (AssemblerView {
                state: AssemblyState::Empty,
                data: Seq::empty(),
                ..old(self)@
            }),
    {
        self.state = AssemblyState::Empty;
        self.buffer.clear();
    }

    /// Takes one segment: its header and the octets behind it.
    pub fn assemble(
        &mut self,
        header: TransportHeader,
        payload: &[u8],
        broadcast: Option<BroadcastConfirmMode>,
    )
        ensures
            final(self)@ == old(self)@.assemble(header, payload@, broadcast),
    {
        if header.fir {
            self.buffer.clear();
            self.state = AssemblyState::Empty;
            if payload.len() > self.max_size {
                return ;
            }
            self.broadcast = broadcast;
        } else {
            match self.state {
                AssemblyState::Running(last) => {
                    let expected: u8 = if last >= 63 {
                        0
                    } else {
                        last + 1
                    };
                    if header.seq != expected {
                        return ;
                    }
                    if self.buffer.len() > self.max_size || payload.len() > self.max_size
                        - self.buffer.len() {
                        self.buffer.clear();
                        self.state = AssemblyState::Empty;
                        return ;
                    }
                },
                _ => {
                    return ;
                },
            }
        }
        let n: usize = payload.len();
        let ghost before = self.buffer@;
        let mut i: usize = 0;
        while i < n
            invariant
                n == payload@.len(),
                i <= n,
                self.buffer@ == before + payload@.subrange(0, i as int),
                self.max_size == old(self).max_size,
                self.state == if header.fir {
                    AssemblyState::Empty
                } else {
                    old(self).state
                },
                self.broadcast == if header.fir {
                    broadcast
                } else {
                    old(self).broadcast
                },
            decreases n - i,
        {
            self.buffer.push(payload[i]);
            i = i + 1;
            proof {
                assert(self.buffer@ =~= before + payload@.subrange(0, i as int));
            }
        }
        proof {
            assert(payload@.subrange(0, n as int) =~= payload@);
            assert(Seq::<u8>::empty() + payload@ =~= payload@);
        }
        self.state = if header.fin {
            AssemblyState::Complete
        } else {
            AssemblyState::Running(header.seq)
        };
    }

    /// True when a fragment is complete and waits to be taken.
    pub fn is_complete(&self) -> (b: bool)
        ensures
            b == (self@.state == AssemblyState::Complete),
    {
        match self.state {
            AssemblyState::Complete => true,
            _ => false,
        }
    }

    /// Takes the complete fragment, if there is one: its octets and how it
    /// reached the outstation. The assembler is empty afterwards.
    pub fn take(&mut self) -> (r: Option<(Vec<u8>, Option<BroadcastConfirmMode>)>)
        ensures
            match r {
                Some((data, broadcast)) => {
                    &&& old(self)@.state == AssemblyState::Complete
                    &&& data@ == old(self)@.data
                    &&& broadcast == old(self)@.broadcast
                    &&& final(self)@ == (AssemblerView {
                        state: AssemblyState::Empty,
                        data: Seq::empty(),
                        ..old(self)@
                    })
                },
                None => old(self)@.state != AssemblyState::Complete && final(self)@ == old(self)@,
            },
    {
        match self.state {
            AssemblyState::Complete => {
                let mut data: Vec<u8> = Vec::new();
                std::mem::swap(&mut data, &mut self.buffer);
                self.state = AssemblyState::Empty;
                Some((data, self.broadcast))
            },
            _ => None,
        }
    }
}

} // verus!
