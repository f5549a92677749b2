use vstd::prelude::*;
use crate::app::sequence::Sequence;

verus! {

/// The application control octet: series framing, confirm request, the
/// unsolicited marker and the sequence number.
#[derive(Copy, Clone, Debug, PartialEq, Eq, Structural)]
pub struct ControlField {
    /// first fragment of a series
    pub fir: bool,
    /// final fragment of a series
    pub fin: bool,
    /// the receiver is asked to confirm
    pub con: bool,
    /// the fragment belongs to the unsolicited exchange
    pub uns: bool,
    /// sequence number of the fragment
    pub seq: Sequence,
}

/// Place value of a flag inside an octet.
pub open spec fn flag_value(set: bool, weight: int) -> int {
    if set { weight } else { 0 }
}

impl ControlField {
    /// The octet that carries this control field on the wire.
    pub open spec fn spec_to_u8(self) -> int {
        flag_value(self.fir, 128) + flag_value(self.fin, 64) + flag_value(self.con, 32)
            + flag_value(self.uns, 16) + self.seq@
    }

    /// The control field that the octet `x` carries.
    pub open spec fn spec_from_u8(x: u8) -> (bool, bool, bool, bool, int) {
        ((x / 128) % 2 == 1, (x / 64) % 2 == 1, (x / 32) % 2 == 1, (x / 16) % 2 == 1, (x % 16) as int)
    }

    /// Control field of a solicited response.
    pub fn response(seq: Sequence, fir: bool, fin: bool, con: bool) -> (c: ControlField)
        ensures
            c == (ControlField { fir, fin, con, uns: false, seq }),
    {
        ControlField { fir, fin, con, uns: false, seq }
    }

    /// Control field of a response that is complete in one fragment and asks
    /// for no confirmation.
    pub fn single_response(seq: Sequence) -> (c: ControlField)
        ensures
            c == (ControlField { fir: true, fin: true, con: false, uns: false, seq }),
    {
        ControlField { fir: true, fin: true, con: false, uns: false, seq }
    }

    /// Control field of an unsolicited response: one fragment, to be confirmed.
    pub fn unsolicited_response(seq: Sequence) -> (c: ControlField)
        ensures
            c == (ControlField { fir: true, fin: true, con: true, uns: true, seq }),
    {
        ControlField { fir: true, fin: true, con: true, uns: true, seq }
    }

    /// Control field of a request that is complete in one fragment.
    pub fn request(seq: Sequence) -> (c: ControlField)
        ensures
            c == (ControlField { fir: true, fin: true, con: false, uns: false, seq }),
    {
        ControlField { fir: true, fin: true, con: false, uns: false, seq }
    }

    /// Reads a control field from its octet.
    pub fn from(x: u8) -> (c: ControlField)
        ensures
            (c.fir, c.fin, c.con, c.uns, c.seq@) == Self::spec_from_u8(x),
            c.seq == Sequence::spec_new(x),
    {
        ControlField {
            fir: (x / 128) % 2 == 1,
            fin: (x / 64) % 2 == 1,
            con: (x / 32) % 2 == 1,
            uns: (x / 16) % 2 == 1,
            seq: Sequence::new(x),
        }
    }

    /// The octet that carries this control field.
    pub fn to_u8(self) -> (x: u8)
        ensures
            x == self.spec_to_u8(),
    {
        let mut x: u8 = self.seq.value();
        if self.fir {
            x = x + 128;
        }
        if self.fin {
            x = x + 64;
        }
        if self.con {
            x = x + 32;
        }
        if self.uns {
            x = x + 16;
        }
        x
    }

    /// Writing a control field and reading it back gives the same field.
    pub proof fn lemma_round_trip(self)
        ensures
            0 <= self.spec_to_u8() <= 255,
            Self::spec_from_u8(self.spec_to_u8() as u8) == (
                self.fir,
                self.fin,
                self.con,
                self.uns,
                self.seq@,
            ),
    {
        self.seq.lemma_range();
    }

    /// Reading an octet and writing it back gives the same octet.
    pub proof fn lemma_octet_round_trip(x: u8)
        ensures
            ({
                let (fir, fin, con, uns, seq) = Self::spec_from_u8(x);
                flag_value(fir, 128) + flag_value(fin, 64) + flag_value(con, 32) + flag_value(
                    uns,
                    16,
                ) + seq == x
            }),
    {
    }
}

} // verus!
