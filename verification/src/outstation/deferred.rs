use vstd::prelude::*;
use crate::app::iin::Iin2;
use crate::app::parse::HeaderCollection;
use crate::app::sequence::Sequence;
use crate::outstation::database::{Database, ReadHeader, read_headers};
use crate::transport::FragmentInfo;

verus! {

/// A read request that waits for its turn, and what the session needs to
/// answer it.
#[derive(Copy, Clone, Debug, PartialEq, Eq, Structural)]
pub struct DeferredInfo {
    /// digest of the fragment
    pub hash: u64,
    /// sequence number of the request
    pub seq: Sequence,
    /// what the transport layer knew of the fragment
    pub info: FragmentInfo,
    /// indication bits that the request has earned so far
    pub iin2: Iin2,
}

/// Holds one read request that arrived while an unsolicited response waited
/// for its confirmation.
pub struct DeferredRead {
    max_headers: u16,
    info: Option<DeferredInfo>,
    headers: Vec<ReadHeader>,
}

/// The deferred read as contracts see it.
pub struct DeferredReadView {
    /// number of headers that can be kept
    pub max_headers: int,
    /// the request in waiting
    pub info: Option<DeferredInfo>,
    /// what its headers ask the database for
    pub headers: Seq<ReadHeader>,
}

/// The headers of a request that the buffer keeps: the first `max`.
pub open spec fn kept_headers(headers: Seq<ReadHeader>, max: int) -> Seq<ReadHeader> {
    if headers.len() <= max {
        headers
    } else if max >= 0 {
        headers.subrange(0, max)
    } else {
        Seq::empty()
    }
}

impl View for DeferredRead {
    type V = DeferredReadView;

    closed spec fn view(&self) -> DeferredReadView {
        DeferredReadView {
            max_headers: self.max_headers as int,
            info: self.info,
            headers: self.headers@,
        }
    }
}

impl DeferredReadView {
    /// The buffer with the request of `seq` in waiting. Headers beyond the
    /// number that can be kept are dropped and raise `PARAMETER_ERROR`.
    pub open spec fn set(self, hash: u64, seq: Sequence, info: FragmentInfo, headers: Seq<ReadHeader>) -> DeferredReadView {
        DeferredReadView {
            max_headers: self.max_headers,
            info: Some(
                DeferredInfo {
                    hash,
                    seq,
                    info,
                    iin2: Iin2 {
                        value: if headers.len() > self.max_headers {
                            Iin2::PARAMETER_ERROR
                        } else {
                            0
                        },
                    },
                },
            ),
            headers: kept_headers(headers, self.max_headers),
        }
    }

    /// The buffer with nothing in waiting.
    pub open spec fn clear(self) -> DeferredReadView {
        DeferredReadView { max_headers: self.max_headers, info: None, headers: Seq::empty() }
    }
}

impl DeferredRead {
    /// An empty buffer that keeps at most `max_headers` headers of a request.
    pub fn new(max_headers: u16) -> (d: DeferredRead)
        ensures
            d@ == (DeferredReadView {
                max_headers: max_headers as int,
                info: None,
                headers: Seq::empty(),
            }),
    {
        DeferredRead { max_headers, info: None, headers: Vec::new() }
    }

    /// True when a request is in waiting.
    pub fn is_set(&self) -> (b: bool)
        ensures
            b == (self@.info is Some),
    {
        self.info.is_some()
    }

    /// Drops the request in waiting, if there is one.
    pub fn clear(&mut self)
        ensures
            final(self)@ == old(self)@.clear(),
    {
        self.info = None;
        self.headers.clear();
    }

    /// Puts a read request in waiting, in place of any that waited before.
    /// Headers beyond the number that can be kept are dropped and raise
    /// `PARAMETER_ERROR` in the answer.
    pub fn set(&mut self, hash: u64, seq: Sequence, info: FragmentInfo, headers: &HeaderCollection)
        ensures
            final(self)@ == old(self)@.set(hash, seq, info, read_headers(headers.headers@)),
    {
        self.headers.clear();
        let n: usize = headers.headers.len();
        let max: usize = self.max_headers as usize;
        let ghost all = read_headers(headers.headers@);
        let mut i: usize = 0;
        while i < n && i < max
            invariant
                n == headers.headers@.len(),
                max == self.max_headers,
                all == read_headers(headers.headers@),
                i <= n,
                i <= max,
                self.max_headers == old(self).max_headers,
                self.headers@ == all.subrange(0, i as int),
            decreases n - i,
        {
            self.headers.push(ReadHeader::get(&headers.headers[i].details));
            i = i + 1;
            proof {
                assert(self.headers@ =~= all.subrange(0, i as int));
            }
        }
        let iin2 = if n > max {
            Iin2 { value: Iin2::PARAMETER_ERROR }
        } else {
            Iin2 { value: 0 }
        };
        self.info = Some(DeferredInfo { hash, seq, info, iin2 });
        proof {
            assert(all.subrange(0, n as int) =~= all);
            assert(final(self)@.headers =~= kept_headers(all, max as int));
        }
    }

    /// Takes the request in waiting, if there is one, and has the database
    /// select what it asks for. The indication bits of the selection are
    /// added to those of the request.
    pub fn select(&mut self, database: &mut Database) -> (r: Option<DeferredInfo>)
        ensures
            final(self)@ == old(self)@.clear(),
            match old(self)@.info {
                None => r is None && final(database)@ == old(database)@,
                Some(x) => {
                    let (db, bits) = old(database)@.select(old(self)@.headers);
                    &&& final(database)@ == db
                    &&& r == Some(DeferredInfo { iin2: Iin2 { value: x.iin2.value | bits }, ..x })
                },
            },
    {
        let r = match self.info {
            None => None,
            Some(x) => {
                let iin2 = database.select_read_headers(&self.headers);
                Some(
                    DeferredInfo {
                        hash: x.hash,
                        seq: x.seq,
                        info: x.info,
                        iin2: Iin2 { value: x.iin2.value | iin2.value },
                    },
                )
            },
        };
        self.info = None;
        self.headers.clear();
        r
    }
}

} // verus!
