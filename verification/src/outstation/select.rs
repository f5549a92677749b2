use vstd::prelude::*;
use crate::app::sequence::Sequence;
use crate::outstation::control::CommandStatus;
use crate::util::time::{Millis, Moment};

verus! {

/// What the session remembers of an accepted select, for the operate that
/// must match it.
#[derive(Copy, Clone, Debug, PartialEq, Eq, Structural)]
pub struct SelectState {
    /// sequence number of the select
    pub seq: Sequence,
    /// running number of the fragment that carried the select, or of its
    /// latest repetition
    pub frame_id: u32,
    /// when the select was accepted
    pub time: Moment,
    /// digest of the object headers of the select
    pub object_hash: u64,
}

/// The number that follows `id`, wrapping at the end of 32 bits.
pub open spec fn next_frame_id(id: u32) -> u32 {
    if id == u32::MAX {
        0
    } else {
        (id + 1) as u32
    }
}

impl SelectState {
    /// What an operate that arrives at `now` gets for an answer when this
    /// select is the one on record: `None` when the operate matches.
    pub open spec fn spec_match_operate(
        &self,
        now: Moment,
        timeout: Millis,
        seq: Sequence,
        frame_id: u32,
        object_hash: u64,
    ) -> Option<CommandStatus> {
        if Sequence::successor(self.seq@) != seq@ {
            Some(CommandStatus::NoSelect)
        } else if next_frame_id(self.frame_id) != frame_id {
            Some(CommandStatus::NoSelect)
        } else if self.object_hash != object_hash {
            Some(CommandStatus::NoSelect)
        } else {
            match now.spec_checked_duration_since(self.time) {
                None => Some(CommandStatus::Timeout),
                Some(elapsed) => if elapsed.millis <= timeout.millis {
                    None
                } else {
                    Some(CommandStatus::Timeout)
                },
            }
        }
    }

    /// The record of a select accepted at `time`.
    pub fn new(seq: Sequence, frame_id: u32, time: Moment, object_hash: u64) -> (s: SelectState)
        ensures
            s == (SelectState { seq, frame_id, time, object_hash }),
    {
        SelectState { seq, frame_id, time, object_hash }
    }

    /// Notes that the select was repeated in the fragment `frame_id`.
    pub fn update_frame_id(&mut self, frame_id: u32)
        ensures
            *final(self) == (SelectState { frame_id, ..*old(self) }),
    {
        self.frame_id = frame_id;
    }

    /// Tests an operate that arrives at `now` against the select on record.
    /// It matches when its sequence number follows that of the select, its
    /// fragment follows that of the select with none in between, its object
    /// headers have the same digest, and no more than `timeout` has passed.
    /// The first three failing give `NoSelect`, the last `Timeout`.
    pub fn match_operate(
        &self,
        now: Moment,
        timeout: Millis,
        seq: Sequence,
        frame_id: u32,
        object_hash: u64,
    ) -> (r: Result<(), CommandStatus>)
        ensures
            match self.spec_match_operate(now, timeout, seq, frame_id, object_hash) {
                None => r is Ok,
                Some(status) => r == Err::<(), CommandStatus>(status),
            },
    {
        let elapsed = now.checked_duration_since(self.time);
        if self.seq.next() != seq.value() {
            return Err(CommandStatus::NoSelect);
        }
        if self.frame_id.wrapping_add(1) != frame_id {
            return Err(CommandStatus::NoSelect);
        }
        if self.object_hash != object_hash {
            return Err(CommandStatus::NoSelect);
        }
        match elapsed {
            None => Err(CommandStatus::Timeout),
            Some(elapsed) => {
                if elapsed.millis <= timeout.millis {
                    Ok(())
                } else {
                    Err(CommandStatus::Timeout)
                }
            },
        }
    }
}

} // verus!
