//! How a batch of requests moves on, one output at a time.
//!
//! The outputs are written by the caller. After each one it reports whether
//! the write succeeded; the first failure ends the batch, and what was
//! written before stays.

use vstd::prelude::*;

verus! {

/// Where a batch stands.
#[derive(Debug, Clone, Copy, PartialEq, Eq, Structural)]
pub enum BatchState {
    /// The request with this index, counted from zero, is the next to
    /// produce and write.
    Processing(usize),
    /// A write failed; nothing more is written.
    SaveFailed,
    /// Every request has been written.
    Done,
}

/// Where a batch of `count` requests starts.
pub open spec fn start_state(count: nat) -> BatchState {
    if count == 0 {
        BatchState::Done
    } else {
        BatchState::Processing(0)
    }
}

/// Where a batch of `count` requests stands after the output of the current
/// request was written (`saved`) or could not be written. The two final
/// states stay as they are.
pub open spec fn next_state(count: nat, state: BatchState, saved: bool) -> BatchState {
    match state {
        BatchState::Processing(i) => if i >= count {
            BatchState::Done
        } else if !saved {
            BatchState::SaveFailed
        } else if i + 1 < count {
            BatchState::Processing((i + 1) as usize)
        } else {
            BatchState::Done
        },
        BatchState::SaveFailed => BatchState::SaveFailed,
        BatchState::Done => BatchState::Done,
    }
}

/// Where a batch of `count` requests stands after the writes reported in
/// `saves`, in their order.
pub open spec fn state_after(count: nat, saves: Seq<bool>) -> BatchState
    decreases saves.len(),
{
    if saves.len() == 0 {
        start_state(count)
    } else {
        next_state(count, state_after(count, saves.drop_last()), saves.last())
    }
}

/// As long as every write succeeds the batch takes the requests in their
/// order, and it is done when the last one is written.
pub proof fn lemma_all_saved(count: nat, saves: Seq<bool>)
    requires
        count <= usize::MAX,
        forall|i: int| 0 <= i < saves.len() ==> saves[i],
    ensures
        state_after(count, saves) == if saves.len() < count {
            BatchState::Processing(saves.len() as usize)
        } else {
            BatchState::Done
        },
    decreases saves.len(),
{
    if saves.len() > 0 {
        lemma_all_saved(count, saves.drop_last());
    }
}

/// The first write that fails ends the batch: whatever is reported after
/// it, the batch stays failed, so no later request is ever taken up.
pub proof fn lemma_first_failure_ends_batch(count: nat, saves: Seq<bool>, k: int)
    requires
        count <= usize::MAX,
        0 <= k < saves.len(),
        k < count,
        !saves[k],
        forall|i: int| 0 <= i < k ==> saves[i],
    ensures
        state_after(count, saves.take(k)) == BatchState::Processing(k as usize),
        state_after(count, saves) == BatchState::SaveFailed,
    decreases saves.len(),
{
    lemma_all_saved(count, saves.take(k));
    if saves.len() > k + 1 {
        lemma_first_failure_ends_batch(count, saves.drop_last(), k);
    }
}

impl BatchState {
    /// The state in which a batch of `count` requests starts.
    pub fn start(count: usize) -> (state: BatchState)
        ensures
            state == start_state(count as nat),
    {
        if count == 0 {
            BatchState::Done
        } else {
            BatchState::Processing(0)
        }
    }

    /// The state that follows `self` in a batch of `count` requests once the
    /// caller has tried to write the current output.
    pub fn advance(self, count: usize, saved: bool) -> (state: BatchState)
        ensures
            state == next_state(count as nat, self, saved),
    {
        match self {
            BatchState::Processing(i) => if i >= count {
                BatchState::Done
            } else if !saved {
                BatchState::SaveFailed
            } else if i + 1 < count {
                BatchState::Processing(i + 1)
            } else {
                BatchState::Done
            },
            BatchState::SaveFailed => BatchState::SaveFailed,
            BatchState::Done => BatchState::Done,
        }
    }
}

} // verus!
