//! The order in which the chunks of a transfer are taken up.
//!
//! Work that an earlier run had begun comes first, then work that was never
//! attempted, each in ascending order of chunk index. Chunks that are done,
//! failed or unreadable are left alone.

use crate::chunk_map::{indices_in_state, ChunkMap};
use crate::chunk_state::ChunkState;
use std::collections::VecDeque;
use vstd::prelude::*;

verus! {

/// The chunks to work on, in order: those `InProgress`, then those `Todo`.
pub open spec fn queued_chunks(states: Seq<ChunkState>) -> Seq<usize> {
    indices_in_state(states, ChunkState::InProgress) + indices_in_state(states, ChunkState::Todo)
}

/// Whether a chunk in this state still has to be fetched.
pub open spec fn is_pending(state: ChunkState) -> bool {
    state == ChunkState::InProgress || state == ChunkState::Todo
}

/// Builds the work queue from what the store holds now.
pub fn work_queue(store: &ChunkMap) -> (queue: VecDeque<usize>)
    ensures
        queue@ == queued_chunks(store@),
{
    let interrupted = store.chunks_in_state(ChunkState::InProgress);
    let untouched = store.chunks_in_state(ChunkState::Todo);
    let mut queue: VecDeque<usize> = VecDeque::new();
    let mut i: usize = 0;
    while i < interrupted.len()
        invariant
            i <= interrupted.len(),
            queue@ == interrupted@.take(i as int),
        decreases interrupted.len() - i,
    {
        queue.push_back(interrupted[i]);
        i = i + 1;
    }
    let mut j: usize = 0;
    while j < untouched.len()
        invariant
            j <= untouched.len(),
            queue@ == interrupted@ + untouched@.take(j as int),
        decreases untouched.len() - j,
    {
        queue.push_back(untouched[j]);
        assert(interrupted@ + untouched@.take(j + 1) == (interrupted@ + untouched@.take(
            j as int,
        )).push(untouched@[j as int]));
        j = j + 1;
    }
    queue
}

/// The indices found for a state are indices of chunks in that state, they
/// ascend strictly, and no chunk in that state is missing from them.
pub proof fn lemma_indices_in_state(states: Seq<ChunkState>, wanted: ChunkState)
    requires
        states.len() <= usize::MAX,
    ensures
        forall|k: int|
            0 <= k < indices_in_state(states, wanted).len() ==> {
                &&& (#[trigger] indices_in_state(states, wanted)[k]) < states.len()
                &&& states[indices_in_state(states, wanted)[k] as int] == wanted
            },
        forall|k: int, l: int|
            0 <= k < l < indices_in_state(states, wanted).len() ==> indices_in_state(
                states,
                wanted,
            )[k] < indices_in_state(states, wanted)[l],
        forall|i: int|
            0 <= i < states.len() && #[trigger] states[i] == wanted ==> indices_in_state(
                states,
                wanted,
            ).contains(i as usize),
    decreases states.len(),
{
    if states.len() > 0 {
        let shorter = states.drop_last();
        let before = indices_in_state(shorter, wanted);
        let found = indices_in_state(states, wanted);
        lemma_indices_in_state(shorter, wanted);
        assert forall|i: int| 0 <= i < states.len() && #[trigger] states[i] == wanted implies found.contains(
            i as usize,
        ) by {
            if i < shorter.len() {
                assert(shorter[i] == wanted);
                let k = choose|k: int| 0 <= k < before.len() && before[k] == i as usize;
                assert(found[k] == i as usize);
            } else {
                assert(found[found.len() - 1] == i as usize);
            }
        }
    }
}

/// What the work queue holds: first the chunks that are `InProgress`, then those
/// that are `Todo`, each group in ascending order, every such chunk once, and no
/// chunk that is `Done`, `Failed` or `Invalid`.
pub proof fn lemma_queued_chunks(states: Seq<ChunkState>)
    requires
        states.len() <= usize::MAX,
    ensures
        queued_chunks(states) == indices_in_state(states, ChunkState::InProgress)
            + indices_in_state(states, ChunkState::Todo),
        forall|k: int|
            0 <= k < queued_chunks(states).len() ==> {
                &&& (#[trigger] queued_chunks(states)[k]) < states.len()
                &&& is_pending(states[queued_chunks(states)[k] as int])
            },
        forall|k: int, l: int|
            0 <= k < l < queued_chunks(states).len() ==> {
                &&& queued_chunks(states)[k] != queued_chunks(states)[l]
                &&& states[queued_chunks(states)[k] as int] == states[queued_chunks(
                    states,
                )[l] as int] ==> queued_chunks(states)[k] < queued_chunks(states)[l]
                &&& states[queued_chunks(states)[l] as int] == ChunkState::InProgress
                    ==> states[queued_chunks(states)[k] as int] == ChunkState::InProgress
            },
        forall|i: int|
            0 <= i < states.len() && is_pending(#[trigger] states[i]) ==> queued_chunks(
                states,
            ).contains(i as usize),
{
    let first = indices_in_state(states, ChunkState::InProgress);
    let second = indices_in_state(states, ChunkState::Todo);
    let queue = queued_chunks(states);
    lemma_indices_in_state(states, ChunkState::InProgress);
    lemma_indices_in_state(states, ChunkState::Todo);
    assert forall|k: int| 0 <= k < queue.len() implies {
        &&& (#[trigger] queue[k]) < states.len()
        &&& k < first.len() ==> states[queue[k] as int] == ChunkState::InProgress
        &&& k >= first.len() ==> states[queue[k] as int] == ChunkState::Todo
    } by {}
    assert forall|i: int| 0 <= i < states.len() && is_pending(#[trigger] states[i]) implies queue.contains(
        i as usize,
    ) by {
        if states[i] == ChunkState::InProgress {
            let k = choose|k: int| 0 <= k < first.len() && first[k] == i as usize;
            assert(queue[k] == i as usize);
        } else {
            let k = choose|k: int| 0 <= k < second.len() && second[k] == i as usize;
            assert(queue[first.len() + k] == i as usize);
        }
    }
}

/// Nothing is queued exactly when no chunk is `InProgress` or `Todo`; so a store
/// whose chunks are all `Done` gives an empty queue.
pub proof fn lemma_nothing_queued(states: Seq<ChunkState>)
    requires
        states.len() <= usize::MAX,
    ensures
        queued_chunks(states).len() == 0 <==> forall|i: int|
            0 <= i < states.len() ==> !is_pending(#[trigger] states[i]),
        (forall|i: int| 0 <= i < states.len() ==> #[trigger] states[i] == ChunkState::Done)
            ==> queued_chunks(states) == Seq::<usize>::empty(),
{
    let queue = queued_chunks(states);
    lemma_queued_chunks(states);
    if queue.len() > 0 {
        assert(is_pending(states[queue[0] as int]));
    }
}

} // verus!
