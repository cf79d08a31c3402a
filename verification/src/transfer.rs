//! The steps of a transfer.
//!
//! A transfer alternates remote calls and file writes with decisions. The
//! decisions are here: `Transfer::step` takes what has just happened and says
//! what to do next, and keeps the progress store in step with it. The caller
//! performs each action and reports back with the matching event. If an action
//! fails, the caller stops; the chunk then stays `InProgress` in the store and
//! is taken up first by the next run.

use crate::chunk_map::{decode_all, ChunkMap};
use crate::chunk_state::{decode, ChunkState, DONE_BYTE, IN_PROGRESS_BYTE};
use crate::error::TransferError;
use crate::geometry::{
    block_in_chunk, block_offset, chunk_count, chunks_in, first_block, BLOCKS_PER_CHUNK,
};
use crate::listing::{
    chunk_fetches, lemma_fetch_comes_from_listing, select_fetches, BlockFetch, ListedBlock,
};
use crate::schedule::{is_pending, lemma_queued_chunks, queued_chunks, work_queue};
use std::collections::VecDeque;
use vstd::prelude::*;

verus! {

/// What the caller reports to a transfer.
#[derive(Clone, Debug, PartialEq, Eq)]
pub enum Event {
    /// The transfer is to start, or to go on after `Finished`.
    Begin,
    /// The remote listing that was asked for has come.
    Listed(Vec<ListedBlock>),
    /// The block that was asked for has been fetched and written.
    Written,
}

/// What a transfer asks the caller to do.
#[derive(Clone, Debug, PartialEq, Eq)]
pub enum Action {
    /// List the blocks of the snapshot from `starting_block_index` on, at most
    /// `max_results` of them, and report `Listed`.
    List { chunk: usize, starting_block_index: u64, max_results: u64 },
    /// Fetch this block, write its bytes at the offset given, and report `Written`.
    Fetch(BlockFetch),
    /// Nothing is left to do.
    Finished,
}

/// Where a transfer stands between two steps.
pub enum Phase {
    /// No chunk is being worked on.
    Idle,
    /// The listing for `chunk` has been asked for.
    Listing { chunk: usize },
    /// A block of `chunk` is being fetched; `pending` are the fetches after it.
    Writing { chunk: usize, pending: Seq<BlockFetch> },
}

/// A transfer as the contracts see it.
pub struct TransferState {
    /// The number of bytes of the snapshot.
    pub total_size: u64,
    /// The bytes of the progress store.
    pub bytes: Seq<u8>,
    /// The chunks still to be taken up, in order.
    pub queue: Seq<usize>,
    pub phase: Phase,
}

/// Whether a fetch belongs to chunk `chunk` and writes where its block lies.
pub open spec fn well_placed(fetch: BlockFetch, chunk: int) -> bool {
    &&& block_in_chunk(fetch.block_index as int, chunk)
    &&& fetch.offset == block_offset(fetch.block_index as int)
}

impl TransferState {
    /// The chunk being worked on, if any.
    pub open spec fn active(self) -> Option<usize> {
        match self.phase {
            Phase::Idle => None,
            Phase::Listing { chunk } => Some(chunk),
            Phase::Writing { chunk, .. } => Some(chunk),
        }
    }

    /// The state of every chunk.
    pub open spec fn states(self) -> Seq<ChunkState> {
        decode_all(self.bytes)
    }

    /// What holds of the store and the queue at every step: the store has one
    /// byte per chunk of the transfer; the queue names each chunk at most once,
    /// and only chunks of the store that are still `InProgress` or `Todo`; and a
    /// chunk that is `InProgress` or `Todo` is either queued or being worked on.
    pub open spec fn store_and_queue_agree(self) -> bool {
        &&& self.bytes.len() == chunks_in(self.total_size as int)
        &&& self.bytes.len() <= usize::MAX
        &&& self.queue.no_duplicates()
        &&& forall|k: int|
            0 <= k < self.queue.len() ==> {
                &&& (#[trigger] self.queue[k]) < self.bytes.len()
                &&& is_pending(decode(self.bytes[self.queue[k] as int]))
            }
        &&& forall|i: int|
            0 <= i < self.bytes.len() && is_pending(decode(#[trigger] self.bytes[i]))
                ==> self.queue.contains(i as usize) || self.active() == Some(i as usize)
    }

    /// Whether `chunk` can be the chunk being worked on: it is marked
    /// `InProgress` in the store and is no longer queued.
    pub open spec fn holds_active(self, chunk: usize) -> bool {
        &&& chunk < self.bytes.len()
        &&& self.bytes[chunk as int] == IN_PROGRESS_BYTE
        &&& !self.queue.contains(chunk)
    }

    /// The invariant of a transfer.
    pub open spec fn wf(self) -> bool {
        &&& self.store_and_queue_agree()
        &&& match self.phase {
            Phase::Idle => true,
            Phase::Listing { chunk } => self.holds_active(chunk),
            Phase::Writing { chunk, pending } => {
                &&& self.holds_active(chunk)
                &&& forall|k: int|
                    0 <= k < pending.len() ==> well_placed(#[trigger] pending[k], chunk as int)
            },
        }
    }
}

/// Taking up the next chunk: with nothing queued the transfer is finished;
/// otherwise the chunk at the head of the queue leaves it, is marked `InProgress`,
/// and its listing is asked for.
pub open spec fn start_next(s: TransferState) -> (TransferState, Action) {
    if s.queue.len() == 0 {
        (TransferState { phase: Phase::Idle, ..s }, Action::Finished)
    } else {
        let chunk = s.queue[0];
        (
            TransferState {
                bytes: s.bytes.update(chunk as int, IN_PROGRESS_BYTE),
                queue: s.queue.drop_first(),
                phase: Phase::Listing { chunk },
                ..s
            },
            Action::List {
                chunk,
                starting_block_index: first_block(chunk as int) as u64,
                max_results: BLOCKS_PER_CHUNK,
            },
        )
    }
}

/// Going on with chunk `chunk`, of which `pending` are the fetches not yet asked
/// for: the first of them is asked for; with none left the chunk is marked `Done`
/// and the next chunk is taken up.
pub open spec fn advance_chunk(s: TransferState, chunk: usize, pending: Seq<BlockFetch>) -> (
    TransferState,
    Action,
) {
    if pending.len() == 0 {
        start_next(
            TransferState { bytes: s.bytes.update(chunk as int, DONE_BYTE), phase: Phase::Idle, ..s },
        )
    } else {
        (
            TransferState { phase: Phase::Writing { chunk, pending: pending.drop_first() }, ..s },
            Action::Fetch(pending[0]),
        )
    }
}

/// One step of a transfer: the state and the action that follow from a state and
/// an event, or the refusal of an event that the state was not waiting for.
pub open spec fn step(s: TransferState, event: Event) -> Result<
    (TransferState, Action),
    TransferError,
> {
    match (s.phase, event) {
        (Phase::Idle, Event::Begin) => Ok(start_next(s)),
        (Phase::Listing { chunk }, Event::Listed(listing)) => Ok(
            advance_chunk(s, chunk, chunk_fetches(listing@, chunk as int)),
        ),
        (Phase::Writing { chunk, pending }, Event::Written) => Ok(advance_chunk(s, chunk, pending)),
        _ => Err(TransferError::UnexpectedEvent),
    }
}

/// The state in which a transfer over a store begins: everything that the store
/// holds as `InProgress` or `Todo` is queued, and no chunk is being worked on.
pub open spec fn initial_state(total_size: u64, bytes: Seq<u8>) -> TransferState {
    TransferState {
        total_size,
        bytes,
        queue: queued_chunks(decode_all(bytes)),
        phase: Phase::Idle,
    }
}

#[derive(Clone, Copy, Debug, PartialEq, Eq, Structural)]
enum Stage {
    Idle,
    Listing,
    Writing,
}

/// A transfer in progress: the progress store, the queue of chunks still to be
/// taken up, and the chunk and blocks being worked on.
pub struct Transfer {
    total_size: u64,
    store: ChunkMap,
    queue: VecDeque<usize>,
    stage: Stage,
    chunk: usize,
    pending: VecDeque<BlockFetch>,
}

impl View for Transfer {
    type V = TransferState;

    closed spec fn view(&self) -> TransferState {
        TransferState {
            total_size: self.total_size,
            bytes: self.store.bytes(),
            queue: self.queue@,
            phase: match self.stage {
                Stage::Idle => Phase::Idle,
                Stage::Listing => Phase::Listing { chunk: self.chunk },
                Stage::Writing => Phase::Writing { chunk: self.chunk, pending: self.pending@ },
            },
        }
    }
}

impl Transfer {
    /// The invariant of a transfer, which `new` sets up and every step keeps.
    pub open spec fn wf(&self) -> bool {
        self@.wf()
    }

    /// Begins a transfer of `total_size` bytes over a progress store, which must
    /// hold one byte for each whole chunk of the transfer. The work queue is
    /// built from what the store holds.
    pub fn new(store: ChunkMap, total_size: u64) -> (made: Result<Transfer, TransferError>)
        ensures
            made is Ok <==> store@.len() == chunks_in(total_size as int),
            made is Ok ==> made->Ok_0.wf(),
            made is Ok ==> made->Ok_0@ == initial_state(total_size, store.bytes()),
            made is Err ==> made->Err_0 == TransferError::SizeMismatch,
    {
        let count = chunk_count(total_size);
        let n = store.number_of_chunks();
        if n as u64 != count {
            return Err(TransferError::SizeMismatch);
        }
        let queue = work_queue(&store);
        proof {
            lemma_initial_state_wf(total_size, store.bytes());
        }
        Ok(
            Transfer {
                total_size,
                store,
                queue,
                stage: Stage::Idle,
                chunk: 0,
                pending: VecDeque::new(),
            },
        )
    }

    /// Takes one step: given what has just happened, changes the store and the
    /// queue as the step asks and returns what to do next. An event that the
    /// transfer was not waiting for is refused and changes nothing.
    pub fn step(&mut self, event: Event) -> (next: Result<Action, TransferError>)
        requires
            old(self).wf(),
        ensures
            final(self).wf(),
            match step(old(self)@, event) {
                Ok((state, action)) => final(self)@ == state && next == Ok::<
                    Action,
                    TransferError,
                >(action),
                Err(refusal) => final(self)@ == old(self)@ && next == Err::<Action, TransferError>(
                    refusal,
                ),
            },
            next == Ok::<Action, TransferError>(Action::Finished) ==> forall|i: int|
                0 <= i < final(self)@.bytes.len() ==> !is_pending(
                    decode(#[trigger] final(self)@.bytes[i]),
                ),
    {
        proof {
            lemma_step_keeps_wf(self@, event);
            if step(self@, event) is Ok && step(self@, event)->Ok_0.1 == Action::Finished {
                lemma_finished_leaves_nothing_pending(self@, event);
            }
        }
        match event {
            Event::Begin => {
                if self.stage != Stage::Idle {
                    return Err(TransferError::UnexpectedEvent);
                }
                Ok(self.start_next())
            },
            Event::Listed(listing) => {
                if self.stage != Stage::Listing {
                    return Err(TransferError::UnexpectedEvent);
                }
                self.pending = select_fetches(&listing, self.chunk);
                Ok(self.advance_chunk())
            },
            Event::Written => {
                if self.stage != Stage::Writing {
                    return Err(TransferError::UnexpectedEvent);
                }
                Ok(self.advance_chunk())
            },
        }
    }

    /// The progress store of the transfer.
    pub fn store(&self) -> (store: &ChunkMap)
        ensures
            store.bytes() == self@.bytes,
    {
        &self.store
    }

    /// Gives up the transfer and hands back its progress store, as it stands.
    pub fn into_store(self) -> (store: ChunkMap)
        ensures
            store.bytes() == self@.bytes,
    {
        self.store
    }

    /// The number of bytes of the snapshot.
    pub fn total_size(&self) -> (size: u64)
        ensures
            size == self@.total_size,
    {
        self.total_size
    }

    /// The number of chunks that are queued and not yet taken up.
    pub fn queued(&self) -> (waiting: usize)
        ensures
            waiting == self@.queue.len(),
    {
        self.queue.len()
    }

    /// The state without the chunk being worked on.
    spec fn at_rest(&self) -> TransferState {
        TransferState { phase: Phase::Idle, ..self@ }
    }

    fn start_next(&mut self) -> (action: Action)
        requires
            old(self).at_rest().wf(),
        ensures
            (final(self)@, action) == start_next(old(self).at_rest()),
    {
        match self.queue.pop_front() {
            None => {
                self.stage = Stage::Idle;
                Action::Finished
            },
            Some(chunk) => {
                self.store.mark(chunk, ChunkState::InProgress);
                self.stage = Stage::Listing;
                self.chunk = chunk;
                Action::List {
                    chunk,
                    starting_block_index: chunk as u64 * BLOCKS_PER_CHUNK,
                    max_results: BLOCKS_PER_CHUNK,
                }
            },
        }
    }

    fn advance_chunk(&mut self) -> (action: Action)
        requires
            old(self).stage != Stage::Idle,
            old(self).at_rest().store_and_queue_agree_but_for(old(self).chunk),
        ensures
            (final(self)@, action) == advance_chunk(
                old(self).at_rest(),
                old(self).chunk,
                old(self).pending@,
            ),
    {
        match self.pending.pop_front() {
            Some(fetch) => {
                self.stage = Stage::Writing;
                Action::Fetch(fetch)
            },
            None => {
                self.store.mark(self.chunk, ChunkState::Done);
                self.stage = Stage::Idle;
                proof {
                    lemma_done_chunk_leaves_wf(old(self).at_rest(), old(self).chunk);
                }
                self.start_next()
            },
        }
    }
}

impl TransferState {
    /// What holds while `chunk` is being worked on, the phase aside.
    pub open spec fn store_and_queue_agree_but_for(self, chunk: usize) -> bool {
        &&& (TransferState { phase: Phase::Listing { chunk }, ..self }).store_and_queue_agree()
        &&& self.holds_active(chunk)
    }
}

/// A transfer begins in a state that meets its invariant.
pub proof fn lemma_initial_state_wf(total_size: u64, bytes: Seq<u8>)
    requires
        bytes.len() == chunks_in(total_size as int),
        bytes.len() <= usize::MAX,
    ensures
        initial_state(total_size, bytes).wf(),
{
    let s = initial_state(total_size, bytes);
    lemma_queued_chunks(decode_all(bytes));
    assert forall|i: int|
        0 <= i < s.bytes.len() && is_pending(decode(#[trigger] s.bytes[i])) implies s.queue.contains(
        i as usize,
    ) by {
        assert(decode_all(bytes)[i] == decode(bytes[i]));
    }
}

/// Marking the chunk being worked on as `Done` leaves a state, with no chunk
/// being worked on, that meets the invariant.
proof fn lemma_done_chunk_leaves_wf(s: TransferState, chunk: usize)
    requires
        s.store_and_queue_agree_but_for(chunk),
    ensures
        (TransferState {
            bytes: s.bytes.update(chunk as int, DONE_BYTE),
            phase: Phase::Idle,
            ..s
        }).wf(),
{
}

/// Taking up the next chunk keeps the invariant.
proof fn lemma_start_next_keeps_wf(s: TransferState)
    requires
        s.wf(),
        s.phase is Idle,
    ensures
        start_next(s).0.wf(),
{
    if s.queue.len() > 0 {
        let chunk = s.queue[0];
        let next = start_next(s).0;
        assert forall|i: int|
            0 <= i < next.bytes.len() && is_pending(
                decode(#[trigger] next.bytes[i]),
            ) implies next.queue.contains(i as usize) || next.active() == Some(i as usize) by {
            if i != chunk {
                let k = choose|k: int| 0 <= k < s.queue.len() && s.queue[k] == i as usize;
                assert(next.queue[k - 1] == i as usize);
            }
        }
    }
}

/// Going on with the chunk being worked on keeps the invariant.
proof fn lemma_advance_chunk_keeps_wf(s: TransferState, chunk: usize, pending: Seq<BlockFetch>)
    requires
        s.store_and_queue_agree_but_for(chunk),
        forall|k: int| 0 <= k < pending.len() ==> well_placed(#[trigger] pending[k], chunk as int),
    ensures
        advance_chunk(s, chunk, pending).0.wf(),
{
    if pending.len() == 0 {
        lemma_done_chunk_leaves_wf(s, chunk);
        lemma_start_next_keeps_wf(
            TransferState { bytes: s.bytes.update(chunk as int, DONE_BYTE), phase: Phase::Idle, ..s },
        );
    }
}

/// Every step keeps the invariant of a transfer.
pub proof fn lemma_step_keeps_wf(s: TransferState, event: Event)
    requires
        s.wf(),
    ensures
        step(s, event) is Ok ==> step(s, event)->Ok_0.0.wf(),
{
    match (s.phase, event) {
        (Phase::Idle, Event::Begin) => {
            lemma_start_next_keeps_wf(s);
        },
        (Phase::Listing { chunk }, Event::Listed(listing)) => {
            let pending = chunk_fetches(listing@, chunk as int);
            assert forall|k: int| 0 <= k < pending.len() implies well_placed(
                #[trigger] pending[k],
                chunk as int,
            ) by {
                lemma_fetch_comes_from_listing(listing@, chunk as int, k);
            }
            lemma_advance_chunk_keeps_wf(s, chunk, pending);
        },
        (Phase::Writing { chunk, pending }, Event::Written) => {
            lemma_advance_chunk_keeps_wf(s, chunk, pending);
        },
        _ => {},
    }
}

/// When a step ends in `Finished`, no chunk of the store is left `InProgress` or
/// `Todo`.
pub proof fn lemma_finished_leaves_nothing_pending(s: TransferState, event: Event)
    requires
        s.wf(),
        step(s, event) is Ok,
        step(s, event)->Ok_0.1 == Action::Finished,
    ensures
        forall|i: int|
            0 <= i < step(s, event)->Ok_0.0.bytes.len() ==> !is_pending(
                decode(#[trigger] step(s, event)->Ok_0.0.bytes[i]),
            ),
{
    lemma_step_keeps_wf(s, event);
}

/// A step changes the state of no chunk that is `Done`, `Failed` or `Invalid`:
/// whatever is not `InProgress` or `Todo` stays as it is.
pub proof fn lemma_step_leaves_settled_chunks(s: TransferState, event: Event, i: int)
    requires
        s.wf(),
        step(s, event) is Ok,
        0 <= i < s.bytes.len(),
        !is_pending(decode(s.bytes[i])),
    ensures
        step(s, event)->Ok_0.0.bytes.len() == s.bytes.len(),
        step(s, event)->Ok_0.0.bytes[i] == s.bytes[i],
{
    match (s.phase, event) {
        (Phase::Listing { chunk }, Event::Listed(listing)) => {
            lemma_advance_leaves_settled_chunks(s, chunk, chunk_fetches(listing@, chunk as int), i);
        },
        (Phase::Writing { chunk, pending }, Event::Written) => {
            lemma_advance_leaves_settled_chunks(s, chunk, pending, i);
        },
        _ => {},
    }
}

proof fn lemma_advance_leaves_settled_chunks(
    s: TransferState,
    chunk: usize,
    pending: Seq<BlockFetch>,
    i: int,
)
    requires
        s.store_and_queue_agree(),
        s.holds_active(chunk),
        0 <= i < s.bytes.len(),
        !is_pending(decode(s.bytes[i])),
    ensures
        advance_chunk(s, chunk, pending).0.bytes.len() == s.bytes.len(),
        advance_chunk(s, chunk, pending).0.bytes[i] == s.bytes[i],
{
}

/// A transfer over a store whose chunks are all `Done` finishes at its first
/// step: nothing is queued, no listing and no block is asked for, and the store
/// stays as it is.
pub proof fn lemma_completed_transfer_finishes_at_once(total_size: u64, bytes: Seq<u8>)
    requires
        bytes.len() <= usize::MAX,
        forall|i: int| 0 <= i < bytes.len() ==> decode(#[trigger] bytes[i]) == ChunkState::Done,
    ensures
        initial_state(total_size, bytes).queue.len() == 0,
        step(initial_state(total_size, bytes), Event::Begin) == Ok::<
            (TransferState, Action),
            TransferError,
        >((initial_state(total_size, bytes), Action::Finished)),
{
    crate::schedule::lemma_nothing_queued(decode_all(bytes));
}

/// The state and the actions that a run of events leads to, each event taken in
/// turn; `None` if one of them is refused.
pub open spec fn run(s: TransferState, events: Seq<Event>) -> Option<(TransferState, Seq<Action>)>
    decreases events.len(),
{
    if events.len() == 0 {
        Some((s, Seq::empty()))
    } else {
        match run(s, events.drop_last()) {
            Some((reached, actions)) => match step(reached, events.last()) {
                Ok((next, action)) => Some((next, actions.push(action))),
                Err(_) => None,
            },
            None => None,
        }
    }
}

/// The events that the work on one chunk reports: the listing, then `Written`
/// once for each fetch of the chunk.
pub open spec fn chunk_events(listing: Vec<ListedBlock>, chunk: usize) -> Seq<Event> {
    seq![Event::Listed(listing)] + Seq::new(
        chunk_fetches(listing@, chunk as int).len(),
        |k: int| Event::Written,
    )
}

/// The state in which the work on `chunk` has ended: the chunk is marked `Done`
/// and no chunk is being worked on.
pub open spec fn chunk_done(s: TransferState, chunk: usize) -> TransferState {
    TransferState { bytes: s.bytes.update(chunk as int, DONE_BYTE), phase: Phase::Idle, ..s }
}

/// The first `m + 1` events of a chunk lead to the first `m + 1` fetches of the
/// chunk, with the rest of them pending.
proof fn lemma_chunk_run_begins(s: TransferState, listing: Vec<ListedBlock>, chunk: usize, m: int)
    requires
        s.phase == (Phase::Listing { chunk }),
        0 <= m < chunk_fetches(listing@, chunk as int).len(),
    ensures
        run(s, chunk_events(listing, chunk).take(m + 1)) == Some(
            (
                TransferState {
                    phase: Phase::Writing {
                        chunk,
                        pending: chunk_fetches(listing@, chunk as int).skip(m + 1),
                    },
                    ..s
                },
                chunk_fetches(listing@, chunk as int).take(m + 1).map_values(
                    |fetch: BlockFetch| Action::Fetch(fetch),
                ),
            ),
        ),
    decreases m,
{
    let fetches = chunk_fetches(listing@, chunk as int);
    let events = chunk_events(listing, chunk);
    let begun = events.take(m + 1);
    let asked = |fetch: BlockFetch| Action::Fetch(fetch);
    assert(begun.drop_last() == events.take(m));
    if m == 0 {
        assert(Seq::<Action>::empty().push(Action::Fetch(fetches[0])) == fetches.take(1).map_values(
            asked,
        ));
    } else {
        lemma_chunk_run_begins(s, listing, chunk, m - 1);
        assert(fetches.skip(m).drop_first() == fetches.skip(m + 1));
        assert(fetches.take(m).map_values(asked).push(Action::Fetch(fetches[m])) == fetches.take(
            m + 1,
        ).map_values(asked));
    }
}

/// The work on one chunk, from its listing to its end: each fetch of the chunk
/// is asked for, in the order of the listing and nothing besides; then the
/// chunk is marked `Done` and the next chunk is taken up.
pub proof fn lemma_chunk_runs_to_done(s: TransferState, listing: Vec<ListedBlock>, chunk: usize)
    requires
        s.phase == (Phase::Listing { chunk }),
    ensures
        run(s, chunk_events(listing, chunk)) == Some(
            (
                start_next(chunk_done(s, chunk)).0,
                chunk_fetches(listing@, chunk as int).map_values(
                    |fetch: BlockFetch| Action::Fetch(fetch),
                ).push(start_next(chunk_done(s, chunk)).1),
            ),
        ),
        s.wf() ==> start_next(chunk_done(s, chunk)).0.bytes[chunk as int] == DONE_BYTE,
{
    let fetches = chunk_fetches(listing@, chunk as int);
    let events = chunk_events(listing, chunk);
    let asked = |fetch: BlockFetch| Action::Fetch(fetch);
    let n = fetches.len() as int;
    if n == 0 {
    } else {
        lemma_chunk_run_begins(s, listing, chunk, n - 1);
    }
    if s.wf() && s.queue.len() > 0 {
    }
}

} // verus!
