//! The progress store: one state byte per chunk, held in a memory mapping.

use crate::chunk_state::{decode, encode, lemma_decode_encode, ChunkState};
use crate::error::TransferError;
use crate::mapping::{mapped_bytes, mapped_len, mapped_read, mapped_write};
use memmapix::MmapMut;
use vstd::prelude::*;

verus! {

/// The states that a sequence of stored bytes stands for, byte by byte.
pub open spec fn decode_all(bytes: Seq<u8>) -> Seq<ChunkState> {
    Seq::new(bytes.len(), |i: int| decode(bytes[i]))
}

/// A randomly addressable array of chunk states, backed by a mapping that holds
/// one byte for each chunk.
pub struct ChunkMap {
    number_of_chunks: usize,
    mmap: MmapMut,
}

impl View for ChunkMap {
    type V = Seq<ChunkState>;

    /// The state of every chunk, by chunk index.
    open spec fn view(&self) -> Seq<ChunkState> {
        decode_all(self.bytes())
    }
}

impl ChunkMap {
    /// The stored bytes, by chunk index.
    pub closed spec fn bytes(&self) -> Seq<u8> {
        mapped_bytes(self.mmap)
    }

    #[verifier::type_invariant]
    spec fn inv(&self) -> bool {
        self.number_of_chunks == mapped_bytes(self.mmap).len()
    }

    /// Takes a mapping as the store of a transfer of `number_of_chunks` chunks.
    /// The mapping must hold exactly one byte per chunk; its bytes are taken as
    /// they are.
    pub fn open(mmap: MmapMut, number_of_chunks: usize) -> (opened: Result<ChunkMap, TransferError>)
        ensures
            opened is Ok <==> mapped_bytes(mmap).len() == number_of_chunks,
            opened is Ok ==> opened->Ok_0.bytes() == mapped_bytes(mmap),
            opened is Err ==> opened->Err_0 == TransferError::SizeMismatch,
    {
        if mapped_len(&mmap) != number_of_chunks {
            return Err(TransferError::SizeMismatch);
        }
        Ok(ChunkMap { number_of_chunks, mmap })
    }

    /// The number of chunks that the store tracks.
    pub fn number_of_chunks(&self) -> (n: usize)
        ensures
            n == self.bytes().len(),
            n == self@.len(),
    {
        proof {
            use_type_invariant(self);
        }
        self.number_of_chunks
    }

    /// The state of chunk `i`, read from the store.
    pub fn chunk_state(&self, i: usize) -> (state: Result<ChunkState, TransferError>)
        ensures
            i < self@.len() ==> state == Ok::<ChunkState, TransferError>(self@[i as int]),
            i >= self@.len() ==> state == Err::<ChunkState, TransferError>(
                TransferError::OutOfBounds,
            ),
    {
        if i >= self.number_of_chunks() {
            return Err(TransferError::OutOfBounds);
        }
        Ok(ChunkState::from(self.byte_at(i)))
    }

    /// Stores the byte for `s` as the state of chunk `i`. An index at or beyond
    /// the number of chunks is refused and leaves the store as it was.
    pub fn set_chunk_state(&mut self, i: usize, s: ChunkState) -> (stored: Result<
        (),
        TransferError,
    >)
        ensures
            i < old(self).bytes().len() ==> stored is Ok && final(self).bytes() == old(
                self,
            ).bytes().update(i as int, encode(s)),
            i < old(self)@.len() ==> final(self)@ == old(self)@.update(i as int, s),
            i >= old(self).bytes().len() ==> stored == Err::<(), TransferError>(
                TransferError::OutOfBounds,
            ) && final(self).bytes() == old(self).bytes(),
    {
        if i >= self.number_of_chunks() {
            return Err(TransferError::OutOfBounds);
        }
        self.mark(i, s);
        proof {
            lemma_decode_encode(s);
        }
        Ok(())
    }

    /// Stores the byte for `s` as the state of chunk `i`, which the store holds.
    pub(crate) fn mark(&mut self, i: usize, s: ChunkState)
        requires
            i < old(self).bytes().len(),
        ensures
            final(self).bytes() == old(self).bytes().update(i as int, encode(s)),
    {
        proof {
            use_type_invariant(&*self);
        }
        mapped_write(&mut self.mmap, i, u8::from(s));
    }

    /// The indices of the chunks that are in state `wanted`, in ascending order,
    /// as the store holds them at the time of the call.
    pub fn chunks_in_state(&self, wanted: ChunkState) -> (found: Vec<usize>)
        ensures
            found@ == indices_in_state(self@, wanted),
    {
        let n = self.number_of_chunks();
        let mut found: Vec<usize> = Vec::new();
        let mut i: usize = 0;
        while i < n
            invariant
                i <= n,
                n == self@.len(),
                found@ == indices_in_state(self@.take(i as int), wanted),
            decreases n - i,
        {
            let state = ChunkState::from(self.byte_at(i));
            proof {
                assert(self@.take(i + 1).drop_last() == self@.take(i as int));
            }
            if state == wanted {
                found.push(i);
            }
            i = i + 1;
        }
        proof {
            assert(self@.take(n as int) == self@);
        }
        found
    }

    /// Calls `f` on every chunk that is `Todo`, in ascending order of index, and
    /// stops at the first call that fails, handing its error on.
    pub fn for_each_todo<F, E>(&self, f: F) -> (visited: Result<(), E>) where
        F: FnMut(usize, ChunkState) -> Result<(), E>,

        requires
            forall|i: usize|
                i < self@.len() && self@[i as int] == ChunkState::Todo ==> call_requires(
                    f,
                    (i, ChunkState::Todo),
                ),
        ensures
            visited_in_order(self@, ChunkState::Todo, f, visited),
    {
        self.for_each_in_state(ChunkState::Todo, f)
    }

    /// Calls `f` on every chunk that is `InProgress`, in ascending order of index,
    /// and stops at the first call that fails, handing its error on.
    pub fn for_each_inprogress<F, E>(&self, f: F) -> (visited: Result<(), E>) where
        F: FnMut(usize, ChunkState) -> Result<(), E>,

        requires
            forall|i: usize|
                i < self@.len() && self@[i as int] == ChunkState::InProgress ==> call_requires(
                    f,
                    (i, ChunkState::InProgress),
                ),
        ensures
            visited_in_order(self@, ChunkState::InProgress, f, visited),
    {
        self.for_each_in_state(ChunkState::InProgress, f)
    }

    fn for_each_in_state<F, E>(&self, wanted: ChunkState, f: F) -> (visited: Result<(), E>) where
        F: FnMut(usize, ChunkState) -> Result<(), E>,

        requires
            forall|i: usize|
                i < self@.len() && self@[i as int] == wanted ==> call_requires(f, (i, wanted)),
        ensures
            visited_in_order(self@, wanted, f, visited),
    {
        broadcast use vstd::function::group_function_axioms;

        let mut visit = f;
        let n = self.number_of_chunks();
        let mut i: usize = 0;
        while i < n
            invariant
                i <= n,
                n == self@.len(),
                visit == f,
                forall|k: usize|
                    k < self@.len() && self@[k as int] == wanted ==> call_requires(
                        f,
                        (k, wanted),
                    ),
                visited_before(self@, wanted, f, i as int),
            decreases n - i,
        {
            let state = ChunkState::from(self.byte_at(i));
            if state == wanted {
                match visit(i, state) {
                    Ok(unit) => {
                    },
                    Err(e) => {
                        return Err(e);
                    },
                }
            }
            i = i + 1;
        }
        Ok(())
    }

    fn byte_at(&self, i: usize) -> (b: u8)
        requires
            i < self@.len(),
        ensures
            b == self.bytes()[i as int],
            decode(b) == self@[i as int],
    {
        proof {
            use_type_invariant(self);
        }
        mapped_read(&self.mmap, i)
    }
}

/// The indices of the chunks that are in state `wanted`, in ascending order.
pub open spec fn indices_in_state(states: Seq<ChunkState>, wanted: ChunkState) -> Seq<usize>
    decreases states.len(),
{
    if states.len() == 0 {
        Seq::empty()
    } else {
        let before = indices_in_state(states.drop_last(), wanted);
        if states.last() == wanted {
            before.push((states.len() - 1) as usize)
        } else {
            before
        }
    }
}

/// Every chunk below `end` that is in state `wanted` has been visited by `f`
/// with success.
pub open spec fn visited_before<F, E>(
    states: Seq<ChunkState>,
    wanted: ChunkState,
    f: F,
    end: int,
) -> bool where F: FnMut(usize, ChunkState) -> Result<(), E> {
    forall|k: usize|
        k < end && k < states.len() && states[k as int] == wanted ==> call_ensures(
            f,
            (k, wanted),
            Ok::<(), E>(()),
        )
}

/// What a visit of the chunks in state `wanted` comes to. If it succeeded, `f`
/// has succeeded on every such chunk. If it failed, the error is the one that
/// `f` gave for one such chunk, and `f` has succeeded on every such chunk
/// before that one.
pub open spec fn visited_in_order<F, E>(
    states: Seq<ChunkState>,
    wanted: ChunkState,
    f: F,
    visited: Result<(), E>,
) -> bool where F: FnMut(usize, ChunkState) -> Result<(), E> {
    match visited {
        Ok(_) => visited_before(states, wanted, f, states.len() as int),
        Err(e) => exists|k: usize|
            k < states.len() && states[k as int] == wanted && #[trigger] call_ensures(
                f,
                (k, wanted),
                Err::<(), E>(e),
            ) && visited_before(states, wanted, f, k as int),
    }
}

} // verus!
