//! The state of one chunk and its one-byte encoding in the progress store.

use vstd::prelude::*;
use vstd::std_specs::convert::FromSpecImpl;

verus! {

/// What is known about one chunk of a transfer.
#[derive(Clone, Copy, Debug, PartialEq, Eq, Structural, Default)]
pub enum ChunkState {
    /// Never attempted.
    #[default]
    Todo,
    /// A fetch was started and not confirmed complete.
    InProgress,
    /// A fetch was attempted and did not complete.
    Failed,
    /// The stored byte is none of the known encodings.
    Invalid,
    /// Every block of the chunk has been written.
    Done,
}

/// Byte that stands for `Todo`; a freshly created, zero-filled store reads as all `Todo`.
pub const TODO_BYTE: u8 = 0b0000_0000;

/// Byte that stands for `InProgress`.
pub const IN_PROGRESS_BYTE: u8 = 0b0100_0000;

/// Byte that stands for `Failed`.
pub const FAILED_BYTE: u8 = 0b1000_0000;

/// Byte that stands for `Invalid`. It is distinct from every other encoding and is
/// only the canonical member of the many bytes that decode to `Invalid`.
pub const INVALID_BYTE: u8 = 0b1010_1010;

/// Byte that stands for `Done`.
pub const DONE_BYTE: u8 = 0b1111_1111;

/// The byte that a state is stored as.
pub open spec fn encode(state: ChunkState) -> u8 {
    match state {
        ChunkState::Todo => TODO_BYTE,
        ChunkState::InProgress => IN_PROGRESS_BYTE,
        ChunkState::Failed => FAILED_BYTE,
        ChunkState::Invalid => INVALID_BYTE,
        ChunkState::Done => DONE_BYTE,
    }
}

/// The state that a stored byte stands for. Every byte decodes: one that is not a
/// known encoding is `Invalid`.
pub open spec fn decode(byte: u8) -> ChunkState {
    if byte == TODO_BYTE {
        ChunkState::Todo
    } else if byte == IN_PROGRESS_BYTE {
        ChunkState::InProgress
    } else if byte == FAILED_BYTE {
        ChunkState::Failed
    } else if byte == DONE_BYTE {
        ChunkState::Done
    } else {
        ChunkState::Invalid
    }
}

impl From<u8> for ChunkState {
    fn from(u: u8) -> (state: ChunkState)
        ensures
            state == decode(u),
    {
        if u == TODO_BYTE {
            ChunkState::Todo
        } else if u == IN_PROGRESS_BYTE {
            ChunkState::InProgress
        } else if u == FAILED_BYTE {
            ChunkState::Failed
        } else if u == DONE_BYTE {
            ChunkState::Done
        } else {
            ChunkState::Invalid
        }
    }
}

impl FromSpecImpl<u8> for ChunkState {
    open spec fn obeys_from_spec() -> bool {
        true
    }

    open spec fn from_spec(u: u8) -> ChunkState {
        decode(u)
    }
}

impl From<ChunkState> for u8 {
    fn from(cs: ChunkState) -> (byte: u8)
        ensures
            byte == encode(cs),
    {
        match cs {
            ChunkState::Todo => TODO_BYTE,
            ChunkState::InProgress => IN_PROGRESS_BYTE,
            ChunkState::Failed => FAILED_BYTE,
            ChunkState::Invalid => INVALID_BYTE,
            ChunkState::Done => DONE_BYTE,
        }
    }
}

impl FromSpecImpl<ChunkState> for u8 {
    open spec fn obeys_from_spec() -> bool {
        true
    }

    open spec fn from_spec(cs: ChunkState) -> u8 {
        encode(cs)
    }
}

/// Encoding a state and decoding the byte gives the state back, for each of the
/// five states.
pub proof fn lemma_decode_encode(state: ChunkState)
    ensures
        decode(encode(state)) == state,
{
}

/// A byte that is none of the five encodings decodes to `Invalid`.
pub proof fn lemma_decode_unknown_byte(byte: u8)
    requires
        byte != TODO_BYTE,
        byte != IN_PROGRESS_BYTE,
        byte != FAILED_BYTE,
        byte != INVALID_BYTE,
        byte != DONE_BYTE,
    ensures
        decode(byte) == ChunkState::Invalid,
{
}

/// The byte written for a state other than `Invalid` never reads back as `Invalid`.
pub proof fn lemma_encode_never_invalid(state: ChunkState)
    requires
        state != ChunkState::Invalid,
    ensures
        decode(encode(state)) != ChunkState::Invalid,
{
}

/// Two states with the same byte are the same state.
pub proof fn lemma_encode_injective(a: ChunkState, b: ChunkState)
    requires
        encode(a) == encode(b),
    ensures
        a == b,
{
}

} // verus!
