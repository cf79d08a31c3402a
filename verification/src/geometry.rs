//! How the byte range of a transfer is cut into chunks and blocks.
//!
//! A block is the unit of remote fetch, a chunk the unit of progress tracking.
//! Both sizes are fixed for every transfer.

use vstd::prelude::*;

verus! {

/// Bytes in one block: 512 KiB.
pub const BLOCK_SIZE: u64 = 524_288;

/// Blocks in one chunk. The remote listing hands out at least this many entries
/// at a time.
pub const BLOCKS_PER_CHUNK: u64 = 100;

/// Bytes in one chunk.
pub const CHUNK_SIZE: u64 = 52_428_800;

/// The number of chunks whose bytes can all be addressed by a `u64` offset.
pub const MAX_CHUNKS: u64 = 351_843_720_888;

/// The number of whole chunks in a transfer of `total_size` bytes. Bytes beyond
/// the last whole chunk belong to no chunk.
pub open spec fn chunks_in(total_size: int) -> int {
    total_size / (CHUNK_SIZE as int)
}

/// The index of the first block of chunk `chunk`.
pub open spec fn first_block(chunk: int) -> int {
    chunk * BLOCKS_PER_CHUNK
}

/// The index of the last block of chunk `chunk`.
pub open spec fn last_block(chunk: int) -> int {
    first_block(chunk) + BLOCKS_PER_CHUNK - 1
}

/// Whether block `block` is one of the blocks of chunk `chunk`.
pub open spec fn block_in_chunk(block: int, chunk: int) -> bool {
    first_block(chunk) <= block <= last_block(chunk)
}

/// The offset in the image file at which the bytes of block `block` begin.
pub open spec fn block_offset(block: int) -> int {
    block * BLOCK_SIZE
}

/// The number of whole chunks in a transfer of `total_size` bytes.
pub fn chunk_count(total_size: u64) -> (count: u64)
    ensures
        count == chunks_in(total_size as int),
        count * CHUNK_SIZE <= total_size < (count + 1) * CHUNK_SIZE,
        count <= MAX_CHUNKS,
{
    total_size / CHUNK_SIZE
}

/// The blocks of one chunk, from `first` to `last`, both included.
#[derive(Clone, Copy, Debug, PartialEq, Eq, Structural)]
pub struct BlockRange {
    pub first: u64,
    pub last: u64,
}

/// The blocks of a chunk, or `None` for a chunk whose bytes reach beyond what a
/// `u64` offset can address.
pub fn blocks_of_chunk(chunk: u64) -> (range: Option<BlockRange>)
    ensures
        chunk < MAX_CHUNKS <==> range is Some,
        range is Some ==> range->Some_0.first == first_block(chunk as int),
        range is Some ==> range->Some_0.last == last_block(chunk as int),
{
    if chunk >= MAX_CHUNKS {
        return None;
    }
    let first: u64 = chunk * BLOCKS_PER_CHUNK;
    Some(BlockRange { first, last: first + (BLOCKS_PER_CHUNK - 1) })
}

/// The offset in the image file at which a block of a chunk is written, where
/// the block index is as the remote listing reports it; `None` for an index that
/// is not one of the chunk's blocks. A negative index is in no chunk.
pub fn offset_in_chunk(chunk: u64, block_index: i32) -> (offset: Option<u64>)
    ensures
        offset is Some <==> block_in_chunk(block_index as int, chunk as int),
        offset is Some ==> offset->Some_0 == block_offset(block_index as int),
{
    if block_index < 0 {
        return None;
    }
    let block: u64 = block_index as u64;
    match blocks_of_chunk(chunk) {
        Some(range) => {
            if range.first <= block && block <= range.last {
                Some(block * BLOCK_SIZE)
            } else {
                None
            }
        },
        None => None,
    }
}

/// A chunk is as many bytes as its blocks together.
pub proof fn lemma_chunk_size()
    ensures
        CHUNK_SIZE == BLOCK_SIZE * BLOCKS_PER_CHUNK,
        MAX_CHUNKS == u64::MAX / CHUNK_SIZE,
{
}

/// The blocks of chunk `chunk` cover exactly the bytes from `chunk * CHUNK_SIZE`
/// up to, and not including, `(chunk + 1) * CHUNK_SIZE`.
pub proof fn lemma_chunk_byte_range(chunk: int)
    ensures
        block_offset(first_block(chunk)) == chunk * CHUNK_SIZE,
        block_offset(last_block(chunk) + 1) == (chunk + 1) * CHUNK_SIZE,
{
}

/// A block belongs to one chunk only: the one whose index is the block's index
/// divided by the number of blocks in a chunk.
pub proof fn lemma_block_in_one_chunk(block: int, chunk: int)
    requires
        0 <= block,
    ensures
        block_in_chunk(block, chunk) <==> chunk == block / (BLOCKS_PER_CHUNK as int),
{
}

/// Every chunk counted for a transfer lies wholly within the transfer's bytes.
pub proof fn lemma_counted_chunk_within_total(total_size: int, chunk: int)
    requires
        0 <= total_size,
        0 <= chunk < chunks_in(total_size),
    ensures
        block_offset(last_block(chunk) + 1) <= total_size,
{
    lemma_chunk_byte_range(chunk);
    assert((chunk + 1) * 52_428_800 <= (total_size / 52_428_800) * 52_428_800) by (nonlinear_arith)
        requires
            chunk + 1 <= total_size / 52_428_800,
    ;
}

} // verus!
