//! Which blocks of a remote listing are fetched for a chunk, and where each is
//! written.
//!
//! The remote snapshot is sparse: a listing names only the blocks that hold
//! data, and it may run on past the chunk it was asked for. Entries outside the
//! chunk are dropped, and a block that the listing does not name is never
//! fetched, so its bytes in the image file stay as they were.

use crate::geometry::{block_in_chunk, block_offset, offset_in_chunk, BLOCK_SIZE};
use std::collections::VecDeque;
use vstd::prelude::*;

verus! {

/// One entry of a remote block listing, as the service reports it.
#[derive(Clone, Debug, PartialEq, Eq)]
pub struct ListedBlock {
    pub block_index: Option<i32>,
    pub block_token: Option<String>,
}

/// One block to fetch: the index and token to ask the service with, and the
/// offset in the image file at which the bytes are written.
#[derive(Clone, Debug, PartialEq, Eq)]
pub struct BlockFetch {
    pub block_index: i32,
    pub block_token: String,
    pub offset: u64,
}

/// Whether an entry is fetched for chunk `chunk`: it names its block and its
/// token, and the block is one of the chunk's.
pub open spec fn is_wanted(entry: ListedBlock, chunk: int) -> bool {
    &&& entry.block_index is Some
    &&& entry.block_token is Some
    &&& block_in_chunk(entry.block_index->0 as int, chunk)
}

/// The fetch that a wanted entry leads to.
pub open spec fn fetch_of(entry: ListedBlock) -> BlockFetch {
    BlockFetch {
        block_index: entry.block_index->0,
        block_token: entry.block_token->0,
        offset: block_offset(entry.block_index->0 as int) as u64,
    }
}

/// The test that picks the entries wanted for chunk `chunk`.
pub open spec fn wanted_for(chunk: int) -> spec_fn(ListedBlock) -> bool {
    |entry: ListedBlock| is_wanted(entry, chunk)
}

/// The fetches for chunk `chunk`: one for each wanted entry of the listing, in
/// the order of the listing.
pub open spec fn chunk_fetches(listing: Seq<ListedBlock>, chunk: int) -> Seq<BlockFetch> {
    listing.filter(wanted_for(chunk)).map_values(|entry: ListedBlock| fetch_of(entry))
}

/// Picks from a listing the fetches for one chunk.
pub fn select_fetches(listing: &Vec<ListedBlock>, chunk: usize) -> (fetches: VecDeque<BlockFetch>)
    ensures
        fetches@ == chunk_fetches(listing@, chunk as int),
{
    let mut fetches: VecDeque<BlockFetch> = VecDeque::new();
    let mut i: usize = 0;
    while i < listing.len()
        invariant
            i <= listing.len(),
            fetches@ == chunk_fetches(listing@.take(i as int), chunk as int),
        decreases listing.len() - i,
    {
        let entry = &listing[i];
        proof {
            reveal(Seq::filter);
            let longer = listing@.take(i + 1);
            assert(longer.drop_last() == listing@.take(i as int));
            if is_wanted(*entry, chunk as int) {
                assert(chunk_fetches(longer, chunk as int) == chunk_fetches(
                    listing@.take(i as int),
                    chunk as int,
                ).push(fetch_of(*entry)));
            }
        }
        match (&entry.block_index, &entry.block_token) {
            (Some(block_index), Some(block_token)) => {
                match offset_in_chunk(chunk as u64, *block_index) {
                    Some(offset) => {
                        fetches.push_back(
                            BlockFetch {
                                block_index: *block_index,
                                block_token: block_token.clone(),
                                offset,
                            },
                        );
                    },
                    None => {},
                }
            },
            _ => {},
        }
        i = i + 1;
    }
    proof {
        assert(listing@.take(i as int) == listing@);
    }
    fetches
}

/// Every fetch for a chunk comes from an entry of the listing that names a block
/// of that chunk: it carries that entry's index and token, and its offset is the
/// index times the block size.
pub proof fn lemma_fetch_comes_from_listing(listing: Seq<ListedBlock>, chunk: int, k: int)
    requires
        0 <= chunk,
        0 <= k < chunk_fetches(listing, chunk).len(),
    ensures
        exists|j: int|
            0 <= j < listing.len() && is_wanted(#[trigger] listing[j], chunk) && chunk_fetches(
                listing,
                chunk,
            )[k] == fetch_of(listing[j]),
        block_in_chunk(chunk_fetches(listing, chunk)[k].block_index as int, chunk),
        chunk_fetches(listing, chunk)[k].offset as int == block_offset(
            chunk_fetches(listing, chunk)[k].block_index as int,
        ),
{
    let kept = listing.filter(wanted_for(chunk));
    listing.lemma_filter_pred(wanted_for(chunk), k);
    listing.lemma_filter_contains_rev(wanted_for(chunk), kept[k]);
}

/// The image file after `data` has been written at `offset`: the bytes written
/// take the place of what was there, the file grows where they reach beyond its
/// end, and every other byte stays.
pub open spec fn written(image: Seq<u8>, offset: int, data: Seq<u8>) -> Seq<u8> {
    Seq::new(
        if image.len() >= offset + data.len() {
            image.len()
        } else {
            (offset + data.len()) as nat
        },
        |i: int|
            if offset <= i < offset + data.len() {
                data[i - offset]
            } else if i < image.len() {
                image[i]
            } else {
                0u8
            },
    )
}

/// The image file after each of `fetches` has been carried out in turn, where
/// `data` gives the bytes that the service returns for a fetch.
pub open spec fn after_fetches(
    image: Seq<u8>,
    fetches: Seq<BlockFetch>,
    data: spec_fn(BlockFetch) -> Seq<u8>,
) -> Seq<u8>
    decreases fetches.len(),
{
    if fetches.len() == 0 {
        image
    } else {
        written(
            after_fetches(image, fetches.drop_last(), data),
            fetches.last().offset as int,
            data(fetches.last()),
        )
    }
}

/// Carrying out fetches of other blocks leaves the bytes of block `block` as
/// they were, as long as no fetch returns more than a block of bytes.
proof fn lemma_other_fetches_leave_block(
    image: Seq<u8>,
    fetches: Seq<BlockFetch>,
    data: spec_fn(BlockFetch) -> Seq<u8>,
    block: int,
    i: int,
)
    requires
        forall|k: int|
            0 <= k < fetches.len() ==> {
                &&& (#[trigger] fetches[k]).block_index != block
                &&& fetches[k].offset == block_offset(fetches[k].block_index as int)
                &&& data(fetches[k]).len() <= BLOCK_SIZE
            },
        block_offset(block) <= i < block_offset(block + 1),
        0 <= i < image.len(),
    ensures
        image.len() <= after_fetches(image, fetches, data).len(),
        after_fetches(image, fetches, data)[i] == image[i],
    decreases fetches.len(),
{
    if fetches.len() > 0 {
        lemma_other_fetches_leave_block(image, fetches.drop_last(), data, block, i);
    }
}

/// A block that the listing does not offer for a chunk is left alone by the
/// chunk's fetches: whatever the image held in the bytes of that block before,
/// it holds after, so a block that was zero stays zero. This rests on the
/// service returning no more than a block of bytes for a fetch.
pub proof fn lemma_unlisted_block_untouched(
    image: Seq<u8>,
    listing: Seq<ListedBlock>,
    chunk: int,
    data: spec_fn(BlockFetch) -> Seq<u8>,
    block: int,
    i: int,
)
    requires
        0 <= chunk,
        forall|j: int|
            0 <= j < listing.len() && is_wanted(#[trigger] listing[j], chunk)
                ==> listing[j].block_index->0 != block,
        forall|fetch: BlockFetch| (#[trigger] data(fetch)).len() <= BLOCK_SIZE,
        block_offset(block) <= i < block_offset(block + 1),
        0 <= i < image.len(),
    ensures
        image.len() <= after_fetches(image, chunk_fetches(listing, chunk), data).len(),
        after_fetches(image, chunk_fetches(listing, chunk), data)[i] == image[i],
{
    let fetches = chunk_fetches(listing, chunk);
    assert forall|k: int| 0 <= k < fetches.len() implies {
        &&& (#[trigger] fetches[k]).block_index != block
        &&& fetches[k].offset == block_offset(fetches[k].block_index as int)
        &&& data(fetches[k]).len() <= BLOCK_SIZE
    } by {
        lemma_fetch_comes_from_listing(listing, chunk, k);
    }
    lemma_other_fetches_leave_block(image, fetches, data, block, i);
}

} // verus!
