use om_snapper::geometry::{
    blocks_of_chunk, chunk_count, offset_in_chunk, BlockRange, BLOCKS_PER_CHUNK, BLOCK_SIZE,
    CHUNK_SIZE, MAX_CHUNKS,
};

#[test]
fn the_sizes_are_fixed() {
    assert_eq!(BLOCK_SIZE, 512 * 1024);
    assert_eq!(BLOCKS_PER_CHUNK, 100);
    assert_eq!(CHUNK_SIZE, 52_428_800);
    assert_eq!(CHUNK_SIZE, BLOCK_SIZE * BLOCKS_PER_CHUNK);
    assert_eq!(MAX_CHUNKS, u64::MAX / CHUNK_SIZE);
}

#[test]
fn chunk_count_counts_whole_chunks() {
    assert_eq!(chunk_count(0), 0);
    assert_eq!(chunk_count(CHUNK_SIZE), 1);
    assert_eq!(chunk_count(2 * CHUNK_SIZE), 2);
    assert_eq!(chunk_count(1_073_741_824), 20);
    assert_eq!(chunk_count(8 * 1_073_741_824), 163);
}

#[test]
fn chunk_count_drops_the_remainder() {
    assert_eq!(chunk_count(CHUNK_SIZE - 1), 0);
    assert_eq!(chunk_count(CHUNK_SIZE + 1), 1);
    assert_eq!(chunk_count(2 * CHUNK_SIZE - 1), 1);
    assert_eq!(chunk_count(3 * CHUNK_SIZE + BLOCK_SIZE), 3);
}

#[test]
fn chunk_count_of_the_largest_size() {
    assert_eq!(chunk_count(u64::MAX), 351_843_720_888);
    assert_eq!(chunk_count(u64::MAX), MAX_CHUNKS);
}

#[test]
fn a_chunk_spans_a_hundred_blocks() {
    assert_eq!(blocks_of_chunk(0), Some(BlockRange { first: 0, last: 99 }));
    assert_eq!(blocks_of_chunk(1), Some(BlockRange { first: 100, last: 199 }));
    assert_eq!(blocks_of_chunk(163), Some(BlockRange { first: 16_300, last: 16_399 }));
}

#[test]
fn chunks_beyond_the_addressable_range_have_no_blocks() {
    assert_eq!(
        blocks_of_chunk(MAX_CHUNKS - 1),
        Some(BlockRange { first: 35_184_372_088_700, last: 35_184_372_088_799 })
    );
    assert_eq!(blocks_of_chunk(MAX_CHUNKS), None);
    assert_eq!(blocks_of_chunk(u64::MAX), None);
}

#[test]
fn a_chunk_holds_its_own_blocks_only() {
    assert!(offset_in_chunk(0, 0).is_some());
    assert!(offset_in_chunk(0, 99).is_some());
    assert!(offset_in_chunk(0, 100).is_none());
    assert!(offset_in_chunk(1, 99).is_none());
    assert!(offset_in_chunk(1, 100).is_some());
    assert!(offset_in_chunk(1, 199).is_some());
    assert!(offset_in_chunk(1, 200).is_none());
    assert!(offset_in_chunk(21_474_836, i32::MAX).is_some());
    assert!(offset_in_chunk(21_474_835, i32::MAX).is_none());
}

#[test]
fn a_negative_block_index_lies_in_no_chunk() {
    assert_eq!(offset_in_chunk(0, -1), None);
    assert_eq!(offset_in_chunk(0, i32::MIN), None);
}

#[test]
fn a_chunk_that_cannot_be_addressed_holds_no_block() {
    assert_eq!(offset_in_chunk(MAX_CHUNKS, 5), None);
    assert_eq!(offset_in_chunk(u64::MAX, 5), None);
    assert_eq!(offset_in_chunk(u64::MAX, i32::MAX), None);
}

#[test]
fn a_block_is_written_at_its_index_times_the_block_size() {
    assert_eq!(offset_in_chunk(0, 0), Some(0));
    assert_eq!(offset_in_chunk(0, 1), Some(524_288));
    assert_eq!(offset_in_chunk(1, 100), Some(52_428_800));
    assert_eq!(offset_in_chunk(1, 199), Some(104_333_312));
    assert_eq!(offset_in_chunk(21_474_836, i32::MAX), Some(1_125_899_906_318_336));
}

#[test]
fn the_blocks_of_a_chunk_cover_the_bytes_of_the_chunk() {
    for chunk in [0u64, 1, 2, 17, 1000] {
        let range = blocks_of_chunk(chunk).expect("addressable");
        assert_eq!(range.first * BLOCK_SIZE, chunk * CHUNK_SIZE);
        assert_eq!((range.last + 1) * BLOCK_SIZE, (chunk + 1) * CHUNK_SIZE);
    }
}
