use om_snapper::geometry::BLOCK_SIZE;
use om_snapper::listing::{select_fetches, BlockFetch, ListedBlock};

fn listed(index: i32, token: &str) -> ListedBlock {
    ListedBlock { block_index: Some(index), block_token: Some(token.to_string()) }
}

fn fetch(index: i32, token: &str) -> BlockFetch {
    BlockFetch {
        block_index: index,
        block_token: token.to_string(),
        offset: index as u64 * BLOCK_SIZE,
    }
}

#[test]
fn every_block_of_the_chunk_is_fetched_in_listing_order() {
    let listing = vec![listed(0, "a"), listed(1, "b"), listed(99, "c")];
    let fetches: Vec<BlockFetch> = select_fetches(&listing, 0).into_iter().collect();
    assert_eq!(fetches, vec![fetch(0, "a"), fetch(1, "b"), fetch(99, "c")]);
}

#[test]
fn blocks_beyond_the_chunk_are_dropped() {
    let listing = vec![listed(98, "a"), listed(99, "b"), listed(100, "c"), listed(250, "d")];
    let fetches: Vec<BlockFetch> = select_fetches(&listing, 0).into_iter().collect();
    assert_eq!(fetches, vec![fetch(98, "a"), fetch(99, "b")]);
}

#[test]
fn blocks_before_the_chunk_are_dropped() {
    let listing = vec![listed(99, "a"), listed(100, "b"), listed(199, "c"), listed(200, "d")];
    let fetches: Vec<BlockFetch> = select_fetches(&listing, 1).into_iter().collect();
    assert_eq!(fetches, vec![fetch(100, "b"), fetch(199, "c")]);
}

#[test]
fn the_offset_is_the_block_index_times_the_block_size() {
    let listing = vec![listed(100, "t"), listed(101, "u"), listed(150, "v")];
    let fetches: Vec<BlockFetch> = select_fetches(&listing, 1).into_iter().collect();
    let offsets: Vec<u64> = fetches.iter().map(|f| f.offset).collect();
    assert_eq!(offsets, vec![52_428_800, 52_953_088, 78_643_200]);
}

#[test]
fn entries_without_index_or_token_are_skipped() {
    let listing = vec![
        ListedBlock { block_index: None, block_token: Some("a".to_string()) },
        ListedBlock { block_index: Some(3), block_token: None },
        ListedBlock { block_index: None, block_token: None },
        listed(4, "d"),
    ];
    let fetches: Vec<BlockFetch> = select_fetches(&listing, 0).into_iter().collect();
    assert_eq!(fetches, vec![fetch(4, "d")]);
}

#[test]
fn negative_indices_are_dropped() {
    let listing = vec![listed(-1, "a"), listed(i32::MIN, "b"), listed(0, "c")];
    let fetches: Vec<BlockFetch> = select_fetches(&listing, 0).into_iter().collect();
    assert_eq!(fetches, vec![fetch(0, "c")]);
}

#[test]
fn an_empty_listing_gives_no_fetch() {
    assert!(select_fetches(&Vec::new(), 0).is_empty());
    assert!(select_fetches(&Vec::new(), 12).is_empty());
}

#[test]
fn a_listing_of_another_chunk_gives_no_fetch() {
    let listing = vec![listed(300, "a"), listed(301, "b")];
    assert!(select_fetches(&listing, 0).is_empty());
    assert!(select_fetches(&listing, 2).is_empty());
    assert_eq!(select_fetches(&listing, 3).len(), 2);
}

#[test]
fn the_order_of_the_listing_is_kept_even_when_it_does_not_ascend() {
    let listing = vec![listed(7, "x"), listed(2, "y"), listed(7, "z")];
    let fetches: Vec<BlockFetch> = select_fetches(&listing, 0).into_iter().collect();
    assert_eq!(fetches, vec![fetch(7, "x"), fetch(2, "y"), fetch(7, "z")]);
}

#[test]
fn a_chunk_too_far_for_any_listed_index_gives_no_fetch() {
    let listing = vec![listed(i32::MAX, "a"), listed(0, "b")];
    assert!(select_fetches(&listing, usize::MAX).is_empty());
    let at_the_edge: Vec<BlockFetch> =
        select_fetches(&listing, 21_474_836).into_iter().collect();
    assert_eq!(at_the_edge, vec![fetch(i32::MAX, "a")]);
}
