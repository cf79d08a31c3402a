//! Resumable retrieval of a sparse, block-addressed snapshot into a flat
//! local image file.
//!
//! The crate holds the decisions of a transfer: the byte encoding of a
//! chunk's state, the persistent progress store, the geometry of chunks and
//! blocks, the order in which unfinished chunks are taken up again, and
//! the steps of the transfer itself. Remote calls and file access are left to
//! the caller, who performs the actions that the transfer hands out.

pub mod chunk_map;
pub mod chunk_state;
pub mod error;
pub mod geometry;
pub mod listing;
pub mod mapping;
pub mod progress;
pub mod remote;
pub mod schedule;
pub mod snapshot;
pub mod status;
pub mod transfer;

pub use chunk_map::ChunkMap;
pub use chunk_state::ChunkState;
pub use error::TransferError;
pub use snapshot::Snapshot;
pub use transfer::Transfer;
