//! The check of what a transfer has left on disk.
//!
//! The caller looks at the image file and at the progress store and reports
//! what it found of each; the check says whether the two fit together. The
//! store of a transfer holds one byte per whole chunk, so an image that goes
//! with a store of `n` bytes has at least `n` and less than `n + 1` chunks of
//! bytes.

use crate::geometry::{chunks_in, CHUNK_SIZE};
use vstd::prelude::*;

verus! {

/// What was found at a path.
#[derive(Clone, Copy, Debug, PartialEq, Eq, Structural)]
pub enum FileProbe {
    /// Nothing exists there.
    Missing,
    /// Something exists there that is not a plain file.
    NotPlainFile,
    /// A plain file of `len` bytes.
    PlainFile { len: u64 },
}

/// How the length of the image compares with what the progress store asks for.
#[derive(Clone, Copy, Debug, PartialEq, Eq, Structural)]
pub enum SizeCheck {
    TooSmall,
    Matches,
    TooBig,
}

/// The lengths that an image may have for a given progress store: at least
/// `min` bytes and less than `max`.
#[derive(Clone, Copy, Debug, PartialEq, Eq, Structural)]
pub struct SizeBounds {
    pub min: u128,
    pub max: u128,
}

/// The outcome of a status check.
#[derive(Clone, Copy, Debug, PartialEq, Eq, Structural)]
pub struct StatusReport {
    pub image: FileProbe,
    pub map: FileProbe,
    /// The length that the image was taken to have: zero unless it is a plain file.
    pub image_len: u64,
    /// The bounds on the image's length, where the progress store is a plain file.
    pub bounds: Option<SizeBounds>,
    /// The comparison of `image_len` with `bounds`, where there are bounds.
    pub size: Option<SizeCheck>,
    /// Whether both files are plain files and the image's length matches.
    pub all_good: bool,
}

/// The length a probed file is taken to have.
pub open spec fn probed_len(probe: FileProbe) -> int {
    match probe {
        FileProbe::PlainFile { len } => len as int,
        _ => 0,
    }
}

/// The least length of an image whose progress store tracks `chunks` chunks.
pub open spec fn min_image_len(chunks: int) -> int {
    chunks * CHUNK_SIZE
}

/// The least length that is too long for an image whose progress store tracks
/// `chunks` chunks.
pub open spec fn max_image_len(chunks: int) -> int {
    (chunks + 1) * CHUNK_SIZE
}

/// An image of `image_len` bytes against a progress store of `chunks` chunks.
pub open spec fn size_check(image_len: int, chunks: int) -> SizeCheck {
    if image_len < min_image_len(chunks) {
        SizeCheck::TooSmall
    } else if image_len < max_image_len(chunks) {
        SizeCheck::Matches
    } else {
        SizeCheck::TooBig
    }
}

/// The report for what was found of the image file and of the progress store.
pub open spec fn status_of(image: FileProbe, map: FileProbe) -> StatusReport {
    StatusReport {
        image,
        map,
        image_len: probed_len(image) as u64,
        bounds: match map {
            FileProbe::PlainFile { len } => Some(
                SizeBounds {
                    min: min_image_len(len as int) as u128,
                    max: max_image_len(len as int) as u128,
                },
            ),
            _ => None,
        },
        size: match map {
            FileProbe::PlainFile { len } => Some(size_check(probed_len(image), len as int)),
            _ => None,
        },
        all_good: image is PlainFile && map is PlainFile && size_check(
            probed_len(image),
            probed_len(map),
        ) == SizeCheck::Matches,
    }
}

/// The length of an image matches a progress store exactly when the store tracks
/// as many chunks as the image has whole chunks.
pub proof fn lemma_size_matches_chunk_count(image_len: int, chunks: int)
    requires
        0 <= image_len,
    ensures
        size_check(image_len, chunks) == SizeCheck::Matches <==> chunks == chunks_in(image_len),
{
    assert(chunks * 52_428_800 <= image_len < (chunks + 1) * 52_428_800 <==> chunks == image_len
        / 52_428_800) by (nonlinear_arith)
        requires
            0 <= image_len,
    ;
}

} // verus!
