//! The memory-mapped byte region behind the progress store.
//!
//! Nothing in this file is proved. It declares `memmapix::MmapMut` to the
//! verifier, names the bytes that a mapping holds, and states what the three
//! accesses that the store makes do to those bytes. All of it rests on the
//! mapping being the only writer of its region, which is what the code that
//! creates a file-backed mapping has to vouch for.

use memmapix::MmapMut;
use vstd::prelude::*;

verus! {

/// `memmapix::MmapMut`, a handle to a mutable memory-mapped buffer. The verifier
/// sees none of its fields.
#[verifier::external_type_specification]
#[verifier::external_body]
pub struct ExMmapMut(memmapix::MmapMut);

/// The bytes of a mapping, in address order: what `MmapMut` dereferences to as a
/// `[u8]` slice.
pub uninterp spec fn mapped_bytes(m: MmapMut) -> Seq<u8>;

/// Calls `len` on the slice that `MmapMut::deref` returns. Claimed: the result is
/// the number of mapped bytes.
#[verifier::external_body]
pub(crate) fn mapped_len(m: &MmapMut) -> (n: usize)
    ensures
        n == mapped_bytes(*m).len(),
{
    m.len()
}

/// Indexes the slice that `MmapMut::deref` returns. Claimed: the result is the
/// mapped byte at `i`. The index must be in range, as slice indexing panics
/// otherwise.
#[verifier::external_body]
pub(crate) fn mapped_read(m: &MmapMut, i: usize) -> (b: u8)
    requires
        i < mapped_bytes(*m).len(),
    ensures
        b == mapped_bytes(*m)[i as int],
{
    m[i]
}

/// Stores through the slice that `MmapMut::deref_mut` returns. Claimed: the byte
/// at `i` becomes `b`, and the length and every other byte stay as they were.
/// The index must be in range, as slice indexing panics otherwise; with it in
/// range the store cannot unwind.
#[verifier::external_body]
pub(crate) fn mapped_write(m: &mut MmapMut, i: usize, b: u8)
    requires
        i < mapped_bytes(*old(m)).len(),
    ensures
        mapped_bytes(*final(m)) == mapped_bytes(*old(m)).update(i as int, b),
    no_unwind
{
    m[i] = b;
}

} // verus!
