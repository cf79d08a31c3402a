//! The progress-reporting sink that a snapshot may carry.
//!
//! The library never draws progress itself. It keeps the sink for the caller,
//! who reports with it while performing the actions of a transfer.

use vstd::prelude::*;

verus! {

/// `indicatif::MultiProgress`, a handle to a set of progress bars. The verifier
/// sees none of its fields; the library only stores the value and hands it back.
#[verifier::external_type_specification]
#[verifier::external_body]
pub struct ExMultiProgress(indicatif::MultiProgress);

} // verus!
