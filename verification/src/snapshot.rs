//! A snapshot to transfer: its identifier, the two files that belong to it, and
//! the decisions that are taken before and after its transfer.

use crate::error::TransferError;
use crate::geometry::{chunk_count, chunks_in, CHUNK_SIZE};
use crate::remote::Description;
use crate::status::{
    max_image_len, min_image_len, status_of, FileProbe, SizeBounds, SizeCheck, StatusReport,
};
use indicatif::MultiProgress;
use vstd::prelude::*;

verus! {

/// The path of the image file of the snapshot `id`.
pub open spec fn image_path(id: Seq<char>) -> Seq<char> {
    "./"@ + id + ".img"@
}

/// The path of the progress store of the snapshot `id`.
pub open spec fn map_path(id: Seq<char>) -> Seq<char> {
    "./"@ + id + ".omsmap"@
}

/// How the image file is to be opened.
#[derive(Clone, Copy, Debug, PartialEq, Eq, Structural)]
pub enum Destination {
    /// No file exists yet: create it.
    Create,
    /// A file exists and resuming was asked for: open it for writing.
    OpenExisting,
}

/// What a download starts from, once the snapshot's size is known and the image
/// file may be written.
#[derive(Clone, Copy, Debug, PartialEq, Eq, Structural)]
pub struct DownloadPlan {
    /// The length to give the image file.
    pub total_size: u64,
    /// The length to give the progress store.
    pub chunk_count: u64,
    pub destination: Destination,
}

/// The plan for a download, or the reason why there is none: a snapshot that is
/// not found, or found without a size, cannot be downloaded; an image file that
/// exists is only written to when resuming was asked for.
pub open spec fn download_plan(
    resume: bool,
    description: Description,
    destination_exists: bool,
) -> Result<DownloadPlan, TransferError> {
    if !description.found || description.size_bytes is None {
        Err(TransferError::NotFound)
    } else if destination_exists && !resume {
        Err(TransferError::Conflict)
    } else {
        Ok(
            DownloadPlan {
                total_size: description.size_bytes->0,
                chunk_count: chunks_in(description.size_bytes->0 as int) as u64,
                destination: if destination_exists {
                    Destination::OpenExisting
                } else {
                    Destination::Create
                },
            },
        )
    }
}

/// A snapshot as the contracts see it.
pub struct SnapshotView {
    pub id: Seq<char>,
    /// Whether an existing image file may be written to.
    pub resume: bool,
    pub progress: Option<MultiProgress>,
}

/// A snapshot to transfer.
#[derive(Debug)]
pub struct Snapshot {
    id: String,
    progress: Option<MultiProgress>,
    resume: bool,
    image_file: String,
    map_file: String,
}

impl View for Snapshot {
    type V = SnapshotView;

    closed spec fn view(&self) -> SnapshotView {
        SnapshotView { id: self.id@, resume: self.resume, progress: self.progress }
    }
}

impl Snapshot {
    #[verifier::type_invariant]
    spec fn inv(&self) -> bool {
        &&& self.image_file@ == image_path(self.id@)
        &&& self.map_file@ == map_path(self.id@)
    }

    /// A snapshot by its identifier, without a progress sink and without leave to
    /// resume.
    pub fn new(id: &str) -> (snapshot: Snapshot)
        ensures
            snapshot@ == (SnapshotView { id: id@, resume: false, progress: None }),
    {
        let mut image_file = String::from_str("./");
        image_file.append(id);
        image_file.append(".img");
        let mut map_file = String::from_str("./");
        map_file.append(id);
        map_file.append(".omsmap");
        Snapshot { id: String::from_str(id), progress: None, resume: false, image_file, map_file }
    }

    /// Gives leave to write to an image file that already exists.
    pub fn enable_continue(&mut self)
        ensures
            final(self)@ == (SnapshotView { resume: true, ..old(self)@ }),
    {
        proof {
            use_type_invariant(&*self);
        }
        self.resume = true;
    }

    /// Attaches a progress sink.
    pub fn use_progress(&mut self, m: MultiProgress)
        ensures
            final(self)@ == (SnapshotView { progress: Some(m), ..old(self)@ }),
    {
        proof {
            use_type_invariant(&*self);
        }
        self.progress = Some(m);
    }

    /// The identifier of the snapshot.
    pub fn id(&self) -> (id: &str)
        ensures
            id@ == self@.id,
    {
        self.id.as_str()
    }

    /// Whether an existing image file may be written to.
    pub fn continues(&self) -> (resume: bool)
        ensures
            resume == self@.resume,
    {
        self.resume
    }

    /// The progress sink, if one is attached.
    pub fn progress(&self) -> (sink: &Option<MultiProgress>)
        ensures
            *sink == self@.progress,
    {
        &self.progress
    }

    /// The path of the image file: `./`, the identifier, `.img`.
    pub fn image_file(&self) -> (path: &str)
        ensures
            path@ == image_path(self@.id),
    {
        proof {
            use_type_invariant(self);
        }
        self.image_file.as_str()
    }

    /// The path of the progress store: `./`, the identifier, `.omsmap`.
    pub fn map_file(&self) -> (path: &str)
        ensures
            path@ == map_path(self@.id),
    {
        proof {
            use_type_invariant(self);
        }
        self.map_file.as_str()
    }

    /// Says whether what was found of the image file and of the progress store
    /// fits together.
    pub fn status(&self, image: FileProbe, map: FileProbe) -> (report: StatusReport)
        ensures
            report == status_of(image, map),
    {
        let image_len: u64 = match image {
            FileProbe::PlainFile { len } => len,
            _ => 0,
        };
        match map {
            FileProbe::PlainFile { len } => {
                let chunks: u128 = len as u128;
                let min: u128 = chunks * (CHUNK_SIZE as u128);
                let max: u128 = min + (CHUNK_SIZE as u128);
                assert(min == min_image_len(len as int) && max == max_image_len(len as int))
                    by (nonlinear_arith)
                    requires
                        min == len * 52_428_800,
                        max == min + 52_428_800,
                ;
                let size = if (image_len as u128) < min {
                    SizeCheck::TooSmall
                } else if (image_len as u128) < max {
                    SizeCheck::Matches
                } else {
                    SizeCheck::TooBig
                };
                let image_is_plain = match image {
                    FileProbe::PlainFile { .. } => true,
                    _ => false,
                };
                StatusReport {
                    image,
                    map,
                    image_len,
                    bounds: Some(SizeBounds { min, max }),
                    size: Some(size),
                    all_good: image_is_plain && size == SizeCheck::Matches,
                }
            },
            _ => StatusReport { image, map, image_len, bounds: None, size: None, all_good: false },
        }
    }

    /// Checks the content of the image. No check of content is made, so this
    /// succeeds and changes nothing.
    pub fn verify(&mut self) -> (checked: Result<(), TransferError>)
        ensures
            checked is Ok,
            final(self)@ == old(self)@,
    {
        Ok(())
    }

    /// Decides how a download starts, from what the service says of the snapshot
    /// and from whether the image file exists.
    pub fn download(&self, description: Description, destination_exists: bool) -> (plan: Result<
        DownloadPlan,
        TransferError,
    >)
        ensures
            plan == download_plan(self@.resume, description, destination_exists),
    {
        if !description.found {
            return Err(TransferError::NotFound);
        }
        let total_size = match description.size_bytes {
            Some(size) => size,
            None => {
                return Err(TransferError::NotFound);
            },
        };
        if destination_exists && !self.resume {
            return Err(TransferError::Conflict);
        }
        let destination = if destination_exists {
            Destination::OpenExisting
        } else {
            Destination::Create
        };
        Ok(DownloadPlan { total_size, chunk_count: chunk_count(total_size), destination })
    }
}

} // verus!
