//! What the remote service says of a snapshot, as far as a transfer reads it.

use vstd::prelude::*;

verus! {

/// Bytes in one GiB, the unit in which the service reports a volume's size.
pub const GIB: u64 = 1_073_741_824;

/// One snapshot of the service's answer to a query by identifier.
#[derive(Clone, Debug, PartialEq, Eq)]
pub struct SnapshotRecord {
    pub snapshot_id: Option<String>,
    /// The size of the volume in GiB.
    pub volume_size: Option<i32>,
}

/// Whether the service knows a snapshot, and its size in bytes if it reports one.
#[derive(Clone, Copy, Debug, PartialEq, Eq, Structural)]
pub struct Description {
    pub found: bool,
    pub size_bytes: Option<u64>,
}

/// Whether a record is that of the snapshot `id`.
pub open spec fn names(record: SnapshotRecord, id: Seq<char>) -> bool {
    record.snapshot_id is Some && record.snapshot_id->0@ == id
}

/// The first record that is that of the snapshot `id`, if there is one.
pub open spec fn first_named(records: Seq<SnapshotRecord>, id: Seq<char>) -> Option<SnapshotRecord>
    decreases records.len(),
{
    if records.len() == 0 {
        None
    } else if names(records[0], id) {
        Some(records[0])
    } else {
        first_named(records.drop_first(), id)
    }
}

/// A volume's size in bytes. A size that is missing or negative gives none.
pub open spec fn volume_bytes(volume_size: Option<i32>) -> Option<u64> {
    match volume_size {
        Some(gib) => if gib >= 0 {
            Some((gib * GIB) as u64)
        } else {
            None
        },
        None => None,
    }
}

/// What an answer of the service says of the snapshot `id`: it is found if a
/// record names it, and its size is that of the first such record.
pub open spec fn description_of(records: Option<Seq<SnapshotRecord>>, id: Seq<char>) -> Description {
    match records {
        Some(records) => match first_named(records, id) {
            Some(record) => Description { found: true, size_bytes: volume_bytes(record.volume_size) },
            None => Description { found: false, size_bytes: None },
        },
        None => Description { found: false, size_bytes: None },
    }
}

/// The view of an answer that may lack its list of records.
pub open spec fn records_view(records: Option<Vec<SnapshotRecord>>) -> Option<Seq<SnapshotRecord>> {
    match records {
        Some(records) => Some(records@),
        None => None,
    }
}

/// Reads from an answer of the service what it says of the snapshot `id`.
pub fn describe(records: &Option<Vec<SnapshotRecord>>, id: &str) -> (description: Description)
    ensures
        description == description_of(records_view(*records), id@),
{
    let wanted = String::from_str(id);
    match records {
        None => Description { found: false, size_bytes: None },
        Some(list) => {
            let mut i: usize = 0;
            assert(list@.skip(0) == list@);
            while i < list.len()
                invariant
                    i <= list.len(),
                    wanted@ == id@,
                    records_view(*records) == Some(list@),
                    first_named(list@, id@) == first_named(list@.skip(i as int), id@),
                decreases list.len() - i,
            {
                let record = &list[i];
                proof {
                    assert(list@.skip(i as int).drop_first() == list@.skip(i + 1));
                }
                let named = match &record.snapshot_id {
                    Some(snapshot_id) => *snapshot_id == wanted,
                    None => false,
                };
                if named {
                    let size_bytes = match record.volume_size {
                        Some(gib) => if gib >= 0 {
                            Some(gib as u64 * GIB)
                        } else {
                            None
                        },
                        None => None,
                    };
                    return Description { found: true, size_bytes };
                }
                i = i + 1;
            }
            Description { found: false, size_bytes: None }
        },
    }
}

/// A record is found exactly when some record names the snapshot, and the one
/// found is the first that does.
pub proof fn lemma_first_named(records: Seq<SnapshotRecord>, id: Seq<char>)
    ensures
        first_named(records, id) is Some <==> exists|j: int|
            0 <= j < records.len() && names(#[trigger] records[j], id),
        first_named(records, id) is Some ==> exists|j: int|
            {
                &&& 0 <= j < records.len()
                &&& first_named(records, id) == Some(#[trigger] records[j])
                &&& names(records[j], id)
                &&& forall|k: int| 0 <= k < j ==> !names(#[trigger] records[k], id)
            },
    decreases records.len(),
{
    if records.len() > 0 && !names(records[0], id) {
        let rest = records.drop_first();
        lemma_first_named(rest, id);
        if first_named(rest, id) is Some {
            let j = choose|j: int|
                {
                    &&& 0 <= j < rest.len()
                    &&& first_named(rest, id) == Some(#[trigger] rest[j])
                    &&& names(rest[j], id)
                    &&& forall|k: int| 0 <= k < j ==> !names(#[trigger] rest[k], id)
                };
            assert forall|k: int| 0 <= k < j + 1 implies !names(#[trigger] records[k], id) by {
                if k > 0 {
                    assert(records[k] == rest[k - 1]);
                }
            }
        } else {
            assert forall|j: int| 0 <= j < records.len() implies !names(
                #[trigger] records[j],
                id,
            ) by {
                if j > 0 {
                    assert(records[j] == rest[j - 1]);
                }
            }
        }
    }
}

} // verus!
