//! Finished transcripts as handed off to storage.
//!
//! A finished session's text is handed to a storage collaborator as a
//! [`TranscriptRecord`] with its metadata. The collaborator owns the files;
//! the record bookkeeping — choosing the next identifier, removing a record,
//! looking one up — is verified here.

use vstd::prelude::*;

verus! {

/// One finished transcript with its metadata, as handed off for storage.
#[derive(Clone, Debug)]
pub struct TranscriptRecord {
    pub id: i64,
    pub content: String,
    pub language: String,
    /// Creation time as the storage collaborator formats it.
    pub created_at: String,
    pub duration_seconds: i32,
}

/// The largest identifier among the records, zero when there are none.
pub open spec fn spec_max_id(records: Seq<TranscriptRecord>) -> int
    decreases records.len(),
{
    if records.len() == 0 {
        0
    } else {
        let rest = spec_max_id(records.drop_last());
        if records.last().id > rest {
            records.last().id as int
        } else {
            rest
        }
    }
}

/// Extends [`spec_max_id`] by one record at the end.
proof fn lemma_max_id_take_succ(records: Seq<TranscriptRecord>, i: int)
    requires
        0 <= i < records.len(),
    ensures
        spec_max_id(records.take(i + 1)) == if records[i].id > spec_max_id(records.take(i)) {
            records[i].id as int
        } else {
            spec_max_id(records.take(i))
        },
{
    let t = records.take(i + 1);
    assert(t.drop_last() =~= records.take(i));
    assert(t.last() == records[i]);
}

/// The identifier for a record about to be saved: one above the largest
/// identifier in use, so one when there are no records yet.
pub fn next_transcript_id(records: &Vec<TranscriptRecord>) -> (id: i64)
    requires
        spec_max_id(records@) < i64::MAX,
    ensures
        id == spec_max_id(records@) + 1,
{
    proof {
        assert(records@.take(0) =~= Seq::<TranscriptRecord>::empty());
    }
    let mut max: i64 = 0;
    let mut i: usize = 0;
    while i < records.len()
        invariant
            i <= records.len(),
            max == spec_max_id(records@.take(i as int)),
            spec_max_id(records@) < i64::MAX,
        decreases records.len() - i,
    {
        proof {
            lemma_max_id_take_succ(records@, i as int);
        }
        if records[i].id > max {
            max = records[i].id;
        }
        i = i + 1;
    }
    proof {
        assert(records@.take(records@.len() as int) =~= records@);
    }
    max + 1
}

/// The records that survive deleting `id`: every record with another
/// identifier, in their original order.
pub fn remove_transcript(records: Vec<TranscriptRecord>, id: i64) -> (remaining: Vec<
    TranscriptRecord,
>)
    ensures
        remaining@ == records@.filter(|r: TranscriptRecord| r.id != id),
{
    let ghost all = records@;
    let ghost pred = |r: TranscriptRecord| r.id != id;
    let mut rest = records;
    let mut remaining: Vec<TranscriptRecord> = Vec::new();
    proof {
        reveal(Seq::filter);
        assert(all.take(0) =~= Seq::<TranscriptRecord>::empty());
        assert(rest@ =~= all.skip(0));
    }
    let ghost mut i: int = 0;
    while rest.len() > 0
        invariant
            0 <= i <= all.len(),
            rest@ == all.skip(i),
            remaining@ == all.take(i).filter(pred),
            pred == (|r: TranscriptRecord| r.id != id),
        decreases rest.len(),
    {
        let record = rest.remove(0);
        proof {
            assert(record == all[i]);
            assert(rest@ =~= all.skip(i + 1));
            reveal(Seq::filter);
            let t = all.take(i + 1);
            assert(t.drop_last() =~= all.take(i));
            assert(t.last() == all[i]);
        }
        if record.id != id {
            remaining.push(record);
        }
        proof {
            i = i + 1;
        }
    }
    proof {
        assert(all.take(all.len() as int) =~= all);
    }
    remaining
}

/// The position of the first record carrying `id`, if any record does.
pub fn find_transcript(records: &Vec<TranscriptRecord>, id: i64) -> (position: Option<usize>)
    ensures
        match position {
            Some(i) => {
                &&& i < records@.len()
                &&& records@[i as int].id == id
                &&& forall|j: int| 0 <= j < i ==> records@[j].id != id
            },
            None => forall|j: int| 0 <= j < records@.len() ==> records@[j].id != id,
        },
{
    let mut i: usize = 0;
    while i < records.len()
        invariant
            i <= records.len(),
            forall|j: int| 0 <= j < i ==> records@[j].id != id,
        decreases records.len() - i,
    {
        if records[i].id == id {
            return Some(i);
        }
        i = i + 1;
    }
    None
}

} // verus!
