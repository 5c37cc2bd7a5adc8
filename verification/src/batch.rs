//! The records of a batch: from the candidates that came with a call, the
//! records of the batch are gathered once each, in ascending order of
//! identifier.

use std::collections::BTreeMap;
use vstd::prelude::*;
use vstd::seq_lib::seq_to_set_is_finite;
use vstd::set_lib::lemma_subset_equality;
use vstd::std_specs::btree::increasing_seq;
use vstd::std_specs::cmp::OrdSpec;
use vstd::std_specs::iter::IteratorSpec;
use crate::address::{is_derived, is_record_address, record_seeds};
use crate::error::ErrorCode;
use crate::keys::Key;
use crate::state::InvestmentRecord;

verus! {

/// A record that came with a call, and the address at which it is stored.
#[derive(Clone, Copy, Debug, PartialEq, Eq)]
pub struct CandidateRecord {
    /// Address at which the record is stored.
    pub key: Key,
    /// The record.
    pub record: InvestmentRecord,
}

/// Some record of the list has the identifier.
pub open spec fn has_record_id(records: Seq<InvestmentRecord>, record_id: u64) -> bool {
    exists|i: int| 0 <= i < records.len() && #[trigger] records[i].record_id == record_id
}

/// The records stand in strictly ascending order of identifier.
pub open spec fn ascending_by_id(records: Seq<InvestmentRecord>) -> bool {
    forall|i: int, j: int|
        0 <= i < j < records.len() ==> #[trigger] records[i].record_id
            < #[trigger] records[j].record_id
}

/// The number of records with an identifier below `record_id`.
pub open spec fn smaller_ids(records: Seq<InvestmentRecord>, record_id: u64) -> nat {
    records.filter(|record: InvestmentRecord| record.record_id < record_id).len()
}

/// The records with `record` put behind those of a smaller identifier.
pub open spec fn insert_by_id(
    records: Seq<InvestmentRecord>,
    record: InvestmentRecord,
) -> Seq<InvestmentRecord> {
    records.insert(smaller_ids(records, record.record_id) as int, record)
}

/// The records of the batch among the candidates, in ascending order of
/// identifier. Candidates of another batch are passed over; a candidate of
/// the batch must stand at the address derived from its identity, and no
/// identifier may come twice.
pub open spec fn collect_records(
    candidates: Seq<CandidateRecord>,
    investment_id: [u8; 15],
    version: [u8; 4],
    batch_id: u16,
    program_id: Key,
) -> Result<Seq<InvestmentRecord>, ErrorCode>
    decreases candidates.len(),
{
    if candidates.len() == 0 {
        Ok(Seq::empty())
    } else {
        match collect_records(
            candidates.drop_last(),
            investment_id,
            version,
            batch_id,
            program_id,
        ) {
            Err(e) => Err(e),
            Ok(records) => {
                let candidate = candidates.last();
                if candidate.record.batch_id != batch_id {
                    Ok(records)
                } else if !is_derived(
                    candidate.key,
                    record_seeds(
                        investment_id,
                        version,
                        batch_id,
                        candidate.record.record_id,
                        candidate.record.account_id,
                    ),
                    program_id,
                ) {
                    Err(ErrorCode::InvalidRecordPda)
                } else if has_record_id(records, candidate.record.record_id) {
                    Err(ErrorCode::DuplicateRecord)
                } else {
                    Ok(insert_by_id(records, candidate.record))
                }
            },
        }
    }
}

/// In an ascending list, the records below an identifier are those before
/// the first record that is not below it.
proof fn lemma_smaller_ids(records: Seq<InvestmentRecord>, record_id: u64, place: int)
    requires
        0 <= place <= records.len(),
        forall|i: int| 0 <= i < place ==> (#[trigger] records[i]).record_id < record_id,
        forall|i: int|
            place <= i < records.len() ==> (#[trigger] records[i]).record_id >= record_id,
    ensures
        smaller_ids(records, record_id) == place,
    decreases records.len(),
{
    reveal(Seq::filter);
    if records.len() > 0 {
        let rest = records.drop_last();
        if place == records.len() {
            lemma_smaller_ids(rest, record_id, place - 1);
        } else {
            lemma_smaller_ids(rest, record_id, place);
        }
    }
}

/// The map holds the records of the list, each under its identifier, and
/// nothing else.
pub open spec fn indexes(map: Map<u64, InvestmentRecord>, records: Seq<InvestmentRecord>) -> bool {
    &&& forall|record: InvestmentRecord| #[trigger]
        records.contains(record) ==> map.contains_key(record.record_id) && map[record.record_id]
            == record
    &&& forall|id: u64| #[trigger]
        map.contains_key(id) ==> records.contains(map[id]) && map[id].record_id == id
}

/// Keys that a map hands out in increasing order ascend strictly.
proof fn lemma_increasing_keys(keys: Seq<u64>)
    requires
        increasing_seq(keys),
    ensures
        forall|i: int, j: int| 0 <= i < j < keys.len() ==> keys[i] < keys[j],
{
    assert forall|i: int, j: int| 0 <= i < j < keys.len() implies keys[i] < keys[j] by {
        assert(keys[i].cmp_spec(&keys[j]) is Less);
    }
}

/// Two ascending lists of the same records are the same list.
pub proof fn lemma_ascending_lists_agree(
    first: Seq<InvestmentRecord>,
    second: Seq<InvestmentRecord>,
)
    requires
        ascending_by_id(first),
        ascending_by_id(second),
        forall|record: InvestmentRecord| first.contains(record) <==> second.contains(record),
    ensures
        first == second,
    decreases first.len(),
{
    if first.len() == 0 {
        if second.len() > 0 {
            assert(second.contains(second[0]));
        }
        assert(first =~= second);
    } else {
        let last = first.last();
        assert(first.contains(last));
        let place = choose|i: int| 0 <= i < second.len() && second[i] == last;
        if place < second.len() - 1 {
            let beyond = second.last();
            assert(second.contains(beyond));
            let back = choose|i: int| 0 <= i < first.len() && first[i] == beyond;
            assert(second[place].record_id < second[second.len() - 1].record_id);
            if back < first.len() - 1 {
                assert(first[back].record_id < first[first.len() - 1].record_id);
            }
        }
        let head = first.drop_last();
        let other = second.drop_last();
        assert forall|record: InvestmentRecord| head.contains(record) <==> other.contains(
            record,
        ) by {
            if head.contains(record) {
                let i = choose|i: int| 0 <= i < head.len() && head[i] == record;
                assert(first[i] == record);
                assert(first.contains(record));
                assert(first[i].record_id < first[first.len() - 1].record_id);
                let k = choose|k: int| 0 <= k < second.len() && second[k] == record;
                assert(other[k] == record);
            }
            if other.contains(record) {
                let i = choose|i: int| 0 <= i < other.len() && other[i] == record;
                assert(second[i] == record);
                assert(second.contains(record));
                assert(second[i].record_id < second[second.len() - 1].record_id);
                let k = choose|k: int| 0 <= k < first.len() && first[k] == record;
                assert(head[k] == record);
            }
        }
        assert(ascending_by_id(head)) by {
            assert forall|i: int, k: int| 0 <= i < k < head.len() implies (
            #[trigger] head[i]).record_id < (#[trigger] head[k]).record_id by {
                assert(head[i] == first[i] && head[k] == first[k]);
            }
        }
        assert(ascending_by_id(other)) by {
            assert forall|i: int, k: int| 0 <= i < k < other.len() implies (
            #[trigger] other[i]).record_id < (#[trigger] other[k]).record_id by {
                assert(other[i] == second[i] && other[k] == second[k]);
            }
        }
        lemma_ascending_lists_agree(head, other);
        assert(first =~= head.push(last));
        assert(second =~= other.push(last));
    }
}

/// Every record of the map stands under its identifier.
pub open spec fn keyed_by_id(map: Map<u64, InvestmentRecord>) -> bool {
    forall|id: u64| #[trigger] map.contains_key(id) ==> map[id].record_id == id
}

/// The records of a map that holds each under its identifier, in ascending
/// order of identifier.
fn records_in_order(map: &BTreeMap<u64, InvestmentRecord>) -> (ordered: Vec<InvestmentRecord>)
    requires
        keyed_by_id(map@),
    ensures
        ascending_by_id(ordered@),
        ordered@.len() == map@.dom().len(),
        forall|i: int|
            0 <= i < ordered@.len() ==> map@.contains_key((#[trigger] ordered@[i]).record_id)
                && map@[ordered@[i].record_id] == ordered@[i],
        forall|id: u64| #[trigger] map@.contains_key(id) ==> ordered@.contains(map@[id]),
{
    let mut ordered: Vec<InvestmentRecord> = Vec::new();
    let iter = map.iter();
    proof {
        let keys = iter.remaining().map_values(|pair: (&u64, &InvestmentRecord)| *pair.0);
        lemma_increasing_keys(keys);
        assert forall|j: int, k: int| 0 <= j < k < iter.remaining().len() implies *(
        #[trigger] iter.remaining()[j]).0 < *(#[trigger] iter.remaining()[k]).0 by {
            assert(keys[j] == *iter.remaining()[j].0);
            assert(keys[k] == *iter.remaining()[k].0);
        }
    }
    for pair in it: iter
        invariant
            keyed_by_id(map@),
            ordered@.len() == it.index(),
            it.seq().len() == map@.dom().len(),
            forall|j: int| 0 <= j < it.index() ==> #[trigger] ordered@[j] == *it.seq()[j].1,
            forall|j: int|
                0 <= j < it.seq().len() ==> map@.contains_key(*(#[trigger] it.seq()[j]).0)
                    && map@[*it.seq()[j].0] == *it.seq()[j].1,
            forall|j: int, k: int|
                0 <= j < k < it.seq().len() ==> *(#[trigger] it.seq()[j]).0 < *(
                #[trigger] it.seq()[k]).0,
    {
        ordered.push(*pair.1);
    }
    proof {
        lemma_holds_every_record(map@, ordered@);
    }
    ordered
}

/// An ascending list of as many records of a map as the map holds, each
/// under its identifier, holds every record of the map.
proof fn lemma_holds_every_record(map: Map<u64, InvestmentRecord>, ordered: Seq<InvestmentRecord>)
    requires
        map.dom().finite(),
        ordered.len() == map.dom().len(),
        ascending_by_id(ordered),
        forall|i: int|
            0 <= i < ordered.len() ==> map.contains_key((#[trigger] ordered[i]).record_id)
                && map[ordered[i].record_id] == ordered[i],
    ensures
        forall|id: u64| #[trigger] map.contains_key(id) ==> ordered.contains(map[id]),
{
    broadcast use {vstd::set::group_set_axioms, seq_to_set_is_finite};

    let ids = ordered.map_values(|record: InvestmentRecord| record.record_id);
    assert(ids.no_duplicates()) by {
        assert forall|i: int, j: int|
            0 <= i < ids.len() && 0 <= j < ids.len() && i != j implies ids[i] != ids[j] by {
            if i < j {
                assert(ordered[i].record_id < ordered[j].record_id);
            } else {
                assert(ordered[j].record_id < ordered[i].record_id);
            }
        }
    }
    ids.unique_seq_to_set();
    assert(ids.to_set().subset_of(map.dom())) by {
        assert forall|id: u64| ids.to_set().contains(id) implies map.dom().contains(id) by {
            let i = choose|i: int| 0 <= i < ids.len() && ids[i] == id;
            assert(ordered[i].record_id == id);
        }
    }
    lemma_subset_equality(ids.to_set(), map.dom());
    assert forall|id: u64| #[trigger] map.contains_key(id) implies ordered.contains(map[id]) by {
        assert(ids.to_set().contains(id));
        let i = choose|i: int| 0 <= i < ids.len() && ids[i] == id;
        assert(ordered[i] == map[id]);
    }
}

/// Gathers the records of the batch among the candidates, in ascending
/// order of identifier.
pub fn collect_batch_records(
    candidates: &[CandidateRecord],
    investment_id: &[u8; 15],
    version: &[u8; 4],
    batch_id: u16,
    program_id: &Key,
) -> (outcome: Result<Vec<InvestmentRecord>, ErrorCode>)
    ensures
        match outcome {
            Ok(records) => collect_records(
                candidates@,
                *investment_id,
                *version,
                batch_id,
                *program_id,
            ) == Ok::<Seq<InvestmentRecord>, ErrorCode>(records@) && ascending_by_id(records@)
                && records@.len() <= candidates@.len(),
            Err(e) => collect_records(candidates@, *investment_id, *version, batch_id, *program_id)
                == Err::<Seq<InvestmentRecord>, ErrorCode>(e),
        },
{
    let mut record_map: BTreeMap<u64, InvestmentRecord> = BTreeMap::new();
    let ghost mut gathered: Seq<InvestmentRecord> = Seq::empty();
    let mut i: usize = 0;
    while i < candidates.len()
        invariant
            i <= candidates@.len(),
            gathered.len() <= i,
            ascending_by_id(gathered),
            indexes(record_map@, gathered),
            collect_records(
                candidates@.take(i as int),
                *investment_id,
                *version,
                batch_id,
                *program_id,
            ) == Ok::<Seq<InvestmentRecord>, ErrorCode>(gathered),
        decreases candidates@.len() - i,
    {
        let candidate = candidates[i];
        proof {
            assert(candidates@.take(i + 1).drop_last() =~= candidates@.take(i as int));
            assert(candidates@.take(i + 1).last() == candidate);
        }
        if candidate.record.batch_id == batch_id {
            if !is_record_address(
                &candidate.key,
                investment_id,
                version,
                batch_id,
                candidate.record.record_id,
                &candidate.record.account_id,
                program_id,
            ) {
                proof {
                    lemma_collect_error_stays(
                        candidates@,
                        i + 1,
                        *investment_id,
                        *version,
                        batch_id,
                        *program_id,
                    );
                }
                return Err(ErrorCode::InvalidRecordPda);
            }
            proof {
                if has_record_id(gathered, candidate.record.record_id) {
                    let at = choose|at: int|
                        0 <= at < gathered.len() && #[trigger] gathered[at].record_id
                            == candidate.record.record_id;
                    assert(gathered.contains(gathered[at]));
                }
            }
            if record_map.contains_key(&candidate.record.record_id) {
                proof {
                    let held = record_map@[candidate.record.record_id];
                    assert(gathered.contains(held));
                    let at = choose|at: int| 0 <= at < gathered.len() && gathered[at] == held;
                    assert(gathered[at].record_id == candidate.record.record_id);
                    lemma_collect_error_stays(
                        candidates@,
                        i + 1,
                        *investment_id,
                        *version,
                        batch_id,
                        *program_id,
                    );
                }
                return Err(ErrorCode::DuplicateRecord);
            }
            let ghost before = record_map@;
            record_map.insert(candidate.record.record_id, candidate.record);
            proof {
                lemma_insert_by_id(gathered, candidate.record);
                let grown = insert_by_id(gathered, candidate.record);
                assert forall|id: u64| #[trigger]
                    record_map@.contains_key(id) implies grown.contains(record_map@[id])
                    && record_map@[id].record_id == id by {
                    assert(record_map@ == before.insert(
                        candidate.record.record_id,
                        candidate.record,
                    ));
                    if id != candidate.record.record_id {
                        assert(before.contains_key(id));
                        assert(gathered.contains(before[id]));
                        assert(record_map@[id] == before[id]);
                        assert(grown.contains(before[id]));
                    } else {
                        assert(record_map@[id] == candidate.record);
                        assert(grown.contains(candidate.record));
                    }
                }
                assert forall|record: InvestmentRecord| #[trigger]
                    grown.contains(record) implies record_map@.contains_key(record.record_id)
                    && record_map@[record.record_id] == record by {
                    if record != candidate.record {
                        assert(gathered.contains(record));
                        let at = choose|at: int| 0 <= at < gathered.len() && gathered[at] == record;
                        assert(gathered[at].record_id != candidate.record.record_id);
                    }
                }
                gathered = grown;
            }
        }
        i += 1;
    }
    proof {
        assert(candidates@.take(candidates@.len() as int) =~= candidates@);
    }
    let records = records_in_order(&record_map);
    proof {
        assert forall|record: InvestmentRecord| records@.contains(record) <==> gathered.contains(
            record,
        ) by {
            if records@.contains(record) {
                let at = choose|at: int| 0 <= at < records@.len() && records@[at] == record;
                assert(record_map@.contains_key(records@[at].record_id));
            }
            if gathered.contains(record) {
                assert(record_map@.contains_key(record.record_id));
            }
        }
        lemma_ascending_lists_agree(records@, gathered);
    }
    Ok(records)
}

/// Once a candidate is refused, the candidates that follow change nothing.
proof fn lemma_collect_error_stays(
    candidates: Seq<CandidateRecord>,
    upto: int,
    investment_id: [u8; 15],
    version: [u8; 4],
    batch_id: u16,
    program_id: Key,
)
    requires
        0 <= upto <= candidates.len(),
        collect_records(candidates.take(upto), investment_id, version, batch_id, program_id) is Err,
    ensures
        collect_records(candidates, investment_id, version, batch_id, program_id)
            == collect_records(candidates.take(upto), investment_id, version, batch_id, program_id),
    decreases candidates.len() - upto,
{
    if upto < candidates.len() {
        assert(candidates.take(upto + 1).drop_last() =~= candidates.take(upto));
        lemma_collect_error_stays(
            candidates,
            upto + 1,
            investment_id,
            version,
            batch_id,
            program_id,
        );
    } else {
        assert(candidates.take(upto) =~= candidates);
    }
}

/// Putting a record with a new identifier into an ascending list keeps the
/// list ascending and adds the record to it, nothing else.
pub proof fn lemma_insert_by_id(records: Seq<InvestmentRecord>, record: InvestmentRecord)
    requires
        ascending_by_id(records),
        !has_record_id(records, record.record_id),
    ensures
        ascending_by_id(insert_by_id(records, record)),
        insert_by_id(records, record).len() == records.len() + 1,
        insert_by_id(records, record).contains(record),
        forall|other: InvestmentRecord|
            records.contains(other) ==> #[trigger] insert_by_id(records, record).contains(other),
        forall|other: InvestmentRecord| #[trigger]
            insert_by_id(records, record).contains(other) ==> records.contains(other) || other
                == record,
{
    let smaller = |r: InvestmentRecord| r.record_id < record.record_id;
    let place = smaller_ids(records, record.record_id) as int;
    records.lemma_filter_len(smaller);
    let split = lemma_ascending_split(records, record.record_id);
    lemma_smaller_ids(records, record.record_id, split);
    let after = insert_by_id(records, record);
    assert(after =~= records.insert(split, record));
    assert forall|i: int, j: int| 0 <= i < j < after.len() implies #[trigger] after[i].record_id
        < #[trigger] after[j].record_id by {
        if i < split {
            assert(after[i] == records[i]);
        } else if i > split {
            assert(after[i] == records[i - 1]);
        }
        if j < split {
            assert(after[j] == records[j]);
        } else if j > split {
            assert(after[j] == records[j - 1]);
        }
    }
    assert forall|other: InvestmentRecord| after.contains(other) <==> (records.contains(other)
        || other == record) by {
        if after.contains(other) {
            let i = choose|i: int| 0 <= i < after.len() && after[i] == other;
            if i < split {
                assert(records[i] == other);
            } else if i > split {
                assert(records[i - 1] == other);
            }
        }
        if records.contains(other) {
            let i = choose|i: int| 0 <= i < records.len() && records[i] == other;
            if i < split {
                assert(after[i] == other);
            } else {
                assert(after[i + 1] == other);
            }
        }
        if other == record {
            assert(after[split] == other);
        }
    }
}

/// An ascending list without a given identifier splits into the records
/// below it and the records above it.
proof fn lemma_ascending_split(records: Seq<InvestmentRecord>, record_id: u64) -> (split: int)
    requires
        ascending_by_id(records),
        !has_record_id(records, record_id),
    ensures
        0 <= split <= records.len(),
        forall|i: int| 0 <= i < split ==> (#[trigger] records[i]).record_id < record_id,
        forall|i: int| split <= i < records.len() ==> (#[trigger] records[i]).record_id > record_id,
    decreases records.len(),
{
    if records.len() == 0 {
        0
    } else if records.last().record_id < record_id {
        assert forall|i: int| 0 <= i < records.len() implies (#[trigger] records[i]).record_id
            < record_id by {
            if i < records.len() - 1 {
                assert(records[i].record_id < records[records.len() - 1].record_id);
            }
        }
        records.len() as int
    } else {
        let rest = records.drop_last();
        assert(ascending_by_id(rest)) by {
            assert forall|i: int, j: int| 0 <= i < j < rest.len() implies (
            #[trigger] rest[i]).record_id < (#[trigger] rest[j]).record_id by {
                assert(rest[i] == records[i] && rest[j] == records[j]);
            }
        }
        assert(!has_record_id(rest, record_id)) by {
            if has_record_id(rest, record_id) {
                let i = choose|i: int|
                    0 <= i < rest.len() && #[trigger] rest[i].record_id == record_id;
                assert(records[i].record_id == record_id);
            }
        }
        let split = lemma_ascending_split(rest, record_id);
        assert forall|i: int| split <= i < records.len() implies (#[trigger] records[i]).record_id
            > record_id by {
            if i < records.len() - 1 {
                assert(rest[i] == records[i]);
            } else {
                assert(records[i].record_id != record_id);
            }
        }
        assert forall|i: int| 0 <= i < split implies (#[trigger] records[i]).record_id
            < record_id by {
            assert(rest[i] == records[i]);
        }
        split
    }
}

/// The records gathered for a batch are the candidates' records of that
/// batch, each once, in strictly ascending order of identifier.
pub proof fn lemma_collect_records(
    candidates: Seq<CandidateRecord>,
    investment_id: [u8; 15],
    version: [u8; 4],
    batch_id: u16,
    program_id: Key,
)
    requires
        collect_records(candidates, investment_id, version, batch_id, program_id) is Ok,
    ensures
        ({
            let records = collect_records(
                candidates,
                investment_id,
                version,
                batch_id,
                program_id,
            )->Ok_0;
            &&& ascending_by_id(records)
            &&& records.len() <= candidates.len()
            &&& forall|record: InvestmentRecord|
                records.contains(record) <==> record.batch_id == batch_id && exists|i: int|
                    0 <= i < candidates.len() && (#[trigger] candidates[i]).record == record
        }),
    decreases candidates.len(),
{
    let records = collect_records(candidates, investment_id, version, batch_id, program_id)->Ok_0;
    if candidates.len() > 0 {
        let rest = candidates.drop_last();
        let last = candidates.last();
        lemma_collect_records(rest, investment_id, version, batch_id, program_id);
        let gathered = collect_records(rest, investment_id, version, batch_id, program_id)->Ok_0;
        if last.record.batch_id == batch_id {
            lemma_insert_by_id(gathered, last.record);
        }
        assert forall|record: InvestmentRecord|
            records.contains(record) <==> record.batch_id == batch_id && exists|i: int|
                0 <= i < candidates.len() && (#[trigger] candidates[i]).record == record by {
            let listed = exists|i: int|
                0 <= i < candidates.len() && (#[trigger] candidates[i]).record == record;
            let listed_before = exists|i: int|
                0 <= i < rest.len() && (#[trigger] rest[i]).record == record;
            assert(gathered.contains(record) <==> record.batch_id == batch_id && listed_before);
            if listed_before {
                let i = choose|i: int| 0 <= i < rest.len() && (#[trigger] rest[i]).record == record;
                assert(candidates[i].record == record);
                assert(listed);
            }
            if record == last.record {
                assert(candidates[candidates.len() - 1].record == record);
                assert(listed);
            }
            if listed {
                let i = choose|i: int|
                    0 <= i < candidates.len() && (#[trigger] candidates[i]).record == record;
                if i < candidates.len() - 1 {
                    assert(rest[i].record == record);
                    assert(listed_before);
                } else {
                    assert(record == last.record);
                }
            }
            if last.record.batch_id == batch_id {
                assert(records == insert_by_id(gathered, last.record));
                assert(records.contains(record) <==> (gathered.contains(record) || record
                    == last.record));
            } else {
                assert(records == gathered);
            }
        }
    } else {
        assert forall|record: InvestmentRecord| !records.contains(record) by {}
    }
}

} // verus!
