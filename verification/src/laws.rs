//! What holds of the ledger whatever is stamped.

use vstd::prelude::*;
use crate::ledger::{filed, last_stamp, lookup, replayed, stamped, Records};
use crate::record::Stamp;

verus! {

/// Round trip: once `file_hash` is stamped at `timestamp`, the ledger
/// answers for it with that time and with the commitment that binds the two.
pub proof fn lemma_stamp_round_trip(records: Records, file_hash: Seq<char>, timestamp: u64)
    ensures
        lookup(stamped(records, file_hash, timestamp), file_hash) == Stamp::binding(
            file_hash,
            timestamp,
        ),
{
}

/// Isolation: stamping one file hash changes the answer for no other.
pub proof fn lemma_stamp_isolated(
    records: Records,
    file_hash: Seq<char>,
    timestamp: u64,
    other: Seq<char>,
)
    requires
        other != file_hash,
    ensures
        lookup(stamped(records, file_hash, timestamp), other) == lookup(records, other),
{
}

/// Overwriting: a second stamp of `file_hash` leaves the ledger as if the
/// first had never been made, so the earlier record cannot be had back.
pub proof fn lemma_restamp_overwrites(
    records: Records,
    file_hash: Seq<char>,
    first: u64,
    second: u64,
)
    ensures
        stamped(stamped(records, file_hash, first), file_hash, second) == stamped(
            records,
            file_hash,
            second,
        ),
        lookup(stamped(stamped(records, file_hash, first), file_hash, second), file_hash)
            == Stamp::binding(file_hash, second),
{
    assert(stamped(stamped(records, file_hash, first), file_hash, second) =~= stamped(
        records,
        file_hash,
        second,
    ));
}

/// After any history of stamps, the answer for `file_hash` is decided by its
/// last stamp alone; where the history holds none, the answer is what it was
/// before.
pub proof fn lemma_last_stamp_decides(
    records: Records,
    history: Seq<(Seq<char>, u64)>,
    file_hash: Seq<char>,
)
    ensures
        lookup(replayed(records, history), file_hash) == match last_stamp(history, file_hash) {
            Some(timestamp) => Stamp::binding(file_hash, timestamp),
            None => lookup(records, file_hash),
        },
    decreases history.len(),
{
    if history.len() > 0 {
        lemma_last_stamp_decides(records, history.drop_last(), file_hash);
    }
}

/// A file hash that no stamp of `history` names has no last stamp.
pub proof fn lemma_unstamped_has_no_last_stamp(
    history: Seq<(Seq<char>, u64)>,
    file_hash: Seq<char>,
)
    requires
        forall|i: int| 0 <= i < history.len() ==> (#[trigger] history[i]).0 != file_hash,
    ensures
        last_stamp(history, file_hash) is None,
    decreases history.len(),
{
    if history.len() > 0 {
        lemma_unstamped_has_no_last_stamp(history.drop_last(), file_hash);
    }
}

/// Default on a miss: a ledger that started empty answers for a file hash
/// that was never stamped with time zero and an empty commitment.
pub proof fn lemma_miss_is_absent(history: Seq<(Seq<char>, u64)>, file_hash: Seq<char>)
    requires
        forall|i: int| 0 <= i < history.len() ==> (#[trigger] history[i]).0 != file_hash,
    ensures
        lookup(replayed(Records::empty(), history), file_hash) == Stamp::absent(),
{
    lemma_unstamped_has_no_last_stamp(history, file_hash);
    lemma_last_stamp_decides(Records::empty(), history, file_hash);
}

/// Determinism: two ledgers that answer alike for every file hash, and are
/// then given the same history of stamps, still answer alike for every file
/// hash. Two ledgers that both start empty are such a pair.
pub proof fn lemma_same_history_same_answers(
    one: Records,
    other: Records,
    history: Seq<(Seq<char>, u64)>,
)
    requires
        forall|file_hash: Seq<char>| lookup(one, file_hash) == lookup(other, file_hash),
    ensures
        forall|file_hash: Seq<char>|
            lookup(replayed(one, history), file_hash) == lookup(
                replayed(other, history),
                file_hash,
            ),
{
    assert forall|file_hash: Seq<char>|
        lookup(replayed(one, history), file_hash) == lookup(
            replayed(other, history),
            file_hash,
        ) by {
        lemma_last_stamp_decides(one, history, file_hash);
        lemma_last_stamp_decides(other, history, file_hash);
    }
}

/// Among entries with distinct file hashes, the ledger that holds them has
/// a record for exactly their file hashes, and for each the record of its
/// entry.
pub proof fn lemma_filed_distinct(entries: Seq<(Seq<char>, Stamp)>)
    requires
        forall|i: int, j: int| 0 <= i < j < entries.len() ==> entries[i].0 != entries[j].0,
    ensures
        forall|file_hash: Seq<char>|
            filed(entries).contains_key(file_hash) <==> exists|i: int|
                0 <= i < entries.len() && (#[trigger] entries[i]).0 == file_hash,
        forall|i: int|
            0 <= i < entries.len() ==> filed(entries)[(#[trigger] entries[i]).0] == entries[i].1,
    decreases entries.len(),
{
    if entries.len() > 0 {
        let earlier = entries.drop_last();
        let last = entries.len() - 1;
        lemma_filed_distinct(earlier);
        assert forall|file_hash: Seq<char>| filed(entries).contains_key(file_hash) implies exists|
            i: int,
        | 0 <= i < entries.len() && (#[trigger] entries[i]).0 == file_hash by {
            if file_hash == entries[last].0 {
                assert(entries[last].0 == file_hash);
            } else {
                assert(filed(earlier).contains_key(file_hash));
                let i = choose|i: int|
                    0 <= i < earlier.len() && (#[trigger] earlier[i]).0 == file_hash;
                assert(entries[i] == earlier[i]);
            }
        }
        assert forall|i: int| 0 <= i < entries.len() implies filed(entries).contains_key(
            (#[trigger] entries[i]).0,
        ) && filed(entries)[entries[i].0] == entries[i].1 by {
            if i < last {
                assert(earlier[i] == entries[i]);
            }
        }
    }
}

} // verus!
