//! The ledger: one record for each file hash that was stamped.

use vstd::prelude::*;
use vstd::hash_map::StringHashMap;
use vstd::string::*;
use crate::audit::{audit_line, audit_text};
use crate::host::block_timestamp;
use crate::laws::lemma_filed_distinct;
use crate::record::{Stamp, TimestampedFile};

verus! {

/// What a ledger holds: the record of each file hash that was stamped.
pub type Records = Map<Seq<char>, Stamp>;

/// What the ledger answers for `file_hash`: its record where it has one, and
/// the record for "never stamped" otherwise.
pub open spec fn lookup(records: Records, file_hash: Seq<char>) -> Stamp {
    if records.contains_key(file_hash) {
        records[file_hash]
    } else {
        Stamp::absent()
    }
}

/// The ledger after `file_hash` was stamped at `timestamp`: the new record
/// takes the place of any earlier one for `file_hash`, and no other record
/// changes.
pub open spec fn stamped(records: Records, file_hash: Seq<char>, timestamp: u64) -> Records {
    records.insert(file_hash, Stamp::binding(file_hash, timestamp))
}

/// The ledger after the stamps of `history` were made on `records`, first
/// to last. A stamp is a file hash and the time at which it was stamped.
pub open spec fn replayed(records: Records, history: Seq<(Seq<char>, u64)>) -> Records
    decreases history.len(),
{
    if history.len() == 0 {
        records
    } else {
        stamped(replayed(records, history.drop_last()), history.last().0, history.last().1)
    }
}

/// The time of the last stamp of `file_hash` in `history`, if there is one.
pub open spec fn last_stamp(history: Seq<(Seq<char>, u64)>, file_hash: Seq<char>) -> Option<u64>
    decreases history.len(),
{
    if history.len() == 0 {
        None
    } else if history.last().0 == file_hash {
        Some(history.last().1)
    } else {
        last_stamp(history.drop_last(), file_hash)
    }
}

/// A list of records, each with the file hash it belongs to, as plain values.
pub open spec fn entry_views(entries: Seq<(String, TimestampedFile)>) -> Seq<(Seq<char>, Stamp)> {
    entries.map_values(|entry: (String, TimestampedFile)| (entry.0@, entry.1@))
}

/// The ledger that holds `entries`, filed first to last: of two entries for
/// one file hash the later one stays.
pub open spec fn filed(entries: Seq<(Seq<char>, Stamp)>) -> Records
    decreases entries.len(),
{
    if entries.len() == 0 {
        Records::empty()
    } else {
        filed(entries.drop_last()).insert(entries.last().0, entries.last().1)
    }
}

/// Whether `listed` names the file hashes of `held`, and each of them once.
spec fn lists(listed: Seq<Seq<char>>, held: Set<Seq<char>>) -> bool {
    &&& listed.no_duplicates()
    &&& forall|file_hash: Seq<char>| listed.contains(file_hash) <==> held.contains(file_hash)
}

/// A list stays complete and free of repetition where a file hash that it
/// lacks is added both to it and to what it lists.
proof fn lemma_lists_one_more(listed: Seq<Seq<char>>, held: Set<Seq<char>>, file_hash: Seq<char>)
    requires
        lists(listed, held),
        !held.contains(file_hash),
    ensures
        lists(listed.push(file_hash), held.insert(file_hash)),
{
    let longer = listed.push(file_hash);
    assert forall|other: Seq<char>| held.insert(file_hash).contains(other) implies longer.contains(
        other,
    ) by {
        if other == file_hash {
            assert(longer[listed.len() as int] == other);
        } else {
            let i = choose|i: int| 0 <= i < listed.len() && listed[i] == other;
            assert(longer[i] == other);
        }
    }
}

/// Entries that follow a list of the file hashes of `records`, each with
/// the record of its file hash, make up `records`.
proof fn lemma_listed_entries_make_records(
    entries: Seq<(Seq<char>, Stamp)>,
    listed: Seq<Seq<char>>,
    records: Records,
)
    requires
        lists(listed, records.dom()),
        entries.len() == listed.len(),
        forall|i: int|
            0 <= i < entries.len() ==> (#[trigger] entries[i]).0 == listed[i] && entries[i].1
                == records[listed[i]],
    ensures
        filed(entries) == records,
        forall|i: int, j: int| 0 <= i < j < entries.len() ==> entries[i].0 != entries[j].0,
{
    lemma_filed_distinct(entries);
    assert forall|file_hash: Seq<char>| records.contains_key(file_hash) implies filed(
        entries,
    ).contains_key(file_hash) by {
        let i = choose|i: int| 0 <= i < listed.len() && listed[i] == file_hash;
        assert(entries[i].0 == file_hash);
    }
    assert(filed(entries) =~= records);
}

/// The timestamping ledger.
///
/// The records are kept in a hash map, which cannot be walked; so that the
/// ledger can still hand out all that it holds, it keeps the file hashes of
/// its records in a list beside the map.
pub struct ProofOfTimestamp {
    records: StringHashMap<TimestampedFile>,
    keys: Vec<String>,
}

impl View for ProofOfTimestamp {
    type V = Records;

    closed spec fn view(&self) -> Records {
        Map::new(
            |file_hash: Seq<char>| self.records@.contains_key(file_hash),
            |file_hash: Seq<char>| self.records@[file_hash]@,
        )
    }
}

impl ProofOfTimestamp {
    /// The file hashes in `keys`, as plain values.
    spec fn listed(&self) -> Seq<Seq<char>> {
        self.keys@.map_values(|key: String| key@)
    }

    /// `keys` names the file hashes of `records`, and each of them once.
    #[verifier::type_invariant]
    spec fn keys_match_records(&self) -> bool {
        lists(self.listed(), self.records@.dom())
    }

    /// Stamps `file_hash` at the time of the host's current block, and hands
    /// back the line that says so, for the caller to log. Which time that is
    /// the host decides; the record and the line agree on it.
    pub fn stamp(&mut self, file_hash: String) -> (line: String)
        ensures
            exists|timestamp: u64|
                {
                    &&& final(self)@ == #[trigger] stamped(old(self)@, file_hash@, timestamp)
                    &&& line@ == audit_text(file_hash@, timestamp)
                },
    {
        let timestamp: u64 = block_timestamp();
        let line = audit_line(file_hash.as_str(), timestamp);
        self.stamp_at(file_hash, timestamp);
        line
    }

    /// Stamps `file_hash` at `timestamp`: files the record that binds the
    /// two, in place of any earlier record for `file_hash`.
    pub fn stamp_at(&mut self, file_hash: String, timestamp: u64)
        ensures
            final(self)@ == stamped(old(self)@, file_hash@, timestamp),
    {
        let record = TimestampedFile::stamped(file_hash.as_str(), timestamp);
        self.insert(file_hash, record);
    }

    /// Files `record` under `file_hash`, in place of any record that was
    /// there.
    pub fn insert(&mut self, file_hash: String, record: TimestampedFile)
        ensures
            final(self)@ == old(self)@.insert(file_hash@, record@),
    {
        proof {
            use_type_invariant(&*self);
        }
        let mut ledger = ProofOfTimestamp::default();
        core::mem::swap(self, &mut ledger);
        let ProofOfTimestamp { mut records, mut keys } = ledger;
        let ghost held = records@.dom();
        let ghost listed = keys@.map_values(|key: String| key@);
        if !records.contains_key(file_hash.as_str()) {
            keys.push(file_hash.clone());
            proof {
                lemma_lists_one_more(listed, held, file_hash@);
                assert(keys@.map_values(|key: String| key@) =~= listed.push(file_hash@));
            }
        }
        records.insert(file_hash, record);
        *self = ProofOfTimestamp { records, keys };
    }

    /// The record of `file_hash`, or the record for "never stamped" where
    /// `file_hash` has none.
    pub fn get_stamp(&self, file_hash: String) -> (record: TimestampedFile)
        ensures
            record@ == lookup(self@, file_hash@),
    {
        match self.records.get(file_hash.as_str()) {
            Some(stamp) => stamp.clone(),
            None => TimestampedFile::default(),
        }
    }

    /// The records of the ledger, each with its file hash and each file hash
    /// once, in no particular order.
    pub fn records(&self) -> (entries: Vec<(String, TimestampedFile)>)
        ensures
            filed(entry_views(entries@)) == self@,
            forall|i: int, j: int|
                0 <= i < j < entries.len() ==> entries[i].0@ != entries[j].0@,
    {
        proof {
            use_type_invariant(self);
        }
        let mut entries: Vec<(String, TimestampedFile)> = Vec::new();
        let mut i: usize = 0;
        while i < self.keys.len()
            invariant
                i <= self.keys.len(),
                entries.len() == i,
                self.keys_match_records(),
                forall|j: int|
                    0 <= j < i ==> {
                        &&& (#[trigger] entries[j]).0@ == self.keys[j]@
                        &&& entries[j].1@ == self.records@[self.keys[j]@]@
                    },
            decreases self.keys.len() - i,
        {
            let key = &self.keys[i];
            assert(self.listed()[i as int] == key@);
            let record = match self.records.get(key.as_str()) {
                Some(record) => record,
                None => unreached(),
            };
            entries.push((key.clone(), record.clone()));
            i += 1;
        }
        proof {
            let views = entry_views(entries@);
            assert forall|i: int| 0 <= i < views.len() implies (#[trigger] views[i]).0
                == self.listed()[i] && views[i].1 == self@[self.listed()[i]] by {
                assert(entries[i].0@ == self.keys[i]@);
            }
            lemma_listed_entries_make_records(views, self.listed(), self@);
            assert forall|i: int, j: int| 0 <= i < j < entries.len() implies entries[i].0@
                != entries[j].0@ by {
                assert(views[i].0 == entries[i].0@ && views[j].0 == entries[j].0@);
            }
        }
        entries
    }

    /// The ledger that holds `entries`, filed first to last.
    pub fn from_records(entries: Vec<(String, TimestampedFile)>) -> (ledger: Self)
        ensures
            ledger@ == filed(entry_views(entries@)),
    {
        let ghost views = entry_views(entries@);
        let mut ledger = ProofOfTimestamp::default();
        for entry in it: entries
            invariant
                views == entry_views(it.seq()),
                ledger@ == filed(views.take(it.index() as int)),
        {
            let ghost done = it.index() as int;
            let (file_hash, record) = entry;
            ledger.insert(file_hash, record);
            assert(views.take(done + 1).drop_last() =~= views.take(done));
        }
        assert(views.take(views.len() as int) =~= views);
        ledger
    }
}

impl Default for ProofOfTimestamp {
    /// The ledger that holds no record.
    fn default() -> (ledger: Self)
        ensures
            ledger@ == Records::empty(),
    {
        ProofOfTimestamp { records: StringHashMap::new(), keys: Vec::new() }
    }
}

} // verus!
