//! The record store: a table from entity identifier to the ordered history
//! of that entity's interaction records.
//!
//! The store is an owned value with exclusive-access semantics; the runtime
//! that shares one store between callers wraps it in a lock and surfaces
//! lock failures itself, so every operation here is total on its inputs.
//! Its abstract view is a [`Map`] from identifier characters to record
//! sequences.

use crate::decimal::{dec_str_i64, dec_str_u64, i64_to_string, u64_to_string};
use crate::fixed::SCALE;
use vstd::prelude::*;
use vstd::string::StringExecFns;

verus! {

/// One interaction record: an immutable historical fact once written.
///
/// `valence` and `arousal` are fixed-point millionths; `past_time` is the
/// caller-supplied recency measure (larger means further in the past), in
/// caller-defined units that must stay consistent within one entity.
#[derive(Debug)]
pub struct MemoryRecord {
    pub id: String,
    pub source_id: String,
    pub text: String,
    pub valence: i64,
    pub arousal: i64,
    pub past_time: u64,
}

impl MemoryRecord {
    /// Both emotion components lie in the valid range.  The raw insert
    /// path does not re-check this: its callers are trusted to pre-clamp.
    pub open spec fn valid(self) -> bool {
        &&& -SCALE <= self.valence <= SCALE
        &&& -SCALE <= self.arousal <= SCALE
    }

    /// What bulk import demands of a candidate record: a non-empty
    /// identifier and emotion components in range.
    pub open spec fn import_valid(self) -> bool {
        self.valid() && self.id@.len() > 0
    }
}

impl Clone for MemoryRecord {
    fn clone(&self) -> (res: Self)
        ensures
            res == *self,
    {
        MemoryRecord {
            id: self.id.clone(),
            source_id: self.source_id.clone(),
            text: self.text.clone(),
            valence: self.valence,
            arousal: self.arousal,
            past_time: self.past_time,
        }
    }
}

/// The history of one entity under a map, or the empty history for an
/// entity the map does not know.
pub open spec fn records_of(m: Map<Seq<char>, Seq<MemoryRecord>>, k: Seq<char>) -> Seq<
    MemoryRecord,
> {
    if m.contains_key(k) {
        m[k]
    } else {
        Seq::empty()
    }
}

/// The records of `rs` attributed to source `src`, in their original order.
pub open spec fn filter_by_source(rs: Seq<MemoryRecord>, src: Seq<char>) -> Seq<MemoryRecord>
    decreases rs.len(),
{
    if rs.len() == 0 {
        Seq::empty()
    } else {
        let rest = filter_by_source(rs.drop_last(), src);
        if rs.last().source_id@ == src {
            rest.push(rs.last())
        } else {
            rest
        }
    }
}

/// Why a bulk import was rejected, carrying the offending record's
/// identity and field as structured data.
#[derive(Debug)]
pub enum ImportError {
    EmptyId { index: usize },
    InvalidValence { id: String, valence: i64 },
    InvalidArousal { id: String, arousal: i64 },
}

impl ImportError {
    /// The rendered message for this rejection.
    pub open spec fn message_spec(self) -> Seq<char> {
        match self {
            ImportError::EmptyId { index } => "Record at index "@ + dec_str_u64(index as int)
                + " has empty ID"@,
            ImportError::InvalidValence { id, valence } => "Record "@ + id@
                + " has invalid valence: "@ + dec_str_i64(valence as int)
                + " millionths (must be between -1000000 and 1000000)"@,
            ImportError::InvalidArousal { id, arousal } => "Record "@ + id@
                + " has invalid arousal: "@ + dec_str_i64(arousal as int)
                + " millionths (must be between -1000000 and 1000000)"@,
        }
    }

    /// Render the rejection as a human-readable message.
    pub fn message(&self) -> (r: String)
        ensures
            r@ == self.message_spec(),
    {
        match self {
            ImportError::EmptyId { index } => String::from_str("Record at index ").concat(
                u64_to_string(*index as u64).as_str(),
            ).concat(" has empty ID"),
            ImportError::InvalidValence { id, valence } => String::from_str("Record ").concat(
                id.as_str(),
            ).concat(" has invalid valence: ").concat(i64_to_string(*valence).as_str()).concat(
                " millionths (must be between -1000000 and 1000000)",
            ),
            ImportError::InvalidArousal { id, arousal } => String::from_str("Record ").concat(
                id.as_str(),
            ).concat(" has invalid arousal: ").concat(i64_to_string(*arousal).as_str()).concat(
                " millionths (must be between -1000000 and 1000000)",
            ),
        }
    }
}

/// The rejection that a candidate record at position `index` earns, with
/// an empty identifier reported before an out-of-range component and
/// valence checked before arousal.
pub open spec fn import_error_for(r: MemoryRecord, index: int) -> ImportError {
    if r.id@.len() == 0 {
        ImportError::EmptyId { index: index as usize }
    } else if !(-SCALE <= r.valence <= SCALE) {
        ImportError::InvalidValence { id: r.id, valence: r.valence }
    } else {
        ImportError::InvalidArousal { id: r.id, arousal: r.arousal }
    }
}

struct StoreEntry {
    npc_id: String,
    records: Vec<MemoryRecord>,
}

/// Relies on str's `PartialEq` implementation: two string slices compare
/// equal exactly when their character sequences are equal.
#[verifier::external_body]
pub(crate) fn str_eq(a: &str, b: &str) -> (r: bool)
    ensures
        r == (a@ == b@),
{
    a == b
}

/// The concurrency-safe table from entity identifier to record history.
pub struct MemoryStore {
    entries: Vec<StoreEntry>,
}

impl View for MemoryStore {
    type V = Map<Seq<char>, Seq<MemoryRecord>>;

    closed spec fn view(&self) -> Map<Seq<char>, Seq<MemoryRecord>> {
        MemoryStore::entries_map(self.entries@)
    }
}

impl MemoryStore {
    spec fn entries_map(s: Seq<StoreEntry>) -> Map<Seq<char>, Seq<MemoryRecord>>
        decreases s.len(),
    {
        if s.len() == 0 {
            Map::empty()
        } else {
            Self::entries_map(s.drop_last()).insert(s.last().npc_id@, s.last().records@)
        }
    }

    spec fn unique_keys(s: Seq<StoreEntry>) -> bool {
        forall|i: int, j: int|
            0 <= i < j < s.len() ==> #[trigger] s[i].npc_id@ != #[trigger] s[j].npc_id@
    }

    /// The store's internal well-formedness: one entry per entity, every
    /// stored record pre-clamped into the valid range.
    pub closed spec fn wf(&self) -> bool {
        &&& Self::unique_keys(self.entries@)
        &&& forall|i: int, j: int|
            0 <= i < self.entries@.len() && 0 <= j < self.entries@[i].records@.len()
                ==> (#[trigger] self.entries@[i].records@[j]).valid()
    }

    /// With unique keys, the map built from the entries is characterised
    /// entry by entry.
    proof fn lemma_entries_map(s: Seq<StoreEntry>)
        requires
            Self::unique_keys(s),
        ensures
            forall|k: Seq<char>|
                #[trigger] Self::entries_map(s).contains_key(k) <==> exists|i: int|
                    0 <= i < s.len() && #[trigger] s[i].npc_id@ == k,
            forall|i: int|
                0 <= i < s.len() ==> Self::entries_map(s)[#[trigger] s[i].npc_id@]
                    == s[i].records@,
        decreases s.len(),
    {
        if s.len() > 0 {
            let s0 = s.drop_last();
            assert(Self::unique_keys(s0));
            Self::lemma_entries_map(s0);
            assert forall|k: Seq<char>| #[trigger]
                Self::entries_map(s).contains_key(k) implies exists|i: int|
                0 <= i < s.len() && #[trigger] s[i].npc_id@ == k by {
                if k == s.last().npc_id@ {
                    assert(s[s.len() - 1].npc_id@ == k);
                } else {
                    assert(Self::entries_map(s0).contains_key(k));
                    let i = choose|i: int| 0 <= i < s0.len() && #[trigger] s0[i].npc_id@ == k;
                    assert(s[i].npc_id@ == k);
                }
            }
            assert forall|k: Seq<char>|
                (exists|i: int| 0 <= i < s.len() && #[trigger] s[i].npc_id@ == k) implies #[trigger]
                Self::entries_map(s).contains_key(k) by {
                let i = choose|i: int| 0 <= i < s.len() && #[trigger] s[i].npc_id@ == k;
                if i < s.len() - 1 {
                    assert(s0[i].npc_id@ == k);
                }
            }
            assert forall|i: int|
                0 <= i < s.len() implies Self::entries_map(s)[(#[trigger] s[i]).npc_id@]
                == s[i].records@ by {
                if i < s.len() - 1 {
                    assert(s0[i].npc_id@ == s[i].npc_id@);
                    assert(s[i].npc_id@ != s.last().npc_id@);
                }
            }
        }
    }

    /// Replacing the records of the entry at one index — keys untouched —
    /// updates the map at that entry's key and nothing else.
    proof fn lemma_map_update(s1: Seq<StoreEntry>, s2: Seq<StoreEntry>, i: int)
        requires
            Self::unique_keys(s1),
            s2.len() == s1.len(),
            0 <= i < s1.len(),
            forall|j: int| 0 <= j < s1.len() ==> #[trigger] s2[j].npc_id@ == s1[j].npc_id@,
            forall|j: int|
                0 <= j < s1.len() && j != i ==> #[trigger] s2[j].records@ == s1[j].records@,
        ensures
            Self::unique_keys(s2),
            Self::entries_map(s2) == Self::entries_map(s1).insert(
                s1[i].npc_id@,
                s2[i].records@,
            ),
    {
        assert(Self::unique_keys(s2));
        Self::lemma_entries_map(s1);
        Self::lemma_entries_map(s2);
        let m1 = Self::entries_map(s1);
        let m2 = Self::entries_map(s2);
        let target = m1.insert(s1[i].npc_id@, s2[i].records@);
        assert forall|k: Seq<char>| #[trigger]
            m2.contains_key(k) implies target.contains_key(k) by {
            let j = choose|j: int| 0 <= j < s2.len() && #[trigger] s2[j].npc_id@ == k;
            assert(s1[j].npc_id@ == k);
        }
        assert forall|k: Seq<char>| #[trigger]
            target.contains_key(k) implies m2.contains_key(k) by {
            if k == s1[i].npc_id@ {
                assert(s2[i].npc_id@ == k);
            } else {
                let j = choose|j: int| 0 <= j < s1.len() && #[trigger] s1[j].npc_id@ == k;
                assert(s2[j].npc_id@ == k);
            }
        }
        assert forall|k: Seq<char>|
            #[trigger] m2.contains_key(k) && target.contains_key(k) implies m2[k]
            == target[k] by {
            let j = choose|j: int| 0 <= j < s2.len() && #[trigger] s2[j].npc_id@ == k;
            assert(m2[k] == s2[j].records@);
            if k == s1[i].npc_id@ {
                assert(j == i) by {
                    if j != i {
                        assert(s1[j].npc_id@ == s1[i].npc_id@);
                    }
                }
            } else {
                assert(j != i);
                assert(m1[k] == s1[j].records@);
            }
        }
        assert(m2 =~= target);
    }

    /// A fresh store knows no entity.
    pub fn new() -> (r: Self)
        ensures
            r@ == Map::<Seq<char>, Seq<MemoryRecord>>::empty(),
            r.wf(),
    {
        MemoryStore { entries: Vec::new() }
    }

    /// The index of the entry holding `npc_id`, if the store knows it.
    fn find_idx(&self, npc_id: &str) -> (r: Option<usize>)
        ensures
            match r {
                Some(i) => i < self.entries@.len() && self.entries@[i as int].npc_id@ == npc_id@,
                None => forall|i: int|
                    0 <= i < self.entries@.len() ==> #[trigger] self.entries@[i].npc_id@
                        != npc_id@,
            },
    {
        let mut i: usize = 0;
        while i < self.entries.len()
            invariant
                i <= self.entries@.len(),
                forall|j: int|
                    0 <= j < i ==> #[trigger] self.entries@[j].npc_id@ != npc_id@,
            decreases self.entries@.len() - i,
        {
            if str_eq(self.entries[i].npc_id.as_str(), npc_id) {
                return Some(i);
            }
            i = i + 1;
        }
        None
    }

    /// Append a record to an entity's history, creating the entity on
    /// first use.  Field ranges are not validated here: callers of this
    /// low-level path are trusted to pre-clamp (that is the `requires`).
    pub fn insert(&mut self, npc_id: &str, record: MemoryRecord)
        requires
            old(self).wf(),
            record.valid(),
        ensures
            final(self).wf(),
            final(self)@ == old(self)@.insert(
                npc_id@,
                records_of(old(self)@, npc_id@).push(record),
            ),
    {
        proof {
            Self::lemma_entries_map(self.entries@);
        }
        match self.find_idx(npc_id) {
            Some(i) => {
                let ghost old_entries = self.entries@;
                let mut entry = self.entries.remove(i);
                entry.records.push(record);
                self.entries.insert(i, entry);
                proof {
                    let s1 = old_entries;
                    let s2 = self.entries@;
                    let mid = s1.remove(i as int);
                    s1.remove_ensures(i as int);
                    mid.insert_ensures(i as int, s2[i as int]);
                    assert(s2 == mid.insert(i as int, s2[i as int]));
                    assert forall|j: int| 0 <= j < s1.len() implies #[trigger] s2[j].npc_id@
                        == s1[j].npc_id@ by {
                        if j < i {
                            assert(s2[j] == mid[j]);
                        } else if j > i {
                            assert(s2[j] == mid[j - 1]);
                        }
                    }
                    assert forall|j: int|
                        0 <= j < s1.len() && j != i implies (#[trigger] s2[j]).records@
                        == s1[j].records@ by {
                        if j < i {
                            assert(s2[j] == mid[j]);
                        } else {
                            assert(s2[j] == mid[j - 1]);
                        }
                    }
                    Self::lemma_map_update(s1, s2, i as int);
                    assert(records_of(old(self)@, npc_id@) == s1[i as int].records@);
                    assert(s2[i as int].records@ == s1[i as int].records@.push(record));
                    assert forall|a: int, b: int|
                        0 <= a < s2.len() && 0 <= b < s2[a].records@.len() implies (#[trigger] s2[a].records@[b]).valid() by {
                        if a == i {
                            if b < s1[a].records@.len() {
                                assert(s1[a].records@[b].valid());
                            }
                        } else {
                            assert(s2[a].records@ == s1[a].records@);
                            assert(s1[a].records@[b].valid());
                        }
                    }
                    assert(self@ =~= old(self)@.insert(
                        npc_id@,
                        records_of(old(self)@, npc_id@).push(record),
                    ));
                }
            },
            None => {
                let mut records: Vec<MemoryRecord> = Vec::new();
                records.push(record);
                let entry = StoreEntry { npc_id: npc_id.to_owned(), records };
                let ghost old_entries = self.entries@;
                self.entries.push(entry);
                proof {
                    let s2 = self.entries@;
                    assert(s2.drop_last() =~= old_entries);
                    assert forall|a: int, b: int|
                        0 <= a < b < s2.len() implies (#[trigger] s2[a]).npc_id@ != (
                        #[trigger] s2[b]).npc_id@ by {
                        assert(s2[a] == old_entries[a]);
                        if b < s2.len() - 1 {
                            assert(s2[b] == old_entries[b]);
                        } else {
                            assert(old_entries[a].npc_id@ != npc_id@);
                        }
                    }
                    assert(!old(self)@.contains_key(npc_id@));
                    assert(self@ =~= old(self)@.insert(
                        npc_id@,
                        records_of(old(self)@, npc_id@).push(record),
                    ));
                }
            },
        }
    }

    /// A snapshot copy of an entity's full history, oldest first; empty
    /// for an unknown entity, never an error.
    pub fn get_all(&self, npc_id: &str) -> (r: Vec<MemoryRecord>)
        requires
            self.wf(),
        ensures
            r@ == records_of(self@, npc_id@),
            forall|i: int| 0 <= i < r@.len() ==> (#[trigger] r@[i]).valid(),
    {
        proof {
            Self::lemma_entries_map(self.entries@);
        }
        match self.find_idx(npc_id) {
            Some(i) => {
                let r = self.entries[i].records.clone();
                proof {
                    let ghost recs = self.entries@[i as int].records@;
                    assert forall|j: int| 0 <= j < r@.len() implies #[trigger] r@[j]
                        == recs[j] by {
                        assert(cloned(self.entries@[i as int].records@[j], r@[j]));
                    }
                    assert(r@ =~= records_of(self@, npc_id@));
                }
                r
            },
            None => {
                proof {
                    assert(!self@.contains_key(npc_id@));
                    assert(Seq::<MemoryRecord>::empty() =~= records_of(self@, npc_id@));
                }
                Vec::new()
            },
        }
    }

    /// A snapshot copy of an entity's history restricted to the records
    /// attributed to `source_id`, in their original order.
    pub fn get_by_source(&self, npc_id: &str, source_id: &str) -> (r: Vec<MemoryRecord>)
        requires
            self.wf(),
        ensures
            r@ == filter_by_source(records_of(self@, npc_id@), source_id@),
            forall|i: int| 0 <= i < r@.len() ==> (#[trigger] r@[i]).valid(),
    {
        proof {
            Self::lemma_entries_map(self.entries@);
        }
        match self.find_idx(npc_id) {
            Some(i) => {
                let entry_records = &self.entries[i].records;
                let ghost recs = entry_records@;
                let mut out: Vec<MemoryRecord> = Vec::new();
                let mut j: usize = 0;
                while j < entry_records.len()
                    invariant
                        j <= recs.len(),
                        entry_records@ == recs,
                        out@ == filter_by_source(recs.take(j as int), source_id@),
                        forall|a: int| 0 <= a < recs.len() ==> (#[trigger] recs[a]).valid(),
                        forall|a: int| 0 <= a < out@.len() ==> (#[trigger] out@[a]).valid(),
                    decreases recs.len() - j,
                {
                    proof {
                        assert(recs.take(j + 1).drop_last() =~= recs.take(j as int));
                        assert(recs.take(j + 1).last() == recs[j as int]);
                    }
                    if str_eq(entry_records[j].source_id.as_str(), source_id) {
                        out.push(entry_records[j].clone());
                    }
                    j = j + 1;
                }
                proof {
                    assert(recs.take(recs.len() as int) =~= recs);
                    assert(recs == records_of(self@, npc_id@));
                }
                out
            },
            None => {
                proof {
                    assert(!self@.contains_key(npc_id@));
                    assert(filter_by_source(Seq::empty(), source_id@) =~= Seq::<
                        MemoryRecord,
                    >::empty());
                }
                Vec::new()
            },
        }
    }

    /// Check every candidate record of a batch, reporting the first
    /// offender: an empty identifier before an out-of-range component,
    /// valence before arousal.
    fn validate_batch(records: &Vec<MemoryRecord>) -> (r: Option<ImportError>)
        ensures
            r is None <==> (forall|i: int|
                0 <= i < records@.len() ==> (#[trigger] records@[i]).import_valid()),
            r matches Some(e) ==> exists|i: int|
                0 <= i < records@.len() && !(#[trigger] records@[i]).import_valid() && (forall|
                    j: int,
                |
                    0 <= j < i ==> (#[trigger] records@[j]).import_valid()) && e
                    == import_error_for(records@[i], i),
    {
        let mut i: usize = 0;
        while i < records.len()
            invariant
                i <= records@.len(),
                forall|j: int| 0 <= j < i ==> (#[trigger] records@[j]).import_valid(),
            decreases records@.len() - i,
        {
            let rec = &records[i];
            if rec.id.as_str().is_empty() {
                return Some(ImportError::EmptyId { index: i });
            }
            if rec.valence < -SCALE || rec.valence > SCALE {
                return Some(
                    ImportError::InvalidValence { id: rec.id.clone(), valence: rec.valence },
                );
            }
            if rec.arousal < -SCALE || rec.arousal > SCALE {
                return Some(
                    ImportError::InvalidArousal { id: rec.id.clone(), arousal: rec.arousal },
                );
            }
            i = i + 1;
        }
        None
    }

    /// Validate a candidate batch and, only if every record passes,
    /// atomically replace the entity's entire history with it.  On the
    /// first offending record the batch is rejected, the store untouched.
    pub fn import(&mut self, npc_id: &str, records: Vec<MemoryRecord>) -> (r: Result<
        (),
        ImportError,
    >)
        requires
            old(self).wf(),
        ensures
            final(self).wf(),
            r is Ok <==> (forall|i: int|
                0 <= i < records@.len() ==> (#[trigger] records@[i]).import_valid()),
            r is Ok ==> final(self)@ == old(self)@.insert(npc_id@, records@),
            r is Err ==> final(self)@ == old(self)@,
            r matches Err(e) ==> exists|i: int|
                0 <= i < records@.len() && !(#[trigger] records@[i]).import_valid() && (forall|
                    j: int,
                |
                    0 <= j < i ==> (#[trigger] records@[j]).import_valid()) && e
                    == import_error_for(records@[i], i),
    {
        if let Some(e) = Self::validate_batch(&records) {
            return Err(e);
        }
        proof {
            Self::lemma_entries_map(self.entries@);
        }
        match self.find_idx(npc_id) {
            Some(idx) => {
                let ghost s1 = self.entries@;
                let mut entry = self.entries.remove(idx);
                entry.records = records;
                self.entries.insert(idx, entry);
                proof {
                    let s2 = self.entries@;
                    let mid = s1.remove(idx as int);
                    s1.remove_ensures(idx as int);
                    mid.insert_ensures(idx as int, s2[idx as int]);
                    assert forall|j: int| 0 <= j < s1.len() implies #[trigger] s2[j].npc_id@
                        == s1[j].npc_id@ by {
                        if j < idx {
                            assert(s2[j] == mid[j]);
                        } else if j > idx {
                            assert(s2[j] == mid[j - 1]);
                        }
                    }
                    assert forall|j: int|
                        0 <= j < s1.len() && j != idx implies (#[trigger] s2[j]).records@
                        == s1[j].records@ by {
                        if j < idx {
                            assert(s2[j] == mid[j]);
                        } else {
                            assert(s2[j] == mid[j - 1]);
                        }
                    }
                    Self::lemma_map_update(s1, s2, idx as int);
                    assert forall|a: int, b: int|
                        0 <= a < s2.len() && 0 <= b < s2[a].records@.len() implies (#[trigger] s2[a].records@[b]).valid() by {
                        if a != idx {
                            assert(s2[a].records@ == s1[a].records@);
                            assert(s1[a].records@[b].valid());
                        }
                    }
                    assert(self@ =~= old(self)@.insert(npc_id@, records@));
                }
                Ok(())
            },
            None => {
                let entry = StoreEntry { npc_id: npc_id.to_owned(), records };
                let ghost s1 = self.entries@;
                self.entries.push(entry);
                proof {
                    let s2 = self.entries@;
                    assert(s2.drop_last() =~= s1);
                    assert forall|a: int, b: int|
                        0 <= a < b < s2.len() implies (#[trigger] s2[a]).npc_id@ != (
                        #[trigger] s2[b]).npc_id@ by {
                        assert(s2[a] == s1[a]);
                        if b < s2.len() - 1 {
                            assert(s2[b] == s1[b]);
                        } else {
                            assert(s1[a].npc_id@ != npc_id@);
                        }
                    }
                    assert forall|a: int, b: int|
                        0 <= a < s2.len() && 0 <= b < s2[a].records@.len() implies (#[trigger] s2[a].records@[b]).valid() by {
                        if a < s2.len() - 1 {
                            assert(s2[a] == s1[a]);
                            assert(s1[a].records@[b].valid());
                        }
                    }
                    assert(self@ =~= old(self)@.insert(npc_id@, records@));
                }
                Ok(())
            },
        }
    }

    /// Empty a known entity's history; a no-op, not an error, for an
    /// unknown entity.  The entity itself stays known.
    pub fn clear(&mut self, npc_id: &str)
        requires
            old(self).wf(),
        ensures
            final(self).wf(),
            final(self)@ == if old(self)@.contains_key(npc_id@) {
                old(self)@.insert(npc_id@, Seq::<MemoryRecord>::empty())
            } else {
                old(self)@
            },
    {
        proof {
            Self::lemma_entries_map(self.entries@);
        }
        match self.find_idx(npc_id) {
            Some(idx) => {
                let ghost s1 = self.entries@;
                let mut entry = self.entries.remove(idx);
                entry.records = Vec::new();
                self.entries.insert(idx, entry);
                proof {
                    let s2 = self.entries@;
                    let mid = s1.remove(idx as int);
                    s1.remove_ensures(idx as int);
                    mid.insert_ensures(idx as int, s2[idx as int]);
                    assert forall|j: int| 0 <= j < s1.len() implies #[trigger] s2[j].npc_id@
                        == s1[j].npc_id@ by {
                        if j < idx {
                            assert(s2[j] == mid[j]);
                        } else if j > idx {
                            assert(s2[j] == mid[j - 1]);
                        }
                    }
                    assert forall|j: int|
                        0 <= j < s1.len() && j != idx implies (#[trigger] s2[j]).records@
                        == s1[j].records@ by {
                        if j < idx {
                            assert(s2[j] == mid[j]);
                        } else {
                            assert(s2[j] == mid[j - 1]);
                        }
                    }
                    Self::lemma_map_update(s1, s2, idx as int);
                    assert forall|a: int, b: int|
                        0 <= a < s2.len() && 0 <= b < s2[a].records@.len() implies (#[trigger] s2[a].records@[b]).valid() by {
                        if a != idx {
                            assert(s2[a].records@ == s1[a].records@);
                            assert(s1[a].records@[b].valid());
                        }
                    }
                    assert(self@ =~= old(self)@.insert(npc_id@, Seq::<MemoryRecord>::empty()));
                }
            },
            None => {
                proof {
                    assert(!old(self)@.contains_key(npc_id@));
                }
            },
        }
    }

    /// Forget an entity entirely: its history and its existence.  A no-op
    /// for an unknown entity.
    pub fn remove_npc(&mut self, npc_id: &str)
        requires
            old(self).wf(),
        ensures
            final(self).wf(),
            final(self)@ == old(self)@.remove(npc_id@),
    {
        proof {
            Self::lemma_entries_map(self.entries@);
        }
        match self.find_idx(npc_id) {
            Some(idx) => {
                let ghost s1 = self.entries@;
                let _removed = self.entries.remove(idx);
                proof {
                    let s2 = self.entries@;
                    s1.remove_ensures(idx as int);
                    assert forall|a: int, b: int|
                        0 <= a < b < s2.len() implies (#[trigger] s2[a]).npc_id@ != (
                        #[trigger] s2[b]).npc_id@ by {
                        let a1 = if a < idx { a } else { a + 1 };
                        let b1 = if b < idx { b } else { b + 1 };
                        assert(s2[a] == s1[a1]);
                        assert(s2[b] == s1[b1]);
                    }
                    Self::lemma_entries_map(s2);
                    let m1 = Self::entries_map(s1);
                    let m2 = Self::entries_map(s2);
                    assert forall|k: Seq<char>| #[trigger]
                        m2.contains_key(k) implies m1.contains_key(k) && k != npc_id@ by {
                        let j = choose|j: int| 0 <= j < s2.len() && #[trigger] s2[j].npc_id@ == k;
                        let j1 = if j < idx { j } else { j + 1 };
                        assert(s2[j] == s1[j1]);
                        assert(s1[j1].npc_id@ == k);
                        if k == npc_id@ {
                            assert(s1[idx as int].npc_id@ == k);
                        }
                    }
                    assert forall|k: Seq<char>|
                        #[trigger] m1.contains_key(k) && k != npc_id@ implies m2.contains_key(
                        k,
                    ) by {
                        let j1 = choose|j: int| 0 <= j < s1.len() && #[trigger] s1[j].npc_id@ == k;
                        assert(j1 != idx);
                        let j = if j1 < idx { j1 } else { j1 - 1 };
                        assert(s2[j] == s1[j1]);
                        assert(s2[j].npc_id@ == k);
                    }
                    assert forall|k: Seq<char>| #[trigger] m2.contains_key(k) implies m2[k]
                        == m1[k] by {
                        let j = choose|j: int| 0 <= j < s2.len() && #[trigger] s2[j].npc_id@ == k;
                        let j1 = if j < idx { j } else { j + 1 };
                        assert(s2[j] == s1[j1]);
                        assert(m2[k] == s2[j].records@);
                        assert(m1[k] == s1[j1].records@);
                    }
                    assert forall|a: int, b: int|
                        0 <= a < s2.len() && 0 <= b < s2[a].records@.len() implies (#[trigger] s2[a].records@[b]).valid() by {
                        let a1 = if a < idx { a } else { a + 1 };
                        assert(s2[a] == s1[a1]);
                        assert(s1[a1].records@[b].valid());
                    }
                    assert(m2 =~= m1.remove(npc_id@));
                }
            },
            None => {
                proof {
                    assert(!old(self)@.contains_key(npc_id@));
                    assert(old(self)@.remove(npc_id@) =~= old(self)@);
                }
            },
        }
    }

    /// The number of records an entity currently holds; zero for an
    /// unknown entity.
    pub fn get_memory_count(&self, npc_id: &str) -> (r: usize)
        requires
            self.wf(),
        ensures
            r == records_of(self@, npc_id@).len(),
    {
        proof {
            Self::lemma_entries_map(self.entries@);
        }
        match self.find_idx(npc_id) {
            Some(i) => self.entries[i].records.len(),
            None => {
                proof {
                    assert(!self@.contains_key(npc_id@));
                }
                0
            },
        }
    }
}

impl Default for MemoryStore {
    fn default() -> (r: Self)
        ensures
            r@ == Map::<Seq<char>, Seq<MemoryRecord>>::empty(),
            r.wf(),
    {
        MemoryStore::new()
    }
}

} // verus!
