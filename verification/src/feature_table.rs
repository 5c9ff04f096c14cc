//! The device's feature table: a one-way mapping from protocol-wide feature
//! identifiers to device-local feature indices, built once per successful
//! connection.
//!
//! The table upholds the system's core safety contract: a blocklisted
//! identifier is never stored, whatever the device reports, so no code path
//! can resolve a blocklisted feature to an index and issue a transaction
//! against it. Index 0 means "not supported" on the wire and is never stored
//! either.

use vstd::prelude::*;
use crate::blocklisted_features::{spec_is_blocklisted, is_blocklisted};

verus! {

/// Feature-identifier to feature-index mapping with the blocklist kept out.
#[derive(Debug, Clone)]
pub struct FeatureTable {
    entries: Vec<(u16, u8)>,
}

impl FeatureTable {
    /// The stored entries, as a sequence of (identifier, index) pairs.
    pub closed spec fn entries(self) -> Seq<(u16, u8)> {
        self.entries@
    }

    /// Whether an identifier is present in the table.
    pub open spec fn contains_id(self, feature_id: u16) -> bool {
        exists|i: int| 0 <= i < self.entries().len() && self.entries()[i].0 == feature_id
    }

    /// Whether the table maps an identifier to the given index.
    pub open spec fn maps_to(self, feature_id: u16, feature_index: u8) -> bool {
        exists|i: int|
            0 <= i < self.entries().len() && self.entries()[i] == (feature_id, feature_index)
    }

    /// What a stored mapping guarantees in a well-formed table: the
    /// identifier is present and not blocklisted, and the index is not the
    /// reserved 0.
    pub proof fn lemma_maps_to_properties(self, feature_id: u16, feature_index: u8)
        requires
            self.wf(),
            self.maps_to(feature_id, feature_index),
        ensures
            self.contains_id(feature_id),
            !spec_is_blocklisted(feature_id),
            feature_index != 0,
    {
        let i = choose|i: int|
            0 <= i < self.entries().len() && self.entries()[i] == (feature_id, feature_index);
        assert(self.entries()[i].0 == feature_id);
        assert(self.entries()[i].1 == feature_index);
    }

    /// Well-formedness: no blocklisted identifier, no zero index, and each
    /// identifier stored at most once.
    pub open spec fn wf(self) -> bool {
        &&& forall|i: int|
            0 <= i < self.entries().len() ==> !spec_is_blocklisted(#[trigger] self.entries()[i].0)
        &&& forall|i: int| 0 <= i < self.entries().len() ==> (#[trigger] self.entries()[i]).1 != 0
        &&& forall|i: int, j: int|
            0 <= i < j < self.entries().len() ==> (#[trigger] self.entries()[i]).0 != (
            #[trigger] self.entries()[j]).0
    }

    /// Create an empty table.
    pub fn new() -> (r: Self)
        ensures
            r.wf(),
            r.entries() =~= Seq::<(u16, u8)>::empty(),
    {
        FeatureTable { entries: Vec::new() }
    }

    /// How many features the table holds.
    pub fn len(&self) -> (r: usize)
        ensures
            r == self.entries().len(),
    {
        self.entries.len()
    }

    /// Record one feature reported by the device during enumeration.
    ///
    /// A blocklisted identifier is never inserted, regardless of caller
    /// intent; neither is the reserved index 0 ("not supported") nor a
    /// duplicate of an identifier already stored. Returns whether the entry
    /// was stored.
    pub fn insert_reported(&mut self, feature_id: u16, feature_index: u8) -> (r: bool)
        requires
            old(self).wf(),
        ensures
            final(self).wf(),
            r == (!spec_is_blocklisted(feature_id) && feature_index != 0 && !old(
                self,
            ).contains_id(feature_id)),
            r ==> final(self).entries() == old(self).entries().push((feature_id, feature_index)),
            !r ==> *final(self) == *old(self),
    {
        if is_blocklisted(feature_id) || feature_index == 0 {
            return false;
        }
        if self.index_of(feature_id).is_some() {
            return false;
        }
        self.entries.push((feature_id, feature_index));
        proof {
            let es = self.entries();
            let n = old(self).entries().len() as int;
            assert forall|i: int|
                0 <= i < es.len() implies !spec_is_blocklisted((#[trigger] es[i]).0) && es[i].1
                != 0 by {
                if i < n {
                    assert(es[i] == old(self).entries()[i]);
                } else {
                    assert(es[i] == (feature_id, feature_index));
                }
            }
            assert forall|i: int, j: int|
                0 <= i < j < es.len() implies (#[trigger] es[i]).0 != (#[trigger] es[j]).0 by {
                if j == n {
                    assert(es[j] == (feature_id, feature_index));
                    assert(es[i] == old(self).entries()[i]);
                    assert(!old(self).contains_id(feature_id));
                }
            }
        }
        true
    }

    /// Look up the device-local index of a feature identifier.
    pub fn index_of(&self, feature_id: u16) -> (r: Option<u8>)
        ensures
            r is Some <==> self.contains_id(feature_id),
            r matches Some(idx) ==> self.maps_to(feature_id, idx),
    {
        let n = self.entries.len();
        let mut i: usize = 0;
        while i < n
            invariant
                n == self.entries().len(),
                i <= n,
                forall|j: int| 0 <= j < i ==> (#[trigger] self.entries()[j]).0 != feature_id,
            decreases n - i,
        {
            let (id, idx) = self.entries[i];
            if id == feature_id {
                return Some(idx);
            }
            i += 1;
        }
        None
    }

    /// Build a table from the (identifier, index) pairs a device reported
    /// during enumeration. Blocklisted identifiers are excluded
    /// unconditionally; everything else (allowed or unknown) is stored.
    pub fn build_from_reports(reports: &Vec<(u16, u8)>) -> (r: Self)
        ensures
            r.wf(),
            forall|id: u16|
                #[trigger] r.contains_id(id) <==> (!spec_is_blocklisted(id) && exists|j: int|
                    0 <= j < reports@.len() && (#[trigger] reports@[j]).0 == id && reports@[j].1
                        != 0),
    {
        let mut table = FeatureTable::new();
        let n = reports.len();
        let mut k: usize = 0;
        while k < n
            invariant
                n == reports@.len(),
                k <= n,
                table.wf(),
                forall|id: u16|
                    #[trigger] table.contains_id(id) <==> (!spec_is_blocklisted(id) && exists|
                        j: int,
                    |
                        0 <= j < k && (#[trigger] reports@[j]).0 == id && reports@[j].1 != 0),
            decreases n - k,
        {
            let (id, idx) = reports[k];
            let ghost pre = table;
            table.insert_reported(id, idx);
            proof {
                assert forall|q: u16| #[trigger]
                    table.contains_id(q) <==> (!spec_is_blocklisted(q) && exists|j: int|
                        0 <= j < k + 1 && (#[trigger] reports@[j]).0 == q && reports@[j].1
                            != 0) by {
                    if table.contains_id(q) {
                        if pre.contains_id(q) {
                            assert(table.contains_id(q) == pre.contains_id(q));
                        } else {
                            let i = choose|i: int|
                                0 <= i < table.entries().len() && table.entries()[i].0 == q;
                            assert(table.entries()[i] == (id, idx));
                            assert(reports@[k as int].0 == q && reports@[k as int].1 != 0);
                        }
                    }
                    if !spec_is_blocklisted(q) && exists|j: int|
                        0 <= j < k + 1 && (#[trigger] reports@[j]).0 == q && reports@[j].1 != 0 {
                        let j = choose|j: int|
                            0 <= j < k + 1 && (#[trigger] reports@[j]).0 == q && reports@[j].1
                                != 0;
                        if j < k {
                            assert(pre.contains_id(q));
                            if table.entries() == pre.entries().push((id, idx)) {
                                let i = choose|i: int|
                                    0 <= i < pre.entries().len() && pre.entries()[i].0 == q;
                                assert(table.entries()[i].0 == q);
                            }
                        } else {
                            if !pre.contains_id(q) {
                                assert(table.entries() == pre.entries().push((id, idx)));
                                assert(table.entries()[table.entries().len() - 1].0 == q);
                            }
                        }
                    }
                }
            }
            k += 1;
        }
        table
    }
}

/// The core safety contract: a well-formed feature table never contains a
/// blocklisted identifier, even if the device reported one in its feature
/// list.
pub proof fn lemma_feature_table_excludes_blocklisted(table: FeatureTable, feature_id: u16)
    requires
        table.wf(),
        spec_is_blocklisted(feature_id),
    ensures
        !table.contains_id(feature_id),
{
}

} // verus!
