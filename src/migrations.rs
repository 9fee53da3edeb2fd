use vstd::prelude::*;

use crate::types::KittyId;

pub mod v1;
pub mod v2;

verus! {

/// The layout version that this software reads and writes.
pub const STORAGE_VERSION: u16 = 2;

/// The persisted entity namespace as mathematics.
pub ghost struct KittyStorageView {
    /// The layout version the records are written in.
    pub version: u16,
    /// Each record's identifier and encoded value.
    pub records: Seq<(KittyId, Seq<u8>)>,
}

impl KittyStorageView {
    /// No two records share an identifier.
    pub open spec fn wf(self) -> bool {
        forall|i: int, j: int|
            0 <= i < self.records.len() && 0 <= j < self.records.len() && i != j ==> (
            #[trigger] self.records[i]).0 != (#[trigger] self.records[j]).0
    }
}

/// A rewrite keeps every record's identifier in its place, so identifiers
/// stay distinct.
pub proof fn lemma_rewrite_keeps_ids(t: Transition, records: Seq<(KittyId, Seq<u8>)>, version: u16)
    requires
        (KittyStorageView { version, records }).wf(),
    ensures
        (KittyStorageView { version, records: rewritten_all(t, records) }).wf(),
{
    let r = rewritten_all(t, records);
    assert(r.len() == records.len());
    let s = KittyStorageView { version, records };
    assert forall|i: int, j: int|
        0 <= i < r.len() && 0 <= j < r.len() && i != j implies (#[trigger] r[i]).0 != (
        #[trigger] r[j]).0 by {
        assert(r[i].0 == records[i].0);
        assert(r[j].0 == records[j].0);
        assert(s.records[i].0 != s.records[j].0);
    }
}

/// The persisted entity namespace: each record's identifier and encoded
/// value, and the layout version they are written in.
pub struct KittyStorage {
    pub on_chain_version: u16,
    pub records: Vec<(KittyId, Vec<u8>)>,
}

/// The records with their values as byte sequences.
pub open spec fn records_view(records: Seq<(KittyId, Vec<u8>)>) -> Seq<(KittyId, Seq<u8>)> {
    records.map_values(|p: (KittyId, Vec<u8>)| (p.0, p.1@))
}

impl View for KittyStorage {
    type V = KittyStorageView;

    open spec fn view(&self) -> KittyStorageView {
        KittyStorageView { version: self.on_chain_version, records: records_view(self.records@) }
    }
}

/// A rewrite of every record from one layout to another.
#[derive(Clone, Copy, Debug, PartialEq, Eq, Structural)]
pub enum Transition {
    V0ToV1,
    V0ToV2,
    V1ToV2,
}

/// The value that `t` writes in place of `bytes`.
pub open spec fn rewritten(t: Transition, bytes: Seq<u8>) -> Seq<u8> {
    match t {
        Transition::V0ToV1 => v1::v0_to_v1(bytes),
        Transition::V0ToV2 => v2::v0_to_current(bytes),
        Transition::V1ToV2 => v2::v1_to_current(bytes),
    }
}

/// Every record after `t`, under its own identifier and in its own place.
pub open spec fn rewritten_all(t: Transition, records: Seq<(KittyId, Seq<u8>)>) -> Seq<
    (KittyId, Seq<u8>),
> {
    records.map_values(|p: (KittyId, Seq<u8>)| (p.0, rewritten(t, p.1)))
}

/// The value that `t` writes in place of `bytes`.
pub fn rewrite_record(t: Transition, bytes: &[u8]) -> (r: Vec<u8>)
    ensures
        r@ == rewritten(t, bytes@),
{
    match t {
        Transition::V0ToV1 => v1::upgrade_v0(bytes),
        Transition::V0ToV2 => v2::upgrade_v0(bytes),
        Transition::V1ToV2 => v2::upgrade_v1(bytes),
    }
}

/// Rewrites every record in place with `t`.
pub fn rewrite_all(t: Transition, records: &mut Vec<(KittyId, Vec<u8>)>)
    ensures
        records_view(final(records)@) == rewritten_all(t, records_view(old(records)@)),
{
    let n = records.len();
    let mut i: usize = 0;
    while i < n
        invariant
            i <= n == records@.len() == old(records)@.len(),
            forall|j: int|
                0 <= j < i ==> (#[trigger] records@[j]).0 == old(records)@[j].0 && records@[j].1@
                    == rewritten(t, old(records)@[j].1@),
            forall|j: int| i <= j < n ==> #[trigger] records@[j] == old(records)@[j],
        decreases n - i,
    {
        let id = records[i].0;
        let value = rewrite_record(t, records[i].1.as_slice());
        records[i] = (id, value);
        i = i + 1;
    }
    assert(records_view(records@) =~= rewritten_all(t, records_view(old(records)@)));
}

/// The upgrade step run when new software starts: brings the records to
/// `STORAGE_VERSION` when they are in a layout it knows how to read.
pub fn on_runtime_upgrade(storage: &mut KittyStorage)
    ensures
        final(storage)@ == v2::migrated(old(storage)@, STORAGE_VERSION),
        old(storage)@.wf() ==> final(storage)@.wf(),
{
    v2::migrate(storage, STORAGE_VERSION)
}

} // verus!
