use vstd::prelude::*;

use crate::codec::{append, read_array};
use crate::migrations::{KittyStorage, KittyStorageView, Transition, lemma_rewrite_keeps_ids, rewrite_all, rewritten_all};
use crate::types::Kitty;

verus! {

/// An entity in the first layout: its payload alone.
#[allow(non_camel_case_types)]
#[derive(Clone, Copy, Debug, PartialEq, Eq, Default)]
pub struct OldKitty_V0(pub [u8; 16]);

/// An entity in the second layout: its payload and a four-byte label.
#[allow(non_camel_case_types)]
#[derive(Clone, Copy, Debug, PartialEq, Eq, Default)]
pub struct OldKitty_V1 {
    pub dna: [u8; 16],
    pub name: [u8; 4],
}

impl OldKitty_V0 {
    /// Reads an entity in the first layout from the front of `bytes`.
    pub fn decode(bytes: &[u8]) -> (r: Option<OldKitty_V0>)
        ensures
            r is Some <==> bytes@.len() >= 16,
            r matches Some(k) ==> k.0@ == bytes@.subrange(0, 16),
    {
        if bytes.len() < 16 {
            return None;
        }
        Some(OldKitty_V0(read_array(bytes, 0)))
    }
}

impl OldKitty_V1 {
    /// Reads an entity in the second layout from the front of `bytes`.
    pub fn decode(bytes: &[u8]) -> (r: Option<OldKitty_V1>)
        ensures
            r is Some <==> bytes@.len() >= 20,
            r matches Some(k) ==> k.dna@ == bytes@.subrange(0, 16) && k.name@ == bytes@.subrange(
                16,
                20,
            ),
    {
        if bytes.len() < 20 {
            return None;
        }
        Some(OldKitty_V1 { dna: read_array(bytes, 0), name: read_array(bytes, 16) })
    }

    /// Encodes the entity in the second layout: its payload, then its label.
    pub fn encode(&self) -> (r: Vec<u8>)
        ensures
            r@ == self.dna@ + self.name@,
    {
        let mut out: Vec<u8> = Vec::new();
        append(&mut out, self.dna.as_slice());
        append(&mut out, self.name.as_slice());
        out
    }
}

/// The label given to entities that had none when moving to the current
/// layout: the ASCII text `abcdfdff`.
pub open spec fn v0_default_name() -> Seq<u8> {
    seq![97u8, 98u8, 99u8, 100u8, 102u8, 100u8, 102u8, 102u8]
}

/// A record of the first layout rewritten in the current one: the payload
/// and the default label. A value that cannot be read is left as it is.
pub open spec fn v0_to_current(bytes: Seq<u8>) -> Seq<u8> {
    if bytes.len() >= 16 {
        bytes.subrange(0, 16) + v0_default_name()
    } else {
        bytes
    }
}

/// A record of the second layout rewritten in the current one: the payload,
/// and the label left-aligned and padded with zeros. A value that cannot be
/// read is left as it is.
pub open spec fn v1_to_current(bytes: Seq<u8>) -> Seq<u8> {
    if bytes.len() >= 20 {
        bytes.subrange(0, 16) + bytes.subrange(16, 20) + seq![0u8, 0u8, 0u8, 0u8]
    } else {
        bytes
    }
}

/// Rewrites one record of the first layout in the current one.
pub fn upgrade_v0(bytes: &[u8]) -> (r: Vec<u8>)
    ensures
        r@ == v0_to_current(bytes@),
{
    match OldKitty_V0::decode(bytes) {
        Some(kitty) => {
            let name: [u8; 8] = [97u8, 98u8, 99u8, 100u8, 102u8, 100u8, 102u8, 102u8];
            assert(name@ =~= v0_default_name());
            let new_kitty = Kitty { dna: kitty.0, name };
            new_kitty.encode()
        },
        None => {
            let mut out: Vec<u8> = Vec::new();
            append(&mut out, bytes);
            out
        },
    }
}

/// Rewrites one record of the second layout in the current one.
pub fn upgrade_v1(bytes: &[u8]) -> (r: Vec<u8>)
    ensures
        r@ == v1_to_current(bytes@),
{
    match OldKitty_V1::decode(bytes) {
        Some(kitty) => {
            let mut new_name: [u8; 8] = [0u8; 8];
            let mut i: usize = 0;
            while i < 4
                invariant
                    i <= 4,
                    forall|j: int| 0 <= j < i ==> new_name@[j] == kitty.name@[j],
                    forall|j: int| 4 <= j < 8 ==> new_name@[j] == 0u8,
                decreases 4 - i,
            {
                new_name[i] = kitty.name[i];
                i = i + 1;
            }
            assert(new_name@ =~= bytes@.subrange(16, 20) + seq![0u8, 0u8, 0u8, 0u8]);
            let new_kitty = Kitty { dna: kitty.dna, name: new_name };
            let out = new_kitty.encode();
            assert(out@ =~= v1_to_current(bytes@));
            out
        },
        None => {
            let mut out: Vec<u8> = Vec::new();
            append(&mut out, bytes);
            out
        },
    }
}

/// The records after the transition to the current layout, which runs only
/// when the software expects it and the records are in the first or second.
pub open spec fn migrated(s: KittyStorageView, current_version: u16) -> KittyStorageView {
    if s.version == 0 && current_version == 2 {
        KittyStorageView { version: 2, records: rewritten_all(Transition::V0ToV2, s.records) }
    } else if s.version == 1 && current_version == 2 {
        KittyStorageView { version: 2, records: rewritten_all(Transition::V1ToV2, s.records) }
    } else {
        s
    }
}

/// Moves the records to the current layout.
pub fn migrate(storage: &mut KittyStorage, current_version: u16)
    ensures
        final(storage)@ == migrated(old(storage)@, current_version),
        old(storage)@.wf() ==> final(storage)@.wf(),
{
    proof {
        if old(storage)@.wf() {
            lemma_rewrite_keeps_ids(Transition::V0ToV2, old(storage)@.records, 2);
            lemma_rewrite_keeps_ids(Transition::V0ToV2, old(storage)@.records, 1);
            lemma_rewrite_keeps_ids(Transition::V1ToV2, old(storage)@.records, 2);
            lemma_rewrite_keeps_ids(Transition::V1ToV2, old(storage)@.records, 1);
        }
    }
    let on_chain_version = storage.on_chain_version;
    if on_chain_version == 0 && current_version == 2 {
        rewrite_all(Transition::V0ToV2, &mut storage.records);
        storage.on_chain_version = current_version;
    } else if on_chain_version == 1 && current_version == 2 {
        rewrite_all(Transition::V1ToV2, &mut storage.records);
        storage.on_chain_version = current_version;
    }
}

/// Running the transition a second time changes nothing: the version check
/// turns it into a no-op once the records are current.
pub proof fn lemma_migrate_twice(s: KittyStorageView, current_version: u16)
    ensures
        migrated(migrated(s, current_version), current_version) == migrated(s, current_version),
{
}

} // verus!
