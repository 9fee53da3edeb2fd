use vstd::prelude::*;

use crate::codec::{append, read_array};
use crate::migrations::{KittyStorage, KittyStorageView, Transition, lemma_rewrite_keeps_ids, rewrite_all, rewritten_all};

verus! {

/// An entity in the first layout: its payload alone.
#[derive(Clone, Copy, Debug, PartialEq, Eq, Default)]
pub struct OldKitty(pub [u8; 16]);

impl OldKitty {
    /// Reads an entity in the first layout from the front of `bytes`.
    pub fn decode(bytes: &[u8]) -> (r: Option<OldKitty>)
        ensures
            r is Some <==> bytes@.len() >= 16,
            r matches Some(k) ==> k.0@ == bytes@.subrange(0, 16),
    {
        if bytes.len() < 16 {
            return None;
        }
        Some(OldKitty(read_array(bytes, 0)))
    }
}

/// The label given to entities that had none when moving to the second
/// layout: the ASCII text `abcd`.
pub open spec fn v1_default_name() -> Seq<u8> {
    seq![97u8, 98u8, 99u8, 100u8]
}

/// A record of the first layout rewritten in the second: the payload and the
/// default label. A value that cannot be read is left as it is.
pub open spec fn v0_to_v1(bytes: Seq<u8>) -> Seq<u8> {
    if bytes.len() >= 16 {
        bytes.subrange(0, 16) + v1_default_name()
    } else {
        bytes
    }
}

/// Rewrites one record of the first layout in the second.
pub fn upgrade_v0(bytes: &[u8]) -> (r: Vec<u8>)
    ensures
        r@ == v0_to_v1(bytes@),
{
    let mut out: Vec<u8> = Vec::new();
    match OldKitty::decode(bytes) {
        Some(kitty) => {
            let name: [u8; 4] = [97u8, 98u8, 99u8, 100u8];
            append(&mut out, kitty.0.as_slice());
            append(&mut out, name.as_slice());
            assert(name@ =~= v1_default_name());
        },
        None => {
            append(&mut out, bytes);
        },
    }
    out
}

/// The records after the transition from the first layout to the second,
/// which runs only when they are in the first and the software expects the
/// second.
pub open spec fn migrated(s: KittyStorageView, current_version: u16) -> KittyStorageView {
    if s.version == 0 && current_version == 1 {
        KittyStorageView { version: 1, records: rewritten_all(Transition::V0ToV1, s.records) }
    } else {
        s
    }
}

/// Moves the records from the first layout to the second.
pub fn migrate(storage: &mut KittyStorage, current_version: u16)
    ensures
        final(storage)@ == migrated(old(storage)@, current_version),
        old(storage)@.wf() ==> final(storage)@.wf(),
{
    proof {
        if old(storage)@.wf() {
            lemma_rewrite_keeps_ids(Transition::V0ToV1, old(storage)@.records, 2);
            lemma_rewrite_keeps_ids(Transition::V0ToV1, old(storage)@.records, 1);
        }
    }
    if storage.on_chain_version != 0 {
        return;
    }
    if current_version != 1 {
        return;
    }
    rewrite_all(Transition::V0ToV1, &mut storage.records);
    storage.on_chain_version = current_version;
}

/// Running the transition a second time changes nothing: the version check
/// turns it into a no-op once the records are in the second layout.
pub proof fn lemma_migrate_twice(s: KittyStorageView, current_version: u16)
    ensures
        migrated(migrated(s, current_version), current_version) == migrated(s, current_version),
{
}

} // verus!
