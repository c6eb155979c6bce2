//! The key/value contract of a keyed table store: a value knows the key it
//! is indexed under, and a fresh value can be made for a key.

use vstd::prelude::*;
use crate::entity::{GuildEntity, PairId};

verus! {

/// A key a table store can index by.
pub trait Key: Copy {
}

impl Key for u64 {
}

impl Key for PairId {
}

/// A value stored in a keyed table.
pub trait Value: Sized {
    /// The type of [`Key`] used to index the value.
    type Key: Key;

    /// The key this value is indexed under.
    spec fn spec_key(&self) -> Self::Key;

    /// Returns the key to index the value under.
    fn key(&self) -> (k: Self::Key)
        ensures
            k == self.spec_key(),
    ;

    /// A fresh value indexed under `key`.
    fn new(key: Self::Key) -> (r: Self)
        ensures
            r.spec_key() == key,
    ;
}

/// A guild record is indexed under its guild id; a fresh record is an
/// available guild with nothing else set.
impl Value for GuildEntity {
    type Key = u64;

    open spec fn spec_key(&self) -> u64 {
        self.id
    }

    fn key(&self) -> u64 {
        self.id
    }

    fn new(key: u64) -> (r: GuildEntity)
        ensures
            r == (GuildEntity {
                id: key,
                owner_id: 0,
                afk_channel_id: None,
                afk_timeout: 0,
                member_count: None,
                unavailable: false,
            }),
    {
        GuildEntity {
            id: key,
            owner_id: 0,
            afk_channel_id: None,
            afk_timeout: 0,
            member_count: None,
            unavailable: false,
        }
    }
}

} // verus!
