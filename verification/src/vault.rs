//! The vault: the only home of user data.  Services hold nothing; data
//! never lands on an application's disk.

use vstd::prelude::*;
use crate::lineage::{Lineage, VaultAddress};

verus! {

/// A vault room: one room per lineage.
#[derive(Clone, Debug)]
pub struct VaultRoom {
    /// Lineage (the room's address).
    pub lineage: Lineage,
    /// Id of the warrant the room was born of.
    pub born_of_warrant: crate::crypto::Hash,
    /// Content-addressed manifest.
    pub content: Vec<ContentEntry>,
    /// Addressing rule description.
    pub addressing: String,
}

/// A content entry: a name and a content identifier.
#[derive(Clone, Debug)]
pub struct ContentEntry {
    /// Human-readable name.
    pub name: String,
    /// Content identifier (content hash).
    pub cid: crate::crypto::Hash,
}

impl ContentEntry {
    /// The storage location of this entry under `lineage`:
    /// address = content hash × lineage.
    pub fn address(&self, lineage: Lineage) -> (a: VaultAddress)
        ensures
            a.content_hash == self.cid,
            a.lineage == lineage,
    {
        VaultAddress::derive(self.cid, lineage)
    }
}

/// A purpose-bound read view of the vault, burnt after use.
#[derive(Clone, Debug)]
pub struct VaultView {
    /// Capability the view comes from.
    pub capability_id: crate::crypto::Hash,
    /// Visible data addresses (a purpose-bound subset).
    pub visible: Vec<VaultAddress>,
    /// Purpose (aligned with the warrant's intent).
    pub purpose: String,
    /// Burn-after-use mark.
    pub ephemeral: bool,
}

/// Space reclamation after a lineage became unreachable.
#[derive(Clone, Debug)]
pub struct SpaceReclamation {
    /// The reclaimed lineage.
    pub lineage: Lineage,
    /// The revoking warrant.
    pub revoked_warrant: crate::crypto::Hash,
    /// Addresses reclaimed.
    pub addresses_reclaimed: u64,
    /// Timestamp.
    pub timestamp: String,
}

} // verus!
