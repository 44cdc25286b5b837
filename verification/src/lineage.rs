//! Lineage and addressing.
//!
//! Core equation: **address = content hash × lineage**.

use vstd::prelude::*;
use crate::crypto::{blake3_digest, blake3_hash};

verus! {

/// The bytes of the word `lineage`, appended to an intent hash when a
/// lineage is derived from it.
pub open spec fn lineage_tag() -> Seq<u8> {
    seq![108u8, 105u8, 110u8, 101u8, 97u8, 103u8, 101u8]
}

/// Lineage identifier: derived from a warrant when it is issued; every
/// capability minted and every datum produced under it inherits it.
#[derive(Clone, Copy, Debug, Hash)]
pub struct Lineage(pub crate::crypto::Hash);

impl Lineage {
    /// The lineage of an intent hash: `BLAKE3(intent_hash || "lineage")`.
    pub open spec fn of_intent(intent_hash: crate::crypto::Hash) -> Seq<u8> {
        blake3_digest(intent_hash.0@ + lineage_tag())
    }

    /// Derives the lineage of a warrant from its intent hash:
    /// `lineage = H(intent_hash || "lineage")`.
    pub fn from_intent(intent_hash: &crate::crypto::Hash) -> (l: Lineage)
        ensures
            l.0.0@ == Lineage::of_intent(*intent_hash),
    {
        let mut input: Vec<u8> = Vec::new();
        let mut i: usize = 0;
        while i < 32
            invariant
                i <= 32,
                input@ == intent_hash.0@.take(i as int),
            decreases 32 - i,
        {
            input.push(intent_hash.0[i]);
            assert(intent_hash.0@.take(i + 1) =~= intent_hash.0@.take(i as int).push(intent_hash.0@[i as int]));
            i = i + 1;
        }
        input.push(108u8);
        input.push(105u8);
        input.push(110u8);
        input.push(101u8);
        input.push(97u8);
        input.push(103u8);
        input.push(101u8);
        assert(input@ =~= intent_hash.0@ + lineage_tag());
        Lineage(blake3_hash(input.as_slice()))
    }

    /// The display form: the short prefix of the lineage hash.
    pub fn to_text(&self) -> (text: String)
        ensures
            text@ == self.0.short_text(),
    {
        self.0.short()
    }

    /// The debug form: `Lineage(<short>)`.
    pub fn debug_text(&self) -> (text: String)
        ensures
            text@ == "Lineage("@ + self.0.short_text() + ")"@,
    {
        let mut text = "Lineage(".to_owned();
        let short = self.0.short();
        text.append(short.as_str());
        text.append(")");
        text
    }
}

/// One intent, one lineage: lineages derived from the same intent hash are
/// the same lineage.
pub proof fn lemma_same_intent_same_lineage(a: Lineage, b: Lineage, intent_hash: crate::crypto::Hash)
    requires
        a.0.0@ == Lineage::of_intent(intent_hash),
        b.0.0@ == Lineage::of_intent(intent_hash),
    ensures
        a == b,
{
    assert(a.0.0 =~= b.0.0);
}

impl PartialEq for Lineage {
    fn eq(&self, other: &Self) -> (r: bool) {
        self.0 == other.0
    }
}

impl Eq for Lineage {}

impl vstd::std_specs::cmp::PartialEqSpecImpl for Lineage {
    open spec fn obeys_eq_spec() -> bool {
        true
    }

    open spec fn eq_spec(&self, other: &Lineage) -> bool {
        *self == *other
    }
}

/// Vault address = content hash × lineage.
///
/// Same content and same lineage give the same address; a different lineage
/// gives a different address (cross-lineage deduplication would be a side
/// channel).
#[derive(Clone, Copy, Debug, Hash)]
pub struct VaultAddress {
    pub content_hash: crate::crypto::Hash,
    pub lineage: Lineage,
}

impl VaultAddress {
    /// The address of `content_hash` under `lineage`.
    pub fn derive(content_hash: crate::crypto::Hash, lineage: Lineage) -> (a: VaultAddress)
        ensures
            a.content_hash == content_hash,
            a.lineage == lineage,
    {
        VaultAddress { content_hash, lineage }
    }

    /// The text of an address: `vault://<lineage short>/<content short>`.
    pub open spec fn text(self) -> Seq<char> {
        "vault://"@ + self.lineage.0.short_text() + "/"@ + self.content_hash.short_text()
    }

    /// The display form, `vault://<lineage>/<content short>`.
    pub fn to_text(&self) -> (text: String)
        ensures
            text@ == self.text(),
    {
        let mut text = "vault://".to_owned();
        let lineage = self.lineage.to_text();
        text.append(lineage.as_str());
        text.append("/");
        let content = self.content_hash.short();
        text.append(content.as_str());
        text
    }

    /// The debug form, which is the same as the display form.
    pub fn debug_text(&self) -> (text: String)
        ensures
            text@ == self.text(),
    {
        self.to_text()
    }
}

impl PartialEq for VaultAddress {
    fn eq(&self, other: &Self) -> (r: bool) {
        self.content_hash == other.content_hash && self.lineage == other.lineage
    }
}

impl Eq for VaultAddress {}

impl vstd::std_specs::cmp::PartialEqSpecImpl for VaultAddress {
    open spec fn obeys_eq_spec() -> bool {
        true
    }

    open spec fn eq_spec(&self, other: &VaultAddress) -> bool {
        *self == *other
    }
}

/// Same content and same lineage give the same address, and addresses that
/// differ in content or in lineage are different addresses.
pub proof fn lemma_address_is_content_times_lineage(a: VaultAddress, b: VaultAddress)
    ensures
        (a.content_hash == b.content_hash && a.lineage == b.lineage) <==> a == b,
{
}

/// What a resource reference designates, with its text as characters.
pub enum ResourceTarget {
    Vault { address: VaultAddress },
    Registry { service: Seq<char> },
    Sensor { path: Seq<char> },
    Actuator { path: Seq<char> },
}

/// Resource reference: uniform locator across namespaces for data or
/// services.
#[derive(Clone, Debug)]
pub enum ResourceRef {
    /// Vault data.
    Vault { address: VaultAddress },
    /// A registered service.
    Registry { service: String },
    /// A sensor (standing warrants).
    Sensor { path: String },
    /// An actuator (standing warrants).
    Actuator { path: String },
}

impl View for ResourceRef {
    type V = ResourceTarget;

    open spec fn view(&self) -> ResourceTarget {
        match self {
            ResourceRef::Vault { address } => ResourceTarget::Vault { address: *address },
            ResourceRef::Registry { service } => ResourceTarget::Registry { service: service@ },
            ResourceRef::Sensor { path } => ResourceTarget::Sensor { path: path@ },
            ResourceRef::Actuator { path } => ResourceTarget::Actuator { path: path@ },
        }
    }
}

impl ResourceTarget {
    /// The display text of a reference.
    pub open spec fn text(self) -> Seq<char> {
        match self {
            ResourceTarget::Vault { address } => address.text(),
            ResourceTarget::Registry { service } => "registry://"@ + service,
            ResourceTarget::Sensor { path } => "sensor://"@ + path,
            ResourceTarget::Actuator { path } => "hvac://"@ + path,
        }
    }
}

impl ResourceRef {
    /// A reference to vault data at `address`.
    pub fn vault(address: VaultAddress) -> (r: ResourceRef)
        ensures
            r@ == (ResourceTarget::Vault { address }),
    {
        ResourceRef::Vault { address }
    }

    /// A reference to the registered service `name`.
    pub fn service(name: &str) -> (r: ResourceRef)
        ensures
            r@ == (ResourceTarget::Registry { service: name@ }),
    {
        ResourceRef::Registry { service: name.to_owned() }
    }

    /// The display form: `vault://…`, `registry://…`, `sensor://…` or
    /// `hvac://…`.
    pub fn to_text(&self) -> (text: String)
        ensures
            text@ == self@.text(),
    {
        match self {
            ResourceRef::Vault { address } => address.to_text(),
            ResourceRef::Registry { service } => {
                let mut text = "registry://".to_owned();
                text.append(service.as_str());
                text
            },
            ResourceRef::Sensor { path } => {
                let mut text = "sensor://".to_owned();
                text.append(path.as_str());
                text
            },
            ResourceRef::Actuator { path } => {
                let mut text = "hvac://".to_owned();
                text.append(path.as_str());
                text
            },
        }
    }
}

impl PartialEq for ResourceRef {
    fn eq(&self, other: &Self) -> (r: bool) {
        match (self, other) {
            (ResourceRef::Vault { address: a }, ResourceRef::Vault { address: b }) => *a == *b,
            (ResourceRef::Registry { service: a }, ResourceRef::Registry { service: b }) => *a == *b,
            (ResourceRef::Sensor { path: a }, ResourceRef::Sensor { path: b }) => *a == *b,
            (ResourceRef::Actuator { path: a }, ResourceRef::Actuator { path: b }) => *a == *b,
            _ => false,
        }
    }
}

impl Eq for ResourceRef {}

impl vstd::std_specs::cmp::PartialEqSpecImpl for ResourceRef {
    open spec fn obeys_eq_spec() -> bool {
        true
    }

    open spec fn eq_spec(&self, other: &ResourceRef) -> bool {
        self@ == other@
    }
}

} // verus!
