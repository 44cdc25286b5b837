//! The service registry.  Software is not installed, only registered;
//! capabilities are summoned on demand and code is content addressed.

use vstd::prelude::*;

verus! {

/// Enclave type: the secure sandbox a service runs in.
#[derive(Clone, Copy, Debug, PartialEq, Eq, Structural)]
pub enum EnclaveType {
    /// AMD SEV-SNP.
    TeeSev,
    /// Intel TDX.
    TeeTdx,
    /// ARM CCA.
    TeeCca,
    /// Local sandbox (no hardware enclave).
    Sandbox,
}

impl EnclaveType {
    /// The text of the enclave type.
    pub open spec fn text(self) -> Seq<char> {
        match self {
            EnclaveType::TeeSev => "tee:sev"@,
            EnclaveType::TeeTdx => "tee:tdx"@,
            EnclaveType::TeeCca => "tee:cca"@,
            EnclaveType::Sandbox => "sandbox"@,
        }
    }

    /// The display form: `tee:sev`, `tee:tdx`, `tee:cca` or `sandbox`.
    pub fn to_text(&self) -> (s: String)
        ensures
            s@ == self.text(),
    {
        match self {
            EnclaveType::TeeSev => "tee:sev".to_owned(),
            EnclaveType::TeeTdx => "tee:tdx".to_owned(),
            EnclaveType::TeeCca => "tee:cca".to_owned(),
            EnclaveType::Sandbox => "sandbox".to_owned(),
        }
    }
}

/// Service manifest: registering is hanging up one manifest.
#[derive(Clone, Debug)]
pub struct ServiceManifest {
    /// Service name.
    pub service: String,
    /// Vendor signature.
    pub vendor: String,
    /// Declared capabilities (such as ["ffmpeg:encode"]).
    pub capabilities: Vec<String>,
    /// Enclave type.
    pub enclave: EnclaveType,
    /// Statefulness.
    pub statefulness: ServiceStatefulness,
    /// Data view: purpose-bound, contract scoped.
    pub data_view: String,
    /// Billing.
    pub billing: BillingMethod,
}

/// Service statefulness.
#[derive(Clone, Copy, Debug, PartialEq, Eq, Structural)]
pub enum ServiceStatefulness {
    /// Stateless: burnt after processing.
    Stateless,
    /// Session-scoped: lives as long as the warrant.
    Session,
}

/// Billing method.
#[derive(Clone, Copy, Debug, PartialEq, Eq, Structural)]
pub enum BillingMethod {
    /// Per second.
    PerSecond,
    /// Per call.
    PerCall,
    /// Per megabyte.
    PerMB,
    /// Per unit of compute.
    PerFlop,
}

impl BillingMethod {
    /// The text of the billing method.
    pub open spec fn text(self) -> Seq<char> {
        match self {
            BillingMethod::PerSecond => "per-second"@,
            BillingMethod::PerCall => "per-call"@,
            BillingMethod::PerMB => "per-mb"@,
            BillingMethod::PerFlop => "per-flop"@,
        }
    }

    /// The display form: `per-second`, `per-call`, `per-mb` or `per-flop`.
    pub fn to_text(&self) -> (s: String)
        ensures
            s@ == self.text(),
    {
        match self {
            BillingMethod::PerSecond => "per-second".to_owned(),
            BillingMethod::PerCall => "per-call".to_owned(),
            BillingMethod::PerMB => "per-mb".to_owned(),
            BillingMethod::PerFlop => "per-flop".to_owned(),
        }
    }
}

/// The manifest is registered under `name`.
pub open spec fn named(m: ServiceManifest, name: Seq<char>) -> bool {
    m.service@ == name
}

/// Position `i` holds the first manifest registered under `name`.
pub open spec fn first_named(ms: Seq<ServiceManifest>, name: Seq<char>, i: int) -> bool {
    &&& 0 <= i < ms.len()
    &&& named(ms[i], name)
    &&& forall|j: int| 0 <= j < i ==> !#[trigger] named(ms[j], name)
}

/// The service registry: the set of registered manifests.
#[derive(Clone, Debug)]
pub struct Registry {
    /// Registered manifests.
    pub manifests: Vec<ServiceManifest>,
}

impl Default for Registry {
    /// An empty registry.
    fn default() -> (r: Registry)
        ensures
            r.manifests@.len() == 0,
    {
        Registry { manifests: Vec::new() }
    }
}

impl Registry {
    /// Registers a service: one more manifest, nothing else touched.
    pub fn register(&mut self, manifest: ServiceManifest)
        ensures
            final(self).manifests@ == old(self).manifests@.push(manifest),
    {
        self.manifests.push(manifest);
    }

    /// Finds the first manifest registered under `name`.
    pub fn find(&self, name: &str) -> (found: Option<&ServiceManifest>)
        ensures
            match found {
                Some(m) => exists|i: int| first_named(self.manifests@, name@, i) && self.manifests@[i] == *m,
                None => forall|j: int| 0 <= j < self.manifests@.len() ==> !#[trigger] named(self.manifests@[j], name@),
            },
            found is Some ==> found.unwrap().service@ == name@,
            found is None ==> forall|j: int|
                0 <= j < self.manifests@.len() ==> #[trigger] self.manifests@[j].service@ != name@,
    {
        proof {
            lemma_found_by_exact_name(self.manifests@, name@, 0);
        }
        let target = name.to_owned();
        let mut i: usize = 0;
        while i < self.manifests.len()
            invariant
                i <= self.manifests@.len(),
                target@ == name@,
                forall|j: int| 0 <= j < i ==> !#[trigger] named(self.manifests@[j], name@),
            decreases self.manifests@.len() - i,
        {
            if self.manifests[i].service == target {
                assert(first_named(self.manifests@, name@, i as int));
                return Some(&self.manifests[i]);
            }
            i = i + 1;
        }
        None
    }
}

/// After registering a manifest, a search for its name finds a manifest of
/// that name; the new one itself when no earlier manifest had the name.
pub proof fn lemma_register_then_find(ms: Seq<ServiceManifest>, m: ServiceManifest)
    ensures
        exists|i: int| first_named(ms.push(m), m.service@, i),
        (forall|j: int| 0 <= j < ms.len() ==> !#[trigger] named(ms[j], m.service@)) ==> first_named(
            ms.push(m),
            m.service@,
            ms.len() as int,
        ),
{
    let all = ms.push(m);
    let name = m.service@;
    assert(named(all[ms.len() as int], name));
    if exists|j: int| 0 <= j < ms.len() && #[trigger] named(ms[j], name) {
        lemma_first_exists(ms, name);
        let f = choose|j: int| first_named(ms, name, j);
        assert(first_named(all, name, f)) by {
            assert forall|l: int| 0 <= l < f implies !#[trigger] named(all[l], name) by {
                assert(all[l] == ms[l]);
            }
            assert(all[f] == ms[f]);
        }
    } else {
        assert forall|l: int| 0 <= l < ms.len() implies !#[trigger] named(all[l], name) by {
            assert(all[l] == ms[l]);
        }
        assert(first_named(all, name, ms.len() as int));
    }
    if forall|j: int| 0 <= j < ms.len() ==> !#[trigger] named(ms[j], name) {
        assert forall|l: int| 0 <= l < ms.len() implies !#[trigger] named(all[l], name) by {
            assert(all[l] == ms[l]);
        }
    }
}

/// A name that some manifest carries has a first manifest carrying it.
proof fn lemma_first_exists(ms: Seq<ServiceManifest>, name: Seq<char>)
    requires
        exists|j: int| 0 <= j < ms.len() && #[trigger] named(ms[j], name),
    ensures
        exists|i: int| first_named(ms, name, i),
    decreases ms.len(),
{
    let last = ms.len() - 1;
    if exists|j: int| 0 <= j < last && #[trigger] named(ms[j], name) {
        let prefix = ms.drop_last();
        assert(exists|j: int| 0 <= j < prefix.len() && #[trigger] named(prefix[j], name)) by {
            let j = choose|j: int| 0 <= j < last && #[trigger] named(ms[j], name);
            assert(prefix[j] == ms[j]);
        }
        lemma_first_exists(prefix, name);
        let f = choose|i: int| first_named(prefix, name, i);
        assert forall|l: int| 0 <= l < f implies !#[trigger] named(ms[l], name) by {
            assert(prefix[l] == ms[l]);
        }
        assert(prefix[f] == ms[f]);
        assert(first_named(ms, name, f));
    } else {
        assert(named(ms[last], name));
        assert(first_named(ms, name, last));
    }
}

/// Names match exactly, character for character: the first manifest whose
/// service is `name` is the one at `i` exactly when its service is `name`
/// and no earlier one's is; and no manifest is registered under `name`
/// exactly when no service is `name`.
pub proof fn lemma_found_by_exact_name(ms: Seq<ServiceManifest>, name: Seq<char>, i: int)
    ensures
        first_named(ms, name, i) <==> (0 <= i < ms.len() && ms[i].service@ == name && forall|j: int|
            0 <= j < i ==> #[trigger] ms[j].service@ != name),
        (forall|j: int| 0 <= j < ms.len() ==> !#[trigger] named(ms[j], name)) <==> (forall|j: int|
            0 <= j < ms.len() ==> #[trigger] ms[j].service@ != name),
{
    if forall|j: int| 0 <= j < ms.len() ==> #[trigger] ms[j].service@ != name {
        assert forall|j: int| 0 <= j < ms.len() implies !#[trigger] named(ms[j], name) by {
            assert(ms[j].service@ != name);
        }
    }
    if forall|j: int| 0 <= j < ms.len() ==> !#[trigger] named(ms[j], name) {
        assert forall|j: int| 0 <= j < ms.len() implies #[trigger] ms[j].service@ != name by {
            assert(!named(ms[j], name));
        }
    }
    if 0 <= i < ms.len() && ms[i].service@ == name && forall|j: int|
        0 <= j < i ==> #[trigger] ms[j].service@ != name {
        assert forall|j: int| 0 <= j < i implies !#[trigger] named(ms[j], name) by {
            assert(ms[j].service@ != name);
        }
    }
    if first_named(ms, name, i) {
        assert forall|j: int| 0 <= j < i implies #[trigger] ms[j].service@ != name by {
            assert(!named(ms[j], name));
        }
    }
}

} // verus!
