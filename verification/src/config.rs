use vstd::prelude::*;

use crate::SRVDomain;
use crate::SRVDomainV;
use crate::str_eq;
use crate::valid_slice_type;

verus! {

// ---------------------------------------------------------------------------
// Configuration
//
// The configuration is constructed once at startup and handed into the
// reconciliation loop; the engine itself keeps no process-wide mutable
// state.  Loading the file is the caller's business; which format an
// extension selects, and whether a loaded configuration is structurally
// sound, are decided here.
// ---------------------------------------------------------------------------

/// The controller's configuration: the domains to reconcile, the namespace
/// written into, and the cluster version that gates the endpoint
/// representation.
#[derive(Clone, Debug)]
pub struct ControllerConfig {
    pub domains: Vec<SRVDomain>,
    pub namespace: String,
    pub cluster_version: String,
}

/// Mathematical image of a `ControllerConfig`.
pub struct ControllerConfigV {
    pub domains: Seq<SRVDomainV>,
    pub namespace: Seq<char>,
    pub cluster_version: Seq<char>,
}

impl DeepView for ControllerConfig {
    type V = ControllerConfigV;

    open spec fn deep_view(&self) -> ControllerConfigV {
        ControllerConfigV {
            domains: self.domains.deep_view(),
            namespace: self.namespace.deep_view(),
            cluster_version: self.cluster_version.deep_view(),
        }
    }
}

/// No two configured domains share a `service_name`: the name is the
/// reconciliation key, and it identifies exactly one endpoint object.
pub open spec fn service_names_unique(domains: Seq<SRVDomainV>) -> bool {
    forall|i: int, j: int|
        0 <= i < j < domains.len() ==> domains[i].service_name != domains[j].service_name
}

/// A structurally sound configuration: service names pairwise distinct and
/// every slice type one of the recognized shapes.
pub open spec fn config_valid(c: ControllerConfigV) -> bool {
    &&& service_names_unique(c.domains)
    &&& forall|i: int| 0 <= i < c.domains.len() ==> valid_slice_type(c.domains[i].slice_type)
}

impl ControllerConfig {
    /// A configuration with nothing in it.
    pub fn empty() -> (r: ControllerConfig)
        ensures
            r.deep_view() == (ControllerConfigV {
                domains: Seq::<SRVDomainV>::empty(),
                namespace: Seq::<char>::empty(),
                cluster_version: Seq::<char>::empty(),
            }),
    {
        let r = ControllerConfig {
            domains: Vec::new(),
            namespace: String::new(),
            cluster_version: String::new(),
        };
        proof {
            assert(r.deep_view().domains =~= Seq::<SRVDomainV>::empty());
        }
        r
    }

    /// Checks the structural invariants a loaded configuration must meet
    /// before the loop may run on it.
    pub fn validate(&self) -> (r: bool)
        ensures
            r == config_valid(self.deep_view()),
    {
        let ghost c = self.deep_view();
        let n: usize = self.domains.len();
        let mut i: usize = 0;
        while i < n
            invariant
                i <= n,
                n == self.domains@.len(),
                c == self.deep_view(),
                forall|k: int| 0 <= k < i ==> valid_slice_type(c.domains[k].slice_type),
            decreases n - i,
        {
            proof {
                assert(c.domains[i as int] == self.domains@[i as int].deep_view());
            }
            if !self.domains[i].has_valid_slice_type() {
                return false;
            }
            i = i + 1;
        }
        let mut i: usize = 0;
        while i < n
            invariant
                i <= n,
                n == self.domains@.len(),
                c == self.deep_view(),
                forall|k: int| 0 <= k < c.domains.len() ==> valid_slice_type(c.domains[k].slice_type),
                forall|k: int, l: int|
                    0 <= k < l < c.domains.len() && k < i ==> c.domains[k].service_name
                        != c.domains[l].service_name,
            decreases n - i,
        {
            let mut j: usize = i + 1;
            while j < n
                invariant
                    i < j <= n,
                    n == self.domains@.len(),
                    c == self.deep_view(),
                    forall|k: int, l: int|
                        0 <= k < l < c.domains.len() && k < i ==> c.domains[k].service_name
                            != c.domains[l].service_name,
                    forall|l: int| i < l < j ==> c.domains[i as int].service_name
                        != c.domains[l].service_name,
                decreases n - j,
            {
                proof {
                    assert(c.domains[i as int] == self.domains@[i as int].deep_view());
                    assert(c.domains[j as int] == self.domains@[j as int].deep_view());
                }
                if self.domains[i].service_name == self.domains[j].service_name {
                    return false;
                }
                j = j + 1;
            }
            i = i + 1;
        }
        true
    }
}

/// The config file formats the controller accepts.
#[derive(Clone, Copy, Debug, PartialEq, Eq, Structural)]
pub enum ConfigFormat {
    Toml,
    Yaml,
}

/// The format a file extension selects: `toml` and `yaml` are parsed,
/// anything else — or a file without an extension — is refused rather than
/// guessed at.
pub open spec fn format_for_extension(ext: Option<Seq<char>>) -> Option<ConfigFormat> {
    match ext {
        Some(e) => if e == "toml"@ {
            Some(ConfigFormat::Toml)
        } else if e == "yaml"@ {
            Some(ConfigFormat::Yaml)
        } else {
            None
        },
        None => None,
    }
}

/// Decides which parser a config file's extension calls for.
pub fn config_format_for_extension(ext: Option<&str>) -> (r: Option<ConfigFormat>)
    ensures
        r == format_for_extension(ext.deep_view()),
{
    match ext {
        Some(e) => {
            if str_eq(e, "toml") {
                Some(ConfigFormat::Toml)
            } else if str_eq(e, "yaml") {
                Some(ConfigFormat::Yaml)
            } else {
                None
            }
        },
        None => None,
    }
}

/// Whether the cluster version is the one gated to carry the slice
/// representation rather than the legacy flat one.
pub fn use_endpoint_slices(cluster_version: &str) -> (r: bool)
    ensures
        r == (cluster_version@ == "1.17"@),
{
    str_eq(cluster_version, "1.17")
}

} // verus!
