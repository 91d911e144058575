//! An SRV resolution and reconciliation engine: it turns a possibly flaky,
//! possibly partial, repeatedly polled DNS SRV answer into an idempotent set
//! of endpoint objects for an external store.  The name parser, the
//! resolution engine's two-tier failure policy, the endpoint synthesizer and
//! the per-cycle reconciliation decisions live here, each under a contract;
//! the DNS queries, the store client and the process plumbing stay with the
//! caller.

pub mod config;
pub mod crd;
pub mod dns;
pub mod errors;
pub mod k8s;
pub mod reconcile;

use vstd::prelude::*;

verus! {

/// One SRV domain the controller watches, as supplied by configuration.
///
/// `service_name` is the stable identity of the synthesized endpoint object;
/// it, not `hostname`, correlates resolutions across poll cycles.
/// `slice_type` selects the output shape and must be one of `"ipv4"`,
/// `"fqdn"` or `"ipv6"`.
#[derive(Clone, Debug)]
pub struct SRVDomain {
    pub hostname: String,
    pub service_name: String,
    pub slice_type: String,
}

/// Mathematical image of a `SRVDomain`.
pub struct SRVDomainV {
    pub hostname: Seq<char>,
    pub service_name: Seq<char>,
    pub slice_type: Seq<char>,
}

impl DeepView for SRVDomain {
    type V = SRVDomainV;

    open spec fn deep_view(&self) -> SRVDomainV {
        SRVDomainV {
            hostname: self.hostname.deep_view(),
            service_name: self.service_name.deep_view(),
            slice_type: self.slice_type.deep_view(),
        }
    }
}

/// Holds when a configured slice type is one of the three recognized shapes.
pub open spec fn valid_slice_type(st: Seq<char>) -> bool {
    st == "ipv4"@ || st == "fqdn"@ || st == "ipv6"@
}

impl SRVDomain {
    /// Whether this domain's `slice_type` is one of the recognized shapes.
    pub fn has_valid_slice_type(&self) -> (r: bool)
        ensures
            r == valid_slice_type(self.slice_type@),
    {
        let st: &str = self.slice_type.as_str();
        str_eq(st, "ipv4") || str_eq(st, "fqdn") || str_eq(st, "ipv6")
    }
}

/// Relies on `str::eq` (via `==` on `&str`): equality of the character
/// sequences of the two slices.
#[verifier::external_body]
pub(crate) fn str_eq(a: &str, b: &str) -> (r: bool)
    ensures
        r == (a@ == b@),
{
    a == b
}

} // verus!
