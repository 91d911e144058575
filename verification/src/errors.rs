use vstd::prelude::*;

verus! {

/// The controller's error taxonomy.  Every variant is scoped to a single
/// domain's reconciliation attempt; none of them may stop the loop as a
/// whole.
#[derive(Clone, Debug, PartialEq, Eq)]
pub enum ControllerError {
    /// An SRV or A-record query failed (timeout, NXDOMAIN, SERVFAIL or a
    /// malformed response), for the queried name, with the underlying cause.
    Resolution { hostname: String, cause: String },
    /// A configured capability is recognized but deliberately not
    /// implemented (the IPv6 slice shape); surfaced loudly, never silently
    /// dropped.
    NotSupported { detail: String },
    /// The external endpoint store rejected an upsert; retried only on the
    /// next natural poll cycle.
    Sink { detail: String },
}

/// Mathematical image of a `ControllerError`.
pub enum ControllerErrorV {
    Resolution { hostname: Seq<char>, cause: Seq<char> },
    NotSupported { detail: Seq<char> },
    Sink { detail: Seq<char> },
}

impl DeepView for ControllerError {
    type V = ControllerErrorV;

    open spec fn deep_view(&self) -> ControllerErrorV {
        match self {
            ControllerError::Resolution { hostname, cause } => ControllerErrorV::Resolution {
                hostname: hostname.deep_view(),
                cause: cause.deep_view(),
            },
            ControllerError::NotSupported { detail } => ControllerErrorV::NotSupported {
                detail: detail.deep_view(),
            },
            ControllerError::Sink { detail } => ControllerErrorV::Sink {
                detail: detail.deep_view(),
            },
        }
    }
}

} // verus!
