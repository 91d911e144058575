use vstd::prelude::*;

use crate::SRVDomain;
use crate::SRVDomainV;
use crate::valid_slice_type;
use crate::dns::SrvResult;
use crate::dns::SrvResultV;
use crate::errors::ControllerError;
use crate::errors::ControllerErrorV;
use crate::k8s::common_labels_of;
use crate::k8s::gen_common_labels;
use crate::k8s::endpoints::EndpointSlice;
use crate::k8s::endpoints::EndpointSliceV;
use crate::k8s::endpoints::gen_endpoint_slices;
use crate::k8s::endpoints::ipv6_unsupported_detail;
use crate::k8s::endpoints::slice_of;
use crate::k8s::endpoints::writes_endpoint;

verus! {

// ---------------------------------------------------------------------------
// Reconciliation
//
// One polling pass decides, per configured domain and from that domain's
// resolution outcome alone, what to do at the sink: write the synthesized
// object, leave the stored state alone, or report a failure.  A failure is
// confined to its own domain; the pass always yields a decision for every
// domain in the configured order.  The caller performs the resolutions and
// the upserts; the decisions are made here.
// ---------------------------------------------------------------------------

/// What one polling pass does for one domain.
#[derive(Clone, Debug, PartialEq, Eq)]
pub enum DomainAction {
    /// Write this complete desired-state object for the domain's service.
    Upsert(EndpointSlice),
    /// Nothing usable resolved this cycle; the sink's state is left alone.
    Nothing,
    /// This domain's attempt failed; it is reported and the pass goes on.
    Fail(ControllerError),
}

/// Mathematical image of a `DomainAction`.
pub enum DomainActionV {
    Upsert(EndpointSliceV),
    Nothing,
    Fail(ControllerErrorV),
}

impl DeepView for DomainAction {
    type V = DomainActionV;

    open spec fn deep_view(&self) -> DomainActionV {
        match self {
            DomainAction::Upsert(slice) => DomainActionV::Upsert(slice.deep_view()),
            DomainAction::Nothing => DomainActionV::Nothing,
            DomainAction::Fail(e) => DomainActionV::Fail(e.deep_view()),
        }
    }
}

/// A resolution outcome, seen mathematically.
pub open spec fn resolution_view(r: Result<SrvResult, ControllerError>) -> Result<
    SrvResultV,
    ControllerErrorV,
> {
    match r {
        Ok(res) => Ok(res.deep_view()),
        Err(e) => Err(e.deep_view()),
    }
}

/// The action one domain's resolution outcome warrants: a failed SRV query
/// is reported; an unsupported shape is reported; a resolution without a
/// usable address writes nothing; anything else upserts the synthesized
/// object under the domain's system-owned labels.
pub open spec fn action_of(
    dom: SRVDomainV,
    namespace: Seq<char>,
    resolution: Result<SrvResultV, ControllerErrorV>,
) -> DomainActionV {
    match resolution {
        Err(e) => DomainActionV::Fail(e),
        Ok(res) => if dom.slice_type == "ipv6"@ {
            DomainActionV::Fail(
                ControllerErrorV::NotSupported { detail: ipv6_unsupported_detail() },
            )
        } else if !writes_endpoint(res) {
            DomainActionV::Nothing
        } else {
            DomainActionV::Upsert(
                slice_of(
                    res,
                    dom,
                    namespace,
                    common_labels_of(dom.service_name, res.srv_hostname),
                ),
            )
        },
    }
}

/// Decides one domain's action from its resolution outcome: the synthesized
/// object under the domain's system-owned labels where one is owed, and a
/// confined report otherwise.
pub fn reconcile_domain(
    dom: &SRVDomain,
    namespace: &str,
    resolution: Result<SrvResult, ControllerError>,
) -> (r: DomainAction)
    requires
        valid_slice_type(dom.slice_type@),
    ensures
        r.deep_view() == action_of(dom.deep_view(), namespace@, resolution_view(resolution)),
{
    match resolution {
        Err(e) => DomainAction::Fail(e),
        Ok(res) => {
            let labels = gen_common_labels(dom.service_name.as_str(), res.srv_hostname.as_str());
            match gen_endpoint_slices(&res, dom, namespace, &labels) {
                Err(e) => DomainAction::Fail(e),
                Ok(None) => DomainAction::Nothing,
                Ok(Some(slice)) => DomainAction::Upsert(slice),
            }
        },
    }
}

/// Runs the decisions of one full polling pass: one action per configured
/// domain, in the configured order, each from that domain's resolution
/// outcome alone.  No outcome, however bad, keeps a later domain from being
/// decided.
pub fn reconcile_cycle(
    domains: &Vec<SRVDomain>,
    namespace: &str,
    resolutions: Vec<Result<SrvResult, ControllerError>>,
) -> (r: Vec<DomainAction>)
    requires
        resolutions@.len() == domains@.len(),
        forall|i: int| 0 <= i < domains@.len() ==> valid_slice_type(domains@[i].slice_type@),
    ensures
        r@.len() == domains@.len(),
        forall|i: int| 0 <= i < domains@.len() ==> r@[i].deep_view() == action_of(
            domains@[i].deep_view(),
            namespace@,
            resolution_view(resolutions@[i]),
        ),
{
    let ghost rs0 = resolutions@;
    let ghost n = domains@.len();
    let mut outs = resolutions;
    let mut actions: Vec<DomainAction> = Vec::new();
    let mut i: usize = 0;
    proof {
        assert(outs@ =~= rs0.skip(0));
    }
    while i < domains.len()
        invariant
            i <= n,
            n == domains@.len(),
            rs0.len() == n,
            outs@.len() == n - i,
            outs@ == rs0.skip(i as int),
            actions@.len() == i,
            forall|j: int| 0 <= j < i ==> actions@[j].deep_view() == action_of(
                domains@[j].deep_view(),
                namespace@,
                resolution_view(rs0[j]),
            ),
            forall|k: int| 0 <= k < n ==> valid_slice_type(domains@[k].slice_type@),
        decreases n - i,
    {
        let ghost pre_outs = outs@;
        let ghost pre_actions = actions@;
        let resolution = outs.remove(0);
        proof {
            assert(resolution == rs0.skip(i as int)[0]);
            assert(resolution == rs0[i as int]);
            assert(outs@ =~= rs0.skip(i + 1));
        }
        let action = reconcile_domain(&domains[i], namespace, resolution);
        let ghost action_snap = action;
        actions.push(action);
        proof {
            assert(actions@ == pre_actions.push(action_snap));
            assert forall|j: int| 0 <= j < i + 1 implies actions@[j].deep_view() == action_of(
                domains@[j].deep_view(),
                namespace@,
                resolution_view(rs0[j]),
            ) by {
                if j < i {
                    assert(actions@[j] == pre_actions[j]);
                } else {
                    assert(actions@[j] == action_snap);
                }
            }
        }
        i = i + 1;
    }
    actions
}

// ---------------------------------------------------------------------------
// Laws of the loop and of the sink
// ---------------------------------------------------------------------------

/// One domain's failure never stops the pass: whatever failed for domain
/// `a`, a later (or earlier) domain `b` whose resolution succeeded with a
/// usable address still has its synthesized object upserted in the same
/// pass.
pub proof fn lemma_loop_resilience(
    domains: Seq<SRVDomainV>,
    namespace: Seq<char>,
    resolutions: Seq<Result<SrvResultV, ControllerErrorV>>,
    actions: Seq<DomainActionV>,
    a: int,
    b: int,
)
    requires
        domains.len() == resolutions.len(),
        domains.len() == actions.len(),
        forall|i: int| 0 <= i < domains.len() ==> actions[i] == action_of(
            domains[i],
            namespace,
            resolutions[i],
        ),
        0 <= a < domains.len(),
        0 <= b < domains.len(),
        a != b,
        resolutions[a] is Err,
        resolutions[b] matches Ok(res) && writes_endpoint(res),
        domains[b].slice_type != "ipv6"@,
    ensures
        actions[a] is Fail,
        actions[b] == DomainActionV::Upsert(
            slice_of(
                resolutions[b]->Ok_0,
                domains[b],
                namespace,
                common_labels_of(domains[b].service_name, resolutions[b]->Ok_0.srv_hostname),
            ),
        ),
{
}

/// The sink's store, modelled as a map from object name to the object it
/// holds for that name.  An upsert is a replace: create if absent, else
/// overwrite whole.
pub open spec fn upsert_model(
    store: Map<Seq<char>, EndpointSliceV>,
    name: Seq<char>,
    obj: EndpointSliceV,
) -> Map<Seq<char>, EndpointSliceV> {
    store.insert(name, obj)
}

/// Upserting the same object twice leaves the store exactly as after the
/// first application.
pub proof fn lemma_upsert_idempotent(
    store: Map<Seq<char>, EndpointSliceV>,
    name: Seq<char>,
    obj: EndpointSliceV,
)
    ensures
        upsert_model(upsert_model(store, name, obj), name, obj) == upsert_model(store, name, obj),
{
    assert(upsert_model(upsert_model(store, name, obj), name, obj) =~= upsert_model(
        store,
        name,
        obj,
    ));
}

} // verus!
