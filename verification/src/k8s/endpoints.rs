use vstd::prelude::*;

use crate::SRVDomain;
use crate::SRVDomainV;
use crate::str_eq;
use crate::valid_slice_type;
use crate::dns::Ipv4Address;
use crate::dns::SrvRecord;
use crate::dns::SrvRecordV;
use crate::dns::SrvResult;
use crate::dns::SrvResultV;
use crate::dns::dotted_of;
use crate::errors::ControllerError;
use crate::errors::ControllerErrorV;
use crate::k8s::ObjectMeta;
use crate::k8s::ObjectMetaV;
use crate::k8s::common_labels_of;
use crate::k8s::gen_obj_meta;

verus! {

// ---------------------------------------------------------------------------
// Endpoint synthesis
//
// One `SrvResult` plus one domain's configuration yields at most one
// complete desired-state endpoint object.  The object is recomputed whole on
// every poll cycle and replaces, never merges with, what the sink holds.
// Nothing is written while no record has a non-empty resolved address list:
// a transient resolver hiccup must not erase a previously good state.
// ---------------------------------------------------------------------------

/// One port entry of a synthesized endpoint object.
#[derive(Clone, Debug, PartialEq, Eq)]
pub struct EndpointPort {
    pub app_protocol: Option<String>,
    pub name: Option<String>,
    pub port: Option<u16>,
    pub protocol: Option<String>,
}

/// Mathematical image of an `EndpointPort`.
pub struct EndpointPortV {
    pub app_protocol: Option<Seq<char>>,
    pub name: Option<Seq<char>>,
    pub port: Option<u16>,
    pub protocol: Option<Seq<char>>,
}

impl DeepView for EndpointPort {
    type V = EndpointPortV;

    open spec fn deep_view(&self) -> EndpointPortV {
        EndpointPortV {
            app_protocol: self.app_protocol.deep_view(),
            name: self.name.deep_view(),
            port: self.port,
            protocol: self.protocol.deep_view(),
        }
    }
}

/// One endpoint of a synthesized object: the addresses one SRV target
/// resolved to, tagged with the target's hostname.
#[derive(Clone, Debug, PartialEq, Eq)]
pub struct Endpoint {
    pub addresses: Vec<String>,
    pub hostname: Option<String>,
}

/// Mathematical image of an `Endpoint`.
pub struct EndpointV {
    pub addresses: Seq<Seq<char>>,
    pub hostname: Option<Seq<char>>,
}

impl DeepView for Endpoint {
    type V = EndpointV;

    open spec fn deep_view(&self) -> EndpointV {
        EndpointV {
            addresses: self.addresses.deep_view(),
            hostname: self.hostname.deep_view(),
        }
    }
}

/// A complete desired-state endpoint object for one domain.
#[derive(Clone, Debug, PartialEq, Eq)]
pub struct EndpointSlice {
    pub address_type: String,
    pub endpoints: Vec<Endpoint>,
    pub ports: Option<Vec<EndpointPort>>,
    pub metadata: ObjectMeta,
}

/// Mathematical image of an `EndpointSlice`.
pub struct EndpointSliceV {
    pub address_type: Seq<char>,
    pub endpoints: Seq<EndpointV>,
    pub ports: Option<Seq<EndpointPortV>>,
    pub metadata: ObjectMetaV,
}

impl DeepView for EndpointSlice {
    type V = EndpointSliceV;

    open spec fn deep_view(&self) -> EndpointSliceV {
        EndpointSliceV {
            address_type: self.address_type.deep_view(),
            endpoints: self.endpoints.deep_view(),
            ports: self.ports.deep_view(),
            metadata: self.metadata.deep_view(),
        }
    }
}

// ---------------------------------------------------------------------------
// What synthesis yields, stated mathematically
// ---------------------------------------------------------------------------

/// The dotted-decimal renderings of one record's resolved addresses; a
/// record whose address resolution failed contributes none.
pub open spec fn addresses_of(o: Option<Seq<Ipv4Address>>) -> Seq<Seq<char>> {
    match o {
        Some(addrs) => addrs.map_values(|ip: Ipv4Address| dotted_of(ip)),
        None => Seq::empty(),
    }
}

/// The endpoint entry synthesized from one record.
pub open spec fn endpoint_of(r: SrvRecordV) -> EndpointV {
    EndpointV { addresses: addresses_of(r.ipv4_addr), hostname: Some(r.hostname) }
}

/// Whether a record's address resolution succeeded with at least one
/// address.
pub open spec fn has_ready_address(r: SrvRecordV) -> bool {
    r.ipv4_addr matches Some(addrs) && addrs.len() > 0
}

/// Whether any record brings a usable address.
pub open spec fn any_ready_record(recs: Seq<SrvRecordV>) -> bool {
    exists|i: int| 0 <= i < recs.len() && has_ready_address(recs[i])
}

/// The records of a resolution, empty while the SRV answer is absent.
pub open spec fn slice_records(res: SrvResultV) -> Seq<SrvRecordV> {
    match res.srv_records {
        Some(recs) => recs,
        None => Seq::empty(),
    }
}

/// Whether a resolution warrants a write at all: it has records and at
/// least one of them a non-empty resolved address list.
pub open spec fn writes_endpoint(res: SrvResultV) -> bool {
    res.srv_records matches Some(recs) && any_ready_record(recs)
}

/// The one port entry of the synthesized object: the first record's SRV
/// port under the labels parsed from the SRV name (all targets of one SRV
/// query share port and protocol by DNS convention).
pub open spec fn port_of(res: SrvResultV) -> EndpointPortV
    recommends
        writes_endpoint(res),
{
    EndpointPortV {
        app_protocol: None,
        name: res.service,
        port: Some(slice_records(res)[0].port),
        protocol: res.protocol,
    }
}

/// The complete endpoint object synthesized from one resolution for one
/// domain.
pub open spec fn slice_of(
    res: SrvResultV,
    dom: SRVDomainV,
    namespace: Seq<char>,
    labels: Seq<(Seq<char>, Seq<char>)>,
) -> EndpointSliceV
    recommends
        writes_endpoint(res),
{
    EndpointSliceV {
        address_type: dom.slice_type,
        endpoints: slice_records(res).map_values(|r: SrvRecordV| endpoint_of(r)),
        ports: Some(seq![port_of(res)]),
        metadata: ObjectMetaV {
            name: Some(dom.service_name),
            namespace: Some(namespace),
            annotations: None,
            labels: Some(labels),
        },
    }
}

/// Why an IPv6-shaped object cannot be produced.
pub open spec fn ipv6_unsupported_detail() -> Seq<char> {
    "IPv6 slice types are currently unimplemented"@
}

/// Everything `gen_endpoint_slices` promises of its outcome.
pub open spec fn synthesize_post(
    res: SrvResultV,
    dom: SRVDomainV,
    namespace: Seq<char>,
    labels: Seq<(Seq<char>, Seq<char>)>,
    r: Result<Option<EndpointSliceV>, ControllerErrorV>,
) -> bool {
    &&& (r is Err <==> dom.slice_type == "ipv6"@)
    &&& (r is Err ==> r == Err::<Option<EndpointSliceV>, ControllerErrorV>(
        ControllerErrorV::NotSupported { detail: ipv6_unsupported_detail() },
    ))
    &&& (dom.slice_type != "ipv6"@ ==> {
        &&& r matches Ok(o)
        &&& (o is None <==> !writes_endpoint(res))
        &&& (writes_endpoint(res) ==> o == Some(slice_of(res, dom, namespace, labels)))
    })
}

/// The outcome of synthesis, seen mathematically.
pub open spec fn synth_result_view(r: Result<Option<EndpointSlice>, ControllerError>) -> Result<
    Option<EndpointSliceV>,
    ControllerErrorV,
> {
    match r {
        Ok(o) => Ok(o.deep_view()),
        Err(e) => Err(e.deep_view()),
    }
}

// ---------------------------------------------------------------------------
// Synthesis
// ---------------------------------------------------------------------------

/// Whether any record of the list brings a usable address.
fn any_ready(recs: &Vec<SrvRecord>) -> (r: bool)
    ensures
        r == any_ready_record(recs.deep_view()),
{
    let mut i: usize = 0;
    while i < recs.len()
        invariant
            i <= recs@.len(),
            forall|j: int| 0 <= j < i ==> !has_ready_address(recs.deep_view()[j]),
        decreases recs@.len() - i,
    {
        let ready: bool = match &recs[i].ipv4_addr {
            Some(addrs) => addrs.len() > 0,
            None => false,
        };
        proof {
            assert(recs.deep_view()[i as int] == recs@[i as int].deep_view());
        }
        if ready {
            return true;
        }
        i = i + 1;
    }
    false
}

fn clone_opt_string(o: &Option<String>) -> (r: Option<String>)
    ensures
        r.deep_view() == o.deep_view(),
{
    match o {
        Some(s) => Some(s.clone()),
        None => None,
    }
}

fn clone_labels(labels: &Vec<(String, String)>) -> (r: Vec<(String, String)>)
    ensures
        r.deep_view() == labels.deep_view(),
{
    let mut out: Vec<(String, String)> = Vec::new();
    let mut i: usize = 0;
    while i < labels.len()
        invariant
            i <= labels@.len(),
            out@.len() == i,
            forall|j: int| 0 <= j < i ==> out@[j].deep_view() == labels@[j].deep_view(),
        decreases labels@.len() - i,
    {
        let pair: &(String, String) = &labels[i];
        out.push((pair.0.clone(), pair.1.clone()));
        i = i + 1;
    }
    proof {
        assert(out.deep_view() =~= labels.deep_view());
    }
    out
}

/// Synthesizes the endpoint object for one domain from one resolution, or
/// decides that nothing is to be written this cycle.
///
/// `Ok(None)` exactly when no record carries a usable address (a transient
/// failure never erases good state); `Err` exactly when the domain asks for
/// the IPv6 shape, which is recognized but unimplemented and fails loudly.
/// Otherwise the complete desired-state object: one endpoint per record
/// with its resolved addresses in dotted-decimal form, the first record's
/// SRV port, the labels parsed from the SRV name, and the given
/// namespace-wide metadata.
pub fn gen_endpoint_slices(
    res: &SrvResult,
    dom: &SRVDomain,
    namespace: &str,
    labels: &Vec<(String, String)>,
) -> (r: Result<Option<EndpointSlice>, ControllerError>)
    requires
        valid_slice_type(dom.slice_type@),
    ensures
        synthesize_post(
            res.deep_view(),
            dom.deep_view(),
            namespace@,
            labels.deep_view(),
            synth_result_view(r),
        ),
{
    if str_eq(dom.slice_type.as_str(), "ipv6") {
        return Err(
            ControllerError::NotSupported {
                detail: String::from_str("IPv6 slice types are currently unimplemented"),
            },
        );
    }
    match &res.srv_records {
        None => Ok(None),
        Some(recs) => {
            if !any_ready(recs) {
                return Ok(None);
            }
            let ghost resv = res.deep_view();
            let ghost recs_v = recs.deep_view();
            proof {
                assert(slice_records(resv) == recs_v);
                assert(recs_v.len() > 0);
            }
            let mut endpoints: Vec<Endpoint> = Vec::new();
            let mut i: usize = 0;
            while i < recs.len()
                invariant
                    i <= recs@.len(),
                    recs_v == recs.deep_view(),
                    endpoints@.len() == i,
                    forall|j: int| 0 <= j < i ==> endpoints@[j].deep_view() == endpoint_of(
                        recs_v[j],
                    ),
                decreases recs@.len() - i,
            {
                let rec: &SrvRecord = &recs[i];
                let mut addrs: Vec<String> = Vec::new();
                match &rec.ipv4_addr {
                    Some(ips) => {
                        let mut j: usize = 0;
                        while j < ips.len()
                            invariant
                                j <= ips@.len(),
                                addrs@.len() == j,
                                forall|t: int| 0 <= t < j ==> addrs@[t]@ == dotted_of(ips@[t]),
                            decreases ips@.len() - j,
                        {
                            addrs.push(ips[j].to_dotted());
                            j = j + 1;
                        }
                        proof {
                            assert(recs_v[i as int] == recs@[i as int].deep_view());
                            assert(recs_v[i as int].ipv4_addr == Some(ips.deep_view()));
                            assert(addrs.deep_view() =~= addresses_of(recs_v[i as int].ipv4_addr));
                        }
                    },
                    None => {
                        proof {
                            assert(recs_v[i as int] == recs@[i as int].deep_view());
                            assert(addrs.deep_view() =~= addresses_of(recs_v[i as int].ipv4_addr));
                        }
                    },
                }
                let ep = Endpoint { addresses: addrs, hostname: Some(rec.hostname.clone()) };
                proof {
                    assert(ep.deep_view() == endpoint_of(recs_v[i as int]));
                }
                endpoints.push(ep);
                i = i + 1;
            }
            proof {
                assert(endpoints.deep_view() =~= slice_records(resv).map_values(
                    |r: SrvRecordV| endpoint_of(r),
                ));
            }
            let first_port: u16 = recs[0].port;
            let srv_port = EndpointPort {
                app_protocol: None,
                name: clone_opt_string(&res.service),
                port: Some(first_port),
                protocol: clone_opt_string(&res.protocol),
            };
            proof {
                assert(srv_port.deep_view() == port_of(resv));
            }
            let dom_copy = SRVDomain {
                hostname: dom.hostname.clone(),
                service_name: dom.service_name.clone(),
                slice_type: dom.slice_type.clone(),
            };
            let meta = gen_obj_meta(dom_copy, namespace, None, Some(clone_labels(labels)));
            let mut ports: Vec<EndpointPort> = Vec::new();
            ports.push(srv_port);
            proof {
                assert(ports.deep_view() =~= seq![port_of(resv)]);
            }
            let slice = EndpointSlice {
                address_type: dom.slice_type.clone(),
                endpoints,
                ports: Some(ports),
                metadata: meta,
            };
            proof {
                assert(slice.deep_view() == slice_of(
                    resv,
                    dom.deep_view(),
                    namespace@,
                    labels.deep_view(),
                ));
            }
            Ok(Some(slice))
        },
    }
}

/// Why the legacy flat representation cannot be produced.
pub open spec fn flat_endpoints_detail() -> Seq<char> {
    "flat Endpoints generation is not implemented"@
}

/// The legacy flat endpoints representation.  The choice between it and the
/// slice representation is deliberately not finalized; requesting it fails
/// loudly rather than silently writing nothing.
pub fn gen_endpoints(res: &SrvResult) -> (r: Result<Option<EndpointSlice>, ControllerError>)
    ensures
        r matches Err(e) && e.deep_view() == (ControllerErrorV::NotSupported {
            detail: flat_endpoints_detail(),
        }),
{
    let _ = res;
    Err(
        ControllerError::NotSupported {
            detail: String::from_str("flat Endpoints generation is not implemented"),
        },
    )
}

// ---------------------------------------------------------------------------
// Laws of synthesis
// ---------------------------------------------------------------------------

/// Synthesis is a function of the resolved state, the domain, the namespace
/// and the labels alone: two synthesis outcomes for identical inputs are
/// identical, so re-running a cycle without a change of DNS state rewrites
/// exactly the same object.
pub proof fn lemma_synthesize_deterministic(
    res: SrvResultV,
    dom: SRVDomainV,
    namespace: Seq<char>,
    labels: Seq<(Seq<char>, Seq<char>)>,
    r1: Result<Option<EndpointSliceV>, ControllerErrorV>,
    r2: Result<Option<EndpointSliceV>, ControllerErrorV>,
)
    requires
        synthesize_post(res, dom, namespace, labels, r1),
        synthesize_post(res, dom, namespace, labels, r2),
    ensures
        r1 == r2,
{
}

/// When every target of the SRV answer shares one port, the synthesized
/// object carries exactly one port entry, holding that port.
pub proof fn lemma_port_fidelity(
    res: SrvResultV,
    dom: SRVDomainV,
    namespace: Seq<char>,
    labels: Seq<(Seq<char>, Seq<char>)>,
    p: u16,
)
    requires
        writes_endpoint(res),
        forall|i: int| 0 <= i < slice_records(res).len() ==> slice_records(res)[i].port == p,
    ensures
        slice_of(res, dom, namespace, labels).ports == Some(seq![port_of(res)]),
        port_of(res).port == Some(p),
{
    assert(slice_records(res).len() > 0);
}

/// Objects synthesized for the same domain across two cycles carry the same
/// three system-owned labels, however the resolved address sets differ.
pub proof fn lemma_label_stability(
    res1: SrvResultV,
    res2: SrvResultV,
    dom: SRVDomainV,
    namespace: Seq<char>,
)
    requires
        res1.srv_hostname == res2.srv_hostname,
    ensures
        slice_of(
            res1,
            dom,
            namespace,
            common_labels_of(dom.service_name, res1.srv_hostname),
        ).metadata.labels == slice_of(
            res2,
            dom,
            namespace,
            common_labels_of(dom.service_name, res2.srv_hostname),
        ).metadata.labels,
        slice_of(
            res1,
            dom,
            namespace,
            common_labels_of(dom.service_name, res1.srv_hostname),
        ).metadata.labels == Some(common_labels_of(dom.service_name, res1.srv_hostname)),
{
}

} // verus!
