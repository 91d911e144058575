pub mod endpoints;

use vstd::prelude::*;

use crate::SRVDomain;
use crate::SRVDomainV;

verus! {

// ---------------------------------------------------------------------------
// Object metadata
//
// Labels and annotations are ordered (key, value) pairs.  Every synthesized
// object carries three system-owned labels; they depend on the service name
// and the source SRV hostname alone, so the label set of a service is stable
// across poll cycles however its address set changes.
// ---------------------------------------------------------------------------

/// The three system-owned labels, in key order: the identity of this
/// controller, the service name (the stable reconciliation key), and the
/// SRV hostname the object was synthesized from.
pub open spec fn common_labels_of(
    service_name: Seq<char>,
    srv_hostname: Seq<char>,
) -> Seq<(Seq<char>, Seq<char>)> {
    seq![
        ("app.kubernetes.io/managed-by"@, "srvctl"@),
        ("app.kubernetes.io/service-name"@, service_name),
        ("srvctl.tsp.tc/srv-hostname"@, srv_hostname),
    ]
}

/// Builds the three system-owned labels for one domain's endpoint object.
pub fn gen_common_labels(service_name: &str, srv_hostname: &str) -> (r: Vec<(String, String)>)
    ensures
        r.deep_view() == common_labels_of(service_name@, srv_hostname@),
{
    let mut labels: Vec<(String, String)> = Vec::new();
    labels.push(
        (String::from_str("app.kubernetes.io/managed-by"), String::from_str("srvctl")),
    );
    labels.push(
        (String::from_str("app.kubernetes.io/service-name"), service_name.to_owned()),
    );
    labels.push((String::from_str("srvctl.tsp.tc/srv-hostname"), srv_hostname.to_owned()));
    proof {
        assert(labels.deep_view() =~= common_labels_of(service_name@, srv_hostname@));
    }
    labels
}

/// The metadata of a synthesized object.  Only the fields this controller
/// ever sets are modelled; everything else of the store's metadata is left
/// to the store.
#[derive(Clone, Debug, PartialEq, Eq)]
pub struct ObjectMeta {
    pub name: Option<String>,
    pub namespace: Option<String>,
    pub annotations: Option<Vec<(String, String)>>,
    pub labels: Option<Vec<(String, String)>>,
}

/// Mathematical image of an `ObjectMeta`.
pub struct ObjectMetaV {
    pub name: Option<Seq<char>>,
    pub namespace: Option<Seq<char>>,
    pub annotations: Option<Seq<(Seq<char>, Seq<char>)>>,
    pub labels: Option<Seq<(Seq<char>, Seq<char>)>>,
}

impl DeepView for ObjectMeta {
    type V = ObjectMetaV;

    open spec fn deep_view(&self) -> ObjectMetaV {
        ObjectMetaV {
            name: self.name.deep_view(),
            namespace: self.namespace.deep_view(),
            annotations: self.annotations.deep_view(),
            labels: self.labels.deep_view(),
        }
    }
}

/// Builds the metadata of the endpoint object for one domain: named by the
/// domain's `service_name`, placed in the given namespace, carrying the
/// given annotations and labels.
pub fn gen_obj_meta(
    domain: SRVDomain,
    namespace: &str,
    annotations: Option<Vec<(String, String)>>,
    labels: Option<Vec<(String, String)>>,
) -> (r: ObjectMeta)
    ensures
        r.deep_view() == (ObjectMetaV {
            name: Some(domain.service_name@),
            namespace: Some(namespace@),
            annotations: annotations.deep_view(),
            labels: labels.deep_view(),
        }),
{
    ObjectMeta {
        name: Some(domain.service_name),
        namespace: Some(namespace.to_owned()),
        annotations,
        labels,
    }
}

} // verus!
