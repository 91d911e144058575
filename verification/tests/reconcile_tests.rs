use srvctl::dns::resolve_srv;
use srvctl::dns::Ipv4Address;
use srvctl::dns::SrvRecord;
use srvctl::errors::ControllerError;
use srvctl::reconcile::reconcile_cycle;
use srvctl::reconcile::reconcile_domain;
use srvctl::reconcile::DomainAction;
use srvctl::SRVDomain;

fn domain(hostname: &str, service_name: &str, slice_type: &str) -> SRVDomain {
    SRVDomain {
        hostname: String::from(hostname),
        service_name: String::from(service_name),
        slice_type: String::from(slice_type),
    }
}

fn good_resolution(dn: &str) -> Result<srvctl::dns::SrvResult, ControllerError> {
    let targets = vec![SrvRecord::new(27017, 0, 1, String::from("a.example."))];
    let outcomes = vec![Some(vec![Ipv4Address { o1: 10, o2: 0, o3: 0, o4: 1 }])];
    resolve_srv(dn, Ok(targets), outcomes)
}

#[test]
fn reconcile_domain_upserts_on_usable_resolution() {
    let dom = domain("_mongo._tcp.a.example.", "svc-a", "ipv4");
    let action = reconcile_domain(&dom, "prod", good_resolution(&dom.hostname));
    match action {
        DomainAction::Upsert(slice) => {
            assert_eq!(slice.metadata.name, Some(String::from("svc-a")));
            assert_eq!(slice.ports.unwrap()[0].port, Some(27017));
        }
        other => panic!("expected an upsert, got {:?}", other),
    }
}

#[test]
fn reconcile_domain_reports_resolution_failure() {
    let dom = domain("_mongo._tcp.a.example.", "svc-a", "ipv4");
    let failed = resolve_srv(&dom.hostname, Err(String::from("NXDOMAIN")), vec![]);
    let action = reconcile_domain(&dom, "prod", failed);
    match action {
        DomainAction::Fail(ControllerError::Resolution { hostname, cause }) => {
            assert_eq!(hostname, String::from("_mongo._tcp.a.example."));
            assert_eq!(cause, String::from("NXDOMAIN"));
        }
        other => panic!("expected a confined failure, got {:?}", other),
    }
}

#[test]
fn reconcile_domain_writes_nothing_without_usable_addresses() {
    let dom = domain("_mongo._tcp.a.example.", "svc-a", "ipv4");
    let empty = resolve_srv(&dom.hostname, Ok(vec![]), vec![]);
    let action = reconcile_domain(&dom, "prod", empty);
    assert_eq!(action, DomainAction::Nothing);
}

#[test]
fn one_failed_domain_does_not_stop_the_pass() {
    let dom_a = domain("_mongo._tcp.a.example.", "svc-a", "ipv4");
    let dom_b = domain("_mongo._tcp.b.example.", "svc-b", "ipv4");
    let domains = vec![dom_a.clone(), dom_b.clone()];

    let resolutions = vec![
        resolve_srv(&dom_a.hostname, Err(String::from("SERVFAIL")), vec![]),
        good_resolution(&dom_b.hostname),
    ];
    let actions = reconcile_cycle(&domains, "prod", resolutions);
    assert_eq!(actions.len(), 2);
    assert!(matches!(actions[0], DomainAction::Fail(_)));
    match &actions[1] {
        DomainAction::Upsert(slice) => {
            assert_eq!(slice.metadata.name, Some(String::from("svc-b")));
        }
        other => panic!("domain b should still be written, got {:?}", other),
    }
}

#[test]
fn unsupported_shape_fails_only_its_own_domain() {
    let dom_a = domain("_mongo._tcp.a.example.", "svc-a", "ipv6");
    let dom_b = domain("_mongo._tcp.b.example.", "svc-b", "ipv4");
    let domains = vec![dom_a.clone(), dom_b.clone()];

    let resolutions = vec![
        good_resolution(&dom_a.hostname),
        good_resolution(&dom_b.hostname),
    ];
    let actions = reconcile_cycle(&domains, "prod", resolutions);
    assert_eq!(actions.len(), 2);
    assert!(matches!(
        actions[0],
        DomainAction::Fail(ControllerError::NotSupported { .. })
    ));
    assert!(matches!(actions[1], DomainAction::Upsert(_)));
}
