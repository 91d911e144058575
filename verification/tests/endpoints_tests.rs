use srvctl::dns::Ipv4Address;
use srvctl::dns::SrvRecord;
use srvctl::dns::SrvResult;
use srvctl::errors::ControllerError;
use srvctl::k8s::endpoints::gen_endpoint_slices;
use srvctl::k8s::endpoints::gen_endpoints;
use srvctl::k8s::gen_common_labels;
use srvctl::k8s::gen_obj_meta;
use srvctl::SRVDomain;

fn record(host: &str, port: u16, addrs: Option<Vec<Ipv4Address>>) -> SrvRecord {
    SrvRecord {
        port,
        priority: 0,
        weight: 0,
        hostname: String::from(host),
        ipv4_addr: addrs,
    }
}

fn result_with(records: Option<Vec<SrvRecord>>) -> SrvResult {
    SrvResult {
        protocol: Some(String::from("tcp")),
        service: Some(String::from("mongo")),
        srv_hostname: String::from("_mongo._tcp.example."),
        srv_records: records,
    }
}

fn domain(slice_type: &str) -> SRVDomain {
    SRVDomain {
        hostname: String::from("_mongo._tcp.example."),
        service_name: String::from("mongo-db"),
        slice_type: String::from(slice_type),
    }
}

fn ip(o1: u8, o2: u8, o3: u8, o4: u8) -> Ipv4Address {
    Ipv4Address { o1, o2, o3, o4 }
}

#[test]
fn common_labels_hold_exactly_the_three_system_labels() {
    let labels = gen_common_labels("mongo-db", "_mongo._tcp.example.");
    assert_eq!(labels.len(), 3);
    assert_eq!(
        labels[0],
        (
            String::from("app.kubernetes.io/managed-by"),
            String::from("srvctl")
        )
    );
    assert_eq!(
        labels[1],
        (
            String::from("app.kubernetes.io/service-name"),
            String::from("mongo-db")
        )
    );
    assert_eq!(
        labels[2],
        (
            String::from("srvctl.tsp.tc/srv-hostname"),
            String::from("_mongo._tcp.example.")
        )
    );
}

#[test]
fn obj_meta_carries_service_name_and_namespace() {
    let labels = gen_common_labels("mongo-db", "_mongo._tcp.example.");
    let meta = gen_obj_meta(domain("ipv4"), "prod", None, Some(labels.clone()));
    assert_eq!(meta.name, Some(String::from("mongo-db")));
    assert_eq!(meta.namespace, Some(String::from("prod")));
    assert_eq!(meta.annotations, None);
    assert_eq!(meta.labels, Some(labels));
}

#[test]
fn synthesize_builds_complete_object() {
    let res = result_with(Some(vec![
        record("a.example.", 27017, Some(vec![ip(10, 0, 0, 1), ip(10, 0, 0, 2)])),
        record("b.example.", 27017, Some(vec![ip(10, 0, 0, 3)])),
    ]));
    let dom = domain("ipv4");
    let labels = gen_common_labels("mongo-db", "_mongo._tcp.example.");
    let slice = gen_endpoint_slices(&res, &dom, "prod", &labels)
        .unwrap()
        .expect("an object is owed");

    assert_eq!(slice.address_type, String::from("ipv4"));
    assert_eq!(slice.endpoints.len(), 2);
    assert_eq!(
        slice.endpoints[0].addresses,
        vec![String::from("10.0.0.1"), String::from("10.0.0.2")]
    );
    assert_eq!(slice.endpoints[0].hostname, Some(String::from("a.example.")));
    assert_eq!(slice.endpoints[1].addresses, vec![String::from("10.0.0.3")]);
    assert_eq!(slice.endpoints[1].hostname, Some(String::from("b.example.")));

    let ports = slice.ports.expect("one port entry is owed");
    assert_eq!(ports.len(), 1);
    assert_eq!(ports[0].port, Some(27017));
    assert_eq!(ports[0].name, Some(String::from("mongo")));
    assert_eq!(ports[0].protocol, Some(String::from("tcp")));
    assert_eq!(ports[0].app_protocol, None);

    assert_eq!(slice.metadata.name, Some(String::from("mongo-db")));
    assert_eq!(slice.metadata.namespace, Some(String::from("prod")));
    assert_eq!(slice.metadata.labels, Some(labels));
}

#[test]
fn synthesize_twice_yields_identical_objects() {
    let res = result_with(Some(vec![record(
        "a.example.",
        27017,
        Some(vec![ip(10, 0, 0, 1)]),
    )]));
    let dom = domain("ipv4");
    let labels = gen_common_labels("mongo-db", "_mongo._tcp.example.");
    let first = gen_endpoint_slices(&res, &dom, "prod", &labels).unwrap();
    let second = gen_endpoint_slices(&res, &dom, "prod", &labels).unwrap();
    assert_eq!(first, second);
}

#[test]
fn no_write_when_records_absent() {
    let res = result_with(None);
    let dom = domain("ipv4");
    let labels = gen_common_labels("mongo-db", "_mongo._tcp.example.");
    assert_eq!(gen_endpoint_slices(&res, &dom, "prod", &labels).unwrap(), None);
}

#[test]
fn no_write_when_every_address_list_is_empty_or_absent() {
    let res = result_with(Some(vec![
        record("a.example.", 27017, Some(vec![])),
        record("b.example.", 27017, None),
    ]));
    let dom = domain("ipv4");
    let labels = gen_common_labels("mongo-db", "_mongo._tcp.example.");
    assert_eq!(gen_endpoint_slices(&res, &dom, "prod", &labels).unwrap(), None);
}

#[test]
fn fqdn_shape_also_writes() {
    let res = result_with(Some(vec![record(
        "a.example.",
        8080,
        Some(vec![ip(172, 16, 0, 9)]),
    )]));
    let dom = domain("fqdn");
    let labels = gen_common_labels("mongo-db", "_mongo._tcp.example.");
    let slice = gen_endpoint_slices(&res, &dom, "prod", &labels)
        .unwrap()
        .expect("an object is owed");
    assert_eq!(slice.address_type, String::from("fqdn"));
}

#[test]
fn ipv6_shape_fails_loudly() {
    let res = result_with(Some(vec![record(
        "a.example.",
        27017,
        Some(vec![ip(10, 0, 0, 1)]),
    )]));
    let dom = domain("ipv6");
    let labels = gen_common_labels("mongo-db", "_mongo._tcp.example.");
    match gen_endpoint_slices(&res, &dom, "prod", &labels) {
        Err(ControllerError::NotSupported { detail }) => {
            assert_eq!(detail, String::from("IPv6 slice types are currently unimplemented"));
        }
        other => panic!("expected a loud failure, got {:?}", other),
    }
}

#[test]
fn port_fidelity_follows_the_srv_answer() {
    let labels = gen_common_labels("mongo-db", "_mongo._tcp.example.");
    let dom = domain("ipv4");

    let first_poll = result_with(Some(vec![
        record("a.example.", 27017, Some(vec![ip(10, 0, 0, 1)])),
        record("b.example.", 27017, Some(vec![ip(10, 0, 0, 2)])),
    ]));
    let slice = gen_endpoint_slices(&first_poll, &dom, "prod", &labels)
        .unwrap()
        .unwrap();
    assert_eq!(slice.ports.unwrap()[0].port, Some(27017));

    let second_poll = result_with(Some(vec![
        record("a.example.", 28017, Some(vec![ip(10, 0, 0, 1)])),
        record("b.example.", 28017, Some(vec![ip(10, 0, 0, 2)])),
    ]));
    let slice = gen_endpoint_slices(&second_poll, &dom, "prod", &labels)
        .unwrap()
        .unwrap();
    assert_eq!(slice.ports.unwrap()[0].port, Some(28017));
}

#[test]
fn labels_stable_across_cycles_with_changed_addresses() {
    let dom = domain("ipv4");
    let cycle1 = result_with(Some(vec![record(
        "a.example.",
        27017,
        Some(vec![ip(10, 0, 0, 1)]),
    )]));
    let cycle2 = result_with(Some(vec![
        record("a.example.", 27017, Some(vec![ip(10, 9, 9, 9)])),
        record("c.example.", 27017, Some(vec![ip(10, 0, 0, 4)])),
    ]));
    let labels1 = gen_common_labels(&dom.service_name, &cycle1.srv_hostname);
    let labels2 = gen_common_labels(&dom.service_name, &cycle2.srv_hostname);
    let slice1 = gen_endpoint_slices(&cycle1, &dom, "prod", &labels1)
        .unwrap()
        .unwrap();
    let slice2 = gen_endpoint_slices(&cycle2, &dom, "prod", &labels2)
        .unwrap()
        .unwrap();
    assert_eq!(slice1.metadata.labels, slice2.metadata.labels);
    assert_eq!(slice1.metadata.labels.unwrap().len(), 3);
}

#[test]
fn flat_endpoints_generation_is_refused() {
    let res = result_with(Some(vec![record(
        "a.example.",
        27017,
        Some(vec![ip(10, 0, 0, 1)]),
    )]));
    match gen_endpoints(&res) {
        Err(ControllerError::NotSupported { detail }) => {
            assert_eq!(detail, String::from("flat Endpoints generation is not implemented"));
        }
        other => panic!("expected a loud failure, got {:?}", other),
    }
}
