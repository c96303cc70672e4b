use istio_gateway::{
    validate_request, ForwardTarget, GatewayRestriction, NamespaceRules, Restriction, Route,
    Settings, ValidateError, VirtualService,
};

fn restriction(hostnames: &[&str], destination_hosts: &[&str], port: i32, protocol: &str) -> Restriction {
    Restriction {
        hostnames: hostnames.iter().map(|s| s.to_string()).collect(),
        destination_hosts: destination_hosts.iter().map(|s| s.to_string()).collect(),
        port,
        protocol: protocol.to_string(),
    }
}

fn entry(gateway: &str, namespaces: Vec<NamespaceRules>) -> GatewayRestriction {
    GatewayRestriction { gateway: gateway.to_string(), namespaces }
}

fn ns_rules(namespace: &str, rules: Vec<Restriction>) -> NamespaceRules {
    NamespaceRules { namespace: namespace.to_string(), rules }
}

/// A policy where gateway-01 restricts ns-01 and ns-02, gateway-02 restricts
/// ns-04, and every rule routes anywhere on port 80 over http.
fn build_settings() -> Settings {
    Settings {
        gateway_restrictions: vec![
            entry(
                "gateway-01",
                vec![
                    ns_rules("ns-01", vec![restriction(&["host-a.com", "host-b.com"], &["*"], 80, "http")]),
                    ns_rules("ns-02", vec![restriction(&["host-b.com"], &["*"], 80, "http")]),
                ],
            ),
            entry(
                "gateway-02",
                vec![ns_rules("ns-04", vec![restriction(&["host-d.com"], &["*"], 80, "http")])],
            ),
        ],
    }
}

fn route(targets: &[(&str, Option<i32>)]) -> Route {
    Route {
        targets: Some(
            targets
                .iter()
                .map(|(host, port)| ForwardTarget { host: host.to_string(), port: *port })
                .collect(),
        ),
    }
}

fn virtual_service(
    namespace: Option<&str>,
    gateways: Option<&[&str]>,
    hosts: Option<&[&str]>,
) -> VirtualService {
    VirtualService {
        kind: "VirtualService".to_string(),
        namespace: namespace.map(|s| s.to_string()),
        gateways: gateways.map(|g| g.iter().map(|s| s.to_string()).collect()),
        hosts: hosts.map(|h| h.iter().map(|s| s.to_string()).collect()),
        http: None,
        tcp: None,
        tls: None,
    }
}

#[test]
fn test_accept_allowed_host() {
    let settings = build_settings();
    let mut vs = virtual_service(Some("ns-01"), Some(&["gateway-01"]), Some(&["host-a.com"]));
    vs.http = Some(vec![route(&[("service-a.ns-01.svc.cluster.local", Some(80))])]);
    assert!(validate_request(&vs, &settings).is_ok());
}

#[test]
fn test_reject_disallowed_host() {
    let settings = build_settings();
    let mut vs = virtual_service(Some("ns-01"), Some(&["gateway-01"]), Some(&["host-c.com"]));
    vs.http = Some(vec![route(&[("service-a.ns-01.svc.cluster.local", Some(80))])]);
    let res = validate_request(&vs, &settings);
    assert!(matches!(
        res,
        Err(ValidateError::HostNotAllowedError { .. })
    ));
}

#[test]
fn test_reject_disallowed_services() {
    let settings = Settings {
        gateway_restrictions: vec![entry(
            "gateway-02",
            vec![ns_rules(
                "ns-01",
                vec![restriction(
                    &["host-a.com"],
                    &[
                        "service-a.ns-01.svc.cluster.local",
                        "service-b.ns-01.svc.cluster.local",
                    ],
                    80,
                    "http",
                )],
            )],
        )],
    };
    let mut vs = virtual_service(Some("ns-01"), Some(&["gateway-02"]), Some(&["host-a.com"]));
    vs.http = Some(vec![route(&[("service-c.ns-01.svc.cluster.local", Some(80))])]);
    let res = validate_request(&vs, &settings);
    assert!(matches!(
        res,
        Err(ValidateError::ServiceNotAllowedError { .. })
    ));
}

#[test]
fn test_reject_disallowed_port() {
    let settings = build_settings();
    let mut vs = virtual_service(Some("ns-01"), Some(&["gateway-01"]), Some(&["host-a.com"]));
    vs.http = Some(vec![route(&[("service-a.ns-01.svc.cluster.local", Some(8080))])]);
    let res = validate_request(&vs, &settings);
    assert!(matches!(
        res,
        Err(ValidateError::ServiceNotAllowedError { .. })
    ));
}

#[test]
fn test_reject_disallowed_tls() {
    // The rules of (gateway-01, ns-01) allow http only; a TLS-passthrough
    // route is rejected.
    let settings = build_settings();
    let mut vs = virtual_service(Some("ns-01"), Some(&["gateway-01"]), Some(&["host-a.com"]));
    vs.tls = Some(vec![route(&[("service-a.ns-01.svc.cluster.local", Some(80))])]);
    let res = validate_request(&vs, &settings);
    match res {
        Err(ValidateError::ServiceNotAllowedError { protocol, .. }) => {
            assert_eq!(protocol, "TLS");
        }
        other => panic!("expected a destination rejection, got {:?}", other),
    }
}

#[test]
fn test_reject_disallowed_tcp() {
    // Same policy, raw-transport route: rejected for the same reason.
    let settings = build_settings();
    let mut vs = virtual_service(Some("ns-01"), Some(&["gateway-01"]), Some(&["host-a.com"]));
    vs.tcp = Some(vec![route(&[("service-a.ns-01.svc.cluster.local", Some(80))])]);
    let res = validate_request(&vs, &settings);
    match res {
        Err(ValidateError::ServiceNotAllowedError { protocol, .. }) => {
            assert_eq!(protocol, "TCP");
        }
        other => panic!("expected a destination rejection, got {:?}", other),
    }
}

/// A minimal one-gateway policy: one rule for (g1, ns1) allowing hosts
/// host-a.com and host-b.com, any destination, port 80, protocol http.
fn scenario_settings() -> Settings {
    Settings {
        gateway_restrictions: vec![entry(
            "g1",
            vec![ns_rules(
                "ns1",
                vec![restriction(&["host-a.com", "host-b.com"], &["*"], 80, "http")],
            )],
        )],
    }
}

#[test]
fn scenario_accept_allowed_host_and_destination() {
    let settings = scenario_settings();
    let mut vs = virtual_service(Some("ns1"), Some(&["g1"]), Some(&["host-a.com"]));
    vs.http = Some(vec![route(&[("svc", Some(80))])]);
    assert!(validate_request(&vs, &settings).is_ok());
}

#[test]
fn scenario_reject_unlisted_hostname() {
    let settings = scenario_settings();
    let mut vs = virtual_service(Some("ns1"), Some(&["g1"]), Some(&["host-c.com"]));
    vs.http = Some(vec![route(&[("svc", Some(80))])]);
    match validate_request(&vs, &settings) {
        Err(ValidateError::HostNotAllowedError { host, namespace, gateway }) => {
            assert_eq!(host, "host-c.com");
            assert_eq!(namespace, "ns1");
            assert_eq!(gateway, "g1");
        }
        other => panic!("expected a hostname rejection, got {:?}", other),
    }
}

#[test]
fn scenario_reject_unlisted_port() {
    let settings = scenario_settings();
    let mut vs = virtual_service(Some("ns1"), Some(&["g1"]), Some(&["host-a.com"]));
    vs.http = Some(vec![route(&[("svc", Some(8080))])]);
    match validate_request(&vs, &settings) {
        Err(ValidateError::ServiceNotAllowedError { service, port, protocol, namespace, gateway }) => {
            assert_eq!(service, "svc");
            assert_eq!(port, 8080);
            assert_eq!(protocol, "HTTP");
            assert_eq!(namespace, "ns1");
            assert_eq!(gateway, "g1");
        }
        other => panic!("expected a destination rejection, got {:?}", other),
    }
}

#[test]
fn scenario_accept_unrestricted_gateway() {
    let settings = scenario_settings();
    let mut vs = virtual_service(Some("ns1"), Some(&["g2"]), Some(&["host-z.org"]));
    vs.http = Some(vec![route(&[("anything", Some(9999))])]);
    assert!(validate_request(&vs, &settings).is_ok());
}

#[test]
fn scenario_reject_unlisted_namespace() {
    let settings = scenario_settings();
    let mut vs = virtual_service(Some("ns2"), Some(&["g1"]), Some(&["host-a.com"]));
    vs.http = Some(vec![route(&[("svc", Some(80))])]);
    match validate_request(&vs, &settings) {
        Err(ValidateError::NamespaceNotAllowedError { namespace, gateway }) => {
            assert_eq!(namespace, "ns2");
            assert_eq!(gateway, "g1");
        }
        other => panic!("expected a namespace rejection, got {:?}", other),
    }
}

#[test]
fn other_kinds_always_pass() {
    let settings = scenario_settings();
    let mut vs = virtual_service(None, None, None);
    vs.kind = "Deployment".to_string();
    assert!(validate_request(&vs, &settings).is_ok());
}

#[test]
fn missing_gateway_field_is_rejected() {
    let settings = scenario_settings();
    let vs = virtual_service(Some("ns1"), None, Some(&["host-a.com"]));
    assert!(matches!(
        validate_request(&vs, &settings),
        Err(ValidateError::NoGatewayError)
    ));
}

#[test]
fn missing_namespace_is_rejected() {
    let settings = scenario_settings();
    let vs = virtual_service(None, Some(&["g1"]), Some(&["host-a.com"]));
    assert!(matches!(
        validate_request(&vs, &settings),
        Err(ValidateError::NoNamespaceError)
    ));
}

#[test]
fn empty_gateway_list_passes_vacuously() {
    // An explicit but empty gateway list constrains nothing, unlike an
    // absent gateway field.
    let settings = scenario_settings();
    let vs = virtual_service(Some("ns1"), Some(&[]), Some(&["host-zzz.com"]));
    assert!(validate_request(&vs, &settings).is_ok());
}

#[test]
fn absent_hosts_default_to_wildcard() {
    // With no advertised hostname the declaration advertises "*", which the
    // scenario policy does not list.
    let settings = scenario_settings();
    let vs = virtual_service(Some("ns1"), Some(&["g1"]), None);
    match validate_request(&vs, &settings) {
        Err(ValidateError::HostNotAllowedError { host, .. }) => assert_eq!(host, "*"),
        other => panic!("expected a hostname rejection, got {:?}", other),
    }
}

#[test]
fn empty_hosts_list_defaults_to_wildcard() {
    let settings = scenario_settings();
    let vs = virtual_service(Some("ns1"), Some(&["g1"]), Some(&[]));
    match validate_request(&vs, &settings) {
        Err(ValidateError::HostNotAllowedError { host, .. }) => assert_eq!(host, "*"),
        other => panic!("expected a hostname rejection, got {:?}", other),
    }
}

#[test]
fn wildcard_hostname_rule_absorbs_any_advertised_host() {
    let settings = Settings {
        gateway_restrictions: vec![entry(
            "g1",
            vec![ns_rules("ns1", vec![restriction(&["*"], &["*"], 0, "")])],
        )],
    };
    let vs = virtual_service(Some("ns1"), Some(&["g1"]), Some(&["whatever.example"]));
    assert!(validate_request(&vs, &settings).is_ok());
}

#[test]
fn zero_port_and_empty_protocol_match_anything() {
    let settings = Settings {
        gateway_restrictions: vec![entry(
            "g1",
            vec![ns_rules("ns1", vec![restriction(&["*"], &["svc"], 0, "")])],
        )],
    };
    let mut vs = virtual_service(Some("ns1"), Some(&["g1"]), Some(&["host-a.com"]));
    vs.tls = Some(vec![route(&[("svc", Some(12345))])]);
    vs.tcp = Some(vec![route(&[("svc", None)])]);
    assert!(validate_request(&vs, &settings).is_ok());
}

#[test]
fn protocol_comparison_ignores_ascii_case() {
    let settings = Settings {
        gateway_restrictions: vec![entry(
            "g1",
            vec![ns_rules("ns1", vec![restriction(&["*"], &["*"], 80, "hTtP")])],
        )],
    };
    let mut vs = virtual_service(Some("ns1"), Some(&["g1"]), Some(&["host-a.com"]));
    vs.http = Some(vec![route(&[("svc", Some(80))])]);
    assert!(validate_request(&vs, &settings).is_ok());
}

#[test]
fn missing_target_port_counts_as_zero() {
    // A target without a port requests port 0, which a port-80 rule refuses.
    let settings = scenario_settings();
    let mut vs = virtual_service(Some("ns1"), Some(&["g1"]), Some(&["host-a.com"]));
    vs.http = Some(vec![route(&[("svc", None)])]);
    match validate_request(&vs, &settings) {
        Err(ValidateError::ServiceNotAllowedError { port, .. }) => assert_eq!(port, 0),
        other => panic!("expected a destination rejection, got {:?}", other),
    }
}

#[test]
fn first_rejecting_gateway_wins() {
    // g2 is claimed first and rejects on the namespace; g1 would reject on
    // the hostname, but is never reached.
    let settings = Settings {
        gateway_restrictions: vec![
            entry("g1", vec![ns_rules("ns9", vec![restriction(&["*"], &["*"], 0, "")])]),
            entry("g2", vec![ns_rules("ns9", vec![restriction(&["*"], &["*"], 0, "")])]),
        ],
    };
    let vs = virtual_service(Some("ns1"), Some(&["g2", "g1"]), Some(&["host-a.com"]));
    match validate_request(&vs, &settings) {
        Err(ValidateError::NamespaceNotAllowedError { gateway, .. }) => assert_eq!(gateway, "g2"),
        other => panic!("expected a namespace rejection, got {:?}", other),
    }
}

#[test]
fn adding_a_rule_only_widens_acceptance() {
    // With one rule the port-443 route is rejected; a second rule covering
    // that port turns the rejection into an acceptance.
    let mut settings = Settings {
        gateway_restrictions: vec![entry(
            "g1",
            vec![ns_rules("ns1", vec![restriction(&["host-a.com"], &["*"], 80, "http")])],
        )],
    };
    let mut vs = virtual_service(Some("ns1"), Some(&["g1"]), Some(&["host-a.com"]));
    vs.http = Some(vec![route(&[("svc", Some(443))])]);
    assert!(validate_request(&vs, &settings).is_err());

    settings.gateway_restrictions[0].namespaces[0]
        .rules
        .push(restriction(&["host-a.com"], &["*"], 443, "http"));
    assert!(validate_request(&vs, &settings).is_ok());
}

#[test]
fn routes_without_targets_contribute_nothing() {
    let settings = scenario_settings();
    let mut vs = virtual_service(Some("ns1"), Some(&["g1"]), Some(&["host-a.com"]));
    vs.http = Some(vec![Route { targets: None }]);
    vs.tcp = Some(vec![Route { targets: None }]);
    assert!(validate_request(&vs, &settings).is_ok());
}

#[test]
fn duplicate_targets_count_once() {
    let settings = scenario_settings();
    let mut vs = virtual_service(Some("ns1"), Some(&["g1"]), Some(&["host-a.com"]));
    vs.http = Some(vec![
        route(&[("svc", Some(80)), ("svc", Some(80))]),
        route(&[("svc", Some(80))]),
    ]);
    assert!(validate_request(&vs, &settings).is_ok());
}
