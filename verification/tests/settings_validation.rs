use istio_gateway::{GatewayRestriction, NamespaceRules, Restriction, Settings};

/// Helper function to create a valid Restriction for tests
fn create_valid_restriction() -> Restriction {
    Restriction {
        hostnames: vec!["host.example.com".to_string()],
        destination_hosts: vec!["service-a".to_string()],
        port: 80,
        protocol: "http".to_string(),
    }
}

#[test]
fn test_valid_settings() {
    let settings = Settings {
        gateway_restrictions: vec![GatewayRestriction {
            gateway: "gateway-01".to_string(),
            namespaces: vec![NamespaceRules {
                namespace: "ns-01".to_string(),
                rules: vec![create_valid_restriction()],
            }],
        }],
    };
    assert!(settings.validate().is_ok());
}

#[test]
fn test_empty_gateway_restrictions_is_invalid() {
    let settings = Settings { gateway_restrictions: vec![] };
    let result = settings.validate();
    assert!(result.is_err());
    assert_eq!(
        result.unwrap_err(),
        "The 'gatewayRestrictions' map cannot be empty."
    );
}

#[test]
fn test_empty_gateway_name_is_invalid() {
    let settings = Settings {
        gateway_restrictions: vec![GatewayRestriction {
            gateway: "".to_string(), // Empty gateway name
            namespaces: vec![NamespaceRules {
                namespace: "ns-01".to_string(),
                rules: vec![create_valid_restriction()],
            }],
        }],
    };
    let result = settings.validate();
    assert!(result.is_err());
    assert_eq!(
        result.unwrap_err(),
        "Gateway names inside 'gatewayRestrictions' cannot be empty."
    );
}

#[test]
fn test_empty_namespace_list_is_invalid() {
    let settings = Settings {
        gateway_restrictions: vec![GatewayRestriction {
            gateway: "gateway-01".to_string(),
            namespaces: vec![], // Empty namespace table
        }],
    };
    let result = settings.validate();
    assert!(result.is_err());
    assert_eq!(
        result.unwrap_err(),
        "The namespace list for gateway 'gateway-01' cannot be empty."
    );
}

#[test]
fn test_empty_rule_list_is_invalid() {
    let settings = Settings {
        gateway_restrictions: vec![GatewayRestriction {
            gateway: "gateway-01".to_string(),
            namespaces: vec![NamespaceRules {
                namespace: "ns-01".to_string(),
                rules: vec![], // Namespace without rules
            }],
        }],
    };
    let result = settings.validate();
    assert!(result.is_err());
    assert_eq!(
        result.unwrap_err(),
        "The restriction list for namespace 'ns-01' of gateway 'gateway-01' cannot be empty."
    );
}

#[test]
fn test_first_fault_wins() {
    // The first faulty entry, in declaration order, names the message.
    let settings = Settings {
        gateway_restrictions: vec![
            GatewayRestriction {
                gateway: "gateway-a".to_string(),
                namespaces: vec![],
            },
            GatewayRestriction {
                gateway: "".to_string(),
                namespaces: vec![],
            },
        ],
    };
    assert_eq!(
        settings.validate().unwrap_err(),
        "The namespace list for gateway 'gateway-a' cannot be empty."
    );
}

#[test]
fn test_from_wire_defaults() {
    // Every absent wire field means "any".
    let r = Restriction::from_wire(None, None, None, None);
    assert!(r.hostnames.is_empty());
    assert!(r.destination_hosts.is_empty());
    assert_eq!(r.port, 0);
    assert_eq!(r.protocol, "");
}

#[test]
fn test_from_wire_round_trip() {
    // Re-loading the materialized fields reproduces the rule exactly.
    let first = Restriction::from_wire(
        Some(vec!["host-a.com".to_string()]),
        None,
        Some(443),
        Some("https".to_string()),
    );
    let second = Restriction::from_wire(
        Some(first.hostnames.clone()),
        Some(first.destination_hosts.clone()),
        Some(first.port),
        Some(first.protocol.clone()),
    );
    assert_eq!(second.hostnames, first.hostnames);
    assert_eq!(second.destination_hosts, first.destination_hosts);
    assert_eq!(second.port, first.port);
    assert_eq!(second.protocol, first.protocol);
}
