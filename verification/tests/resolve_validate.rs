use dynwatch::resolver::{
    resolve_descriptor, DiscoveryEntry, DiscoveryError, ResourceDescriptor,
};
use dynwatch::target::{validate_target, ConfigurationError, WatchTarget};

fn listing() -> Vec<DiscoveryEntry> {
    vec![
        DiscoveryEntry {
            kind: "Pod".to_string(),
            plural_name: "pods".to_string(),
            namespaced: true,
        },
        DiscoveryEntry {
            kind: "Namespace".to_string(),
            plural_name: "namespaces".to_string(),
            namespaced: false,
        },
    ]
}

#[test]
fn resolver_returns_discovery_metadata() {
    let r = resolve_descriptor("v1", "Pod", &listing()).unwrap();
    assert_eq!(r.group, "".to_string());
    assert_eq!(r.version, "v1".to_string());
    assert_eq!(r.kind, "Pod".to_string());
    assert_eq!(r.plural_name, "pods".to_string());
    assert!(r.namespaced);
}

#[test]
fn resolver_splits_group_and_version() {
    let entries = vec![DiscoveryEntry {
        kind: "Ingress".to_string(),
        plural_name: "ingresses".to_string(),
        namespaced: true,
    }];
    let r = resolve_descriptor("networking.k8s.io/v1", "Ingress", &entries).unwrap();
    assert_eq!(r.group, "networking.k8s.io".to_string());
    assert_eq!(r.version, "v1".to_string());
    assert_eq!(r.plural_name, "ingresses".to_string());
}

#[test]
fn resolver_fails_on_absent_kind() {
    let r = resolve_descriptor("v1", "Ingress", &listing());
    assert_eq!(r, Err(DiscoveryError::NotFound));
}

#[test]
fn resolver_fails_on_malformed_group_version() {
    let r = resolve_descriptor("v2", "Pod", &listing());
    assert_eq!(r, Err(DiscoveryError::MalformedGroupVersion));
}

#[test]
fn resolver_takes_first_matching_kind() {
    let entries = vec![
        DiscoveryEntry {
            kind: "Thing".to_string(),
            plural_name: "things".to_string(),
            namespaced: true,
        },
        DiscoveryEntry {
            kind: "Thing".to_string(),
            plural_name: "others".to_string(),
            namespaced: false,
        },
    ];
    let r = resolve_descriptor("example.io/v1", "Thing", &entries).unwrap();
    assert_eq!(r.plural_name, "things".to_string());
    assert!(r.namespaced);
}

fn descriptor(namespaced: bool) -> ResourceDescriptor {
    ResourceDescriptor {
        group: "".to_string(),
        version: "v1".to_string(),
        kind: "Pod".to_string(),
        plural_name: "pods".to_string(),
        namespaced,
    }
}

#[test]
fn namespace_and_global_conflict_on_namespaced_resource() {
    let r = validate_target(&descriptor(true), Some("foo".to_string()), true);
    assert_eq!(r, Err(ConfigurationError::ConflictingScope));
}

#[test]
fn namespace_and_global_conflict_on_cluster_resource() {
    let r = validate_target(&descriptor(false), Some("foo".to_string()), true);
    assert_eq!(r, Err(ConfigurationError::ConflictingScope));
}

#[test]
fn namespaced_resource_without_scope_is_rejected() {
    let r = validate_target(&descriptor(true), None, false);
    assert_eq!(r, Err(ConfigurationError::MissingNamespace));
}

#[test]
fn namespaced_resource_with_namespace_is_accepted() {
    let r = validate_target(&descriptor(true), Some("foo".to_string()), false);
    assert_eq!(r, Ok(WatchTarget::Namespaced("foo".to_string())));
}

#[test]
fn namespaced_resource_with_global_watches_everywhere() {
    let r = validate_target(&descriptor(true), None, true);
    assert_eq!(r, Ok(WatchTarget::AllNamespaces));
}

#[test]
fn cluster_resource_ignores_namespace_argument() {
    let r = validate_target(&descriptor(false), Some("foo".to_string()), false);
    assert_eq!(r, Ok(WatchTarget::ClusterScoped));
    let r2 = validate_target(&descriptor(false), None, false);
    assert_eq!(r2, Ok(WatchTarget::ClusterScoped));
}
