use kube_mock::builder::to_decimal;
use kube_mock::KubeMockBuilder;

#[test]
fn new_has_the_three_system_namespaces() {
    let b = KubeMockBuilder::new();
    for name in ["kube-system", "kube-public", "default"] {
        let ns = b.namespaces.get(name).unwrap();
        assert_eq!(ns.metadata.name.as_deref(), Some(name));
        let types = ns.types.as_ref().unwrap();
        assert_eq!(types.api_version, "v1");
        assert_eq!(types.kind, "Namespace");
    }
    assert!(!b.namespaces.contains_key("other"));
    assert!(!b.nodes.contains_key("node-0"));
}

#[test]
fn nodes_are_numbered_from_zero() {
    let b = KubeMockBuilder::new().nodes(3);
    for name in ["node-0", "node-1", "node-2"] {
        let node = b.nodes.get(name).unwrap();
        assert_eq!(node.metadata.name.as_deref(), Some(name));
        assert_eq!(node.types.as_ref().unwrap().kind, "Node");
    }
    assert!(!b.nodes.contains_key("node-3"));
    let b = b.nodes(1);
    assert!(b.nodes.contains_key("node-0"));
    assert!(!b.nodes.contains_key("node-1"));
}

#[test]
fn pod_is_keyed_by_name() {
    let b = KubeMockBuilder::new().pod("aa").pod("bb").pod("aa");
    let pod = b.pods.get("aa").unwrap();
    assert_eq!(pod.types.as_ref().unwrap().kind, "Pod");
    assert_eq!(pod.metadata.namespace, None);
    assert!(b.pods.contains_key("bb"));
}

#[test]
fn default_builder_is_empty() {
    let b = KubeMockBuilder::default();
    assert!(!b.namespaces.contains_key("default"));
}

#[test]
fn decimal_text() {
    assert_eq!(to_decimal(0), "0");
    assert_eq!(to_decimal(7), "7");
    assert_eq!(to_decimal(42), "42");
    assert_eq!(to_decimal(1234567), "1234567");
    assert_eq!(to_decimal(usize::MAX), usize::MAX.to_string());
}
