use kube_mock::kubeapi::controller::inventory::init_meta;
use kube_mock::kubeapi::controller::{Controller, RequestData};
use kube_mock::{
    ClusterInventory, DynamicObject, KubeMockBuilder, NamespacedInventory, ObjectMeta, ResourceType,
    Store, TypeMeta,
};

fn resource(kind: &str, plural: &str) -> ResourceType {
    ResourceType {
        group: String::new(),
        version: "v1".into(),
        api_version: "v1".into(),
        kind: kind.into(),
        plural: plural.into(),
    }
}

fn object(kind: &str, name: Option<&str>, namespace: Option<&str>) -> DynamicObject {
    let mut o = DynamicObject::named(TypeMeta { api_version: "v1".into(), kind: kind.into() }, "x");
    o.metadata.name = name.map(str::to_string);
    o.metadata.namespace = namespace.map(str::to_string);
    o
}

fn body(o: DynamicObject) -> RequestData {
    RequestData { is_null: false, object: Ok(o) }
}

fn none() -> RequestData {
    RequestData { is_null: true, object: Err("invalid type: null".into()) }
}

#[test]
fn init_meta_sets_time_version_and_uid() {
    let mut meta = ObjectMeta::named("n");
    init_meta(&mut meta, 1700000000, "uid-1".into());
    assert_eq!(meta.creation_timestamp, Some(1700000000));
    assert_eq!(meta.resource_version.as_deref(), Some("1"));
    assert_eq!(meta.uid.as_deref(), Some("uid-1"));
    assert_eq!(meta.name.as_deref(), Some("n"));
}

#[test]
fn cluster_create_then_get() {
    let mut inv = ClusterInventory::with_inventory(resource("Namespace", "namespaces"), Store::new());
    assert_eq!(inv.type_meta().kind, "Namespace");
    let target = object("Namespace", Some("xxx"), None);
    assert_eq!(inv.key(&target), "xxx");
    let (created, code) = inv.create(target, body(object("Namespace", Some("xxx"), None))).unwrap();
    assert_eq!(code, 201);
    assert_eq!(created.metadata.name.as_deref(), Some("xxx"));
    assert_eq!(created.metadata.resource_version.as_deref(), Some("1"));
    let uid = created.metadata.uid.clone().unwrap();
    assert_eq!(uid.len(), 36);
    let chars: Vec<char> = uid.chars().collect();
    assert_eq!(chars[14], '4');
    assert!(matches!(chars[19], '8' | '9' | 'a' | 'b'));
    for (i, c) in chars.iter().enumerate() {
        if [8, 13, 18, 23].contains(&i) {
            assert_eq!(*c, '-');
        } else {
            assert!(c.is_ascii_hexdigit() && !c.is_ascii_uppercase());
        }
    }
    assert!(created.metadata.creation_timestamp.unwrap() > 1_600_000_000);
    let (got, code) = inv.get(object("Namespace", Some("xxx"), None), none()).unwrap();
    assert_eq!(code, 200);
    assert_eq!(got.metadata.uid, created.metadata.uid);
    assert_eq!(got.metadata.creation_timestamp, created.metadata.creation_timestamp);
}

#[test]
fn cluster_create_twice_is_already_exists() {
    let mut inv = ClusterInventory::with_inventory(resource("Namespace", "namespaces"), Store::new());
    inv.create(object("Namespace", Some("a"), None), body(object("Namespace", Some("a"), None)))
        .unwrap();
    let err = inv
        .create(object("Namespace", Some("a"), None), body(object("Namespace", Some("b"), None)))
        .unwrap_err();
    assert_eq!(err.code, Some(409));
    assert_eq!(err.message.as_deref(), Some("namespaces \"a\" already exists"));
    let (got, _) = inv.get(object("Namespace", Some("a"), None), none()).unwrap();
    assert_eq!(got.metadata.name.as_deref(), Some("a"));
}

#[test]
fn cluster_create_with_unreadable_body_is_bad_request() {
    let mut inv = ClusterInventory::with_inventory(resource("Node", "nodes"), Store::new());
    let err = inv.create(object("Node", Some("n"), None), none()).unwrap_err();
    assert_eq!(err.code, Some(400));
    assert_eq!(err.message.as_deref(), Some("invalid type: null"));
    let err = inv.get(object("Node", Some("n"), None), none()).unwrap_err();
    assert_eq!(err.code, Some(404));
}

#[test]
fn cluster_get_missing_is_not_found() {
    let b = KubeMockBuilder::new().nodes(2);
    let inv = ClusterInventory::with_inventory(resource("Node", "nodes"), b.nodes);
    let err = inv.get(object("Node", Some("node-9"), None), none()).unwrap_err();
    assert_eq!(err.code, Some(404));
    assert_eq!(err.reason.as_deref(), Some("NotFound"));
    assert_eq!(err.message.as_deref(), Some("nodes \"node-9\" not found"));
    let (node, code) = inv.get(object("Node", Some("node-1"), None), none()).unwrap();
    assert_eq!(code, 200);
    assert_eq!(node.metadata.name.as_deref(), Some("node-1"));
}

#[test]
fn namespaced_key_defaults_namespace() {
    let inv = NamespacedInventory::with_inventory(resource("Pod", "pods"), Store::new());
    assert_eq!(inv.key(&object("Pod", Some("web"), Some("prod"))), "prod/web");
    assert_eq!(inv.key(&object("Pod", Some("web"), None)), "default/web");
    assert_eq!(NamespacedInventory::default_namespace(), "default");
}

#[test]
fn namespaced_create_needs_namespace_in_body() {
    let mut inv = NamespacedInventory::with_inventory(resource("Pod", "pods"), Store::new());
    let err = inv
        .create(object("Pod", Some("web"), None), body(object("Pod", Some("web"), None)))
        .unwrap_err();
    assert_eq!(err.reason.as_deref(), Some("conflict"));
    assert_eq!(err.status.as_deref(), Some("Failure"));
    assert_eq!(err.code, None);
    let err = inv
        .create(object("Pod", Some("web"), Some("a")), body(object("Pod", Some("web"), Some("b"))))
        .unwrap_err();
    assert_eq!(err.reason.as_deref(), Some("conflict"));
}

#[test]
fn namespaced_create_then_get_and_lookup() {
    let mut inv = NamespacedInventory::with_inventory(resource("Pod", "pods"), Store::new());
    let (created, code) = inv
        .create(object("Pod", Some("web"), None), body(object("Pod", Some("web"), Some("default"))))
        .unwrap();
    assert_eq!(code, 201);
    assert_eq!(created.metadata.namespace.as_deref(), Some("default"));
    let (got, code) = inv.get(object("Pod", Some("web"), Some("default")), none()).unwrap();
    assert_eq!(code, 200);
    assert_eq!(got.metadata.uid, created.metadata.uid);
    let err = inv
        .create(object("Pod", Some("web"), Some("default")), body(object("Pod", Some("web"), Some("default"))))
        .unwrap_err();
    assert_eq!(err.code, Some(409));
    assert_eq!(err.message.as_deref(), Some("pods \"default/web\" already exists"));
    let err = inv.get(object("Pod", Some("web"), Some("prod")), none()).unwrap_err();
    assert_eq!(err.message.as_deref(), Some("pods \"prod/web\" not found"));
    assert!(inv.lookup(&object("Pod", Some("web"), None)).is_some());
    assert!(inv.lookup(&object("Pod", Some("web"), Some("default"))).is_some());
    assert!(inv.lookup(&object("Pod", Some("web"), Some("prod"))).is_none());
    assert!(inv.lookup(&object("Pod", Some("db"), None)).is_none());
}
