use kube_mock::kubeapi::verbs::Verb;
use kube_mock::{DynamicObject, ObjectMeta, Optionally, Store, TypeMeta};

fn pod(name: &str) -> DynamicObject {
    DynamicObject::named(TypeMeta { api_version: "v1".into(), kind: "Pod".into() }, name)
}

#[test]
fn named_object_holds_only_its_name() {
    let o = pod("web");
    assert_eq!(o.metadata.name.as_deref(), Some("web"));
    assert_eq!(o.metadata.namespace, None);
    assert_eq!(o.metadata.uid, None);
    assert_eq!(o.metadata.extra, "{}");
    assert_eq!(o.data, "{}");
}

#[test]
fn name_any_falls_back_to_generate_name() {
    let mut o = pod("web");
    assert_eq!(o.name_any(), "web");
    o.metadata.name = None;
    o.metadata.generate_name = Some("web-".into());
    assert_eq!(o.name_any(), "web-");
    o.metadata.generate_name = None;
    assert_eq!(o.name_any(), "");
}

#[test]
fn within_and_optionally_within_set_namespace() {
    let o = pod("web").within("prod");
    assert_eq!(o.namespace().as_deref(), Some("prod"));
    let o = pod("web").optionally_within(Some("dev"));
    assert_eq!(o.metadata.namespace.as_deref(), Some("dev"));
    let o = pod("web").optionally_within(None);
    assert_eq!(o.metadata.namespace, None);
    let o = pod("web").optionally_status(Some(500));
    assert_eq!(o.metadata.name.as_deref(), Some("web"));
}

#[test]
fn optionally_status_sets_the_code() {
    let response = http::Response::builder().optionally_status(Some(404)).body(()).unwrap();
    assert_eq!(response.status().as_u16(), 404);
    let response = http::Response::builder().optionally_status(None).body(()).unwrap();
    assert_eq!(response.status().as_u16(), 200);
}

#[test]
fn clones_keep_fields() {
    let mut meta = ObjectMeta::named("x");
    meta.creation_timestamp = Some(17);
    let copy = meta.clone();
    assert_eq!(copy.name.as_deref(), Some("x"));
    assert_eq!(copy.creation_timestamp, Some(17));
    let t = TypeMeta { api_version: "v1".into(), kind: "Node".into() };
    assert!(t.same_as(&t.clone()));
    assert!(!t.same_as(&TypeMeta { api_version: "v1".into(), kind: "Pod".into() }));
}

#[test]
fn store_insert_get_and_find() {
    let mut store = Store::new();
    assert!(store.get("default/web").is_none());
    store.insert("default/web".into(), pod("web"));
    store.insert("prod/api".into(), pod("api"));
    assert!(store.contains_key("default/web"));
    assert_eq!(store.get("prod/api").unwrap().metadata.name.as_deref(), Some("api"));
    store.insert("default/web".into(), pod("web2"));
    assert_eq!(store.get("default/web").unwrap().metadata.name.as_deref(), Some("web2"));
    assert_eq!(store.find_by_name("api").unwrap().metadata.name.as_deref(), Some("api"));
    assert!(store.find_by_name("nothing").is_none());
}

#[test]
fn verb_names() {
    assert_eq!(Verb::Create.as_str(), "create");
    assert_eq!(Verb::Get.as_str(), "get");
    assert_eq!(Verb::List.as_str(), "list");
    assert_eq!(Verb::Watch.as_str(), "watch");
    assert_eq!(Verb::Delete.as_str(), "delete");
    assert_eq!(Verb::DeleteCollection.as_str(), "delete_collection");
    assert_eq!(Verb::Update.as_str(), "update");
    assert_eq!(Verb::Patch.to_string(), "patch");
}
