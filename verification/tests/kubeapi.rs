use kube_mock::kubeapi::controller::RequestData;
use kube_mock::{
    ApiStatus, DynamicObject, Item, KubeApi, KubeMockBuilder, Method, Operation, Reply, ReplyBody,
    Router, StatusExt, TypeMeta,
};

fn none() -> RequestData {
    RequestData { is_null: true, object: Err("invalid type: null".into()) }
}

fn namespace(name: &str) -> DynamicObject {
    DynamicObject::named(TypeMeta { api_version: "v1".into(), kind: "Namespace".into() }, name)
}

fn request(api: &mut KubeApi, method: Method, path: &str, data: RequestData) -> Reply {
    let routed = api.route(&method, path);
    api.process_request(routed, data)
}

fn object(reply: Reply) -> (Option<i32>, DynamicObject) {
    match reply.body {
        ReplyBody::Object(o) => (reply.code, o),
        other => panic!("not an object: {other:?}"),
    }
}

fn status(reply: Reply) -> (Option<i32>, ApiStatus) {
    match reply.body {
        ReplyBody::Status(s) => (reply.code, s),
        other => panic!("not a status: {other:?}"),
    }
}

#[test]
fn get_node_of_default_server() {
    let mut api = KubeApi::new();
    let (code, node) = object(request(&mut api, Method::Get, "/api/v1/nodes/node-1", none()));
    assert_eq!(code, Some(200));
    assert_eq!(node.metadata.name.as_deref(), Some("node-1"));
    assert_eq!(node.types.unwrap().kind, "Node");
}

#[test]
fn get_default_namespace() {
    let mut api = KubeApi::new();
    let (code, ns) = object(request(&mut api, Method::Get, "/api/v1/namespaces/default", none()));
    assert_eq!(code, Some(200));
    assert_eq!(ns.metadata.name.as_deref(), Some("default"));
}

#[test]
fn get_missing_pod_is_not_found_under_default_namespace() {
    let mut api = KubeApi::new();
    let (code, s) = status(request(&mut api, Method::Get, "/api/v1/pods/aa", none()));
    assert_eq!(code, Some(404));
    assert_eq!(s.message.as_deref(), Some("pods \"default/aa\" not found"));
}

#[test]
fn builder_pods_are_keyed_by_name_only() {
    let mut api = KubeApi::from_builder(KubeMockBuilder::new().pod("aa"));
    let (code, _) = status(request(&mut api, Method::Get, "/api/v1/pods/aa", none()));
    assert_eq!(code, Some(404));
    let (code, _) = status(request(&mut api, Method::Get, "/api/v1/nodes/node-0", none()));
    assert_eq!(code, Some(404));
}

#[test]
fn unknown_kind_is_no_such_resource() {
    let mut api = KubeApi::new();
    let (code, s) = status(request(
        &mut api,
        Method::Get,
        "/apis/apps/v1/namespaces/bravo/deployments/engine",
        none(),
    ));
    assert_eq!(code, Some(404));
    assert_eq!(s.message.as_deref(), Some("the server could not find the requested resource"));
}

#[test]
fn unparsable_path_is_page_not_found() {
    let mut api = KubeApi::new();
    let reply = request(&mut api, Method::Get, "/healthz", none());
    assert_eq!(reply.code, Some(404));
    assert!(matches!(reply.body, ReplyBody::PageNotFound));
}

#[test]
fn post_on_kind_creates() {
    let mut api = KubeApi::new();
    let data = RequestData { is_null: false, object: Ok(namespace("xxx")) };
    let (code, created) = object(request(&mut api, Method::Post, "/api/v1/namespaces", data));
    assert_eq!(code, Some(201));
    assert_eq!(created.metadata.name.as_deref(), Some("xxx"));
}

#[test]
fn post_on_object_is_method_not_allowed() {
    let mut api = KubeApi::new();
    let data = RequestData { is_null: false, object: Ok(namespace("xxx")) };
    let (code, s) = status(request(&mut api, Method::Post, "/api/v1/namespaces/xxx", data));
    assert_eq!(code, Some(405));
    assert_eq!(s.reason.as_deref(), Some("MethodNotAllowed"));
}

#[test]
fn put_on_kind_creates_under_path_name() {
    let mut api = KubeApi::new();
    let data = RequestData { is_null: false, object: Ok(namespace("xxx")) };
    let (code, created) = object(request(&mut api, Method::Put, "/api/v1/namespaces", data));
    assert_eq!(code, Some(201));
    assert_eq!(created.metadata.name.as_deref(), Some("xxx"));
    assert_eq!(created.metadata.resource_version.as_deref(), Some("1"));
    let (code, got) = object(request(&mut api, Method::Get, "/api/v1/namespaces/", none()));
    assert_eq!(code, Some(200));
    assert_eq!(got.metadata.uid, created.metadata.uid);
    let data = RequestData { is_null: false, object: Ok(namespace("yyy")) };
    let (code, s) = status(request(&mut api, Method::Put, "/api/v1/namespaces", data));
    assert_eq!(code, Some(409));
    assert_eq!(s.message.as_deref(), Some("namespaces \"\" already exists"));
}

#[test]
fn failed_create_changes_nothing() {
    let mut api = KubeApi::new();
    let data = RequestData { is_null: false, object: Err("bad body".into()) };
    let (code, s) = status(request(&mut api, Method::Put, "/api/v1/nodes", data));
    assert_eq!(code, Some(400));
    assert_eq!(s.message.as_deref(), Some("bad body"));
    let (code, _) = status(request(&mut api, Method::Get, "/api/v1/nodes/", none()));
    assert_eq!(code, Some(404));
}

#[test]
fn reading_twice_answers_the_same() {
    let mut api = KubeApi::new();
    let (_, a) = object(request(&mut api, Method::Get, "/api/v1/nodes/node-0", none()));
    let (_, b) = object(request(&mut api, Method::Get, "/api/v1/nodes/node-0", none()));
    assert_eq!(a.metadata.name, b.metadata.name);
    assert_eq!(a.data, b.data);
}

#[test]
fn status_of_routing_refusal_keeps_its_code() {
    let mut api = KubeApi::new();
    let reply = api.process_request(Some(Err(ApiStatus::method_not_allowed())), none());
    assert_eq!(reply.code, Some(405));
    let reply = api.process_request(None, none());
    assert!(matches!(reply.body, ReplyBody::PageNotFound));
}

#[test]
fn process_operation_without_type_is_no_such_resource() {
    let mut api = KubeApi::new();
    let mut o = namespace("x");
    o.types = None;
    let err = api.process_operation(Operation::Get(o), none()).unwrap_err();
    assert_eq!(err.code, Some(404));
}

#[test]
fn operation_new_pairs_methods_with_items() {
    let o = || namespace("x");
    assert!(matches!(Operation::new(&Method::Get, Item::Object, o()), Ok(Operation::Get(_))));
    assert!(matches!(Operation::new(&Method::Get, Item::Kind, o()), Ok(Operation::List(_))));
    assert!(matches!(Operation::new(&Method::Put, Item::Kind, o()), Ok(Operation::Create(_))));
    assert!(matches!(Operation::new(&Method::Post, Item::Kind, o()), Ok(Operation::Create(_))));
    assert!(matches!(Operation::new(&Method::Delete, Item::Object, o()), Ok(Operation::Delete(_))));
    for (m, i) in [
        (Method::Put, Item::Object),
        (Method::Delete, Item::Kind),
        (Method::Post, Item::Object),
        (Method::Patch, Item::Object),
        (Method::Other, Item::Kind),
    ] {
        let err = Operation::new(&m, i, o()).unwrap_err();
        assert_eq!(err.code, Some(405));
    }
    let op = Operation::new(&Method::Get, Item::Object, o()).unwrap();
    assert_eq!(op.dynamic_object().metadata.name.as_deref(), Some("x"));
    assert_eq!(op.type_meta().unwrap().kind, "Namespace");
    assert!(Item::Kind.is_kind() && !Item::Kind.is_object());
}

#[test]
fn router_resolves_known_kinds() {
    let router = Router::new();
    let op = router.operation(&Method::Get, "/api/v1/namespaces/prod/pods/web").unwrap().unwrap();
    match op {
        Operation::Get(o) => {
            assert_eq!(o.types.as_ref().unwrap().kind, "Pod");
            assert_eq!(o.metadata.name.as_deref(), Some("web"));
            assert_eq!(o.metadata.namespace.as_deref(), Some("prod"));
        },
        other => panic!("{other:?}"),
    }
    let op = router.operation(&Method::Get, "/api/v1/namespaces").unwrap().unwrap();
    assert!(matches!(op, Operation::List(_)));
    let op = router.operation(&Method::Get, "/api/v2/nodes/n").unwrap().unwrap();
    assert!(op.type_meta().is_none());
    assert!(router.operation(&Method::Get, "/metrics").is_none());
}

fn pod(name: &str, namespace: Option<&str>) -> DynamicObject {
    let mut p = DynamicObject::named(TypeMeta { api_version: "v1".into(), kind: "Pod".into() }, name);
    p.metadata.namespace = namespace.map(str::to_string);
    p
}

#[test]
fn pod_read_by_namespaced_path() {
    let mut api = KubeApi::from_builder(KubeMockBuilder::new().pod("default/web"));
    let (code, p) =
        object(request(&mut api, Method::Get, "/api/v1/namespaces/default/pods/web", none()));
    assert_eq!(code, Some(200));
    assert_eq!(p.metadata.name.as_deref(), Some("default/web"));
    let (code, s) =
        status(request(&mut api, Method::Get, "/api/v1/namespaces/prod/pods/web", none()));
    assert_eq!(code, Some(404));
    assert_eq!(s.message.as_deref(), Some("pods \"prod/web\" not found"));
}

#[test]
fn pod_create_needs_the_namespace_of_the_path() {
    let mut api = KubeApi::new();
    let data = RequestData { is_null: false, object: Ok(pod("web", None)) };
    let (code, s) = status(request(&mut api, Method::Put, "/api/v1/namespaces/default/pods", data));
    assert_eq!(code, None);
    assert_eq!(s.reason.as_deref(), Some("conflict"));
    let data = RequestData { is_null: false, object: Ok(pod("web", Some("default"))) };
    let (code, created) =
        object(request(&mut api, Method::Put, "/api/v1/namespaces/default/pods", data));
    assert_eq!(code, Some(201));
    assert_eq!(created.metadata.namespace.as_deref(), Some("default"));
    let (code, got) =
        object(request(&mut api, Method::Get, "/api/v1/namespaces/default/pods/", none()));
    assert_eq!(code, Some(200));
    assert_eq!(got.metadata.uid, created.metadata.uid);
}

#[test]
fn serves_the_three_kinds() {
    let api = KubeApi::new();
    for kind in ["Namespace", "Node", "Pod"] {
        assert!(api.serves(&TypeMeta { api_version: "v1".into(), kind: kind.into() }));
    }
    assert!(!api.serves(&TypeMeta { api_version: "apps/v1".into(), kind: "Deployment".into() }));
}
