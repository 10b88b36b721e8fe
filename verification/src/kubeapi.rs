//! The API server proper: requests are routed to operations, and operations to the
//! inventory of the kind of object they are for.
use vstd::pervasive::unreached;
use vstd::prelude::*;

use crate::builder::KubeMockBuilder;
use crate::ext::status::{
    already_exists_spec, no_such_resource_spec, ApiStatus, ApiStatusView, StatusExt,
};
use crate::model::{
    type_meta_of, DynamicObject, DynamicObjectView, ResourceTypeView, TypeMeta, TypeMetaView,
};
use crate::text::no_slash;

pub mod controller;
pub mod error;
pub mod operations;
pub mod parser;
pub mod resources;
pub mod verbs;

use controller::inventory::{
    cluster_create_post, cluster_key, get_spec, namespace_or_default, namespaced_create_post,
    namespaced_key, InventoryView,
};
use controller::uids::{lemma_cover_grows, lemma_uncovered_is_unused, uid_unused};
use controller::namespace::{namespace_resource, namespace_type};
use controller::node::{node_resource, node_type};
use controller::pod::{pod_resource, pod_type};
use controller::{
    outcome_view, ClusterInventory, Controller, NamespacedInventory, Namespaces, Nodes, Outcome,
    OutcomeView, Pods, RequestData, RequestDataView,
};
use operations::{Method, Operation, OperationView};
use parser::{law_core_namespaced_object_path, law_core_object_path, resource_path};
use resources::{
    known_resources, law_create_pod_in_namespace, lookup_spec, route_spec, route_view, Router,
};

verus! {

/// The server as plain values: the resources its router knows, and its inventories.
pub struct KubeApiView {
    pub router: Seq<ResourceTypeView>,
    pub namespaces: InventoryView,
    pub nodes: InventoryView,
    pub pods: InventoryView,
}

/// Which inventory serves objects of type `t`: namespaces, else nodes, else pods.
pub enum Target {
    Namespaces,
    Nodes,
    Pods,
}

pub open spec fn target_of(api: KubeApiView, t: TypeMetaView) -> Option<Target> {
    if type_meta_of(api.namespaces.resource) == t {
        Some(Target::Namespaces)
    } else if type_meta_of(api.nodes.resource) == t {
        Some(Target::Nodes)
    } else if type_meta_of(api.pods.resource) == t {
        Some(Target::Pods)
    } else {
        None
    }
}

/// The inventory that serves an operation, where one does.
pub open spec fn operation_target(api: KubeApiView, op: OperationView) -> Option<Target> {
    match op.object().types {
        Some(t) => target_of(api, t),
        None => None,
    }
}

pub open spec fn inventory_at(api: KubeApiView, target: Target) -> InventoryView {
    match target {
        Target::Namespaces => api.namespaces,
        Target::Nodes => api.nodes,
        Target::Pods => api.pods,
    }
}

pub open spec fn with_inventory_at(api: KubeApiView, target: Target, inv: InventoryView) -> KubeApiView {
    match target {
        Target::Namespaces => KubeApiView { namespaces: inv, ..api },
        Target::Nodes => KubeApiView { nodes: inv, ..api },
        Target::Pods => KubeApiView { pods: inv, ..api },
    }
}

/// The key under which the target inventory keeps `object`.
pub open spec fn key_at(target: Target, object: DynamicObjectView) -> Seq<char> {
    match target {
        Target::Pods => namespaced_key(object),
        _ => cluster_key(object),
    }
}

/// The operations that the server carries out: creating and reading. Deleting and
/// listing objects of a served kind are not implemented and stop the server.
pub open spec fn handled(api: KubeApiView, op: OperationView, data: RequestDataView) -> bool {
    match operation_target(api, op) {
        None => true,
        Some(_) => match op {
            OperationView::Create(_) => true,
            OperationView::Get(_) => data.is_null,
            _ => false,
        },
    }
}

/// What an operation does: 404 where no inventory serves its type; else the target
/// inventory creates or reads, and the others stay as they were.
pub open spec fn process_operation_post(
    old: KubeApiView,
    new: KubeApiView,
    op: OperationView,
    data: RequestDataView,
    res: OutcomeView,
) -> bool {
    match operation_target(old, op) {
        None => new == old && res == Err::<(DynamicObjectView, u16), _>(no_such_resource_spec()),
        Some(target) => match op {
            OperationView::Create(o) => {
                &&& new == with_inventory_at(old, target, inventory_at(new, target))
                &&& match target {
                    Target::Pods => namespaced_create_post(
                        inventory_at(old, target),
                        inventory_at(new, target),
                        o,
                        data,
                        res,
                    ),
                    _ => cluster_create_post(
                        inventory_at(old, target),
                        inventory_at(new, target),
                        o,
                        data,
                        res,
                    ),
                }
            },
            OperationView::Get(o) => new == old && res == get_spec(
                inventory_at(old, target),
                key_at(target, o),
            ),
            _ => false,
        },
    }
}

/// Where the outcome is a created object, its uid is held by no object of any
/// inventory of the server.
pub open spec fn uid_fresh_in(api: KubeApiView, res: OutcomeView) -> bool {
    res matches Ok((created, _)) ==> (created.metadata.uid matches Some(uid) && {
        &&& uid_unused(api.namespaces.objects, uid)
        &&& uid_unused(api.nodes.objects, uid)
        &&& uid_unused(api.pods.objects, uid)
    })
}

/// Uids are fresh across successive creates, whatever kinds they are for: an object
/// created after another gets a uid other than the first one's.
pub proof fn law_successive_creates_get_distinct_uids(
    s0: KubeApiView,
    s1: KubeApiView,
    s2: KubeApiView,
    o1: DynamicObjectView,
    data1: RequestDataView,
    created1: DynamicObjectView,
    code1: u16,
    o2: DynamicObjectView,
    data2: RequestDataView,
    created2: DynamicObjectView,
    code2: u16,
)
    requires
        process_operation_post(s0, s1, OperationView::Create(o1), data1, Ok((created1, code1))),
        process_operation_post(s1, s2, OperationView::Create(o2), data2, Ok((created2, code2))),
        uid_fresh_in(s1, Ok((created2, code2))),
    ensures
        created1.metadata.uid is Some,
        created2.metadata.uid is Some,
        created1.metadata.uid != created2.metadata.uid,
{
    let target = operation_target(s0, OperationView::Create(o1))->0;
    let key = key_at(target, o1);
    let after = inventory_at(s1, target);
    assert(after.objects.contains_key(key) && after.objects[key] == created1);
    let uid2 = created2.metadata.uid->0;
    match target {
        Target::Namespaces => assert(uid_unused(s1.namespaces.objects, uid2)),
        Target::Nodes => assert(uid_unused(s1.nodes.objects, uid2)),
        Target::Pods => assert(uid_unused(s1.pods.objects, uid2)),
    }
}

/// A failed operation leaves the server as it was.
pub proof fn law_failure_changes_nothing(
    s0: KubeApiView,
    s1: KubeApiView,
    op: OperationView,
    data: RequestDataView,
    res: OutcomeView,
)
    requires
        process_operation_post(s0, s1, op, data, res),
        res is Err,
    ensures
        s1 == s0,
{
    match operation_target(s0, op) {
        None => {},
        Some(target) => {
            assert(inventory_at(s1, target) == inventory_at(s0, target));
            assert(with_inventory_at(s0, target, inventory_at(s0, target)) == s0);
        },
    }
}

/// Reading an object leaves the server as it was.
pub proof fn law_get_changes_nothing(
    s0: KubeApiView,
    s1: KubeApiView,
    o: DynamicObjectView,
    data: RequestDataView,
    res: OutcomeView,
)
    requires
        process_operation_post(s0, s1, OperationView::Get(o), data, res),
    ensures
        s1 == s0,
{
}

/// After an object is created, reading an object of the same type and key answers
/// the created object with 200.
pub proof fn law_get_after_create(
    s0: KubeApiView,
    s1: KubeApiView,
    s2: KubeApiView,
    o: DynamicObjectView,
    data: RequestDataView,
    created: DynamicObjectView,
    code: u16,
    o2: DynamicObjectView,
    data2: RequestDataView,
    res2: OutcomeView,
)
    requires
        process_operation_post(s0, s1, OperationView::Create(o), data, Ok((created, code))),
        o2.types == o.types,
        cluster_key(o2) == cluster_key(o),
        namespaced_key(o2) == namespaced_key(o),
        process_operation_post(s1, s2, OperationView::Get(o2), data2, res2),
    ensures
        res2 == Ok::<(DynamicObjectView, u16), ApiStatusView>((created, 200)),
        s2 == s1,
{
    let target = operation_target(s0, OperationView::Create(o))->0;
    assert(inventory_at(s1, target).resource == inventory_at(s0, target).resource);
    assert(operation_target(s1, OperationView::Get(o2)) == Some(target));
}

/// Once an object is created, creating again under the same type and key fails and
/// changes nothing; where the body is an object, and for pods names the namespace of
/// the request, the answer is 409 `AlreadyExists` for that key.
pub proof fn law_create_taken_key(
    s0: KubeApiView,
    s1: KubeApiView,
    s2: KubeApiView,
    o: DynamicObjectView,
    data: RequestDataView,
    created: DynamicObjectView,
    code: u16,
    o2: DynamicObjectView,
    data2: RequestDataView,
    res2: OutcomeView,
)
    requires
        process_operation_post(s0, s1, OperationView::Create(o), data, Ok((created, code))),
        o2.types == o.types,
        cluster_key(o2) == cluster_key(o),
        namespaced_key(o2) == namespaced_key(o),
        o2.metadata.namespace == o.metadata.namespace,
        process_operation_post(s1, s2, OperationView::Create(o2), data2, res2),
    ensures
        res2 is Err,
        s2 == s1,
        data2.object matches Ok(k) && k.metadata.namespace == Some(
            namespace_or_default(o.metadata),
        ) ==> res2 == Err::<(DynamicObjectView, u16), ApiStatusView>(
            already_exists_spec(
                inventory_at(s1, operation_target(s0, OperationView::Create(o))->0).resource,
                key_at(operation_target(s0, OperationView::Create(o))->0, o),
            ),
        ),
        data2.object is Ok && operation_target(s0, OperationView::Create(o)) != Some(Target::Pods)
            ==> res2 == Err::<(DynamicObjectView, u16), ApiStatusView>(
            already_exists_spec(
                inventory_at(s1, operation_target(s0, OperationView::Create(o))->0).resource,
                key_at(operation_target(s0, OperationView::Create(o))->0, o),
            ),
        ),
{
    let target = operation_target(s0, OperationView::Create(o))->0;
    assert(inventory_at(s1, target).resource == inventory_at(s0, target).resource);
    assert(operation_target(s1, OperationView::Create(o2)) == Some(target));
    assert(inventory_at(s1, target).objects.contains_key(key_at(target, o)));
    law_failure_changes_nothing(s1, s2, OperationView::Create(o2), data2, res2);
}

/// The server as `from_builder` makes it: the router knows namespaces, nodes and
/// pods, and each inventory serves its kind.
pub open spec fn standard_layout(api: KubeApiView) -> bool {
    &&& api.router == known_resources()
    &&& api.namespaces.resource == namespace_type()
    &&& api.nodes.resource == node_type()
    &&& api.pods.resource == pod_type()
}

/// No operation changes what the server serves: its router and the kinds of its
/// inventories stay as they were.
pub proof fn law_operations_keep_layout(
    s0: KubeApiView,
    s1: KubeApiView,
    op: OperationView,
    data: RequestDataView,
    res: OutcomeView,
)
    requires
        process_operation_post(s0, s1, op, data, res),
    ensures
        s1.router == s0.router,
        s1.namespaces.resource == s0.namespaces.resource,
        s1.nodes.resource == s0.nodes.resource,
        s1.pods.resource == s0.pods.resource,
        standard_layout(s0) ==> standard_layout(s1),
{
}

/// `GET /api/v1/nodes/{name}` asks to read the node named `name`, and the server
/// answers it with the node stored under that name, or 404.
pub proof fn law_get_node_by_path(
    api: KubeApiView,
    name: Seq<char>,
    new: KubeApiView,
    data: RequestDataView,
    res: OutcomeView,
)
    requires
        standard_layout(api),
        no_slash(name),
    ensures
        route_spec(api.router, Method::Get, "/api/"@ + "v1"@ + "/"@ + "nodes"@ + "/"@ + name)
            matches Some(Ok(op)) && (process_operation_post(api, new, op, data, res) ==> res
            == get_spec(api.nodes, name) && new == api),
{
    reveal_strlit("v1");
    reveal_strlit("nodes");
    reveal_strlit("namespaces");
    reveal_strlit("Namespace");
    reveal_strlit("Node");
    law_core_object_path("v1"@, "nodes"@, name);
    let p = resource_path(Seq::empty(), "v1"@, "nodes"@, None, Some(name));
    assert(p.api_version == "v1"@);
    assert(known_resources()[0].plural != "nodes"@);
    assert(known_resources().drop_first() =~= seq![node_type(), pod_type()]);
    reveal_with_fuel(lookup_spec, 3);
    assert(lookup_spec(known_resources(), "v1"@, "nodes"@) == Some(type_meta_of(node_type())));
    assert("Namespace"@.len() != "Node"@.len());
    assert(type_meta_of(namespace_type()) != type_meta_of(node_type()));
}

/// `GET /api/v1/namespaces/{namespace}/pods/{name}` asks to read that pod, and the
/// server answers it with the pod stored under `namespace/name`, or 404.
pub proof fn law_get_pod_by_path(
    api: KubeApiView,
    namespace: Seq<char>,
    name: Seq<char>,
    new: KubeApiView,
    data: RequestDataView,
    res: OutcomeView,
)
    requires
        standard_layout(api),
        no_slash(namespace),
        no_slash(name),
    ensures
        route_spec(
            api.router,
            Method::Get,
            "/api/"@ + "v1"@ + "/"@ + "namespaces"@ + "/"@ + namespace + "/"@ + "pods"@ + "/"@
                + name,
        ) matches Some(Ok(op)) && (process_operation_post(api, new, op, data, res) ==> res
            == get_spec(api.pods, namespace + "/"@ + name) && new == api),
{
    reveal_strlit("v1");
    reveal_strlit("pods");
    reveal_strlit("nodes");
    reveal_strlit("namespaces");
    reveal_strlit("Namespace");
    reveal_strlit("Node");
    reveal_strlit("Pod");
    law_core_namespaced_object_path("v1"@, namespace, "pods"@, name);
    assert(known_resources()[0].plural != "pods"@);
    assert(known_resources().drop_first() =~= seq![node_type(), pod_type()]);
    assert(known_resources().drop_first()[0].plural != "pods"@);
    assert(known_resources().drop_first().drop_first() =~= seq![pod_type()]);
    reveal_with_fuel(lookup_spec, 4);
    assert(lookup_spec(known_resources(), "v1"@, "pods"@) == Some(type_meta_of(pod_type())));
    assert("Namespace"@.len() != "Pod"@.len());
    assert("Node"@.len() != "Pod"@.len());
    assert(type_meta_of(namespace_type()) != type_meta_of(pod_type()));
    assert(type_meta_of(node_type()) != type_meta_of(pod_type()));
}

/// `PUT` or `POST` on `/api/v1/namespaces/{namespace}/pods` with a pod of that
/// namespace creates it in that namespace: the request path names no pod, so the key is
/// `{namespace}/`; where that key is free the pod is stored under it and answered with
/// 201, else the answer is 409 `AlreadyExists`.
pub proof fn law_create_pod_by_path(
    api: KubeApiView,
    method: Method,
    namespace: Seq<char>,
    new: KubeApiView,
    data: RequestDataView,
    res: OutcomeView,
)
    requires
        standard_layout(api),
        no_slash(namespace),
        method == Method::Put || method == Method::Post,
        data.object matches Ok(k) && k.metadata.namespace == Some(namespace),
    ensures
        route_spec(
            api.router,
            method,
            "/api/"@ + "v1"@ + "/"@ + "namespaces"@ + "/"@ + namespace + "/"@ + "pods"@,
        ) matches Some(Ok(op)) && (process_operation_post(api, new, op, data, res) ==> {
            &&& !api.pods.objects.contains_key(namespace + "/"@) ==> (res matches Ok(
                (created, code),
            ) && code == 201 && created.metadata.namespace == Some(namespace)
                && new.pods.objects == api.pods.objects.insert(namespace + "/"@, created))
            &&& api.pods.objects.contains_key(namespace + "/"@) ==> res
                == Err::<(DynamicObjectView, u16), ApiStatusView>(
                already_exists_spec(api.pods.resource, namespace + "/"@),
            )
        }),
{
    reveal_strlit("Namespace");
    reveal_strlit("Node");
    reveal_strlit("Pod");
    law_create_pod_in_namespace(method, namespace);
    assert("Namespace"@.len() != "Pod"@.len());
    assert("Node"@.len() != "Pod"@.len());
    assert(type_meta_of(namespace_type()) != type_meta_of(pod_type()));
    assert(type_meta_of(node_type()) != type_meta_of(pod_type()));
    assert(namespace + "/"@ + Seq::<char>::empty() =~= namespace + "/"@);
}

/// What the server answers with.
#[derive(Debug)]
pub enum ReplyBody {
    /// The plain-text page `404 page not found`.
    PageNotFound,
    Status(ApiStatus),
    Object(DynamicObject),
}

pub enum ReplyBodyView {
    PageNotFound,
    Status(ApiStatusView),
    Object(DynamicObjectView),
}

/// An answer: its HTTP status code, where it sets one, and its body.
#[derive(Debug)]
pub struct Reply {
    pub code: Option<i32>,
    pub body: ReplyBody,
}

pub struct ReplyView {
    pub code: Option<i32>,
    pub body: ReplyBodyView,
}

impl View for Reply {
    type V = ReplyView;

    open spec fn view(&self) -> ReplyView {
        ReplyView {
            code: self.code,
            body: match self.body {
                ReplyBody::PageNotFound => ReplyBodyView::PageNotFound,
                ReplyBody::Status(s) => ReplyBodyView::Status(s@),
                ReplyBody::Object(o) => ReplyBodyView::Object(o@),
            },
        }
    }
}

/// The answer to an outcome: the object with its code, or the status with the
/// status's own code.
pub open spec fn reply_of(res: OutcomeView) -> ReplyView {
    match res {
        Ok((object, code)) => ReplyView {
            code: Some(code as i32),
            body: ReplyBodyView::Object(object),
        },
        Err(status) => ReplyView { code: status.code, body: ReplyBodyView::Status(status) },
    }
}

/// The mock API server: a router and the inventories of namespaces, nodes and pods.
#[derive(Debug)]
pub struct KubeApi {
    router: Router,
    namespaces: Namespaces,
    nodes: Nodes,
    pods: Pods,
}

impl View for KubeApi {
    type V = KubeApiView;

    closed spec fn view(&self) -> KubeApiView {
        KubeApiView {
            router: self.router@,
            namespaces: self.namespaces@,
            nodes: self.nodes@,
            pods: self.pods@,
        }
    }
}

impl KubeApi {
    /// A server with the namespaces `kube-system`, `kube-public` and `default`, and
    /// two nodes.
    pub fn new() -> (res: Self)
        ensures
            res@ == crate::builder::api_from_builder(crate::builder::default_builder_with_nodes(2)),
    {
        let builder = KubeMockBuilder::new().nodes(2);
        Self::from_builder(builder)
    }

    /// A server that holds what the builder holds.
    pub fn from_builder(builder: KubeMockBuilder) -> (res: Self)
        ensures
            res@ == crate::builder::api_from_builder(builder@),
    {
        let KubeMockBuilder { namespaces, nodes, pods } = builder;
        let router = Router::new();
        let namespaces = ClusterInventory::with_inventory(namespace_resource(), namespaces);
        let nodes = ClusterInventory::with_inventory(node_resource(), nodes);
        let pods = NamespacedInventory::with_inventory(pod_resource(), pods);
        KubeApi { router, namespaces, nodes, pods }
    }

    /// The operation that a request with this method and path asks for; none where the
    /// path addresses no resource.
    pub fn route(&self, method: &Method, path: &str) -> (res: Option<Result<Operation, ApiStatus>>)
        ensures
            route_view(res) == resources::route_spec(self@.router, *method, path@),
    {
        self.router.operation(method, path)
    }

    /// Whether an inventory of this server keeps objects of this type.
    pub fn serves(&self, meta: &TypeMeta) -> (res: bool)
        ensures
            res == target_of(self@, meta@) is Some,
    {
        self.namespaces.type_meta().same_as(meta) || self.nodes.type_meta().same_as(meta)
            || self.pods.type_meta().same_as(meta)
    }

    /// Carries out an operation on the inventory that serves its type.
    pub fn process_operation(&mut self, operation: Operation, data: RequestData) -> (res: Outcome)
        requires
            handled(old(self)@, operation@, data@),
        ensures
            process_operation_post(old(self)@, final(self)@, operation@, data@, outcome_view(res)),
            operation@ is Create ==> uid_fresh_in(old(self)@, outcome_view(res)),
    {
        let meta = match operation.type_meta() {
            Some(meta) => meta.clone(),
            None => return Err(ApiStatus::no_such_resource()),
        };
        let ghost start = self@;
        let mut in_use: Vec<String> = Vec::new();
        self.namespaces.push_uids(&mut in_use);
        let ghost v1 = in_use@;
        self.nodes.push_uids(&mut in_use);
        let ghost v2 = in_use@;
        self.pods.push_uids(&mut in_use);
        proof {
            lemma_cover_grows(start.namespaces.objects, v1, v2);
            lemma_cover_grows(start.namespaces.objects, v2, in_use@);
            lemma_cover_grows(start.nodes.objects, v2, in_use@);
        }
        let ghost taken = in_use@;
        if self.namespaces.type_meta().same_as(&meta) {
            match operation {
                Operation::Create(object) => {
                    let res = self.namespaces.create_among(object, data, in_use);
                    proof {
                        if let Ok((created, _)) = outcome_view(res) {
                            let uid = created.metadata.uid->0;
                            lemma_uncovered_is_unused(start.namespaces.objects, taken, uid);
                            lemma_uncovered_is_unused(start.nodes.objects, taken, uid);
                            lemma_uncovered_is_unused(start.pods.objects, taken, uid);
                        }
                    }
                    res
                },
                Operation::Get(object) => self.namespaces.get(object, data),
                Operation::Delete(_) | Operation::List(_) => unreached(),
            }
        } else if self.nodes.type_meta().same_as(&meta) {
            match operation {
                Operation::Create(object) => {
                    let res = self.nodes.create_among(object, data, in_use);
                    proof {
                        if let Ok((created, _)) = outcome_view(res) {
                            let uid = created.metadata.uid->0;
                            lemma_uncovered_is_unused(start.namespaces.objects, taken, uid);
                            lemma_uncovered_is_unused(start.nodes.objects, taken, uid);
                            lemma_uncovered_is_unused(start.pods.objects, taken, uid);
                        }
                    }
                    res
                },
                Operation::Get(object) => self.nodes.get(object, data),
                Operation::Delete(_) | Operation::List(_) => unreached(),
            }
        } else if self.pods.type_meta().same_as(&meta) {
            match operation {
                Operation::Create(object) => {
                    let res = self.pods.create_among(object, data, in_use);
                    proof {
                        if let Ok((created, _)) = outcome_view(res) {
                            let uid = created.metadata.uid->0;
                            lemma_uncovered_is_unused(start.namespaces.objects, taken, uid);
                            lemma_uncovered_is_unused(start.nodes.objects, taken, uid);
                            lemma_uncovered_is_unused(start.pods.objects, taken, uid);
                        }
                    }
                    res
                },
                Operation::Get(object) => self.pods.get(object, data),
                Operation::Delete(_) | Operation::List(_) => unreached(),
            }
        } else {
            Err(ApiStatus::no_such_resource())
        }
    }

    /// Answers a routed request: the not-found page where the path addresses no
    /// resource, the refusal where the method does not apply, else the outcome of the
    /// operation.
    pub fn process_request(&mut self, routed: Option<Result<Operation, ApiStatus>>, data: RequestData) -> (res: Reply)
        requires
            routed matches Some(Ok(op)) ==> handled(old(self)@, op@, data@),
        ensures
            match routed {
                None => final(self)@ == old(self)@ && res@ == (ReplyView {
                    code: Some(404),
                    body: ReplyBodyView::PageNotFound,
                }),
                Some(Err(status)) => final(self)@ == old(self)@ && res@ == reply_of(
                    Err(status@),
                ),
                Some(Ok(op)) => exists|out: OutcomeView|
                    process_operation_post(old(self)@, final(self)@, op@, data@, out) && (op@ is Create
                        ==> uid_fresh_in(old(self)@, out)) && res@ == #[trigger] reply_of(out),
            },
    {
        let operation = match routed {
            None => return Reply { code: Some(404), body: ReplyBody::PageNotFound },
            Some(Err(status)) => {
                let code: Option<i32> = status.code;
                return Reply { code, body: ReplyBody::Status(status) };
            },
            Some(Ok(operation)) => operation,
        };
        let result = self.process_operation(operation, data);
        let ghost out = outcome_view(result);
        let reply = match result {
            Ok((object, code)) => Reply { code: Some(code as i32), body: ReplyBody::Object(object) },
            Err(status) => {
                let code: Option<i32> = status.code;
                Reply { code, body: ReplyBody::Status(status) }
            },
        };
        assert(reply@ == reply_of(out));
        reply
    }
}

} // verus!
