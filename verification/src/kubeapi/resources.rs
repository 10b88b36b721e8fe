//! What request paths address: kinds of objects, and objects; and the routing of
//! requests to operations.
use vstd::prelude::*;
use vstd::string::*;

use crate::ext::status::{method_not_allowed_spec, ApiStatus};
use crate::kubeapi::controller::namespace::{namespace_resource, namespace_type};
use crate::kubeapi::controller::node::{node_resource, node_type};
use crate::kubeapi::controller::pod::{pod_resource, pod_type};
use crate::kubeapi::operations::{
    operation_result_view, operation_spec, Method, Operation, OperationView,
};
use crate::kubeapi::parser::{
    law_core_namespaced_kind_path, parse_path, parse_path_spec, ResourcePath,
};
use crate::model::{
    empty_json, type_meta_of, DynamicObject, DynamicObjectView, ObjectMeta, ObjectMetaView,
    ResourceType, ResourceTypeView, TypeMeta, TypeMetaView,
};
use crate::store::Store;
use crate::text::{no_slash, str_eq};
use crate::ext::status::ApiStatusView;

verus! {

/// What a path addresses: all objects of a kind, or one object.
#[derive(Clone, Copy, Debug, PartialEq, Eq)]
pub enum Item {
    Kind,
    Object,
}

impl Item {
    pub fn is_object(&self) -> (res: bool)
        ensures
            res == (*self == Item::Object),
    {
        match self {
            Item::Object => true,
            Item::Kind => false,
        }
    }

    pub fn is_kind(&self) -> (res: bool)
        ensures
            res == (*self == Item::Kind),
    {
        match self {
            Item::Kind => true,
            Item::Object => false,
        }
    }
}

/// Objects by uid.
#[derive(Debug)]
pub struct Resources {
    objects: Store,
}

impl View for Resources {
    type V = Map<Seq<char>, DynamicObjectView>;

    closed spec fn view(&self) -> Map<Seq<char>, DynamicObjectView> {
        self.objects@
    }
}

impl Default for Resources {
    fn default() -> (res: Self)
        ensures
            res@ == Map::<Seq<char>, DynamicObjectView>::empty(),
    {
        Resources { objects: Store::new() }
    }
}

impl Resources {
    /// The object with uid `id`.
    pub fn get(&self, id: &str) -> (res: Option<&DynamicObject>)
        ensures
            match res {
                Some(v) => self@.contains_key(id@) && self@[id@] == v@,
                None => !self@.contains_key(id@),
            },
    {
        self.objects.get(id)
    }

    /// Looking an object up by its metadata finds nothing.
    pub fn lookup_by_meta(&self, meta: &ObjectMeta) -> (res: Option<&DynamicObject>)
        ensures
            res is None,
    {
        None
    }
}

/// The `apiVersion` and `kind` of the first resource in `table` with that
/// `apiVersion` and plural.
pub open spec fn lookup_spec(table: Seq<ResourceTypeView>, api_version: Seq<char>, plural: Seq<char>) -> Option<TypeMetaView>
    decreases table.len(),
{
    if table.len() == 0 {
        None
    } else if table[0].api_version == api_version && table[0].plural == plural {
        Some(type_meta_of(table[0]))
    } else {
        lookup_spec(table.drop_first(), api_version, plural)
    }
}

/// What a path addresses: one object where it names one, else a kind.
pub open spec fn item_of(path: ResourcePath) -> Item {
    if path.name is Some {
        Item::Object
    } else {
        Item::Kind
    }
}

/// The object that a path names: its type where the resource is known, its name and
/// namespace where the path gives them.
pub open spec fn object_of(path: ResourcePath, types: Option<TypeMetaView>) -> DynamicObjectView {
    DynamicObjectView {
        types,
        metadata: ObjectMetaView {
            name: path.name,
            generate_name: None,
            namespace: path.namespace,
            resource_version: None,
            uid: None,
            creation_timestamp: None,
            extra: empty_json(),
        },
        data: empty_json(),
    }
}

/// The operation that a request asks for: none where the path addresses no resource.
pub open spec fn route_spec(table: Seq<ResourceTypeView>, method: Method, path: Seq<char>) -> Option<
    Result<OperationView, ApiStatusView>,
> {
    match parse_path_spec(path) {
        Err(_) => None,
        Ok(p) => Some(
            operation_spec(
                method,
                item_of(p),
                object_of(p, lookup_spec(table, p.api_version, p.plural)),
            ),
        ),
    }
}

/// A request is routed exactly when its path addresses a resource, and the object of
/// the operation carries the name and the namespace that the path gives, for a kind as
/// for an object.
pub proof fn law_route_keeps_name_and_namespace(
    table: Seq<ResourceTypeView>,
    method: Method,
    path: Seq<char>,
)
    ensures
        route_spec(table, method, path) is None <==> parse_path_spec(path) is Err,
        parse_path_spec(path) matches Ok(r) ==> (route_spec(table, method, path) matches Some(
            routed,
        ) && (routed matches Ok(op) ==> {
            &&& op.object().metadata.name == r.name
            &&& op.object().metadata.namespace == r.namespace
        })),
{
}

/// `PUT` and `POST` are routed alike.
pub proof fn law_put_and_post_agree(table: Seq<ResourceTypeView>, path: Seq<char>)
    ensures
        route_spec(table, Method::Put, path) == route_spec(table, Method::Post, path),
{
}

/// A request that is routed but refused is answered `405 Method Not Allowed`.
pub proof fn law_refusal_is_method_not_allowed(
    table: Seq<ResourceTypeView>,
    method: Method,
    path: Seq<char>,
)
    ensures
        route_spec(table, method, path) matches Some(Err(status)) ==> status
            == method_not_allowed_spec(),
{
}

/// Creating and listing are asked of a kind, reading and deleting of an object: the
/// object of a create or a list has no name from the path, that of a get or a delete
/// has the path's name.
pub proof fn law_operations_fit_what_the_path_addresses(
    table: Seq<ResourceTypeView>,
    method: Method,
    path: Seq<char>,
)
    ensures
        route_spec(table, method, path) matches Some(Ok(op)) ==> match op {
            OperationView::Create(o) => o.metadata.name is None,
            OperationView::List(o) => o.metadata.name is None,
            OperationView::Get(o) => o.metadata.name is Some,
            OperationView::Delete(o) => o.metadata.name is Some,
        },
        route_spec(table, method, path) matches Some(Ok(op)) ==> (op is Create <==> (method
            == Method::Put || method == Method::Post)),
{
}

/// `PUT` or `POST` on a kind within a namespace,
/// `/api/{version}/namespaces/{namespace}/{plural}`, creates an object in that
/// namespace, with no name from the path.
pub proof fn law_create_on_namespaced_kind_path(
    table: Seq<ResourceTypeView>,
    method: Method,
    version: Seq<char>,
    namespace: Seq<char>,
    plural: Seq<char>,
)
    requires
        no_slash(version),
        no_slash(namespace),
        no_slash(plural),
        method == Method::Put || method == Method::Post,
    ensures
        route_spec(
            table,
            method,
            "/api/"@ + version + "/"@ + "namespaces"@ + "/"@ + namespace + "/"@ + plural,
        ) matches Some(Ok(OperationView::Create(object))) && {
            &&& object.metadata.namespace == Some(namespace)
            &&& object.metadata.name is None
            &&& object.types == lookup_spec(table, version, plural)
        },
{
    law_core_namespaced_kind_path(version, namespace, plural);
}

/// `PUT` or `POST` on `/api/v1/namespaces/{namespace}/pods` creates a pod in that
/// namespace.
pub proof fn law_create_pod_in_namespace(method: Method, namespace: Seq<char>)
    requires
        no_slash(namespace),
        method == Method::Put || method == Method::Post,
    ensures
        route_spec(
            known_resources(),
            method,
            "/api/"@ + "v1"@ + "/"@ + "namespaces"@ + "/"@ + namespace + "/"@ + "pods"@,
        ) matches Some(Ok(OperationView::Create(object))) && {
            &&& object.metadata.namespace == Some(namespace)
            &&& object.metadata.name is None
            &&& object.types == Some(type_meta_of(pod_type()))
        },
{
    reveal_strlit("v1");
    reveal_strlit("pods");
    reveal_strlit("namespaces");
    reveal_strlit("nodes");
    assert(no_slash("v1"@));
    assert(no_slash("pods"@));
    let table = known_resources();
    assert("namespaces"@ != "pods"@) by {
        assert("namespaces"@.len() != "pods"@.len());
    }
    assert("nodes"@ != "pods"@) by {
        assert("nodes"@.len() != "pods"@.len());
    }
    assert(table.drop_first() =~= seq![node_type(), pod_type()]);
    assert(table.drop_first().drop_first() =~= seq![pod_type()]);
    reveal_with_fuel(lookup_spec, 4);
    assert(lookup_spec(table, "v1"@, "pods"@) == Some(type_meta_of(pod_type())));
    law_create_on_namespaced_kind_path(table, method, "v1"@, namespace, "pods"@);
}

pub open spec fn route_view(r: Option<Result<Operation, ApiStatus>>) -> Option<
    Result<OperationView, ApiStatusView>,
> {
    match r {
        Some(r) => Some(operation_result_view(r)),
        None => None,
    }
}

/// The resources that the server knows of, in the order they are looked up.
pub open spec fn known_resources() -> Seq<ResourceTypeView> {
    seq![namespace_type(), node_type(), pod_type()]
}

/// Turns request paths into operations on the resources it knows.
#[derive(Debug)]
pub struct Router {
    resources: Vec<ResourceType>,
}

impl View for Router {
    type V = Seq<ResourceTypeView>;

    closed spec fn view(&self) -> Seq<ResourceTypeView> {
        self.resources@.map_values(|r: ResourceType| r@)
    }
}

impl Router {
    /// A router for namespaces, nodes and pods.
    pub fn new() -> (res: Self)
        ensures
            res@ == known_resources(),
    {
        let mut resources = Vec::new();
        resources.push(namespace_resource());
        resources.push(node_resource());
        resources.push(pod_resource());
        let res = Router { resources };
        assert(res@ =~= known_resources());
        res
    }

    /// The `apiVersion` and `kind` of the known resource with that `apiVersion` and plural.
    fn lookup(&self, api_version: &str, plural: &str) -> (res: Option<TypeMeta>)
        ensures
            match res {
                Some(t) => lookup_spec(self@, api_version@, plural@) == Some(t@),
                None => lookup_spec(self@, api_version@, plural@) is None,
            },
    {
        let n: usize = self.resources.len();
        let mut i: usize = 0;
        assert(self@.skip(0) =~= self@);
        while i < n
            invariant
                n == self@.len(),
                i <= n,
                lookup_spec(self@, api_version@, plural@) == lookup_spec(
                    self@.skip(i as int),
                    api_version@,
                    plural@,
                ),
            decreases n - i,
        {
            let r = &self.resources[i];
            assert(self@.skip(i as int)[0] == r@);
            assert(self@.skip(i as int).drop_first() =~= self@.skip(i + 1));
            if str_eq(r.api_version.as_str(), api_version) && str_eq(r.plural.as_str(), plural) {
                return Some(r.type_meta());
            }
            i = i + 1;
        }
        None
    }

    /// The operation that a request with this method and path asks for; none where the
    /// path addresses no resource.
    pub fn operation(&self, method: &Method, path: &str) -> (res: Option<Result<Operation, ApiStatus>>)
        ensures
            route_view(res) == route_spec(self@, *method, path@),
    {
        let resource = match parse_path(path) {
            Ok(resource) => resource,
            Err(_) => return None,
        };
        let types = self.lookup(resource.api_version(), resource.plural());
        let item = if resource.name().is_some() {
            Item::Object
        } else {
            Item::Kind
        };
        let name = match resource.name() {
            Some(name) => Some(name.to_owned()),
            None => None,
        };
        let namespace = match resource.namespace() {
            Some(namespace) => Some(namespace.to_owned()),
            None => None,
        };
        let object = DynamicObject {
            types,
            metadata: ObjectMeta {
                name,
                generate_name: None,
                namespace,
                resource_version: None,
                uid: None,
                creation_timestamp: None,
                extra: String::from_str("{}"),
            },
            data: String::from_str("{}"),
        };
        Some(Operation::new(method, item, object))
    }
}

} // verus!
