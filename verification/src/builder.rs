//! What a mock server starts with: its namespaces, nodes and pods.
use vstd::prelude::*;
use vstd::string::*;

use crate::kubeapi::controller::inventory::InventoryView;
use crate::kubeapi::controller::namespace::{namespace_resource, namespace_type};
use crate::kubeapi::controller::node::{node_resource, node_type};
use crate::kubeapi::controller::pod::{pod_resource, pod_type};
use crate::kubeapi::resources::known_resources;
use crate::kubeapi::KubeApiView;
use crate::model::{named_object, type_meta_of, DynamicObject, DynamicObjectView};
use crate::store::Store;

verus! {

/// The objects a server starts with, each kind keyed by name.
#[derive(Debug)]
pub struct KubeMockBuilder {
    pub namespaces: Store,
    pub nodes: Store,
    pub pods: Store,
}

pub struct KubeMockBuilderView {
    pub namespaces: Map<Seq<char>, DynamicObjectView>,
    pub nodes: Map<Seq<char>, DynamicObjectView>,
    pub pods: Map<Seq<char>, DynamicObjectView>,
}

impl View for KubeMockBuilder {
    type V = KubeMockBuilderView;

    open spec fn view(&self) -> KubeMockBuilderView {
        KubeMockBuilderView {
            namespaces: self.namespaces@,
            nodes: self.nodes@,
            pods: self.pods@,
        }
    }
}

/// The digit `d`, for `d` below ten.
pub open spec fn digit_char(d: nat) -> char {
    if d == 0 {
        '0'
    } else if d == 1 {
        '1'
    } else if d == 2 {
        '2'
    } else if d == 3 {
        '3'
    } else if d == 4 {
        '4'
    } else if d == 5 {
        '5'
    } else if d == 6 {
        '6'
    } else if d == 7 {
        '7'
    } else if d == 8 {
        '8'
    } else {
        '9'
    }
}

/// `n` written in decimal.
pub open spec fn decimal(n: nat) -> Seq<char>
    decreases n,
{
    if n < 10 {
        seq![digit_char(n)]
    } else {
        decimal(n / 10) + seq![digit_char(n % 10)]
    }
}

/// The name of the node with index `ix`: `node-0`, `node-1`, ...
pub open spec fn node_name(ix: nat) -> Seq<char> {
    "node-"@ + decimal(ix)
}

/// A namespace that holds only its name.
pub open spec fn namespace_object(name: Seq<char>) -> DynamicObjectView {
    named_object(type_meta_of(namespace_type()), name)
}

/// A node that holds only its name.
pub open spec fn node_object(name: Seq<char>) -> DynamicObjectView {
    named_object(type_meta_of(node_type()), name)
}

/// A pod that holds only its name.
pub open spec fn pod_object(name: Seq<char>) -> DynamicObjectView {
    named_object(type_meta_of(pod_type()), name)
}

/// The namespaces `kube-system`, `kube-public` and `default`.
pub open spec fn default_namespaces() -> Map<Seq<char>, DynamicObjectView> {
    Map::empty().insert("kube-system"@, namespace_object("kube-system"@)).insert(
        "kube-public"@,
        namespace_object("kube-public"@),
    ).insert("default"@, namespace_object("default"@))
}

/// The nodes `node-0` up to `node-{count - 1}`.
pub open spec fn nodes_map(count: nat) -> Map<Seq<char>, DynamicObjectView> {
    Map::new(
        |k: Seq<char>| exists|ix: nat| ix < count && #[trigger] node_name(ix) == k,
        |k: Seq<char>| node_object(k),
    )
}

/// A builder with the default namespaces and `count` nodes.
pub open spec fn default_builder_with_nodes(count: nat) -> KubeMockBuilderView {
    KubeMockBuilderView {
        namespaces: default_namespaces(),
        nodes: nodes_map(count),
        pods: Map::empty(),
    }
}

/// The server that a builder makes.
pub open spec fn api_from_builder(b: KubeMockBuilderView) -> KubeApiView {
    KubeApiView {
        router: known_resources(),
        namespaces: InventoryView { resource: namespace_type(), objects: b.namespaces },
        nodes: InventoryView { resource: node_type(), objects: b.nodes },
        pods: InventoryView { resource: pod_type(), objects: b.pods },
    }
}

/// The digit `d` as text.
fn digit_str(d: usize) -> (res: &'static str)
    requires
        d < 10,
    ensures
        res@ == seq![digit_char(d as nat)],
{
    proof {
        reveal_strlit("0");
        reveal_strlit("1");
        reveal_strlit("2");
        reveal_strlit("3");
        reveal_strlit("4");
        reveal_strlit("5");
        reveal_strlit("6");
        reveal_strlit("7");
        reveal_strlit("8");
        reveal_strlit("9");
    }
    let res = if d == 0 {
        "0"
    } else if d == 1 {
        "1"
    } else if d == 2 {
        "2"
    } else if d == 3 {
        "3"
    } else if d == 4 {
        "4"
    } else if d == 5 {
        "5"
    } else if d == 6 {
        "6"
    } else if d == 7 {
        "7"
    } else if d == 8 {
        "8"
    } else {
        "9"
    };
    assert(res@ =~= seq![digit_char(d as nat)]);
    res
}

/// `n` written in decimal.
pub fn to_decimal(n: usize) -> (res: String)
    ensures
        res@ == decimal(n as nat),
    decreases n,
{
    if n < 10 {
        String::from_str(digit_str(n))
    } else {
        to_decimal(n / 10).concat(digit_str(n % 10))
    }
}

impl Default for KubeMockBuilder {
    fn default() -> (res: Self)
        ensures
            res@ == (KubeMockBuilderView {
                namespaces: Map::empty(),
                nodes: Map::empty(),
                pods: Map::empty(),
            }),
    {
        KubeMockBuilder { namespaces: Store::new(), nodes: Store::new(), pods: Store::new() }
    }
}

impl KubeMockBuilder {
    /// A builder with the namespaces `kube-system`, `kube-public` and `default`, and
    /// no nodes or pods.
    pub fn new() -> (res: Self)
        ensures
            res@ == (KubeMockBuilderView {
                namespaces: default_namespaces(),
                nodes: Map::empty(),
                pods: Map::empty(),
            }),
    {
        let mut namespaces = Store::new();
        namespaces.insert(
            String::from_str("kube-system"),
            DynamicObject::named(namespace_resource().type_meta(), "kube-system"),
        );
        namespaces.insert(
            String::from_str("kube-public"),
            DynamicObject::named(namespace_resource().type_meta(), "kube-public"),
        );
        namespaces.insert(
            String::from_str("default"),
            DynamicObject::named(namespace_resource().type_meta(), "default"),
        );
        let default = Self::default();
        KubeMockBuilder { namespaces, ..default }
    }

    /// The same builder with the nodes `node-0` up to `node-{count - 1}` in place of
    /// its nodes.
    pub fn nodes(self, count: usize) -> (res: Self)
        ensures
            res@ == (KubeMockBuilderView { nodes: nodes_map(count as nat), ..self@ }),
    {
        let mut nodes = Store::new();
        let mut ix: usize = 0;
        assert(nodes@ =~= nodes_map(0));
        while ix < count
            invariant
                ix <= count,
                nodes@ == nodes_map(ix as nat),
            decreases count - ix,
        {
            let name = String::from_str("node-").concat(to_decimal(ix).as_str());
            let node = DynamicObject::named(node_resource().type_meta(), name.as_str());
            let ghost before = nodes@;
            nodes.insert(name, node);
            proof {
                let next = nodes_map((ix + 1) as nat);
                assert forall|k: Seq<char>| #[trigger] next.contains_key(k) <==> nodes@.contains_key(k) by {
                    if next.contains_key(k) {
                        let j: nat = choose|j: nat| j < ix + 1 && #[trigger] node_name(j) == k;
                        if j < ix {
                            assert(before.contains_key(k));
                        }
                    }
                    if before.contains_key(k) {
                        let j: nat = choose|j: nat| j < ix && #[trigger] node_name(j) == k;
                        assert(node_name(j) == k && j < ix + 1);
                    }
                    assert(node_name(ix as nat) == name@ && (ix as nat) < ix + 1);
                }
                assert(nodes@ =~= next);
            }
            ix = ix + 1;
        }
        KubeMockBuilder { nodes, ..self }
    }

    /// The same builder with a pod named `name`, in place of one of that name.
    pub fn pod(self, name: &str) -> (res: Self)
        ensures
            res@ == (KubeMockBuilderView {
                pods: self@.pods.insert(name@, pod_object(name@)),
                ..self@
            }),
    {
        let mut builder = self;
        let pod = DynamicObject::named(pod_resource().type_meta(), name);
        let key = pod.name_any();
        builder.pods.insert(key, pod);
        builder
    }
}

} // verus!
