//! The nodes that the server keeps.
use vstd::prelude::*;

use crate::kubeapi::controller::inventory::ClusterInventory;
use crate::model::{ResourceType, ResourceTypeView};

verus! {

pub type Nodes = ClusterInventory;

/// `Node` in the core group, version `v1`, with plural `nodes`.
pub open spec fn node_type() -> ResourceTypeView {
    ResourceTypeView {
        group: Seq::empty(),
        version: "v1"@,
        api_version: "v1"@,
        kind: "Node"@,
        plural: "nodes"@,
    }
}

/// Calls `kube::core::ApiResource::erase` for `corev1::Node`. The contract states the
/// constants that k8s-openapi gives `Node` and that `erase` copies: the core group,
/// version `v1`, kind `Node`, plural `nodes`.
#[verifier::external_body]
pub(crate) fn node_resource() -> (res: ResourceType)
    ensures
        res@ == node_type(),
{
    let r = kube::core::ApiResource::erase::<k8s_openapi_ext::corev1::Node>(&());
    ResourceType {
        group: r.group,
        version: r.version,
        api_version: r.api_version,
        kind: r.kind,
        plural: r.plural,
    }
}

} // verus!
