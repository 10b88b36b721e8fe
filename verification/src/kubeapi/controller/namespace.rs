//! The namespaces that the server keeps.
use vstd::prelude::*;

use crate::kubeapi::controller::inventory::ClusterInventory;
use crate::model::{ResourceType, ResourceTypeView};

verus! {

pub type Namespaces = ClusterInventory;

/// `Namespace` in the core group, version `v1`, with plural `namespaces`.
pub open spec fn namespace_type() -> ResourceTypeView {
    ResourceTypeView {
        group: Seq::empty(),
        version: "v1"@,
        api_version: "v1"@,
        kind: "Namespace"@,
        plural: "namespaces"@,
    }
}

/// Calls `kube::core::ApiResource::erase` for `corev1::Namespace`. The contract states the
/// constants that k8s-openapi gives `Namespace` and that `erase` copies: the core group,
/// version `v1`, kind `Namespace`, plural `namespaces`.
#[verifier::external_body]
pub(crate) fn namespace_resource() -> (res: ResourceType)
    ensures
        res@ == namespace_type(),
{
    let r = kube::core::ApiResource::erase::<k8s_openapi_ext::corev1::Namespace>(&());
    ResourceType {
        group: r.group,
        version: r.version,
        api_version: r.api_version,
        kind: r.kind,
        plural: r.plural,
    }
}

} // verus!
