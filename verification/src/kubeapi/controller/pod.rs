//! The pods that the server keeps.
use vstd::prelude::*;

use crate::kubeapi::controller::inventory::NamespacedInventory;
use crate::model::{ResourceType, ResourceTypeView};

verus! {

pub type Pods = NamespacedInventory;

/// `Pod` in the core group, version `v1`, with plural `pods`.
pub open spec fn pod_type() -> ResourceTypeView {
    ResourceTypeView {
        group: Seq::empty(),
        version: "v1"@,
        api_version: "v1"@,
        kind: "Pod"@,
        plural: "pods"@,
    }
}

/// Calls `kube::core::ApiResource::erase` for `corev1::Pod`. The contract states the
/// constants that k8s-openapi gives `Pod` and that `erase` copies: the core group,
/// version `v1`, kind `Pod`, plural `pods`.
#[verifier::external_body]
pub(crate) fn pod_resource() -> (res: ResourceType)
    ensures
        res@ == pod_type(),
{
    let r = kube::core::ApiResource::erase::<k8s_openapi_ext::corev1::Pod>(&());
    ResourceType {
        group: r.group,
        version: r.version,
        api_version: r.api_version,
        kind: r.kind,
        plural: r.plural,
    }
}

} // verus!
