//! A mock of the Kubernetes API server: request paths are parsed into the
//! resources they address, requests are routed to in-memory inventories of
//! namespaces, nodes and pods, and every answer is a plain value that a
//! transport layer serialises.
pub mod builder;
pub mod ext;
pub mod kubeapi;
pub mod model;
pub mod store;
pub mod text;

pub use builder::KubeMockBuilder;
pub use ext::status::{ApiStatus, StatusDetails, StatusExt};
pub use ext::Optionally;
pub use kubeapi::controller::{ClusterInventory, Controller, NamespacedInventory, RequestData};
pub use kubeapi::error::{ErrorResponse, Reason, Status};
pub use kubeapi::operations::{Method, Operation};
pub use kubeapi::parser::{ParsedResource, parse_path};
pub use kubeapi::resources::{Item, Resources, Router};
pub use kubeapi::verbs::Verb;
pub use kubeapi::{KubeApi, Reply, ReplyBody};
pub use model::{DynamicObject, ObjectMeta, ResourceType, TypeMeta};
pub use store::Store;
