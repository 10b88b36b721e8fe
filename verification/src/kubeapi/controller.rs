//! Controllers: the stores of the kinds of objects that the server serves, and
//! what they answer to each request.
use vstd::prelude::*;

use crate::ext::status::{ApiStatus, ApiStatusView};
use crate::model::{DynamicObject, DynamicObjectView, TypeMeta};

pub mod inventory;
pub mod namespace;
pub mod node;
pub mod pod;
pub mod uids;

pub use inventory::{ClusterInventory, NamespacedInventory};
pub use namespace::Namespaces;
pub use node::Nodes;
pub use pod::Pods;

verus! {

/// What came with a request: whether its body was JSON `null`, and the body read as
/// an object of the kind that the request is for, or why it could not be read so.
#[derive(Debug)]
pub struct RequestData {
    pub is_null: bool,
    pub object: Result<DynamicObject, String>,
}

pub struct RequestDataView {
    pub is_null: bool,
    pub object: Result<DynamicObjectView, Seq<char>>,
}

impl View for RequestData {
    type V = RequestDataView;

    open spec fn view(&self) -> RequestDataView {
        RequestDataView {
            is_null: self.is_null,
            object: match self.object {
                Ok(o) => Ok(o@),
                Err(e) => Err(e@),
            },
        }
    }
}

/// The answer of a controller: an object and an HTTP status code, or a failure.
pub type Outcome = Result<(DynamicObject, u16), ApiStatus>;

pub type OutcomeView = Result<(DynamicObjectView, u16), ApiStatusView>;

pub open spec fn outcome_view(res: Outcome) -> OutcomeView {
    match res {
        Ok((object, code)) => Ok((object@, code)),
        Err(status) => Err(status@),
    }
}

/// The server's side of the requests for one kind of object.
pub trait Controller {
    /// The `apiVersion` and `kind` of the objects served.
    fn type_meta(&self) -> TypeMeta;

    /// The key under which `object` is stored.
    fn key(&self, object: &DynamicObject) -> String;

    /// Stores the object in the request body under the key of `object`.
    fn create(&mut self, object: DynamicObject, data: RequestData) -> Outcome;

    /// The object stored under the key of `object`; the request has no body.
    fn get(&self, object: DynamicObject, data: RequestData) -> Outcome
        requires
            data.is_null,
    ;
}

} // verus!
