//! The operations that a request asks for.
use vstd::prelude::*;

use crate::ext::status::{method_not_allowed_spec, ApiStatus, ApiStatusView, StatusExt};
use crate::kubeapi::resources::Item;
use crate::model::{DynamicObject, DynamicObjectView, TypeMeta};

verus! {

/// The HTTP method of a request.
#[derive(Clone, Copy, Debug, PartialEq, Eq)]
pub enum Method {
    Get,
    Post,
    Put,
    Delete,
    Patch,
    Head,
    Options,
    Connect,
    Trace,
    Other,
}

/// An operation on the objects of one kind, with the object that the path names.
#[derive(Debug)]
pub enum Operation {
    Create(DynamicObject),
    Delete(DynamicObject),
    Get(DynamicObject),
    List(DynamicObject),
}

pub enum OperationView {
    Create(DynamicObjectView),
    Delete(DynamicObjectView),
    Get(DynamicObjectView),
    List(DynamicObjectView),
}

impl View for Operation {
    type V = OperationView;

    open spec fn view(&self) -> OperationView {
        match self {
            Operation::Create(o) => OperationView::Create(o@),
            Operation::Delete(o) => OperationView::Delete(o@),
            Operation::Get(o) => OperationView::Get(o@),
            Operation::List(o) => OperationView::List(o@),
        }
    }
}

impl OperationView {
    pub open spec fn object(self) -> DynamicObjectView {
        match self {
            OperationView::Create(o) => o,
            OperationView::Delete(o) => o,
            OperationView::Get(o) => o,
            OperationView::List(o) => o,
        }
    }
}

/// `GET` reads an object or lists a kind, `POST` or `PUT` on a kind creates, `DELETE`
/// on an object deletes; any other pairing is answered with 405.
pub open spec fn operation_spec(method: Method, item: Item, object: DynamicObjectView) -> Result<
    OperationView,
    ApiStatusView,
> {
    match (method, item) {
        (Method::Get, Item::Object) => Ok(OperationView::Get(object)),
        (Method::Get, Item::Kind) => Ok(OperationView::List(object)),
        (Method::Post, Item::Kind) => Ok(OperationView::Create(object)),
        (Method::Put, Item::Kind) => Ok(OperationView::Create(object)),
        (Method::Delete, Item::Object) => Ok(OperationView::Delete(object)),
        _ => Err(method_not_allowed_spec()),
    }
}

pub open spec fn operation_result_view(r: Result<Operation, ApiStatus>) -> Result<
    OperationView,
    ApiStatusView,
> {
    match r {
        Ok(op) => Ok(op@),
        Err(status) => Err(status@),
    }
}

impl Operation {
    pub fn new(method: &Method, item: Item, object: DynamicObject) -> (res: Result<
        Self,
        ApiStatus,
    >)
        ensures
            operation_result_view(res) == operation_spec(*method, item, object@),
    {
        match *method {
            Method::Get if item.is_object() => Ok(Operation::Get(object)),
            Method::Get if item.is_kind() => Ok(Operation::List(object)),
            Method::Post if item.is_kind() => Ok(Operation::Create(object)),
            Method::Put if item.is_kind() => Ok(Operation::Create(object)),
            Method::Delete if item.is_object() => Ok(Operation::Delete(object)),
            _ => Err(ApiStatus::method_not_allowed()),
        }
    }

    /// The object that the request path names.
    pub fn dynamic_object(&self) -> (res: &DynamicObject)
        ensures
            res@ == self@.object(),
    {
        match self {
            Operation::Create(dynamic_object) => dynamic_object,
            Operation::Delete(dynamic_object) => dynamic_object,
            Operation::Get(dynamic_object) => dynamic_object,
            Operation::List(dynamic_object) => dynamic_object,
        }
    }

    /// The `apiVersion` and `kind` of that object, where the path names a known kind.
    pub fn type_meta(&self) -> (res: Option<&TypeMeta>)
        ensures
            match res {
                Some(t) => self@.object().types == Some(t@),
                None => self@.object().types is None,
            },
    {
        self.dynamic_object().types.as_ref()
    }
}

} // verus!
