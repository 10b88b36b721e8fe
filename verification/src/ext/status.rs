//! The `Status` objects that the API server answers failed requests with.
use vstd::prelude::*;
use vstd::string::*;

use crate::model::{ResourceType, ResourceTypeView};
use crate::text::opt_string_view;

verus! {

/// Which object a status is about.
#[derive(Debug)]
pub struct StatusDetails {
    pub group: Option<String>,
    pub kind: Option<String>,
    pub name: Option<String>,
}

pub struct StatusDetailsView {
    pub group: Option<Seq<char>>,
    pub kind: Option<Seq<char>>,
    pub name: Option<Seq<char>>,
}

impl View for StatusDetails {
    type V = StatusDetailsView;

    open spec fn view(&self) -> StatusDetailsView {
        StatusDetailsView {
            group: opt_string_view(self.group),
            kind: opt_string_view(self.kind),
            name: opt_string_view(self.name),
        }
    }
}

/// The answer to a request that failed: a `Status` object of the Kubernetes API.
#[derive(Debug)]
pub struct ApiStatus {
    pub status: Option<String>,
    pub reason: Option<String>,
    pub message: Option<String>,
    pub code: Option<i32>,
    pub details: Option<StatusDetails>,
}

pub struct ApiStatusView {
    pub status: Option<Seq<char>>,
    pub reason: Option<Seq<char>>,
    pub message: Option<Seq<char>>,
    pub code: Option<i32>,
    pub details: Option<StatusDetailsView>,
}

impl View for ApiStatus {
    type V = ApiStatusView;

    open spec fn view(&self) -> ApiStatusView {
        ApiStatusView {
            status: opt_string_view(self.status),
            reason: opt_string_view(self.reason),
            message: opt_string_view(self.message),
            code: self.code,
            details: match self.details {
                Some(d) => Some(d@),
                None => None,
            },
        }
    }
}

/// A failure for `reason`, with nothing else set.
pub open spec fn failure_spec(reason: Seq<char>) -> ApiStatusView {
    ApiStatusView {
        status: Some("Failure"@),
        reason: Some(reason),
        message: None,
        code: None,
        details: None,
    }
}

/// `plural "name" text`, with `.group` after the plural for a named group.
pub open spec fn message_spec(resource: ResourceTypeView, name: Seq<char>, text: Seq<char>) -> Seq<
    char,
> {
    if resource.group.len() == 0 {
        resource.plural + " \""@ + name + "\" "@ + text
    } else {
        resource.plural + "."@ + resource.group + " \""@ + name + "\" "@ + text
    }
}

/// The details that name object `name` of a resource.
pub open spec fn details_spec(resource: ResourceTypeView, name: Seq<char>) -> StatusDetailsView {
    StatusDetailsView {
        group: Some(resource.group),
        kind: Some(resource.plural),
        name: Some(name),
    }
}

/// The details of a 409: as `details_spec`, but without a group for the core group.
pub open spec fn conflict_details_spec(resource: ResourceTypeView, name: Seq<char>) -> StatusDetailsView {
    StatusDetailsView {
        group: if resource.group.len() == 0 {
            None
        } else {
            Some(resource.group)
        },
        kind: Some(resource.plural),
        name: Some(name),
    }
}

pub open spec fn no_details() -> StatusDetailsView {
    StatusDetailsView { group: None, kind: None, name: None }
}

/// 404: object `name` of the resource does not exist.
pub open spec fn not_found_spec(resource: ResourceTypeView, name: Seq<char>) -> ApiStatusView {
    ApiStatusView {
        code: Some(404),
        details: Some(details_spec(resource, name)),
        message: Some(message_spec(resource, name, "not found"@)),
        ..failure_spec("NotFound"@)
    }
}

/// 409: object `name` of the resource exists already.
pub open spec fn already_exists_spec(resource: ResourceTypeView, name: Seq<char>) -> ApiStatusView {
    ApiStatusView {
        code: Some(409),
        details: Some(conflict_details_spec(resource, name)),
        message: Some(message_spec(resource, name, "already exists"@)),
        ..failure_spec("AlreadyExists"@)
    }
}

/// 404: the server serves no such resource.
pub open spec fn no_such_resource_spec() -> ApiStatusView {
    ApiStatusView {
        code: Some(404),
        details: Some(no_details()),
        message: Some("the server could not find the requested resource"@),
        ..failure_spec("NotFound"@)
    }
}

/// 405: the method does not apply to what the path names.
pub open spec fn method_not_allowed_spec() -> ApiStatusView {
    ApiStatusView {
        code: Some(405),
        details: Some(no_details()),
        message: Some("the server does not allow this method on the requested resource"@),
        ..failure_spec("MethodNotAllowed"@)
    }
}

/// 400: the request could not be handled, for the reason in `message`.
pub open spec fn bad_request_spec(message: Seq<char>) -> ApiStatusView {
    ApiStatusView { code: Some(400), message: Some(message), ..failure_spec("BadRequest"@) }
}

/// Constructors of the statuses that the server answers with.
pub trait StatusExt: Sized {
    fn failure(reason: &str) -> Self;

    fn not_found(resource: &ResourceType, name: &str) -> Self;

    fn already_exists(resource: &ResourceType, name: &str) -> Self;

    fn no_such_resource() -> Self;

    fn method_not_allowed() -> Self;

    fn bad_request(message: &str) -> Self;
}

/// `plural "name" text`, with `.group` after the plural for a named group.
pub(crate) fn message(resource: &ResourceType, name: &str, text: &str) -> (res: String)
    ensures
        res@ == message_spec(resource@, name@, text@),
{
    if resource.group.as_str().is_empty() {
        resource.plural.clone().concat(" \"").concat(name).concat("\" ").concat(text)
    } else {
        resource.plural.clone().concat(".").concat(resource.group.as_str()).concat(" \"").concat(
            name,
        ).concat("\" ").concat(text)
    }
}

/// The details of a 409, which name the group only where it is not the core group.
fn conflict_details(resource: &ResourceType, name: &str) -> (res: StatusDetails)
    ensures
        res@ == conflict_details_spec(resource@, name@),
{
    let group = if resource.group.as_str().is_empty() {
        None
    } else {
        Some(resource.group.clone())
    };
    StatusDetails { group, kind: Some(resource.plural.clone()), name: Some(name.to_owned()) }
}

/// The details that name object `name` of a resource.
fn details(resource: &ResourceType, name: &str) -> (res: StatusDetails)
    ensures
        res@ == details_spec(resource@, name@),
{
    StatusDetails {
        group: Some(resource.group.clone()),
        kind: Some(resource.plural.clone()),
        name: Some(name.to_owned()),
    }
}

impl StatusExt for ApiStatus {
    fn failure(reason: &str) -> (res: Self)
        ensures
            res@ == failure_spec(reason@),
    {
        ApiStatus {
            status: Some(String::from_str("Failure")),
            reason: Some(reason.to_owned()),
            message: None,
            code: None,
            details: None,
        }
    }

    fn not_found(resource: &ResourceType, name: &str) -> (res: Self)
        ensures
            res@ == not_found_spec(resource@, name@),
    {
        let failure = Self::failure("NotFound");
        ApiStatus {
            code: Some(404),
            details: Some(details(resource, name)),
            message: Some(message(resource, name, "not found")),
            ..failure
        }
    }

    fn already_exists(resource: &ResourceType, name: &str) -> (res: Self)
        ensures
            res@ == already_exists_spec(resource@, name@),
    {
        let failure = Self::failure("AlreadyExists");
        ApiStatus {
            code: Some(409),
            details: Some(conflict_details(resource, name)),
            message: Some(message(resource, name, "already exists")),
            ..failure
        }
    }

    fn no_such_resource() -> (res: Self)
        ensures
            res@ == no_such_resource_spec(),
    {
        let failure = Self::failure("NotFound");
        ApiStatus {
            code: Some(404),
            details: Some(StatusDetails { group: None, kind: None, name: None }),
            message: Some(String::from_str("the server could not find the requested resource")),
            ..failure
        }
    }

    fn method_not_allowed() -> (res: Self)
        ensures
            res@ == method_not_allowed_spec(),
    {
        let failure = Self::failure("MethodNotAllowed");
        ApiStatus {
            code: Some(405),
            details: Some(StatusDetails { group: None, kind: None, name: None }),
            message: Some(
                String::from_str("the server does not allow this method on the requested resource"),
            ),
            ..failure
        }
    }

    fn bad_request(message: &str) -> (res: Self)
        ensures
            res@ == bad_request_spec(message@),
    {
        let failure = Self::failure("BadRequest");
        ApiStatus { code: Some(400), message: Some(message.to_owned()), ..failure }
    }
}

} // verus!
