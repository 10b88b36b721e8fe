use kube_mock::kubeapi::error::{ErrorResponse, Reason, Status};
use kube_mock::{ApiStatus, ResourceType, StatusExt};

fn resource(group: &str, plural: &str) -> ResourceType {
    ResourceType {
        group: group.to_string(),
        version: "v1".to_string(),
        api_version: if group.is_empty() { "v1".to_string() } else { format!("{group}/v1") },
        kind: "Kind".to_string(),
        plural: plural.to_string(),
    }
}

#[test]
fn failure_sets_status_and_reason() {
    let s = ApiStatus::failure("conflict");
    assert_eq!(s.status.as_deref(), Some("Failure"));
    assert_eq!(s.reason.as_deref(), Some("conflict"));
    assert_eq!(s.code, None);
    assert!(s.message.is_none());
    assert!(s.details.is_none());
}

#[test]
fn already_exists_matches_the_api_server() {
    let s = ApiStatus::already_exists(&resource("", "configmaps"), "mockcm");
    assert_eq!(s.code, Some(409));
    assert_eq!(s.status.as_deref(), Some("Failure"));
    assert_eq!(s.reason.as_deref(), Some("AlreadyExists"));
    assert_eq!(s.message.as_deref(), Some("configmaps \"mockcm\" already exists"));
    let d = s.details.unwrap();
    assert_eq!(d.kind.as_deref(), Some("configmaps"));
    assert_eq!(d.name.as_deref(), Some("mockcm"));
    assert_eq!(d.group, None);
}

#[test]
fn already_exists_names_a_named_group() {
    let s = ApiStatus::already_exists(&resource("apps", "deployments"), "engine");
    assert_eq!(s.message.as_deref(), Some("deployments.apps \"engine\" already exists"));
    assert_eq!(s.details.unwrap().group.as_deref(), Some("apps"));
}

#[test]
fn not_found_names_group_when_there_is_one() {
    let s = ApiStatus::not_found(&resource("apps", "deployments"), "engine1");
    assert_eq!(s.code, Some(404));
    assert_eq!(s.reason.as_deref(), Some("NotFound"));
    assert_eq!(s.message.as_deref(), Some("deployments.apps \"engine1\" not found"));
    let s = ApiStatus::not_found(&resource("", "nodes"), "node-9");
    assert_eq!(s.message.as_deref(), Some("nodes \"node-9\" not found"));
}

#[test]
fn no_such_resource_matches_the_api_server() {
    let s = ApiStatus::no_such_resource();
    assert_eq!(s.code, Some(404));
    assert_eq!(s.reason.as_deref(), Some("NotFound"));
    assert_eq!(s.message.as_deref(), Some("the server could not find the requested resource"));
    let d = s.details.unwrap();
    assert!(d.group.is_none() && d.kind.is_none() && d.name.is_none());
}

#[test]
fn method_not_allowed_matches_the_api_server() {
    let s = ApiStatus::method_not_allowed();
    assert_eq!(s.code, Some(405));
    assert_eq!(s.reason.as_deref(), Some("MethodNotAllowed"));
    assert_eq!(
        s.message.as_deref(),
        Some("the server does not allow this method on the requested resource")
    );
}

#[test]
fn bad_request_carries_message() {
    let s = ApiStatus::bad_request("cannot unmarshal");
    assert_eq!(s.code, Some(400));
    assert_eq!(s.reason.as_deref(), Some("BadRequest"));
    assert_eq!(s.message.as_deref(), Some("cannot unmarshal"));
    assert!(s.details.is_none());
}

#[test]
fn error_response_not_found() {
    let e = ErrorResponse::not_found(&resource("apps", "deployments"), "engine1");
    assert_eq!(e.status(), Status::Failure);
    assert_eq!(e.reason(), Reason::NotFound);
    assert_eq!(e.message(), "deployments.apps \"engine1\" not found");
    assert_eq!(e.code(), 404);
}
