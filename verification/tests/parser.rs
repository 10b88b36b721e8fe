use kube_mock::kubeapi::parser::{parse_path, parse_version, Error, ParsedResource};

#[test]
fn no_leading_slash() {
    assert_eq!(parse_path("something").unwrap_err(), Error::WrongPrefix);
}

#[test]
fn core_object_path() {
    let r = parse_path("/api/v1/nodes/node-1").unwrap();
    assert_eq!(r.api_version(), "v1");
    assert_eq!(r.plural(), "nodes");
    assert_eq!(r.namespace(), None);
    assert_eq!(r.name(), Some("node-1"));
}

#[test]
fn core_kind_path() {
    let r = parse_path("/api/v1/namespaces").unwrap();
    assert_eq!(r.api_version(), "v1");
    assert_eq!(r.plural(), "namespaces");
    assert_eq!(r.namespace(), None);
    assert_eq!(r.name(), None);
}

#[test]
fn core_namespaced_object_path() {
    let r = parse_path("/api/v1/namespaces/default/pods/web").unwrap();
    assert_eq!(r.api_version(), "v1");
    assert_eq!(r.plural(), "pods");
    assert_eq!(r.namespace(), Some("default"));
    assert_eq!(r.name(), Some("web"));
}

#[test]
fn namespaced_kind_path() {
    let r = parse_path("/api/v1/namespaces/default/pods").unwrap();
    assert_eq!(r.plural(), "pods");
    assert_eq!(r.namespace(), Some("default"));
    assert_eq!(r.name(), None);
}

#[test]
fn named_group_path() {
    let r = parse_path("/apis/apps/v1/namespaces/bravo/deployments/engine").unwrap();
    assert_eq!(r.api_version(), "apps/v1");
    assert_eq!(r.plural(), "deployments");
    assert_eq!(r.namespace(), Some("bravo"));
    assert_eq!(r.name(), Some("engine"));
}

#[test]
fn segments_after_the_name_are_ignored() {
    let r = parse_path("/api/v1/namespaces/default/pods/web/status").unwrap();
    assert_eq!(r.plural(), "pods");
    assert_eq!(r.name(), Some("web"));
}

#[test]
fn prefix_may_follow_other_text() {
    let r = parse_path("https://host/api/v1/nodes").unwrap();
    assert_eq!(r.plural(), "nodes");
}

#[test]
fn version_alone_is_wrong_path() {
    assert_eq!(parse_path("/api/v1").unwrap_err(), Error::WrongPath);
}

#[test]
fn four_segments_without_namespaces_is_wrong_path() {
    assert_eq!(parse_path("/api/v1/pods/a/b").unwrap_err(), Error::WrongPath);
}

#[test]
fn group_without_version_is_wrong_path() {
    assert_eq!(parse_path("/apis/apps").unwrap_err(), Error::WrongPath);
}

#[test]
fn trailing_slash_names_the_empty_object() {
    let r = parse_path("/api/v1/namespaces/").unwrap();
    assert_eq!(r.plural(), "namespaces");
    assert_eq!(r.name(), Some(""));
}

#[test]
fn parse_version_with_group() {
    let r = parse_version("batch", "v1/jobs/nightly").unwrap();
    assert_eq!(r.api_version(), "batch/v1");
    assert_eq!(r.plural(), "jobs");
    assert_eq!(r.name(), Some("nightly"));
}

#[test]
fn new_joins_group_and_version() {
    let r = ParsedResource::new("apps", "v1", "deployments", Some("ns"), None);
    assert_eq!(r.api_version(), "apps/v1");
    let r = ParsedResource::new("", "v1", "pods", None, Some("p"));
    assert_eq!(r.api_version(), "v1");
    assert_eq!(r.name(), Some("p"));
}

#[test]
fn error_texts() {
    assert_eq!(Error::WrongPrefix.to_string(), "Wrong Prefix");
    assert_eq!(Error::WrongVersion.to_string(), "Wrong Version");
    assert_eq!(Error::WrongPath.to_string(), "Wrong Path");
}

#[test]
fn from_str_parses_and_reports_kube_error() {
    let r: ParsedResource = "/api/v1/pods".parse().unwrap();
    assert_eq!(r.plural(), "pods");
    let err = "nowhere".parse::<ParsedResource>().unwrap_err();
    assert!(matches!(err, kube::Error::LinesCodecMaxLineLengthExceeded));
}

#[test]
fn wrong_prefix_law_on_values() {
    assert_eq!(parse_path("/ap/v1/pods").unwrap_err(), Error::WrongPrefix);
    assert!(parse_path("/apis/v1/pods").is_err());
    assert_ne!(parse_path("/apis/v1/pods").unwrap_err(), Error::WrongPrefix);
}
