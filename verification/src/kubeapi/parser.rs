//! Request paths of the Kubernetes REST API, such as
//! `/api/v1/namespaces/default/pods/web` or `/apis/apps/v1/deployments`,
//! parsed into the resource they address.
use vstd::pervasive::unreached;
use vstd::prelude::*;
use vstd::string::*;

use crate::text::{
    find, lemma_find_from, lemma_find_from_first, lemma_first_slash, lemma_no_api_after_apis,
    lemma_no_api_cons, lemma_segments_cons, lemma_segments_single, next_segment, no_slash,
    opt_str_view, opt_string_view,
    remaining_segments, segments, split_once, split_once_str, str_eq,
};

verus! {

/// Why a path does not address a resource.
#[derive(Clone, Copy, Debug, PartialEq, Eq)]
pub enum Error {
    WrongPrefix,
    WrongVersion,
    WrongPath,
}

impl Error {
    /// The text that describes the error.
    pub fn to_string(&self) -> (res: String)
        ensures
            res@ == match self {
                Error::WrongPrefix => "Wrong Prefix"@,
                Error::WrongVersion => "Wrong Version"@,
                Error::WrongPath => "Wrong Path"@,
            },
    {
        match self {
            Error::WrongPrefix => String::from_str("Wrong Prefix"),
            Error::WrongVersion => String::from_str("Wrong Version"),
            Error::WrongPath => String::from_str("Wrong Path"),
        }
    }
}

/// The resource that a path addresses, as plain sequences.
pub struct ResourcePath {
    pub api_version: Seq<char>,
    pub plural: Seq<char>,
    pub namespace: Option<Seq<char>>,
    pub name: Option<Seq<char>>,
}

/// `version` alone for the core group, `group/version` otherwise.
pub open spec fn api_version_of(group: Seq<char>, version: Seq<char>) -> Seq<char> {
    if group.len() == 0 {
        version
    } else {
        group + "/"@ + version
    }
}

pub open spec fn resource_path(
    group: Seq<char>,
    version: Seq<char>,
    plural: Seq<char>,
    namespace: Option<Seq<char>>,
    name: Option<Seq<char>>,
) -> ResourcePath {
    ResourcePath { api_version: api_version_of(group, version), plural, namespace, name }
}

/// What the part of a path after the group names: `version/plural[/name]` or
/// `version/namespaces/namespace/plural[/name]`; anything after the name is ignored.
pub open spec fn parse_version_spec(group: Seq<char>, path: Seq<char>) -> Result<
    ResourcePath,
    Error,
> {
    let segs = segments(path);
    if segs.len() == 0 {
        Err(Error::WrongVersion)
    } else if segs.len() == 1 {
        Err(Error::WrongPath)
    } else if segs.len() == 2 {
        Ok(resource_path(group, segs[0], segs[1], None, None))
    } else if segs.len() == 3 {
        Ok(resource_path(group, segs[0], segs[1], None, Some(segs[2])))
    } else if segs[1] == "namespaces"@ {
        Ok(
            resource_path(
                group,
                segs[0],
                segs[3],
                Some(segs[2]),
                if segs.len() >= 5 {
                    Some(segs[4])
                } else {
                    None
                },
            ),
        )
    } else {
        Err(Error::WrongPath)
    }
}

/// What a whole path names: the core group follows the first `/api/`, a named group
/// the first `/apis/`.
pub open spec fn parse_path_spec(path: Seq<char>) -> Result<ResourcePath, Error> {
    match split_once(path, "/api/"@) {
        Some((_, rest)) => parse_version_spec(Seq::empty(), rest),
        None => match split_once(path, "/apis/"@) {
            Some((_, rest)) => match split_once(rest, "/"@) {
                Some((group, rest)) => parse_version_spec(group, rest),
                None => Err(Error::WrongPath),
            },
            None => Err(Error::WrongPrefix),
        },
    }
}

/// A path fails with `WrongPrefix` exactly when it holds neither `/api/` nor `/apis/`.
pub proof fn law_wrong_prefix(path: Seq<char>)
    ensures
        parse_path_spec(path) == Err::<ResourcePath, Error>(Error::WrongPrefix) <==> (find(
            path,
            "/api/"@,
        ) is None && find(path, "/apis/"@) is None),
{
}

/// A path that starts with `/api/` is parsed from what follows that prefix.
proof fn lemma_core_prefix(rest: Seq<char>)
    ensures
        parse_path_spec("/api/"@ + rest) == parse_version_spec(Seq::empty(), rest),
{
    reveal_strlit("/api/");
    let path = "/api/"@ + rest;
    assert(path.subrange(0, 5) =~= "/api/"@);
    lemma_find_from_first(path, "/api/"@, 0, 0);
    assert(path.skip(5) =~= rest);
}

/// The core API path of a kind, `/api/{version}/{plural}`, names that kind.
pub proof fn law_core_kind_path(version: Seq<char>, plural: Seq<char>)
    requires
        no_slash(version),
        no_slash(plural),
    ensures
        parse_path_spec("/api/"@ + version + "/"@ + plural) == Ok::<ResourcePath, Error>(
            resource_path(Seq::empty(), version, plural, None, None),
        ),
{
    reveal_strlit("/");
    assert("/"@ =~= seq!['/']);
    let rest = version + "/"@ + plural;
    lemma_core_prefix(rest);
    assert("/api/"@ + version + "/"@ + plural =~= "/api/"@ + rest);
    lemma_segments_single(plural);
    lemma_segments_cons(version, plural);
    assert(segments(rest) =~= seq![version, plural]);
}

/// The core API path of an object, `/api/{version}/{plural}/{name}`, names that object.
pub proof fn law_core_object_path(version: Seq<char>, plural: Seq<char>, name: Seq<char>)
    requires
        no_slash(version),
        no_slash(plural),
        no_slash(name),
    ensures
        parse_path_spec("/api/"@ + version + "/"@ + plural + "/"@ + name) == Ok::<
            ResourcePath,
            Error,
        >(resource_path(Seq::empty(), version, plural, None, Some(name))),
{
    reveal_strlit("/");
    assert("/"@ =~= seq!['/']);
    let rest = version + "/"@ + (plural + "/"@ + name);
    lemma_core_prefix(rest);
    assert("/api/"@ + version + "/"@ + plural + "/"@ + name =~= "/api/"@ + rest);
    lemma_segments_single(name);
    lemma_segments_cons(plural, name);
    lemma_segments_cons(version, plural + "/"@ + name);
    assert(segments(rest) =~= seq![version, plural, name]);
}

/// The core API path of a namespaced object,
/// `/api/{version}/namespaces/{namespace}/{plural}/{name}`, names that object in that
/// namespace.
pub proof fn law_core_namespaced_object_path(
    version: Seq<char>,
    namespace: Seq<char>,
    plural: Seq<char>,
    name: Seq<char>,
)
    requires
        no_slash(version),
        no_slash(namespace),
        no_slash(plural),
        no_slash(name),
    ensures
        parse_path_spec(
            "/api/"@ + version + "/"@ + "namespaces"@ + "/"@ + namespace + "/"@ + plural + "/"@
                + name,
        ) == Ok::<ResourcePath, Error>(
            resource_path(Seq::empty(), version, plural, Some(namespace), Some(name)),
        ),
{
    reveal_strlit("/");
    assert("/"@ =~= seq!['/']);
    reveal_strlit("namespaces");
    let namespaces = "namespaces"@;
    let tail = plural + "/"@ + name;
    let tail2 = namespace + "/"@ + tail;
    let tail3 = namespaces + "/"@ + tail2;
    let rest = version + "/"@ + tail3;
    lemma_core_prefix(rest);
    assert("/api/"@ + version + "/"@ + "namespaces"@ + "/"@ + namespace + "/"@ + plural + "/"@
        + name =~= "/api/"@ + rest);
    assert(no_slash(namespaces));
    lemma_segments_single(name);
    lemma_segments_cons(plural, name);
    lemma_segments_cons(namespace, tail);
    lemma_segments_cons(namespaces, tail2);
    lemma_segments_cons(version, tail3);
    assert(segments(rest) =~= seq![version, namespaces, namespace, plural, name]);
}

/// A path that starts with `/apis/{group}/` and holds no `/api/` is parsed, in that
/// group, from what follows the group.
proof fn lemma_group_prefix(group: Seq<char>, rest: Seq<char>)
    requires
        no_slash(group),
        find("/apis/"@ + group + "/"@ + rest, "/api/"@) is None,
    ensures
        parse_path_spec("/apis/"@ + group + "/"@ + rest) == parse_version_spec(group, rest),
{
    reveal_strlit("/apis/");
    reveal_strlit("/");
    assert("/"@ =~= seq!['/']);
    let path = "/apis/"@ + group + "/"@ + rest;
    assert(path.subrange(0, 6) =~= "/apis/"@);
    lemma_find_from_first(path, "/apis/"@, 0, 0);
    let after = path.skip(6);
    assert(after =~= group + seq!['/'] + rest);
    lemma_first_slash(group, rest);
    assert(after.take(group.len() as int) =~= group);
    assert(after.skip(group.len() + 1int) =~= rest);
}

/// `/api/` occurs nowhere in `/apis/{group}/{version}` followed by `tail`, where the
/// group and the version are pieces other than `api`, and `/api/` occurs nowhere in
/// `tail`, which starts with `/` or is empty.
proof fn lemma_group_path_has_no_core_prefix(group: Seq<char>, version: Seq<char>, tail: Seq<char>)
    requires
        no_slash(group),
        no_slash(version),
        group != "api"@,
        version != "api"@,
        tail.len() == 0 || tail[0] == '/',
        find(tail, "/api/"@) is None,
    ensures
        find("/apis/"@ + group + "/"@ + version + tail, "/api/"@) is None,
{
    reveal_strlit("/apis/");
    reveal_strlit("/apis");
    reveal_strlit("/");
    let y4 = seq!['/'] + version + tail;
    lemma_no_api_cons(version, tail);
    let y5 = seq!['/'] + group + y4;
    lemma_no_api_cons(group, y4);
    lemma_no_api_after_apis(y5);
    assert("/apis/"@ + group + "/"@ + version + tail =~= "/apis"@ + y5);
}

/// `/api/` occurs nowhere in the empty sequence.
proof fn lemma_no_api_in_empty()
    ensures
        find(Seq::<char>::empty(), "/api/"@) is None,
{
    reveal_strlit("/api/");
    lemma_find_from(Seq::<char>::empty(), "/api/"@, 0);
}

/// The path of a kind in a named group, `/apis/{group}/{version}/{plural}`, names that
/// kind in that group.
pub proof fn law_group_kind_path(group: Seq<char>, version: Seq<char>, plural: Seq<char>)
    requires
        no_slash(group),
        no_slash(version),
        no_slash(plural),
        group != "api"@,
        version != "api"@,
    ensures
        parse_path_spec("/apis/"@ + group + "/"@ + version + "/"@ + plural) == Ok::<
            ResourcePath,
            Error,
        >(resource_path(group, version, plural, None, None)),
{
    reveal_strlit("/");
    assert("/"@ =~= seq!['/']);
    lemma_no_api_in_empty();
    let t1 = seq!['/'] + plural;
    lemma_no_api_cons(plural, Seq::empty());
    assert(t1 =~= seq!['/'] + plural + Seq::<char>::empty());
    lemma_group_path_has_no_core_prefix(group, version, t1);
    let rest = version + "/"@ + plural;
    assert("/apis/"@ + group + "/"@ + version + "/"@ + plural =~= "/apis/"@ + group + "/"@
        + rest);
    assert("/apis/"@ + group + "/"@ + version + t1 =~= "/apis/"@ + group + "/"@ + rest);
    lemma_group_prefix(group, rest);
    lemma_segments_single(plural);
    lemma_segments_cons(version, plural);
    assert(segments(rest) =~= seq![version, plural]);
}

/// The path of an object in a named group, `/apis/{group}/{version}/{plural}/{name}`,
/// names that object in that group.
pub proof fn law_group_object_path(
    group: Seq<char>,
    version: Seq<char>,
    plural: Seq<char>,
    name: Seq<char>,
)
    requires
        no_slash(group),
        no_slash(version),
        no_slash(plural),
        no_slash(name),
        group != "api"@,
        version != "api"@,
        plural != "api"@,
    ensures
        parse_path_spec("/apis/"@ + group + "/"@ + version + "/"@ + plural + "/"@ + name)
            == Ok::<ResourcePath, Error>(resource_path(group, version, plural, None, Some(name))),
{
    reveal_strlit("/");
    assert("/"@ =~= seq!['/']);
    lemma_no_api_in_empty();
    let t1 = seq!['/'] + name;
    lemma_no_api_cons(name, Seq::empty());
    assert(t1 =~= seq!['/'] + name + Seq::<char>::empty());
    let t2 = seq!['/'] + plural + t1;
    lemma_no_api_cons(plural, t1);
    lemma_group_path_has_no_core_prefix(group, version, t2);
    let rest = version + "/"@ + (plural + "/"@ + name);
    assert("/apis/"@ + group + "/"@ + version + "/"@ + plural + "/"@ + name =~= "/apis/"@
        + group + "/"@ + rest);
    assert("/apis/"@ + group + "/"@ + version + t2 =~= "/apis/"@ + group + "/"@ + rest);
    lemma_group_prefix(group, rest);
    lemma_segments_single(name);
    lemma_segments_cons(plural, name);
    lemma_segments_cons(version, plural + "/"@ + name);
    assert(segments(rest) =~= seq![version, plural, name]);
}

/// The path of a kind within a namespace in a named group,
/// `/apis/{group}/{version}/namespaces/{namespace}/{plural}`, names that kind in that
/// group and that namespace: the group is kept.
pub proof fn law_group_namespaced_kind_path(
    group: Seq<char>,
    version: Seq<char>,
    namespace: Seq<char>,
    plural: Seq<char>,
)
    requires
        no_slash(group),
        no_slash(version),
        no_slash(namespace),
        no_slash(plural),
        group != "api"@,
        version != "api"@,
        namespace != "api"@,
    ensures
        parse_path_spec(
            "/apis/"@ + group + "/"@ + version + "/"@ + "namespaces"@ + "/"@ + namespace + "/"@
                + plural,
        ) == Ok::<ResourcePath, Error>(
            resource_path(group, version, plural, Some(namespace), None),
        ),
{
    reveal_strlit("/");
    assert("/"@ =~= seq!['/']);
    reveal_strlit("namespaces");
    reveal_strlit("api");
    let namespaces = "namespaces"@;
    assert(no_slash(namespaces));
    assert(namespaces != "api"@) by {
        assert(namespaces.len() != "api"@.len());
    }
    lemma_no_api_in_empty();
    let t1 = seq!['/'] + plural;
    lemma_no_api_cons(plural, Seq::empty());
    assert(t1 =~= seq!['/'] + plural + Seq::<char>::empty());
    let t2 = seq!['/'] + namespace + t1;
    lemma_no_api_cons(namespace, t1);
    let t3 = seq!['/'] + namespaces + t2;
    lemma_no_api_cons(namespaces, t2);
    lemma_group_path_has_no_core_prefix(group, version, t3);
    let tail2 = namespace + "/"@ + plural;
    let tail3 = namespaces + "/"@ + tail2;
    let rest = version + "/"@ + tail3;
    assert("/apis/"@ + group + "/"@ + version + "/"@ + "namespaces"@ + "/"@ + namespace + "/"@
        + plural =~= "/apis/"@ + group + "/"@ + rest);
    assert("/apis/"@ + group + "/"@ + version + t3 =~= "/apis/"@ + group + "/"@ + rest);
    lemma_group_prefix(group, rest);
    lemma_segments_single(plural);
    lemma_segments_cons(namespace, plural);
    lemma_segments_cons(namespaces, tail2);
    lemma_segments_cons(version, tail3);
    assert(segments(rest) =~= seq![version, namespaces, namespace, plural]);
}

/// The path of an object within a namespace in a named group,
/// `/apis/{group}/{version}/namespaces/{namespace}/{plural}/{name}`, names that object
/// in that group and that namespace.
pub proof fn law_group_namespaced_object_path(
    group: Seq<char>,
    version: Seq<char>,
    namespace: Seq<char>,
    plural: Seq<char>,
    name: Seq<char>,
)
    requires
        no_slash(group),
        no_slash(version),
        no_slash(namespace),
        no_slash(plural),
        no_slash(name),
        group != "api"@,
        version != "api"@,
        namespace != "api"@,
        plural != "api"@,
    ensures
        parse_path_spec(
            "/apis/"@ + group + "/"@ + version + "/"@ + "namespaces"@ + "/"@ + namespace + "/"@
                + plural + "/"@ + name,
        ) == Ok::<ResourcePath, Error>(
            resource_path(group, version, plural, Some(namespace), Some(name)),
        ),
{
    reveal_strlit("/");
    assert("/"@ =~= seq!['/']);
    reveal_strlit("namespaces");
    reveal_strlit("api");
    let namespaces = "namespaces"@;
    assert(no_slash(namespaces));
    assert(namespaces != "api"@) by {
        assert(namespaces.len() != "api"@.len());
    }
    lemma_no_api_in_empty();
    let t0 = seq!['/'] + name;
    lemma_no_api_cons(name, Seq::empty());
    assert(t0 =~= seq!['/'] + name + Seq::<char>::empty());
    let t1 = seq!['/'] + plural + t0;
    lemma_no_api_cons(plural, t0);
    let t2 = seq!['/'] + namespace + t1;
    lemma_no_api_cons(namespace, t1);
    let t3 = seq!['/'] + namespaces + t2;
    lemma_no_api_cons(namespaces, t2);
    lemma_group_path_has_no_core_prefix(group, version, t3);
    let tail = plural + "/"@ + name;
    let tail2 = namespace + "/"@ + tail;
    let tail3 = namespaces + "/"@ + tail2;
    let rest = version + "/"@ + tail3;
    assert("/apis/"@ + group + "/"@ + version + "/"@ + "namespaces"@ + "/"@ + namespace + "/"@
        + plural + "/"@ + name =~= "/apis/"@ + group + "/"@ + rest);
    assert("/apis/"@ + group + "/"@ + version + t3 =~= "/apis/"@ + group + "/"@ + rest);
    lemma_group_prefix(group, rest);
    lemma_segments_single(name);
    lemma_segments_cons(plural, name);
    lemma_segments_cons(namespace, tail);
    lemma_segments_cons(namespaces, tail2);
    lemma_segments_cons(version, tail3);
    assert(segments(rest) =~= seq![version, namespaces, namespace, plural, name]);
}

/// The core API path of a kind within a namespace,
/// `/api/{version}/namespaces/{namespace}/{plural}`, names that kind in that namespace.
pub proof fn law_core_namespaced_kind_path(
    version: Seq<char>,
    namespace: Seq<char>,
    plural: Seq<char>,
)
    requires
        no_slash(version),
        no_slash(namespace),
        no_slash(plural),
    ensures
        parse_path_spec("/api/"@ + version + "/"@ + "namespaces"@ + "/"@ + namespace + "/"@ + plural)
            == Ok::<ResourcePath, Error>(
            resource_path(Seq::empty(), version, plural, Some(namespace), None),
        ),
{
    reveal_strlit("/");
    assert("/"@ =~= seq!['/']);
    reveal_strlit("namespaces");
    let namespaces = "namespaces"@;
    let tail2 = namespace + "/"@ + plural;
    let tail3 = namespaces + "/"@ + tail2;
    let rest = version + "/"@ + tail3;
    lemma_core_prefix(rest);
    assert("/api/"@ + version + "/"@ + "namespaces"@ + "/"@ + namespace + "/"@ + plural
        =~= "/api/"@ + rest);
    assert(no_slash(namespaces));
    lemma_segments_single(plural);
    lemma_segments_cons(namespace, plural);
    lemma_segments_cons(namespaces, tail2);
    lemma_segments_cons(version, tail3);
    assert(segments(rest) =~= seq![version, namespaces, namespace, plural]);
}

/// Whatever the number of pieces after the group, a parsed resource carries the group
/// with the version, and a namespace exactly when the path names one.
pub proof fn law_parsed_version_keeps_group(group: Seq<char>, path: Seq<char>)
    ensures
        parse_version_spec(group, path) matches Ok(r) ==> {
            &&& r.api_version == api_version_of(group, segments(path)[0])
            &&& (r.namespace is Some <==> segments(path).len() >= 4)
            &&& (r.namespace matches Some(ns) ==> ns == segments(path)[2])
        },
{
}

/// A resource addressed by a request path.
#[derive(Debug)]
pub struct ParsedResource {
    api_version: String,
    plural: String,
    namespace: Option<String>,
    name: Option<String>,
}

impl View for ParsedResource {
    type V = ResourcePath;

    closed spec fn view(&self) -> ResourcePath {
        ResourcePath {
            api_version: self.api_version@,
            plural: self.plural@,
            namespace: opt_string_view(self.namespace),
            name: opt_string_view(self.name),
        }
    }
}

pub open spec fn parse_result_view(r: Result<ParsedResource, Error>) -> Result<ResourcePath, Error> {
    match r {
        Ok(p) => Ok(p@),
        Err(e) => Err(e),
    }
}

fn opt_to_owned(o: Option<&str>) -> (res: Option<String>)
    ensures
        opt_string_view(res) == opt_str_view(o),
{
    match o {
        Some(s) => Some(s.to_owned()),
        None => None,
    }
}

impl ParsedResource {
    pub fn new(
        group: &str,
        version: &str,
        plural: &str,
        namespace: Option<&str>,
        name: Option<&str>,
    ) -> (res: Self)
        ensures
            res@ == resource_path(
                group@,
                version@,
                plural@,
                opt_str_view(namespace),
                opt_str_view(name),
            ),
    {
        let api_version = if group.is_empty() {
            version.to_owned()
        } else {
            String::from_str(group).concat("/").concat(version)
        };
        ParsedResource {
            api_version,
            plural: plural.to_owned(),
            namespace: opt_to_owned(namespace),
            name: opt_to_owned(name),
        }
    }

    pub fn name(&self) -> (res: Option<&str>)
        ensures
            opt_str_view(res) == self@.name,
    {
        match &self.name {
            Some(name) => Some(name.as_str()),
            None => None,
        }
    }

    pub fn plural(&self) -> (res: &str)
        ensures
            res@ == self@.plural,
    {
        self.plural.as_str()
    }

    pub fn namespace(&self) -> (res: Option<&str>)
        ensures
            opt_str_view(res) == self@.namespace,
    {
        match &self.namespace {
            Some(namespace) => Some(namespace.as_str()),
            None => None,
        }
    }

    pub fn api_version(&self) -> (res: &str)
        ensures
            res@ == self@.api_version,
    {
        self.api_version.as_str()
    }
}

/// The group that the core API (`/api/`) serves.
#[verifier::external_body]
fn core_group() -> (res: &'static str)
    ensures
        res@ == Seq::<char>::empty(),
{
    kube::discovery::ApiGroup::CORE_GROUP
}

/// Parses the part of a path that follows the group.
pub fn parse_version(group: &str, path: &str) -> (res: Result<ParsedResource, Error>)
    ensures
        parse_result_view(res) == parse_version_spec(group@, path@),
{
    let (version, rest) = next_segment(Some(path));
    let version = match version {
        Some(version) => version,
        None => return Err(Error::WrongVersion),
    };
    let (plural, rest2) = next_segment(rest);
    let plural = match plural {
        Some(plural) => plural,
        None => return Err(Error::WrongPath),
    };
    let (name_or_namespace, rest3) = next_segment(rest2);
    let (kind, rest4) = next_segment(rest3);
    let (name, _rest5) = next_segment(rest4);
    let ghost segs = segments(path@);
    proof {
        reveal_with_fuel(remaining_segments, 1);
    }
    match (name_or_namespace, kind) {
        (None, None) => {
            assert(segs =~= seq![version@, plural@]);
            Ok(ParsedResource::new(group, version, plural, None, name))
        },
        (Some(name), None) => {
            assert(segs =~= seq![version@, plural@, name@]);
            Ok(ParsedResource::new(group, version, plural, None, Some(name)))
        },
        (Some(namespace), Some(kind)) => {
            assert(segs[1] == plural@ && segs[2] == namespace@ && segs[3] == kind@);
            assert(segs.len() >= 5 <==> name is Some);
            assert(name matches Some(n) ==> segs[4] == n@);
            if str_eq(plural, "namespaces") {
                Ok(ParsedResource::new(group, version, kind, Some(namespace), name))
            } else {
                Err(Error::WrongPath)
            }
        },
        (None, Some(_)) => unreached(),
    }
}

/// Gives `kube::Error::LinesCodecMaxLineLengthExceeded`, the error that a path
/// that addresses no resource is reported with.
#[verifier::external_body]
fn unparsable_path_error() -> kube::Error {
    kube::Error::LinesCodecMaxLineLengthExceeded
}

impl std::str::FromStr for ParsedResource {
    type Err = kube::Error;

    fn from_str(path: &str) -> (res: Result<Self, Self::Err>)
        ensures
            match res {
                Ok(p) => parse_path_spec(path@) == Ok::<ResourcePath, Error>(p@),
                Err(_) => parse_path_spec(path@) is Err,
            },
    {
        match parse_path(path) {
            Ok(resource) => Ok(resource),
            Err(_) => Err(unparsable_path_error()),
        }
    }
}

/// Parses a whole request path.
pub fn parse_path(path: &str) -> (res: Result<ParsedResource, Error>)
    ensures
        parse_result_view(res) == parse_path_spec(path@),
{
    if let Some((_api, rest)) = split_once_str(path, "/api/") {
        let group = core_group();
        parse_version(group, rest)
    } else if let Some((_apis, rest)) = split_once_str(path, "/apis/") {
        match split_once_str(rest, "/") {
            Some((group, rest)) => parse_version(group, rest),
            None => Err(Error::WrongPath),
        }
    } else {
        Err(Error::WrongPrefix)
    }
}

} // verus!
