//! The objects that the API server stores and answers with, held as plain
//! values: the fields that the server reads or writes are fields of their own,
//! everything else of an object travels along as JSON text.
use vstd::prelude::*;
use vstd::string::*;

use crate::text::opt_string_view;

verus! {

/// The `apiVersion` and `kind` of an object.
#[derive(Debug)]
pub struct TypeMeta {
    pub api_version: String,
    pub kind: String,
}

pub struct TypeMetaView {
    pub api_version: Seq<char>,
    pub kind: Seq<char>,
}

impl View for TypeMeta {
    type V = TypeMetaView;

    open spec fn view(&self) -> TypeMetaView {
        TypeMetaView { api_version: self.api_version@, kind: self.kind@ }
    }
}

pub open spec fn opt_type_meta_view(o: Option<TypeMeta>) -> Option<TypeMetaView> {
    match o {
        Some(t) => Some(t@),
        None => None,
    }
}

impl TypeMeta {
    /// Both objects have the same `apiVersion` and `kind`.
    pub fn same_as(&self, other: &TypeMeta) -> (res: bool)
        ensures
            res == (self@ == other@),
    {
        self.api_version == other.api_version && self.kind == other.kind
    }
}

impl Clone for TypeMeta {
    fn clone(&self) -> (res: Self)
        ensures
            res@ == self@,
    {
        TypeMeta { api_version: self.api_version.clone(), kind: self.kind.clone() }
    }
}

/// The metadata of an object: the fields that the server reads or sets, and the
/// others as the JSON text of an object.
#[derive(Debug)]
pub struct ObjectMeta {
    pub name: Option<String>,
    pub generate_name: Option<String>,
    pub namespace: Option<String>,
    pub resource_version: Option<String>,
    pub uid: Option<String>,
    /// Seconds since the Unix epoch.
    pub creation_timestamp: Option<i64>,
    /// The other metadata fields, as JSON text.
    pub extra: String,
}

pub struct ObjectMetaView {
    pub name: Option<Seq<char>>,
    pub generate_name: Option<Seq<char>>,
    pub namespace: Option<Seq<char>>,
    pub resource_version: Option<Seq<char>>,
    pub uid: Option<Seq<char>>,
    pub creation_timestamp: Option<i64>,
    pub extra: Seq<char>,
}

impl View for ObjectMeta {
    type V = ObjectMetaView;

    open spec fn view(&self) -> ObjectMetaView {
        ObjectMetaView {
            name: opt_string_view(self.name),
            generate_name: opt_string_view(self.generate_name),
            namespace: opt_string_view(self.namespace),
            resource_version: opt_string_view(self.resource_version),
            uid: opt_string_view(self.uid),
            creation_timestamp: self.creation_timestamp,
            extra: self.extra@,
        }
    }
}

/// The JSON text of an object without fields.
pub open spec fn empty_json() -> Seq<char> {
    "{}"@
}

/// The metadata that holds a name and nothing else.
pub open spec fn named_meta(name: Seq<char>) -> ObjectMetaView {
    ObjectMetaView {
        name: Some(name),
        generate_name: None,
        namespace: None,
        resource_version: None,
        uid: None,
        creation_timestamp: None,
        extra: empty_json(),
    }
}

/// The name of an object, else its `generateName`, else the empty string.
pub open spec fn name_any_spec(meta: ObjectMetaView) -> Seq<char> {
    match meta.name {
        Some(name) => name,
        None => match meta.generate_name {
            Some(generate_name) => generate_name,
            None => Seq::empty(),
        },
    }
}

/// The name takes precedence over `generateName`: an object that has a name is known
/// by it whatever its `generateName`; `generateName` counts only where there is no
/// name, and an object with neither is known by the empty string.
pub proof fn law_name_wins_over_generate_name(meta: ObjectMetaView)
    ensures
        meta.name matches Some(n) ==> name_any_spec(meta) == n,
        meta.name is None ==> (meta.generate_name matches Some(g) ==> name_any_spec(meta) == g),
        meta.name is None && meta.generate_name is None ==> name_any_spec(meta)
            == Seq::<char>::empty(),
{
}

pub fn clone_opt_string(o: &Option<String>) -> (res: Option<String>)
    ensures
        opt_string_view(res) == opt_string_view(*o),
{
    match o {
        Some(s) => Some(s.clone()),
        None => None,
    }
}

impl ObjectMeta {
    /// The metadata of a new object that holds only its name.
    pub fn named(name: &str) -> (res: Self)
        ensures
            res@ == named_meta(name@),
    {
        ObjectMeta {
            name: Some(name.to_owned()),
            generate_name: None,
            namespace: None,
            resource_version: None,
            uid: None,
            creation_timestamp: None,
            extra: String::from_str("{}"),
        }
    }
}

impl Clone for ObjectMeta {
    fn clone(&self) -> (res: Self)
        ensures
            res@ == self@,
    {
        ObjectMeta {
            name: clone_opt_string(&self.name),
            generate_name: clone_opt_string(&self.generate_name),
            namespace: clone_opt_string(&self.namespace),
            resource_version: clone_opt_string(&self.resource_version),
            uid: clone_opt_string(&self.uid),
            creation_timestamp: self.creation_timestamp,
            extra: self.extra.clone(),
        }
    }
}

/// An object of any kind: its type, its metadata, and the rest of it as JSON text.
#[derive(Debug)]
pub struct DynamicObject {
    pub types: Option<TypeMeta>,
    pub metadata: ObjectMeta,
    /// The fields besides `apiVersion`, `kind` and `metadata`, as JSON text.
    pub data: String,
}

pub struct DynamicObjectView {
    pub types: Option<TypeMetaView>,
    pub metadata: ObjectMetaView,
    pub data: Seq<char>,
}

impl View for DynamicObject {
    type V = DynamicObjectView;

    open spec fn view(&self) -> DynamicObjectView {
        DynamicObjectView {
            types: opt_type_meta_view(self.types),
            metadata: self.metadata@,
            data: self.data@,
        }
    }
}

/// The object of the given type that holds a name and nothing else.
pub open spec fn named_object(types: TypeMetaView, name: Seq<char>) -> DynamicObjectView {
    DynamicObjectView { types: Some(types), metadata: named_meta(name), data: empty_json() }
}

impl DynamicObject {
    /// A new object of the given type that holds only its name.
    pub fn named(types: TypeMeta, name: &str) -> (res: Self)
        ensures
            res@ == named_object(types@, name@),
    {
        DynamicObject {
            types: Some(types),
            metadata: ObjectMeta::named(name),
            data: String::from_str("{}"),
        }
    }

    /// The name of the object, else its `generateName`, else the empty string.
    pub fn name_any(&self) -> (res: String)
        ensures
            res@ == name_any_spec(self@.metadata),
    {
        match &self.metadata.name {
            Some(name) => name.clone(),
            None => match &self.metadata.generate_name {
                Some(generate_name) => generate_name.clone(),
                None => String::new(),
            },
        }
    }

    /// The namespace of the object, if it has one.
    pub fn namespace(&self) -> (res: Option<String>)
        ensures
            opt_string_view(res) == self@.metadata.namespace,
    {
        clone_opt_string(&self.metadata.namespace)
    }

    /// The same object placed in namespace `ns`.
    pub fn within(self, ns: &str) -> (res: Self)
        ensures
            res@ == (DynamicObjectView {
                metadata: ObjectMetaView { namespace: Some(ns@), ..self@.metadata },
                ..self@
            }),
    {
        let mut object = self;
        object.metadata.namespace = Some(ns.to_owned());
        object
    }
}

impl Clone for DynamicObject {
    fn clone(&self) -> (res: Self)
        ensures
            res@ == self@,
    {
        let types = match &self.types {
            Some(t) => Some(t.clone()),
            None => None,
        };
        DynamicObject { types, metadata: self.metadata.clone(), data: self.data.clone() }
    }
}

/// How the API names a kind of resource: its group, version, `apiVersion`, kind and
/// the plural that request paths use.
#[derive(Debug)]
pub struct ResourceType {
    pub group: String,
    pub version: String,
    pub api_version: String,
    pub kind: String,
    pub plural: String,
}

pub struct ResourceTypeView {
    pub group: Seq<char>,
    pub version: Seq<char>,
    pub api_version: Seq<char>,
    pub kind: Seq<char>,
    pub plural: Seq<char>,
}

impl View for ResourceType {
    type V = ResourceTypeView;

    open spec fn view(&self) -> ResourceTypeView {
        ResourceTypeView {
            group: self.group@,
            version: self.version@,
            api_version: self.api_version@,
            kind: self.kind@,
            plural: self.plural@,
        }
    }
}

/// The `apiVersion` and `kind` of the objects of a resource.
pub open spec fn type_meta_of(resource: ResourceTypeView) -> TypeMetaView {
    TypeMetaView { api_version: resource.api_version, kind: resource.kind }
}

impl ResourceType {
    /// The `apiVersion` and `kind` of the objects of this resource.
    pub fn type_meta(&self) -> (res: TypeMeta)
        ensures
            res@ == type_meta_of(self@),
    {
        TypeMeta { api_version: self.api_version.clone(), kind: self.kind.clone() }
    }
}

impl Clone for ResourceType {
    fn clone(&self) -> (res: Self)
        ensures
            res@ == self@,
    {
        ResourceType {
            group: self.group.clone(),
            version: self.version.clone(),
            api_version: self.api_version.clone(),
            kind: self.kind.clone(),
            plural: self.plural.clone(),
        }
    }
}

} // verus!
