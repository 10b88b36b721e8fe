//! Inventories: the objects of one kind, by key, and how requests read and
//! change them.
use vstd::prelude::*;
use vstd::string::*;

use crate::ext::status::{
    already_exists_spec, bad_request_spec, failure_spec, not_found_spec, ApiStatus, StatusExt,
};
use crate::kubeapi::controller::{
    outcome_view, Controller, Outcome, OutcomeView, RequestData, RequestDataView,
};
use crate::model::{
    name_any_spec, type_meta_of, DynamicObject, DynamicObjectView, ObjectMeta, ObjectMetaView,
    ResourceType, ResourceTypeView, TypeMeta,
};
use crate::kubeapi::controller::uids::{
    fallback_uid, fallback_uid_exec, holds_text, holds_text_exec, lemma_fallback_uid_is_v4,
    lemma_last_fallback_free, lemma_uncovered_is_unused, texts_cover, uid_unused,
};
use crate::store::Store;
use crate::text::str_eq;

verus! {

/// An inventory as plain values: the kind of its objects, and the objects by key.
pub struct InventoryView {
    pub resource: ResourceTypeView,
    pub objects: Map<Seq<char>, DynamicObjectView>,
}

/// Metadata that a new object gets: its creation time, resource version `1`, its uid.
pub open spec fn init_meta_spec(meta: ObjectMetaView, now: i64, uid: Seq<char>) -> ObjectMetaView {
    ObjectMetaView {
        creation_timestamp: Some(now),
        resource_version: Some("1"@),
        uid: Some(uid),
        ..meta
    }
}

/// A new object's metadata agrees with the metadata it was sent with in every field
/// but three: the creation time, which is `now`; the resource version, which is `1`;
/// and the uid, which is `uid`. Its name, `generateName`, namespace and every other
/// field (labels, annotations and the rest) are kept.
pub proof fn law_init_meta_keeps_other_fields(meta: ObjectMetaView, now: i64, uid: Seq<char>)
    ensures
        init_meta_spec(meta, now, uid).name == meta.name,
        init_meta_spec(meta, now, uid).generate_name == meta.generate_name,
        init_meta_spec(meta, now, uid).namespace == meta.namespace,
        init_meta_spec(meta, now, uid).extra == meta.extra,
        init_meta_spec(meta, now, uid).creation_timestamp == Some(now),
        init_meta_spec(meta, now, uid).resource_version == Some("1"@),
        init_meta_spec(meta, now, uid).uid == Some(uid),
{
}

/// `created` is object `k` as it is stored: with some creation time and some uid.
pub open spec fn initialized(k: DynamicObjectView, created: DynamicObjectView) -> bool {
    &&& created.metadata.creation_timestamp is Some
    &&& created.metadata.uid is Some
    &&& created == DynamicObjectView {
        metadata: init_meta_spec(
            k.metadata,
            created.metadata.creation_timestamp->0,
            created.metadata.uid->0,
        ),
        ..k
    }
}

/// Storing `k` under `key`: refused with 409 where the key is taken, else `k` is
/// stored as created and answered with 201.
pub open spec fn store_post(
    old: InventoryView,
    new: InventoryView,
    key: Seq<char>,
    k: DynamicObjectView,
    res: OutcomeView,
) -> bool {
    if old.objects.contains_key(key) {
        new == old && res == Err::<(DynamicObjectView, u16), _>(already_exists_spec(old.resource, key))
    } else {
        &&& res matches Ok((created, code))
        &&& code == 201
        &&& initialized(k, created)
        &&& created.metadata.uid matches Some(uid) && is_uuid_v4_text(uid)
        &&& new == InventoryView { objects: old.objects.insert(key, created), ..old }
    }
}

/// A stored create keeps the body it was sent: the type, the data and every metadata
/// field but the creation time, the resource version and the uid are those of the
/// body, resource version `1` is set, and the created object is what the key holds.
pub proof fn law_created_object_keeps_body(
    old: InventoryView,
    new: InventoryView,
    key: Seq<char>,
    k: DynamicObjectView,
    res: OutcomeView,
)
    requires
        store_post(old, new, key, k, res),
        !old.objects.contains_key(key),
    ensures
        res matches Ok((created, code)) && {
            &&& code == 201
            &&& created.types == k.types
            &&& created.data == k.data
            &&& created.metadata.name == k.metadata.name
            &&& created.metadata.generate_name == k.metadata.generate_name
            &&& created.metadata.namespace == k.metadata.namespace
            &&& created.metadata.extra == k.metadata.extra
            &&& created.metadata.resource_version == Some("1"@)
            &&& new.objects.contains_key(key)
            &&& new.objects[key] == created
        },
{
}

/// Where the outcome is a created object, its uid is held by no object of `objects`.
pub open spec fn created_uid_unused(
    objects: Map<Seq<char>, DynamicObjectView>,
    res: OutcomeView,
) -> bool {
    res matches Ok((created, _)) ==> (created.metadata.uid matches Some(uid) && uid_unused(
        objects,
        uid,
    ))
}

/// Where the outcome is a created object, its uid is held by no object of `objects`
/// and is none of the texts `in_use`.
pub open spec fn fresh_uid_outcome(
    objects: Map<Seq<char>, DynamicObjectView>,
    in_use: Seq<String>,
    res: OutcomeView,
) -> bool {
    &&& created_uid_unused(objects, res)
    &&& res matches Ok((created, _)) ==> !holds_text(in_use, created.metadata.uid->0)
}

/// The key of an object of a cluster-wide kind: its name.
pub open spec fn cluster_key(object: DynamicObjectView) -> Seq<char> {
    name_any_spec(object.metadata)
}

/// An object that has a name is kept under that name, in its namespace or `default`
/// for a namespaced kind, whatever its `generateName`.
pub proof fn law_named_object_key(object: DynamicObjectView)
    requires
        object.metadata.name is Some,
    ensures
        cluster_key(object) == object.metadata.name->0,
        namespaced_key(object) == namespace_or_default(object.metadata) + "/"@
            + object.metadata.name->0,
{
}

/// A create request for a cluster-wide kind: 400 where the body is no object, else
/// the object is stored under the key.
pub open spec fn cluster_create_post(
    old: InventoryView,
    new: InventoryView,
    object: DynamicObjectView,
    data: RequestDataView,
    res: OutcomeView,
) -> bool {
    match data.object {
        Err(message) => new == old && res == Err::<(DynamicObjectView, u16), _>(bad_request_spec(message)),
        Ok(k) => store_post(old, new, cluster_key(object), k, res),
    }
}

/// The namespace of an object, `default` where it has none.
pub open spec fn namespace_or_default(meta: ObjectMetaView) -> Seq<char> {
    match meta.namespace {
        Some(ns) => ns,
        None => "default"@,
    }
}

/// The key of an object of a namespaced kind: `namespace/name`.
pub open spec fn namespaced_key(object: DynamicObjectView) -> Seq<char> {
    namespace_or_default(object.metadata) + "/"@ + name_any_spec(object.metadata)
}

/// A create request for a namespaced kind: 400 where the body is no object, a
/// `conflict` failure where the body does not name the request's namespace, else the
/// object is stored under the key.
pub open spec fn namespaced_create_post(
    old: InventoryView,
    new: InventoryView,
    object: DynamicObjectView,
    data: RequestDataView,
    res: OutcomeView,
) -> bool {
    match data.object {
        Err(message) => new == old && res == Err::<(DynamicObjectView, u16), _>(bad_request_spec(message)),
        Ok(k) => if k.metadata.namespace != Some(namespace_or_default(object.metadata)) {
            new == old && res == Err::<(DynamicObjectView, u16), _>(failure_spec("conflict"@))
        } else {
            store_post(old, new, namespaced_key(object), k, res)
        },
    }
}

/// A get request: the object under the key with 200, else 404.
pub open spec fn get_spec(inv: InventoryView, key: Seq<char>) -> OutcomeView {
    if inv.objects.contains_key(key) {
        Ok((inv.objects[key], 200))
    } else {
        Err(not_found_spec(inv.resource, key))
    }
}

/// Calls `<metav1::Time as k8s_openapi_ext::TimeExt>::now` and gives its whole seconds
/// since the Unix epoch. Nothing is stated of the value: it is the clock's.
#[verifier::external_body]
fn time_now() -> i64 {
    <k8s_openapi_ext::metav1::Time as k8s_openapi_ext::TimeExt>::now().0.as_second()
}

/// A lower-case hexadecimal digit.
pub open spec fn is_lower_hex(c: char) -> bool {
    ('0' <= c && c <= '9') || ('a' <= c && c <= 'f')
}

/// The hyphenated lower-case text of a version 4 uuid: 36 characters, hyphens at 8,
/// 13, 18 and 23, hexadecimal digits elsewhere, version digit `4`, and a variant digit
/// of `8`, `9`, `a` or `b`.
pub open spec fn is_uuid_v4_text(s: Seq<char>) -> bool {
    &&& s.len() == 36
    &&& forall|i: int|
        0 <= i < 36 ==> if i == 8 || i == 13 || i == 18 || i == 23 {
            #[trigger] s[i] == '-'
        } else {
            is_lower_hex(s[i])
        }
    &&& s[14] == '4'
    &&& (s[19] == '8' || s[19] == '9' || s[19] == 'a' || s[19] == 'b')
}

/// Calls `uuid::Uuid::new_v4` and gives it in uuid's hyphenated lower-case text form:
/// `new_v4` sets the version nibble to 4 and the variant bits to `10`, and the text
/// writes each byte as two lower-case hexadecimal digits with hyphens between the
/// groups. Nothing more is stated: the other digits are random.
#[verifier::external_body]
fn new_uid() -> (res: String)
    ensures
        is_uuid_v4_text(res@),
{
    uuid::Uuid::new_v4().to_string()
}

/// `http::StatusCode::OK` as a number.
#[verifier::external_body]
fn status_ok() -> (res: u16)
    ensures
        res == 200,
{
    http::StatusCode::OK.as_u16()
}

/// `http::StatusCode::CREATED` as a number.
#[verifier::external_body]
fn status_created() -> (res: u16)
    ensures
        res == 201,
{
    http::StatusCode::CREATED.as_u16()
}

/// Sets the metadata that a new object gets.
pub fn init_meta(meta: &mut ObjectMeta, now: i64, uid: String)
    ensures
        final(meta)@ == init_meta_spec(old(meta)@, now, uid@),
{
    meta.creation_timestamp = Some(now);
    meta.resource_version = Some(String::from_str("1"));
    meta.uid = Some(uid);
}

/// A uid that none of `taken` is: a random version 4 uuid where it is free, else the
/// first spare uid that is free.
fn fresh_uid(taken: &Vec<String>) -> (res: String)
    ensures
        is_uuid_v4_text(res@),
        !holds_text(taken@, res@),
{
    let uid = new_uid();
    if !holds_text_exec(taken, uid.as_str()) {
        return uid;
    }
    let n: usize = taken.len();
    let mut j: usize = 0;
    while j < n
        invariant
            n == taken@.len(),
            j <= n,
            forall|spare: u64| spare < j ==> #[trigger] holds_text(taken@, fallback_uid(spare)),
        decreases n - j,
    {
        let candidate = fallback_uid_exec(j as u64);
        if !holds_text_exec(taken, candidate.as_str()) {
            proof {
                lemma_fallback_uid_is_v4(j as u64);
            }
            return candidate;
        }
        j = j + 1;
    }
    proof {
        lemma_last_fallback_free(taken@);
        lemma_fallback_uid_is_v4(n as u64);
    }
    fallback_uid_exec(n as u64)
}

/// Stores `k` under `key` where the key is free, with a uid that no stored object
/// holds and that none of `in_use` is.
fn store_object(
    resource: &ResourceType,
    inventory: &mut Store,
    key: String,
    k: DynamicObject,
    in_use: Vec<String>,
) -> (res: Outcome)
    ensures
        store_post(
            InventoryView { resource: resource@, objects: old(inventory)@ },
            InventoryView { resource: resource@, objects: final(inventory)@ },
            key@,
            k@,
            outcome_view(res),
        ),
        fresh_uid_outcome(old(inventory)@, in_use@, outcome_view(res)),
{
    if inventory.contains_key(key.as_str()) {
        return Err(ApiStatus::already_exists(resource, key.as_str()));
    }
    let mut object = k;
    let now: i64 = time_now();
    let ghost given = in_use@;
    let mut taken = in_use;
    inventory.push_uids(&mut taken);
    let uid = fresh_uid(&taken);
    proof {
        lemma_uncovered_is_unused(inventory@, taken@, uid@);
        assert(!holds_text(given, uid@));
    }
    init_meta(&mut object.metadata, now, uid);
    let answer = object.clone();
    inventory.insert(key, object);
    Ok((answer, status_created()))
}

/// The object under `key`, with 200, else 404.
fn get_object(resource: &ResourceType, inventory: &Store, key: &str) -> (res: Outcome)
    ensures
        outcome_view(res) == get_spec(InventoryView { resource: resource@, objects: inventory@ }, key@),
{
    match inventory.get(key) {
        Some(object) => Ok((object.clone(), status_ok())),
        None => Err(ApiStatus::not_found(resource, key)),
    }
}

/// The objects of a cluster-wide kind, keyed by name.
#[derive(Debug)]
pub struct ClusterInventory {
    resource: ResourceType,
    inventory: Store,
}

impl View for ClusterInventory {
    type V = InventoryView;

    closed spec fn view(&self) -> InventoryView {
        InventoryView { resource: self.resource@, objects: self.inventory@ }
    }
}

impl ClusterInventory {
    pub fn with_inventory(resource: ResourceType, inventory: Store) -> (res: Self)
        ensures
            res@ == (InventoryView { resource: resource@, objects: inventory@ }),
    {
        ClusterInventory { resource, inventory }
    }

    /// The kind of the objects.
    pub fn resource(&self) -> (res: &ResourceType)
        ensures
            res@ == self@.resource,
    {
        &self.resource
    }

    /// Creates as `create` does, with a uid that is also none of `in_use`.
    pub fn create_among(&mut self, object: DynamicObject, data: RequestData, in_use: Vec<String>) -> (res: Outcome)
        ensures
            cluster_create_post(old(self)@, final(self)@, object@, data@, outcome_view(res)),
            fresh_uid_outcome(old(self)@.objects, in_use@, outcome_view(res)),
    {
        let key = object.name_any();
        let k = match data.object {
            Ok(k) => k,
            Err(message) => return Err(ApiStatus::bad_request(message.as_str())),
        };
        store_object(&self.resource, &mut self.inventory, key, k, in_use)
    }

    /// Appends to `out` the uid of every stored object that has one; what `out` held
    /// stays.
    pub fn push_uids(&self, out: &mut Vec<String>)
        ensures
            forall|u: Seq<char>| #[trigger]
                holds_text(old(out)@, u) ==> holds_text(final(out)@, u),
            texts_cover(self@.objects, final(out)@),
    {
        self.inventory.push_uids(out)
    }
}

impl Controller for ClusterInventory {
    fn type_meta(&self) -> (res: TypeMeta)
        ensures
            res@ == type_meta_of(self@.resource),
    {
        self.resource.type_meta()
    }

    fn key(&self, object: &DynamicObject) -> (res: String)
        ensures
            res@ == cluster_key(object@),
    {
        object.name_any()
    }

    /// Stores the body under the key of `object`, the object that the request path
    /// names: a path to a kind names no object, so its key is the empty name. The new
    /// object's uid is held by no stored object.
    fn create(&mut self, object: DynamicObject, data: RequestData) -> (res: Outcome)
        ensures
            cluster_create_post(old(self)@, final(self)@, object@, data@, outcome_view(res)),
            created_uid_unused(old(self)@.objects, outcome_view(res)),
    {
        self.create_among(object, data, Vec::new())
    }

    fn get(&self, object: DynamicObject, data: RequestData) -> (res: Outcome)
        ensures
            outcome_view(res) == get_spec(self@, cluster_key(object@)),
    {
        let key = self.key(&object);
        get_object(&self.resource, &self.inventory, key.as_str())
    }
}

/// The objects of a namespaced kind, keyed by `namespace/name`.
#[derive(Debug)]
pub struct NamespacedInventory {
    resource: ResourceType,
    inventory: Store,
}

impl View for NamespacedInventory {
    type V = InventoryView;

    closed spec fn view(&self) -> InventoryView {
        InventoryView { resource: self.resource@, objects: self.inventory@ }
    }
}

impl NamespacedInventory {
    pub fn with_inventory(resource: ResourceType, inventory: Store) -> (res: Self)
        ensures
            res@ == (InventoryView { resource: resource@, objects: inventory@ }),
    {
        NamespacedInventory { resource, inventory }
    }

    /// The kind of the objects.
    pub fn resource(&self) -> (res: &ResourceType)
        ensures
            res@ == self@.resource,
    {
        &self.resource
    }

    /// Creates as `create` does, with a uid that is also none of `in_use`.
    pub fn create_among(&mut self, object: DynamicObject, data: RequestData, in_use: Vec<String>) -> (res: Outcome)
        ensures
            namespaced_create_post(old(self)@, final(self)@, object@, data@, outcome_view(res)),
            fresh_uid_outcome(old(self)@.objects, in_use@, outcome_view(res)),
    {
        let mut object = object;
        let namespace = match &object.metadata.namespace {
            Some(namespace) => namespace.clone(),
            None => Self::default_namespace(),
        };
        object.metadata.namespace = Some(namespace.clone());
        let name = object.name_any();
        let key = namespace.concat("/").concat(name.as_str());
        let k = match data.object {
            Ok(k) => k,
            Err(message) => return Err(ApiStatus::bad_request(message.as_str())),
        };
        let same_namespace = match (&object.metadata.namespace, &k.metadata.namespace) {
            (Some(a), Some(b)) => str_eq(a.as_str(), b.as_str()),
            (None, None) => true,
            _ => false,
        };
        if !same_namespace {
            return Err(ApiStatus::failure("conflict"));
        }
        store_object(&self.resource, &mut self.inventory, key, k, in_use)
    }

    /// Appends to `out` the uid of every stored object that has one; what `out` held
    /// stays.
    pub fn push_uids(&self, out: &mut Vec<String>)
        ensures
            forall|u: Seq<char>| #[trigger]
                holds_text(old(out)@, u) ==> holds_text(final(out)@, u),
            texts_cover(self@.objects, final(out)@),
    {
        self.inventory.push_uids(out)
    }

    /// The namespace of objects that name none.
    pub fn default_namespace() -> (res: String)
        ensures
            res@ == "default"@,
    {
        String::from_str("default")
    }

    /// The object that `object` names: by key where it names a namespace, else some
    /// object of that name in any namespace.
    pub fn lookup(&self, object: &DynamicObject) -> (res: Option<&DynamicObject>)
        ensures
            object@.metadata.namespace is Some ==> match res {
                Some(v) => self@.objects.contains_key(namespaced_key(object@))
                    && self@.objects[namespaced_key(object@)] == v@,
                None => !self@.objects.contains_key(namespaced_key(object@)),
            },
            object@.metadata.namespace is None ==> match res {
                Some(v) => exists|k: Seq<char>| #[trigger]
                    self@.objects.contains_key(k) && self@.objects[k] == v@ && name_any_spec(
                        v@.metadata,
                    ) == name_any_spec(object@.metadata),
                None => forall|k: Seq<char>| #[trigger]
                    self@.objects.contains_key(k) ==> name_any_spec(self@.objects[k].metadata)
                        != name_any_spec(object@.metadata),
            },
    {
        let name = object.name_any();
        if let Some(namespace) = object.namespace() {
            let key = namespace.concat("/").concat(name.as_str());
            self.inventory.get(key.as_str())
        } else {
            self.inventory.find_by_name(name.as_str())
        }
    }
}

impl Controller for NamespacedInventory {
    fn type_meta(&self) -> (res: TypeMeta)
        ensures
            res@ == type_meta_of(self@.resource),
    {
        self.resource.type_meta()
    }

    fn key(&self, object: &DynamicObject) -> (res: String)
        ensures
            res@ == namespaced_key(object@),
    {
        let name = object.name_any();
        if let Some(namespace) = object.namespace() {
            namespace.concat("/").concat(name.as_str())
        } else {
            Self::default_namespace().concat("/").concat(name.as_str())
        }
    }

    /// Stores the body under the key of `object`, the object that the request path
    /// names, in its namespace or `default`. The body's own namespace is compared as it
    /// was sent: a body that names no namespace is refused with `conflict`. The new
    /// object's uid is held by no stored object.
    fn create(&mut self, object: DynamicObject, data: RequestData) -> (res: Outcome)
        ensures
            namespaced_create_post(old(self)@, final(self)@, object@, data@, outcome_view(res)),
            created_uid_unused(old(self)@.objects, outcome_view(res)),
    {
        self.create_among(object, data, Vec::new())
    }

    fn get(&self, object: DynamicObject, data: RequestData) -> (res: Outcome)
        ensures
            outcome_view(res) == get_spec(self@, namespaced_key(object@)),
    {
        let key = self.key(&object);
        get_object(&self.resource, &self.inventory, key.as_str())
    }
}

} // verus!
