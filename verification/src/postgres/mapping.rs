//! What the rows of the store say, and the rows that say it.
use std::time::Duration;
use std::time::SystemTime;

use vstd::prelude::*;

use crate::ids;
use crate::ids::BackendGeneration;
use crate::ids::Generation;
use crate::ids::InstanceId;
use crate::ids::MaterializationId;
use crate::ids::RouteBindingId;
use crate::ids::WorkloadClassId;
use crate::instance;
use crate::instance::InstanceRecord;
use crate::instance::InstanceRecordView;
use crate::instance::InstanceState;
use crate::json;
use crate::json::Json;
use crate::manifest::template::ManifestTemplate;
use crate::manifest::template::ManifestTemplateView;
use crate::materialization::BackendEndpoint;
use crate::materialization::MaterializationRecord;
use crate::materialization::MaterializationRecordView;
use crate::materialization::MaterializationState;
use crate::materialization::MaterializationTarget;
use crate::materialization::MaterializationTargetView;
use crate::materialization::RenderedObjectRef;
use crate::materialization::RenderedObjectRefView;
use crate::outcome;
use crate::route;
use crate::route::CachePolicy;
use crate::route::PathPrefix;
use crate::route::ProtocolRoute;
use crate::route::RouteBindingRecord;
use crate::route::RouteBindingRecordView;
use crate::route::RouteBindingSpec;
use crate::route::RouteEntry;
use crate::route::RouteEntryView;
use crate::route::RouteHost;
use crate::route::RouteHostKind;
use crate::route::RouteHostView;
use crate::route::RouteIdentity;
use crate::route::RouteIdentityView;
use crate::route::RouteMatchScore;
use crate::sleep_policy::WorkloadSleepPolicy;
use crate::sleep_policy::WorkloadSleepPolicyView;
use crate::store::StoreError;
use crate::store::StoreErrorView;
use crate::string_map;
use crate::string_map::StringMap;
use crate::text;
use crate::time;
use crate::workload::RenderedExclusivityKey;
use crate::workload::RenderedExclusivityKeyView;
use crate::workload::WorkloadClassVersion;
use crate::workload::WorkloadClassVersionRef;
use crate::workload::WorkloadClassVersionRefView;
use crate::workload::WorkloadClassVersionView;
use crate::workload::WorkloadExclusivityKeyTemplate;
use crate::workload::WorkloadExclusivityKeyTemplateView;
use crate::workload::WorkloadValueSchema;
use crate::workload::WorkloadValueSchemaView;

verus! {

/// A stored instance.
#[derive(Debug, PartialEq, Eq)]
pub struct InstanceRow {
    pub instance_id: String,
    pub workload_class_id: String,
    pub workload_class_version: i64,
    pub values: serde_json::Value,
    pub state: String,
    pub generation: i64,
}

/// What an [`InstanceRow`] holds.
#[verifier::ext_equal]
pub struct InstanceRowView {
    pub instance_id: Seq<char>,
    pub workload_class_id: Seq<char>,
    pub workload_class_version: i64,
    pub values: serde_json::Value,
    pub state: Seq<char>,
    pub generation: i64,
}

impl DeepView for InstanceRow {
    type V = InstanceRowView;

    open spec fn deep_view(&self) -> InstanceRowView {
        InstanceRowView {
            instance_id: self.instance_id.deep_view(),
            workload_class_id: self.workload_class_id.deep_view(),
            workload_class_version: self.workload_class_version.deep_view(),
            values: self.values,
            state: self.state.deep_view(),
            generation: self.generation.deep_view(),
        }
    }
}

/// A stored route.
#[derive(Debug, PartialEq, Eq)]
pub struct RouteRow {
    pub route_binding_id: String,
    pub instance_id: String,
    pub identity_kind: String,
    pub host_kind: String,
    pub host: String,
    pub path_prefix: Option<String>,
    pub protocol: String,
}

/// What a [`RouteRow`] holds.
#[verifier::ext_equal]
pub struct RouteRowView {
    pub route_binding_id: Seq<char>,
    pub instance_id: Seq<char>,
    pub identity_kind: Seq<char>,
    pub host_kind: Seq<char>,
    pub host: Seq<char>,
    pub path_prefix: Option<Seq<char>>,
    pub protocol: Seq<char>,
}

impl DeepView for RouteRow {
    type V = RouteRowView;

    open spec fn deep_view(&self) -> RouteRowView {
        RouteRowView {
            route_binding_id: self.route_binding_id.deep_view(),
            instance_id: self.instance_id.deep_view(),
            identity_kind: self.identity_kind.deep_view(),
            host_kind: self.host_kind.deep_view(),
            host: self.host.deep_view(),
            path_prefix: self.path_prefix.deep_view(),
            protocol: self.protocol.deep_view(),
        }
    }
}

/// A stored materialization.
#[derive(Debug, PartialEq, Eq)]
pub struct MaterializationRow {
    pub materialization_id: String,
    pub instance_id: String,
    pub instance_generation: i64,
    pub projection_generation: i64,
    pub cluster_id: String,
    pub namespace: String,
    pub state: String,
    pub backend_uri: Option<String>,
    pub backend_generation: i64,
    pub rendered_objects: serde_json::Value,
    pub exclusivity_keys: Vec<RenderedExclusivityKey>,
}

/// What a [`MaterializationRow`] holds.
#[verifier::ext_equal]
pub struct MaterializationRowView {
    pub materialization_id: Seq<char>,
    pub instance_id: Seq<char>,
    pub instance_generation: i64,
    pub projection_generation: i64,
    pub cluster_id: Seq<char>,
    pub namespace: Seq<char>,
    pub state: Seq<char>,
    pub backend_uri: Option<Seq<char>>,
    pub backend_generation: i64,
    pub rendered_objects: serde_json::Value,
    pub exclusivity_keys: Seq<RenderedExclusivityKeyView>,
}

impl DeepView for MaterializationRow {
    type V = MaterializationRowView;

    open spec fn deep_view(&self) -> MaterializationRowView {
        MaterializationRowView {
            materialization_id: self.materialization_id.deep_view(),
            instance_id: self.instance_id.deep_view(),
            instance_generation: self.instance_generation.deep_view(),
            projection_generation: self.projection_generation.deep_view(),
            cluster_id: self.cluster_id.deep_view(),
            namespace: self.namespace.deep_view(),
            state: self.state.deep_view(),
            backend_uri: self.backend_uri.deep_view(),
            backend_generation: self.backend_generation.deep_view(),
            rendered_objects: self.rendered_objects,
            exclusivity_keys: self.exclusivity_keys.deep_view(),
        }
    }
}

/// A stored version of a workload class.
#[derive(Debug, PartialEq, Eq)]
pub struct WorkloadClassRow {
    pub class_id: String,
    pub version: i64,
    pub template_generation: i64,
    pub default_values: serde_json::Value,
    pub template: ManifestTemplate,
    pub value_schema: WorkloadValueSchema,
    pub sleep_policy: WorkloadSleepPolicy,
    pub exclusivity_keys: Vec<WorkloadExclusivityKeyTemplate>,
}

/// What a [`WorkloadClassRow`] holds.
#[verifier::ext_equal]
pub struct WorkloadClassRowView {
    pub class_id: Seq<char>,
    pub version: i64,
    pub template_generation: i64,
    pub default_values: serde_json::Value,
    pub template: ManifestTemplateView,
    pub value_schema: WorkloadValueSchemaView,
    pub sleep_policy: WorkloadSleepPolicyView,
    pub exclusivity_keys: Seq<WorkloadExclusivityKeyTemplateView>,
}

impl DeepView for WorkloadClassRow {
    type V = WorkloadClassRowView;

    open spec fn deep_view(&self) -> WorkloadClassRowView {
        WorkloadClassRowView {
            class_id: self.class_id.deep_view(),
            version: self.version.deep_view(),
            template_generation: self.template_generation.deep_view(),
            default_values: self.default_values,
            template: self.template.deep_view(),
            value_schema: self.value_schema.deep_view(),
            sleep_policy: self.sleep_policy.deep_view(),
            exclusivity_keys: self.exclusivity_keys.deep_view(),
        }
    }
}

/// An identity of a route as it is stored.
#[derive(Debug, PartialEq, Eq)]
pub struct RouteIdentityParts {
    pub key: String,
    pub identity_kind: &'static str,
    pub host_kind: &'static str,
    pub host: String,
    pub path_prefix: Option<String>,
}

/// What a [`RouteIdentityParts`] holds.
#[verifier::ext_equal]
pub struct RouteIdentityPartsView {
    pub key: Seq<char>,
    pub identity_kind: Seq<char>,
    pub host_kind: Seq<char>,
    pub host: Seq<char>,
    pub path_prefix: Option<Seq<char>>,
}

impl DeepView for RouteIdentityParts {
    type V = RouteIdentityPartsView;

    open spec fn deep_view(&self) -> RouteIdentityPartsView {
        RouteIdentityPartsView {
            key: self.key.deep_view(),
            identity_kind: self.identity_kind.deep_view(),
            host_kind: self.host_kind.deep_view(),
            host: self.host.deep_view(),
            path_prefix: self.path_prefix.deep_view(),
        }
    }
}

impl Clone for RouteIdentityParts {
    fn clone(&self) -> (r: Self)
        ensures
            r.deep_view() == self.deep_view(),
    {
        let r = RouteIdentityParts {
            key: self.key.clone(),
            identity_kind: self.identity_kind,
            host_kind: self.host_kind,
            host: self.host.clone(),
            path_prefix: self.path_prefix.clone(),
        };
        assert(r.path_prefix.deep_view() =~= self.path_prefix.deep_view());
        r
    }
}

/// An error that the stored data is to blame for.
pub open spec fn broken(message: Seq<char>) -> StoreErrorView {
    StoreErrorView::Internal { message }
}

/// An error that a request is to blame for.
pub open spec fn refused(message: Seq<char>) -> StoreErrorView {
    StoreErrorView::InvalidArgument { message }
}

/// Stored data that is not accepted.
pub open spec fn invalid_stored(message: Seq<char>) -> StoreErrorView {
    broken("stored Postgres data is invalid: "@ + message)
}

pub(crate) fn invalid_stored_data(message: &str) -> (r: StoreError)
    ensures
        r.deep_view() == invalid_stored(message@),
{
    let message = text::join2("stored Postgres data is invalid: ", message);
    StoreError::internal(message.as_str())
}

/// A stored name that is not known.
pub open spec fn unknown_name(what: Seq<char>, name: Seq<char>) -> StoreErrorView {
    broken(what + text::debug_text(name) + " is invalid"@)
}

fn unknown(what: &str, name: &str) -> (r: StoreError)
    ensures
        r.deep_view() == unknown_name(what@, name@),
{
    let message = text::join3(what, text::quoted(name).as_str(), " is invalid");
    StoreError::internal(message.as_str())
}

/// The name that a state of an instance is stored by.
pub open spec fn instance_state_name(state: InstanceState) -> Seq<char> {
    match state {
        InstanceState::Cold => "cold"@,
        InstanceState::Waking => "waking"@,
        InstanceState::Running => "running"@,
        InstanceState::Draining => "draining"@,
        InstanceState::Failed => "failed"@,
        InstanceState::Deleting => "deleting"@,
        InstanceState::Deleted => "deleted"@,
    }
}

/// The name that a state of an instance is stored by.
pub fn instance_state_to_db(state: InstanceState) -> (r: &'static str)
    ensures
        r@ == instance_state_name(state),
{
    match state {
        InstanceState::Cold => "cold",
        InstanceState::Waking => "waking",
        InstanceState::Running => "running",
        InstanceState::Draining => "draining",
        InstanceState::Failed => "failed",
        InstanceState::Deleting => "deleting",
        InstanceState::Deleted => "deleted",
    }
}

/// The state of an instance by its stored name.
pub open spec fn instance_state_of(name: Seq<char>) -> Result<InstanceState, StoreErrorView> {
    if name == "cold"@ {
        Ok(InstanceState::Cold)
    } else if name == "waking"@ {
        Ok(InstanceState::Waking)
    } else if name == "running"@ {
        Ok(InstanceState::Running)
    } else if name == "draining"@ {
        Ok(InstanceState::Draining)
    } else if name == "failed"@ {
        Ok(InstanceState::Failed)
    } else if name == "deleting"@ {
        Ok(InstanceState::Deleting)
    } else if name == "deleted"@ {
        Ok(InstanceState::Deleted)
    } else {
        Err(unknown_name("stored instance state "@, name))
    }
}

fn instance_state_from_db(name: &str) -> (r: Result<InstanceState, StoreError>)
    ensures
        outcome::of(r) == instance_state_of(name@),
{
    if text::same(name, "cold") {
        Ok(InstanceState::Cold)
    } else if text::same(name, "waking") {
        Ok(InstanceState::Waking)
    } else if text::same(name, "running") {
        Ok(InstanceState::Running)
    } else if text::same(name, "draining") {
        Ok(InstanceState::Draining)
    } else if text::same(name, "failed") {
        Ok(InstanceState::Failed)
    } else if text::same(name, "deleting") {
        Ok(InstanceState::Deleting)
    } else if text::same(name, "deleted") {
        Ok(InstanceState::Deleted)
    } else {
        Err(unknown("stored instance state ", name))
    }
}

/// The name that a state of a materialization is stored by.
pub open spec fn materialization_state_name(state: MaterializationState) -> Seq<char> {
    match state {
        MaterializationState::Pending => "pending"@,
        MaterializationState::Ready => "ready"@,
        MaterializationState::Failed => "failed"@,
        MaterializationState::Deleting => "deleting"@,
        MaterializationState::Deleted => "deleted"@,
    }
}

/// The name that a state of a materialization is stored by.
pub fn materialization_state_to_db(state: MaterializationState) -> (r: &'static str)
    ensures
        r@ == materialization_state_name(state),
{
    match state {
        MaterializationState::Pending => "pending",
        MaterializationState::Ready => "ready",
        MaterializationState::Failed => "failed",
        MaterializationState::Deleting => "deleting",
        MaterializationState::Deleted => "deleted",
    }
}

/// The state of a materialization by its stored name.
pub open spec fn materialization_state_of(name: Seq<char>) -> Result<
    MaterializationState,
    StoreErrorView,
> {
    if name == "pending"@ {
        Ok(MaterializationState::Pending)
    } else if name == "ready"@ {
        Ok(MaterializationState::Ready)
    } else if name == "failed"@ {
        Ok(MaterializationState::Failed)
    } else if name == "deleting"@ {
        Ok(MaterializationState::Deleting)
    } else if name == "deleted"@ {
        Ok(MaterializationState::Deleted)
    } else {
        Err(unknown_name("stored materialization state "@, name))
    }
}

fn materialization_state_from_db(name: &str) -> (r: Result<MaterializationState, StoreError>)
    ensures
        outcome::of(r) == materialization_state_of(name@),
{
    if text::same(name, "pending") {
        Ok(MaterializationState::Pending)
    } else if text::same(name, "ready") {
        Ok(MaterializationState::Ready)
    } else if text::same(name, "failed") {
        Ok(MaterializationState::Failed)
    } else if text::same(name, "deleting") {
        Ok(MaterializationState::Deleting)
    } else if text::same(name, "deleted") {
        Ok(MaterializationState::Deleted)
    } else {
        Err(unknown("stored materialization state ", name))
    }
}

/// The name that a protocol is stored by.
pub open spec fn protocol_name(protocol: ProtocolRoute) -> Seq<char> {
    match protocol {
        ProtocolRoute::Http => "http"@,
        ProtocolRoute::TlsSni => "tls_sni"@,
    }
}

/// The name that a protocol is stored by.
pub fn protocol_to_db(protocol: ProtocolRoute) -> (r: &'static str)
    ensures
        r@ == protocol_name(protocol),
{
    match protocol {
        ProtocolRoute::Http => "http",
        ProtocolRoute::TlsSni => "tls_sni",
    }
}

/// A protocol by its stored name.
pub open spec fn protocol_of(name: Seq<char>) -> Result<ProtocolRoute, StoreErrorView> {
    if name == "http"@ {
        Ok(ProtocolRoute::Http)
    } else if name == "tls_sni"@ {
        Ok(ProtocolRoute::TlsSni)
    } else {
        Err(unknown_name("stored route protocol "@, name))
    }
}

fn protocol_from_db(name: &str) -> (r: Result<ProtocolRoute, StoreError>)
    ensures
        outcome::of(r) == protocol_of(name@),
{
    if text::same(name, "http") {
        Ok(ProtocolRoute::Http)
    } else if text::same(name, "tls_sni") {
        Ok(ProtocolRoute::TlsSni)
    } else {
        Err(unknown("stored route protocol ", name))
    }
}

/// The name that the kind of a host is stored by.
pub open spec fn host_kind_name(kind: RouteHostKind) -> Seq<char> {
    match kind {
        RouteHostKind::Exact => "exact"@,
        RouteHostKind::WildcardSuffix => "wildcard_suffix"@,
    }
}

/// The name that the kind of a host is stored by.
pub fn route_host_kind_to_db(kind: RouteHostKind) -> (r: &'static str)
    ensures
        r@ == host_kind_name(kind),
{
    match kind {
        RouteHostKind::Exact => "exact",
        RouteHostKind::WildcardSuffix => "wildcard_suffix",
    }
}

/// A stored generation.
pub open spec fn generation_of(value: i64) -> Result<nat, StoreErrorView> {
    if value < 0 {
        Err(broken("stored generation "@ + text::signed_decimal(value as int) + " is invalid"@))
    } else {
        Ok(value as nat)
    }
}

pub(crate) fn generation_from_i64(value: i64) -> (r: Result<Generation, StoreError>)
    ensures
        outcome::of(r) == generation_of(value),
{
    if value < 0 {
        let message = text::join3(
            "stored generation ",
            text::signed_number(value).as_str(),
            " is invalid",
        );
        return Err(StoreError::internal(message.as_str()));
    }
    Ok(Generation::new(value as u64))
}

/// A stored backend generation.
pub open spec fn backend_generation_of(value: i64) -> Result<nat, StoreErrorView> {
    if value < 0 {
        Err(
            broken(
                "stored backend generation "@ + text::signed_decimal(value as int)
                    + " is invalid"@,
            ),
        )
    } else {
        Ok(value as nat)
    }
}

pub(crate) fn backend_generation_from_i64(value: i64) -> (r: Result<BackendGeneration, StoreError>)
    ensures
        outcome::of(r) == backend_generation_of(value),
{
    if value < 0 {
        let message = text::join3(
            "stored backend generation ",
            text::signed_number(value).as_str(),
            " is invalid",
        );
        return Err(StoreError::internal(message.as_str()));
    }
    Ok(BackendGeneration::new(value as u64))
}

/// A generation as it is stored.
pub open spec fn stored_generation(value: nat) -> Result<i64, StoreErrorView> {
    if value <= i64::MAX {
        Ok(value as i64)
    } else {
        Err(refused("generation does not fit in Postgres bigint"@))
    }
}

/// A generation as it is stored.
pub fn generation_to_i64(value: Generation) -> (r: Result<i64, StoreError>)
    ensures
        outcome::of(r) == stored_generation(value@),
{
    let value: u64 = value.get();
    if value > i64::MAX as u64 {
        return Err(StoreError::invalid_argument("generation does not fit in Postgres bigint"));
    }
    Ok(value as i64)
}

/// A backend generation as it is stored.
pub open spec fn stored_backend_generation(value: nat) -> Result<i64, StoreErrorView> {
    if value <= i64::MAX {
        Ok(value as i64)
    } else {
        Err(refused("backend generation does not fit in Postgres bigint"@))
    }
}

/// A backend generation as it is stored.
pub fn backend_generation_to_i64(value: BackendGeneration) -> (r: Result<i64, StoreError>)
    ensures
        outcome::of(r) == stored_backend_generation(value@),
{
    let value: u64 = value.get();
    if value > i64::MAX as u64 {
        return Err(
            StoreError::invalid_argument("backend generation does not fit in Postgres bigint"),
        );
    }
    Ok(value as i64)
}

/// A point in time as it is stored: in milliseconds from the Unix epoch.
pub fn unix_millis_from_system_time(value: SystemTime) -> (r: Result<i64, StoreError>)
    ensures
        outcome::of(r) == match time::epoch_millis(value) {
            Some(millis) => Ok(millis),
            None => Err(refused("system time does not fit in unix millis"@)),
        },
{
    match time::unix_millis(value) {
        Some(millis) => Ok(millis),
        None => Err(StoreError::invalid_argument("system time does not fit in unix millis")),
    }
}

/// For how long it may be kept that there is no route: five seconds.
pub fn default_negative_cache_policy() -> (r: CachePolicy)
    ensures
        r.deep_view() == 5_000_000_000,
{
    CachePolicy::new(Duration::from_secs(5))
}

/// Whether a JSON value is an object of texts.
pub open spec fn is_text_map(value: Json) -> bool {
    match value {
        Json::Object(members) => forall|name: Seq<char>|
            members.contains_key(name) ==> (#[trigger] members[name]) is Text,
        _ => false,
    }
}

/// The texts of a JSON object of texts.
pub open spec fn texts_of(value: Json) -> Map<Seq<char>, Seq<char>> {
    match value {
        Json::Object(members) => members.map_values(|value: Json| value->Text_0),
        _ => Map::empty(),
    }
}

/// Pairs of texts by what they hold.
pub open spec fn text_pairs(pairs: Seq<(String, String)>) -> Seq<(Seq<char>, Seq<char>)> {
    Seq::new(pairs.len(), |i: int| (pairs[i].0@, pairs[i].1@))
}

/// What `serde_json` says of a value that is no map of texts.
pub uninterp spec fn text_map_error(value: serde_json::Value) -> Seq<char>;

/// `serde_json::from_value` to a `BTreeMap` of strings: it takes an object whose
/// members are all strings, and gives them, each name once.
#[verifier::external_body]
fn read_texts(value: &serde_json::Value) -> (r: Result<Vec<(String, String)>, String>)
    ensures
        r is Ok == is_text_map(json::json_of(*value)),
        r matches Ok(pairs) ==> string_map::map_of_pairs(text_pairs(pairs@)) == texts_of(
            json::json_of(*value),
        ),
        r matches Err(message) ==> message@ == text_map_error(*value),
{
    let texts: Result<std::collections::BTreeMap<String, String>, serde_json::Error> =
        serde_json::from_value(value.clone());
    match texts {
        Ok(texts) => Ok(texts.into_iter().collect()),
        Err(error) => Err(format!("{error}")),
    }
}

/// The stored values of an instance.
pub open spec fn values_of(value: serde_json::Value) -> Result<
    Map<Seq<char>, Seq<char>>,
    StoreErrorView,
> {
    if is_text_map(json::json_of(value)) {
        Ok(texts_of(json::json_of(value)))
    } else {
        Err(broken("stored instance values were not a string map: "@ + text_map_error(value)))
    }
}

/// The stored values of an instance.
pub fn values_from_json(value: &serde_json::Value) -> (r: Result<StringMap<String>, StoreError>)
    ensures
        outcome::of(r) == values_of(*value),
{
    let pairs = match read_texts(value) {
        Ok(pairs) => pairs,
        Err(error) => {
            let message = text::join2(
                "stored instance values were not a string map: ",
                error.as_str(),
            );
            return Err(StoreError::internal(message.as_str()));
        },
    };
    let ghost view = text_pairs(pairs@);
    let mut values: StringMap<String> = StringMap::new();
    let mut i: usize = 0;
    assert(view.take(0) =~= Seq::empty());
    while i < pairs.len()
        invariant
            0 <= i <= pairs.len(),
            view == text_pairs(pairs@),
            values.deep_view() == string_map::map_of_pairs(view.take(i as int)),
        decreases pairs.len() - i,
    {
        proof {
            assert(view.take(i + 1).drop_last() =~= view.take(i as int));
            assert(view.take(i + 1).last() == view[i as int]);
        }
        let (name, value) = &pairs[i];
        values.insert(name.as_str(), value.clone());
        i = i + 1;
    }
    assert(view.take(i as int) =~= view);
    Ok(values)
}

/// The values of an instance as they are stored.
pub fn values_to_json(values: &StringMap<String>) -> (r: serde_json::Value)
    ensures
        json::json_of(r) == json::text_map(values.deep_view()),
{
    json::text_map_value(values)
}

/// The JSON of a reference to an object.
pub open spec fn object_ref_json(object: RenderedObjectRefView) -> Json {
    Json::Object(
        json::nothing().insert("api_version"@, Json::Text(object.api_version)).insert(
            "kind"@,
            Json::Text(object.kind),
        ).insert("namespace"@, Json::Text(object.namespace)).insert(
            "name"@,
            Json::Text(object.name),
        ),
    )
}

/// The JSON of references to objects.
pub open spec fn object_refs_json(objects: Seq<RenderedObjectRefView>) -> Json {
    Json::Array(Seq::new(objects.len(), |i: int| object_ref_json(objects[i])))
}

/// The JSON of references to objects.
pub fn rendered_objects_to_json(objects: &Vec<RenderedObjectRef>) -> (r: serde_json::Value)
    ensures
        json::json_of(r) == object_refs_json(objects.deep_view()),
{
    let ghost view = objects.deep_view();
    let mut values: Vec<serde_json::Value> = Vec::new();
    let mut i: usize = 0;
    while i < objects.len()
        invariant
            0 <= i <= objects.len(),
            view == objects.deep_view(),
            values@.len() == i,
            forall|j: int|
                0 <= j < i ==> json::json_of(#[trigger] values@[j]) == object_ref_json(view[j]),
        decreases objects.len() - i,
    {
        let object = &objects[i];
        assert(view[i as int] == object.deep_view());
        let mut members = json::no_members();
        json::put_text(&mut members, "api_version", object.api_version.as_str());
        json::put_text(&mut members, "kind", object.kind.as_str());
        json::put_text(&mut members, "namespace", object.namespace.as_str());
        json::put_text(&mut members, "name", object.name.as_str());
        values.push(json::object_value(members));
        i = i + 1;
    }
    proof {
        let of_values = Seq::new(values@.len(), |i: int| json::json_of(values@[i]));
        assert(of_values =~= Seq::new(view.len(), |i: int| object_ref_json(view[i])));
    }
    json::array_value(values)
}

/// A text member of a stored reference.
pub open spec fn ref_field(value: Json, field: Seq<char>) -> Result<Seq<char>, StoreErrorView> {
    match json::json_text(json::json_member(value, field)) {
        Some(text) => Ok(text),
        None => Err(
            broken(
                "stored rendered object field "@ + text::debug_text(field)
                    + " was not a string"@,
            ),
        ),
    }
}

/// A stored reference.
pub open spec fn object_ref_of(value: Json) -> Result<RenderedObjectRefView, StoreErrorView> {
    if value !is Object {
        Err(broken("stored rendered object entry was not an object"@))
    } else {
        match (
            ref_field(value, "api_version"@),
            ref_field(value, "kind"@),
            ref_field(value, "namespace"@),
            ref_field(value, "name"@),
        ) {
            (Err(error), _, _, _) => Err(error),
            (_, Err(error), _, _) => Err(error),
            (_, _, Err(error), _) => Err(error),
            (_, _, _, Err(error)) => Err(error),
            (Ok(api_version), Ok(kind), Ok(namespace), Ok(name)) => Ok(
                RenderedObjectRefView { api_version, kind, namespace, name },
            ),
        }
    }
}

/// The problem of each of several stored references.
pub open spec fn ref_problems(values: Seq<Json>) -> Seq<Option<StoreErrorView>> {
    Seq::new(values.len(), |i: int| outcome::err_of(object_ref_of(values[i])))
}

/// Several stored references.
pub open spec fn refs_of(values: Seq<Json>) -> Seq<RenderedObjectRefView> {
    Seq::new(values.len(), |i: int| object_ref_of(values[i])->Ok_0)
}

/// Stored references.
pub open spec fn object_refs_of(value: Json) -> Result<
    Seq<RenderedObjectRefView>,
    StoreErrorView,
> {
    match value {
        Json::Array(values) => outcome::checked(
            outcome::first_problem(ref_problems(values), 0),
            refs_of(values),
        ),
        _ => Err(broken("stored rendered objects were not an array"@)),
    }
}

fn take_json_string(value: &serde_json::Value, field: &'static str) -> (r: Result<
    String,
    StoreError,
>)
    ensures
        outcome::of(r) == ref_field(json::json_of(*value), field@),
{
    match json::text_member(value, field) {
        Some(text) => Ok(text.to_owned()),
        None => {
            let message = text::join3(
                "stored rendered object field ",
                text::quoted(field).as_str(),
                " was not a string",
            );
            Err(StoreError::internal(message.as_str()))
        },
    }
}

fn read_object_ref(value: &serde_json::Value) -> (r: Result<RenderedObjectRef, StoreError>)
    ensures
        outcome::of(r) == object_ref_of(json::json_of(*value)),
{
    if !json::is_object(value) {
        return Err(StoreError::internal("stored rendered object entry was not an object"));
    }
    let api_version = match take_json_string(value, "api_version") {
        Ok(text) => text,
        Err(error) => return Err(error),
    };
    let kind = match take_json_string(value, "kind") {
        Ok(text) => text,
        Err(error) => return Err(error),
    };
    let namespace = match take_json_string(value, "namespace") {
        Ok(text) => text,
        Err(error) => return Err(error),
    };
    let name = match take_json_string(value, "name") {
        Ok(text) => text,
        Err(error) => return Err(error),
    };
    Ok(RenderedObjectRef { api_version, kind, namespace, name })
}

/// Stored references.
pub fn rendered_objects_from_json(value: &serde_json::Value) -> (r: Result<
    Vec<RenderedObjectRef>,
    StoreError,
>)
    ensures
        outcome::of(r) == object_refs_of(json::json_of(*value)),
{
    let values = match json::items_of(value) {
        Some(values) => values,
        None => return Err(StoreError::internal("stored rendered objects were not an array")),
    };
    let ghost items = Seq::new(values@.len(), |i: int| json::json_of(values@[i]));
    let ghost problems = ref_problems(items);
    let ghost all = refs_of(items);
    let mut objects: Vec<RenderedObjectRef> = Vec::new();
    let mut i: usize = 0;
    assert(objects.deep_view() =~= all.take(0));
    while i < values.len()
        invariant
            0 <= i <= values.len(),
            json::json_of(*value) == Json::Array(items),
            items == Seq::new(values@.len(), |i: int| json::json_of(values@[i])),
            problems == ref_problems(items),
            all == refs_of(items),
            objects.deep_view() == all.take(i as int),
            forall|j: int| 0 <= j < i ==> (#[trigger] problems[j]) is None,
        decreases values.len() - i,
    {
        let ghost before = objects.deep_view();
        proof {
            assert(items[i as int] == json::json_of(values@[i as int]));
            assert(problems[i as int] == outcome::err_of(object_ref_of(items[i as int])));
            outcome::lemma_first_problem(problems, 0, i as int);
        }
        match read_object_ref(&values[i]) {
            Err(error) => return Err(error),
            Ok(object) => {
                objects.push(object);
                assert(objects.deep_view() =~= before.push(object.deep_view()));
                assert(all.take(i + 1) =~= all.take(i as int).push(all[i as int]));
            },
        }
        i = i + 1;
    }
    proof {
        outcome::lemma_first_problem(problems, 0, i as int);
        assert(all.take(i as int) =~= all);
    }
    Ok(objects)
}

/// What a stored instance says.
pub open spec fn instance_of(row: InstanceRowView) -> Result<InstanceRecordView, StoreErrorView> {
    if text::is_blank(row.instance_id) {
        Err(invalid_stored(ids::empty_string_message("InstanceId"@)))
    } else if text::is_blank(row.workload_class_id) {
        Err(invalid_stored(ids::empty_string_message("WorkloadClassId"@)))
    } else {
        match (
            generation_of(row.workload_class_version),
            values_of(row.values),
            instance_state_of(row.state),
            generation_of(row.generation),
        ) {
            (Err(error), _, _, _) => Err(error),
            (_, Err(error), _, _) => Err(error),
            (_, _, Err(error), _) => Err(error),
            (_, _, _, Err(error)) => Err(error),
            (Ok(version), Ok(values), Ok(state), Ok(generation)) => Ok(
                InstanceRecordView {
                    id: row.instance_id,
                    workload_class: WorkloadClassVersionRefView {
                        class_id: row.workload_class_id,
                        version,
                    },
                    values,
                    state,
                    generation,
                },
            ),
        }
    }
}

/// What a stored instance says.
pub fn instance_from_row(row: &InstanceRow) -> (r: Result<InstanceRecord, StoreError>)
    ensures
        outcome::of(r) == instance_of(row.deep_view()),
{
    let id = match InstanceId::new(row.instance_id.as_str()) {
        Ok(id) => id,
        Err(error) => return Err(invalid_stored_data(error.to_string().as_str())),
    };
    let class_id = match WorkloadClassId::new(row.workload_class_id.as_str()) {
        Ok(class_id) => class_id,
        Err(error) => return Err(invalid_stored_data(error.to_string().as_str())),
    };
    let version = match generation_from_i64(row.workload_class_version) {
        Ok(version) => version,
        Err(error) => return Err(error),
    };
    let values = match values_from_json(&row.values) {
        Ok(values) => values,
        Err(error) => return Err(error),
    };
    let state = match instance_state_from_db(row.state.as_str()) {
        Ok(state) => state,
        Err(error) => return Err(error),
    };
    let generation = match generation_from_i64(row.generation) {
        Ok(generation) => generation,
        Err(error) => return Err(error),
    };
    Ok(
        InstanceRecord {
            id,
            workload_class: WorkloadClassVersionRef { class_id, version },
            values,
            state,
            generation,
        },
    )
}

/// What a stored version of a workload class says.
pub open spec fn class_of(row: WorkloadClassRowView) -> Result<
    WorkloadClassVersionView,
    StoreErrorView,
> {
    if text::is_blank(row.class_id) {
        Err(invalid_stored(ids::empty_string_message("WorkloadClassId"@)))
    } else {
        match (
            generation_of(row.version),
            generation_of(row.template_generation),
            values_of(row.default_values),
        ) {
            (Err(error), _, _) => Err(error),
            (_, Err(error), _) => Err(error),
            (_, _, Err(error)) => Err(error),
            (Ok(version), Ok(template_generation), Ok(default_values)) => Ok(
                WorkloadClassVersionView {
                    reference: WorkloadClassVersionRefView { class_id: row.class_id, version },
                    template_generation,
                    template: row.template,
                    default_values,
                    value_schema: row.value_schema,
                    sleep_policy: row.sleep_policy,
                    exclusivity_keys: row.exclusivity_keys,
                },
            ),
        }
    }
}

/// What a stored version of a workload class says.
pub fn workload_class_version_from_row(row: WorkloadClassRow) -> (r: Result<
    WorkloadClassVersion,
    StoreError,
>)
    ensures
        outcome::of(r) == class_of(row.deep_view()),
{
    let class_id = match WorkloadClassId::new(row.class_id.as_str()) {
        Ok(class_id) => class_id,
        Err(error) => return Err(invalid_stored_data(error.to_string().as_str())),
    };
    let version = match generation_from_i64(row.version) {
        Ok(version) => version,
        Err(error) => return Err(error),
    };
    let template_generation = match generation_from_i64(row.template_generation) {
        Ok(template_generation) => template_generation,
        Err(error) => return Err(error),
    };
    let default_values = match values_from_json(&row.default_values) {
        Ok(default_values) => default_values,
        Err(error) => return Err(error),
    };
    Ok(
        WorkloadClassVersion {
            reference: WorkloadClassVersionRef { class_id, version },
            template_generation,
            template: row.template,
            default_values,
            value_schema: row.value_schema,
            sleep_policy: row.sleep_policy,
            exclusivity_keys: row.exclusivity_keys,
        },
    )
}

/// The key that a stored route is told by.
pub open spec fn identity_key(identity: RouteIdentityView) -> Seq<char> {
    match identity {
        RouteIdentityView::Http { host, path } => "http:"@ + host_kind_name(host.kind) + ":"@
            + host.host + ":"@ + (match path {
            Some(path) => path,
            None => Seq::empty(),
        }),
        RouteIdentityView::Sni { host } => "sni:"@ + host_kind_name(host.kind) + ":"@ + host.host,
    }
}

/// The key that a stored route is told by.
pub fn route_identity_key(identity: &RouteIdentity) -> (r: String)
    ensures
        r@ == identity_key(identity.deep_view()),
{
    match identity {
        RouteIdentity::Http { host, path } => {
            let key = text::join5(
                "http:",
                route_host_kind_to_db(host.kind()),
                ":",
                host.as_str(),
                ":",
            );
            match path {
                Some(path) => text::appended(key, path.as_str()),
                None => {
                    assert(key@ + Seq::<char>::empty() =~= key@);
                    key
                },
            }
        },
        RouteIdentity::Sni { host } => text::join4(
            "sni:",
            route_host_kind_to_db(host.kind()),
            ":",
            host.as_str(),
        ),
    }
}

/// An identity of a route as it is stored.
pub open spec fn parts_of(identity: RouteIdentityView) -> RouteIdentityPartsView {
    match identity {
        RouteIdentityView::Http { host, path } => RouteIdentityPartsView {
            key: identity_key(identity),
            identity_kind: "http"@,
            host_kind: host_kind_name(host.kind),
            host: host.host,
            path_prefix: path,
        },
        RouteIdentityView::Sni { host } => RouteIdentityPartsView {
            key: identity_key(identity),
            identity_kind: "sni"@,
            host_kind: host_kind_name(host.kind),
            host: host.host,
            path_prefix: None,
        },
    }
}

/// An identity of a route as it is stored.
pub fn route_identity_parts(identity: &RouteIdentity) -> (r: RouteIdentityParts)
    ensures
        r.deep_view() == parts_of(identity.deep_view()),
{
    let key = route_identity_key(identity);
    match identity {
        RouteIdentity::Http { host, path } => RouteIdentityParts {
            key,
            identity_kind: "http",
            host_kind: route_host_kind_to_db(host.kind()),
            host: host.as_str().to_owned(),
            path_prefix: match path {
                Some(path) => Some(path.as_str().to_owned()),
                None => None,
            },
        },
        RouteIdentity::Sni { host } => RouteIdentityParts {
            key,
            identity_kind: "sni",
            host_kind: route_host_kind_to_db(host.kind()),
            host: host.as_str().to_owned(),
            path_prefix: None,
        },
    }
}

/// A stored host.
pub open spec fn stored_host(host_kind: Seq<char>, host: Seq<char>) -> Result<
    RouteHostView,
    StoreErrorView,
> {
    if host_kind == "exact"@ {
        let name = route::normal_host(host);
        if text::is_blank(name) {
            Err(invalid_stored("route host must not be empty"@))
        } else {
            Ok(RouteHostView { kind: RouteHostKind::Exact, host: name })
        }
    } else if host_kind == "wildcard_suffix"@ {
        let name = route::without_wildcard(route::normal_host(host));
        if text::is_blank(name) {
            Err(invalid_stored("route host must not be empty"@))
        } else {
            Ok(RouteHostView { kind: RouteHostKind::WildcardSuffix, host: name })
        }
    } else {
        Err(unknown_name("stored route host kind "@, host_kind))
    }
}

/// A stored identity of a route.
pub open spec fn identity_of(
    identity_kind: Seq<char>,
    host_kind: Seq<char>,
    host: Seq<char>,
    path_prefix: Option<Seq<char>>,
) -> Result<RouteIdentityView, StoreErrorView> {
    match stored_host(host_kind, host) {
        Err(error) => Err(error),
        Ok(host) => if identity_kind == "http"@ {
            if path_prefix matches Some(path) && !text::has_prefix(path, "/"@) {
                Err(invalid_stored("path prefix must start with '/'"@))
            } else {
                Ok(RouteIdentityView::Http { host, path: path_prefix })
            }
        } else if identity_kind == "sni"@ {
            Ok(RouteIdentityView::Sni { host })
        } else {
            Err(unknown_name("stored route identity kind "@, identity_kind))
        },
    }
}

fn route_host_from_db(host_kind: &str, host: &str) -> (r: Result<RouteHost, StoreError>)
    ensures
        outcome::of(r) == stored_host(host_kind@, host@),
{
    let read = if text::same(host_kind, "exact") {
        RouteHost::exact(host)
    } else if text::same(host_kind, "wildcard_suffix") {
        RouteHost::wildcard_suffix(host)
    } else {
        return Err(unknown("stored route host kind ", host_kind));
    };
    match read {
        Ok(host) => Ok(host),
        Err(error) => Err(invalid_stored_data(error.to_string().as_str())),
    }
}

fn route_identity_from_parts(
    identity_kind: &str,
    host_kind: &str,
    host: &str,
    path_prefix: &Option<String>,
) -> (r: Result<RouteIdentity, StoreError>)
    ensures
        outcome::of(r) == identity_of(
            identity_kind@,
            host_kind@,
            host@,
            path_prefix.deep_view(),
        ),
{
    let host = match route_host_from_db(host_kind, host) {
        Ok(host) => host,
        Err(error) => return Err(error),
    };
    if text::same(identity_kind, "http") {
        let path = match path_prefix {
            None => None,
            Some(path) => match PathPrefix::new(path.as_str()) {
                Ok(path) => Some(path),
                Err(error) => return Err(invalid_stored_data(error.to_string().as_str())),
            },
        };
        Ok(RouteIdentity::Http { host, path })
    } else if text::same(identity_kind, "sni") {
        Ok(RouteIdentity::Sni { host })
    } else {
        Err(unknown("stored route identity kind ", identity_kind))
    }
}

/// What a stored route says.
pub open spec fn route_of(row: RouteRowView) -> Result<RouteBindingRecordView, StoreErrorView> {
    if text::is_blank(row.route_binding_id) {
        Err(invalid_stored(ids::empty_string_message("RouteBindingId"@)))
    } else if text::is_blank(row.instance_id) {
        Err(invalid_stored(ids::empty_string_message("InstanceId"@)))
    } else {
        match (
            identity_of(row.identity_kind, row.host_kind, row.host, row.path_prefix),
            protocol_of(row.protocol),
        ) {
            (Err(error), _) => Err(error),
            (_, Err(error)) => Err(error),
            (Ok(identity), Ok(protocol)) => Ok(
                RouteBindingRecordView {
                    id: row.route_binding_id,
                    instance_id: row.instance_id,
                    identity,
                    protocol,
                },
            ),
        }
    }
}

/// What a stored route says.
pub fn route_binding_from_row(row: &RouteRow) -> (r: Result<RouteBindingRecord, StoreError>)
    ensures
        outcome::of(r) == route_of(row.deep_view()),
{
    let id = match RouteBindingId::new(row.route_binding_id.as_str()) {
        Ok(id) => id,
        Err(error) => return Err(invalid_stored_data(error.to_string().as_str())),
    };
    let instance_id = match InstanceId::new(row.instance_id.as_str()) {
        Ok(instance_id) => instance_id,
        Err(error) => return Err(invalid_stored_data(error.to_string().as_str())),
    };
    let identity = match route_identity_from_parts(
        row.identity_kind.as_str(),
        row.host_kind.as_str(),
        row.host.as_str(),
        &row.path_prefix,
    ) {
        Ok(identity) => identity,
        Err(error) => return Err(error),
    };
    match protocol_from_db(row.protocol.as_str()) {
        Ok(protocol) => Ok(RouteBindingRecord { id, instance_id, identity, protocol }),
        Err(error) => Err(error),
    }
}

/// A route as it is stored.
pub open spec fn route_row_of(
    route_binding_id: Seq<char>,
    instance_id: Seq<char>,
    identity: RouteIdentityView,
    protocol: ProtocolRoute,
) -> RouteRowView {
    let parts = parts_of(identity);
    RouteRowView {
        route_binding_id,
        instance_id,
        identity_kind: parts.identity_kind,
        host_kind: parts.host_kind,
        host: parts.host,
        path_prefix: parts.path_prefix,
        protocol: protocol_name(protocol),
    }
}

/// A route as it is stored.
pub fn route_row(
    route_binding_id: &str,
    instance_id: &InstanceId,
    identity: &RouteIdentity,
    protocol: ProtocolRoute,
) -> (r: RouteRow)
    ensures
        r.deep_view() == route_row_of(
            route_binding_id@,
            instance_id@,
            identity.deep_view(),
            protocol,
        ),
{
    let parts = route_identity_parts(identity);
    RouteRow {
        route_binding_id: route_binding_id.to_owned(),
        instance_id: instance_id.to_string(),
        identity_kind: parts.identity_kind.to_owned(),
        host_kind: parts.host_kind.to_owned(),
        host: parts.host,
        path_prefix: parts.path_prefix,
        protocol: protocol_to_db(protocol).to_owned(),
    }
}

/// Where a route leads.
pub open spec fn entry_of(
    route: RouteBindingRecordView,
    instance: InstanceRecordView,
    materialization: Option<MaterializationRecordView>,
) -> RouteEntryView {
    RouteEntryView {
        route_binding_id: route.id,
        instance_id: instance.id,
        instance_state: instance.state,
        instance_generation: instance.generation,
        backend: match materialization {
            Some(record) => record.backend,
            None => None,
        },
        backend_generation: match materialization {
            Some(record) => Some(record.backend_generation),
            None => None,
        },
    }
}

/// Where a route leads, by its instance and the materialization that is ready.
pub fn route_entry_from_rows(
    route: &RouteBindingRecord,
    instance: InstanceRecord,
    materialization: Option<MaterializationRecord>,
) -> (r: RouteEntry)
    ensures
        r.deep_view() == entry_of(
            route.deep_view(),
            instance.deep_view(),
            materialization.deep_view(),
        ),
{
    let (backend, backend_generation) = match materialization {
        Some(record) => (record.backend, Some(record.backend_generation)),
        None => (None, None),
    };
    RouteEntry {
        route_binding_id: route.id.clone(),
        instance_id: instance.id,
        instance_state: instance.state,
        instance_generation: instance.generation,
        backend,
        backend_generation,
    }
}

/// What is wrong with a route whose protocol is not that of its identity.
pub open spec fn protocol_problem(identity: RouteIdentityView, protocol: ProtocolRoute) -> Option<
    StoreErrorView,
> {
    match (identity, protocol) {
        (RouteIdentityView::Http { .. }, ProtocolRoute::TlsSni) => Some(
            refused("HTTP route identities must use the HTTP protocol route"@),
        ),
        (RouteIdentityView::Sni { .. }, ProtocolRoute::Http) => Some(
            refused("SNI route identities must use the TLS SNI protocol route"@),
        ),
        _ => None,
    }
}

/// Checks that the protocol of a route is that of its identity.
pub fn validate_route_protocol(spec: &RouteBindingSpec) -> (r: Result<(), StoreError>)
    ensures
        outcome::problem(r) == protocol_problem(
            spec.deep_view().identity,
            spec.deep_view().protocol,
        ),
{
    match (&spec.identity, spec.protocol) {
        (RouteIdentity::Http { .. }, ProtocolRoute::TlsSni) => Err(
            StoreError::invalid_argument("HTTP route identities must use the HTTP protocol route"),
        ),
        (RouteIdentity::Sni { .. }, ProtocolRoute::Http) => Err(
            StoreError::invalid_argument(
                "SNI route identities must use the TLS SNI protocol route",
            ),
        ),
        _ => Ok(()),
    }
}

/// How specifically a stored route matches a request, where it does.
pub fn route_matches(binding: &RouteIdentity, lookup: &RouteIdentity) -> (r: Option<
    RouteMatchScore,
>)
    ensures
        r == route::match_score(binding.deep_view(), lookup.deep_view()),
{
    route::route_match_score(binding, lookup)
}

/// The ID of the materialization of an instance on a target.
pub open spec fn materialization_id_of(
    instance_id: Seq<char>,
    target: MaterializationTargetView,
) -> Seq<char> {
    instance_id + ":"@ + target.cluster_id + ":"@ + target.namespace
}

/// The ID of the materialization of an instance on a target.
pub fn materialization_id(instance_id: &InstanceId, target: &MaterializationTarget) -> (r: Result<
    MaterializationId,
    StoreError,
>)
    ensures
        r matches Ok(id) && id@ == materialization_id_of(instance_id@, target.deep_view()),
{
    let id = text::join5(
        instance_id.as_str(),
        ":",
        target.cluster_id(),
        ":",
        target.namespace(),
    );
    proof {
        assert(id@.take(instance_id@.len() as int) =~= instance_id@);
        lemma_prefix_is_not_blank(instance_id@, id@);
    }
    match MaterializationId::new(id.as_str()) {
        Ok(id) => Ok(id),
        Err(error) => Err(invalid_stored_data(error.to_string().as_str())),
    }
}

/// A text with another that is not blank at its beginning is not blank.
pub proof fn lemma_prefix_is_not_blank(prefix: Seq<char>, whole: Seq<char>)
    requires
        !text::is_blank(prefix),
        prefix.len() <= whole.len(),
        whole.take(prefix.len() as int) == prefix,
    ensures
        !text::is_blank(whole),
{
    text::lemma_trimmed_blank(prefix);
    text::lemma_trimmed_blank(whole);
    let i = choose|i: int| 0 <= i < prefix.len() && !text::is_white_space(#[trigger] prefix[i]);
    assert(whole[i] == prefix[i]);
}

/// What a stored materialization says.
pub open spec fn materialization_of(row: MaterializationRowView) -> Result<
    MaterializationRecordView,
    StoreErrorView,
> {
    if text::is_blank(row.materialization_id) {
        Err(invalid_stored(ids::empty_string_message("MaterializationId"@)))
    } else if text::is_blank(row.instance_id) {
        Err(invalid_stored(ids::empty_string_message("InstanceId"@)))
    } else if generation_of(row.instance_generation) is Err {
        Err(generation_of(row.instance_generation)->Err_0)
    } else if generation_of(row.projection_generation) is Err {
        Err(generation_of(row.projection_generation)->Err_0)
    } else if text::is_blank(row.cluster_id) {
        Err(invalid_stored("materialization target cluster_id must not be empty"@))
    } else if text::is_blank(row.namespace) {
        Err(invalid_stored("materialization target namespace must not be empty"@))
    } else if materialization_state_of(row.state) is Err {
        Err(materialization_state_of(row.state)->Err_0)
    } else if row.backend_uri matches Some(uri) && text::is_blank(uri) {
        Err(invalid_stored(ids::empty_string_message("backend.uri"@)))
    } else if backend_generation_of(row.backend_generation) is Err {
        Err(backend_generation_of(row.backend_generation)->Err_0)
    } else {
        match object_refs_of(json::json_of(row.rendered_objects)) {
            Err(error) => Err(error),
            Ok(rendered_objects) => Ok(
                MaterializationRecordView {
                    id: row.materialization_id,
                    instance_id: row.instance_id,
                    instance_generation: row.instance_generation as nat,
                    projection_generation: row.projection_generation as nat,
                    target: MaterializationTargetView {
                        cluster_id: row.cluster_id,
                        namespace: row.namespace,
                    },
                    state: materialization_state_of(row.state)->Ok_0,
                    backend: row.backend_uri,
                    backend_generation: row.backend_generation as nat,
                    rendered_objects,
                    exclusivity_keys: row.exclusivity_keys,
                },
            ),
        }
    }
}

/// What a stored materialization says.
pub fn materialization_from_row(row: MaterializationRow) -> (r: Result<
    MaterializationRecord,
    StoreError,
>)
    ensures
        outcome::of(r) == materialization_of(row.deep_view()),
{
    let id = match MaterializationId::new(row.materialization_id.as_str()) {
        Ok(id) => id,
        Err(error) => return Err(invalid_stored_data(error.to_string().as_str())),
    };
    let instance_id = match InstanceId::new(row.instance_id.as_str()) {
        Ok(instance_id) => instance_id,
        Err(error) => return Err(invalid_stored_data(error.to_string().as_str())),
    };
    let instance_generation = match generation_from_i64(row.instance_generation) {
        Ok(generation) => generation,
        Err(error) => return Err(error),
    };
    let projection_generation = match generation_from_i64(row.projection_generation) {
        Ok(generation) => generation,
        Err(error) => return Err(error),
    };
    let target = match MaterializationTarget::new(
        row.cluster_id.as_str(),
        row.namespace.as_str(),
    ) {
        Ok(target) => target,
        Err(error) => {
            proof {
                reveal_strlit("materialization target cluster_id must not be empty");
                reveal_strlit("materialization target namespace must not be empty");
                reveal_strlit("materialization target ");
                reveal_strlit("cluster_id");
                reveal_strlit("namespace");
                reveal_strlit(" must not be empty");
                assert("materialization target "@ + "cluster_id"@ + " must not be empty"@
                    =~= "materialization target cluster_id must not be empty"@);
                assert("materialization target "@ + "namespace"@ + " must not be empty"@
                    =~= "materialization target namespace must not be empty"@);
            }
            return Err(invalid_stored_data(error.to_string().as_str()));
        },
    };
    let state = match materialization_state_from_db(row.state.as_str()) {
        Ok(state) => state,
        Err(error) => return Err(error),
    };
    let backend = match &row.backend_uri {
        None => None,
        Some(uri) => match BackendEndpoint::new(uri.as_str()) {
            Ok(backend) => Some(backend),
            Err(error) => return Err(invalid_stored_data(error.to_string().as_str())),
        },
    };
    let backend_generation = match backend_generation_from_i64(row.backend_generation) {
        Ok(generation) => generation,
        Err(error) => return Err(error),
    };
    let rendered_objects = match rendered_objects_from_json(&row.rendered_objects) {
        Ok(rendered_objects) => rendered_objects,
        Err(error) => return Err(error),
    };
    Ok(
        MaterializationRecord {
            id,
            instance_id,
            instance_generation,
            projection_generation,
            target,
            state,
            backend,
            backend_generation,
            rendered_objects,
            exclusivity_keys: row.exclusivity_keys,
        },
    )
}

/// States are read back from the names that they are stored by.
pub proof fn lemma_state_names_round_trip(
    state: InstanceState,
    materialization_state: MaterializationState,
)
    ensures
        instance_state_of(instance_state_name(state)) == Ok::<InstanceState, StoreErrorView>(state),
        materialization_state_of(materialization_state_name(materialization_state)) == Ok::<
            MaterializationState,
            StoreErrorView,
        >(materialization_state),
{
    reveal_strlit("cold");
    reveal_strlit("waking");
    reveal_strlit("running");
    reveal_strlit("draining");
    reveal_strlit("failed");
    reveal_strlit("deleting");
    reveal_strlit("deleted");
    reveal_strlit("pending");
    reveal_strlit("ready");
    assert("cold"@[0] == 'c');
    assert("waking"@[0] == 'w');
    assert("running"@[0] == 'r' && "running"@.len() == 7);
    assert("draining"@[1] == 'r' && "draining"@[0] == 'd');
    assert("failed"@[0] == 'f');
    assert("deleting"@.len() == 8 && "deleting"@[1] == 'e');
    assert("deleted"@.len() == 7 && "deleted"@[0] == 'd');
    assert("pending"@[0] == 'p');
    assert("ready"@[0] == 'r' && "ready"@.len() == 5);
}

/// Generations are read back as they were stored.
pub proof fn lemma_generations_round_trip(value: nat)
    ensures
        stored_generation(value) matches Ok(stored) ==> generation_of(stored) == Ok::<
            nat,
            StoreErrorView,
        >(value),
        stored_backend_generation(value) matches Ok(stored) ==> backend_generation_of(stored)
            == Ok::<nat, StoreErrorView>(value),
{
}

/// The values of an instance are read back as they were stored.
pub proof fn lemma_values_round_trip(values: Map<Seq<char>, Seq<char>>)
    ensures
        is_text_map(json::text_map(values)),
        texts_of(json::text_map(values)) == values,
{
    assert(texts_of(json::text_map(values)) =~= values);
}

/// References to objects are read back as they were stored.
pub proof fn lemma_object_refs_round_trip(objects: Seq<RenderedObjectRefView>)
    ensures
        object_refs_of(object_refs_json(objects)) == Ok::<
            Seq<RenderedObjectRefView>,
            StoreErrorView,
        >(objects),
{
    reveal_strlit("api_version");
    reveal_strlit("kind");
    reveal_strlit("namespace");
    reveal_strlit("name");
    assert("api_version"@.len() == 11 && "kind"@.len() == 4 && "namespace"@.len() == 9
        && "name"@.len() == 4);
    assert("kind"@[0] == 'k' && "name"@[0] == 'n');
    let values = Seq::new(objects.len(), |i: int| object_ref_json(objects[i]));
    assert forall|i: int| 0 <= i < values.len() implies object_ref_of(#[trigger] values[i]) == Ok::<
        RenderedObjectRefView,
        StoreErrorView,
    >(objects[i]) by {
        assert(values[i] == object_ref_json(objects[i]));
    }
    let problems = ref_problems(values);
    assert forall|i: int| 0 <= i < problems.len() implies (#[trigger] problems[i]) is None by {
        assert(object_ref_of(values[i]) is Ok);
    }
    outcome::lemma_first_problem(problems, 0, problems.len() as int);
    assert(refs_of(values) =~= objects) by {
        assert forall|i: int| 0 <= i < values.len() implies refs_of(values)[i] == objects[i] by {
            assert(object_ref_of(values[i]) is Ok);
        }
    }
}

/// A route is read back as it was stored, with its host and path in their normal
/// form.
pub proof fn lemma_routes_round_trip(
    route_binding_id: Seq<char>,
    instance_id: Seq<char>,
    identity: RouteIdentityView,
    protocol: ProtocolRoute,
)
    requires
        !text::is_blank(route_binding_id),
        !text::is_blank(instance_id),
        route::normal_identity(identity),
    ensures
        route_of(route_row_of(route_binding_id, instance_id, identity, protocol)) == Ok::<
            RouteBindingRecordView,
            StoreErrorView,
        >(RouteBindingRecordView { id: route_binding_id, instance_id, identity, protocol }),
{
    reveal_strlit("http");
    reveal_strlit("sni");
    reveal_strlit("tls_sni");
    reveal_strlit("exact");
    reveal_strlit("wildcard_suffix");
    assert("http"@.len() == 4 && "sni"@.len() == 3 && "tls_sni"@.len() == 7);
    assert("exact"@.len() == 5 && "wildcard_suffix"@.len() == 15);
}

} // verus!
