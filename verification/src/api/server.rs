//! The API of operators: what its messages stand for, and how its calls are
//! answered.
use std::time::SystemTime;

use vstd::prelude::*;

use super::pb;
use super::status;
use super::status::ApiStatus;
use super::status::ApiStatusView;
use super::status::StatusCode;
use super::template;
use crate::ids::EmptyStringError;
use crate::ids::Generation;
use crate::ids::IdempotencyKey;
use crate::ids::InstanceId;
use crate::ids::MaterializationId;
use crate::ids::RouteBindingId;
use crate::ids::WorkloadClassId;
use crate::http01;
use crate::http01::DeleteHttp01ChallengeRequest;
use crate::http01::DeleteHttp01ChallengeRequestView;
use crate::http01::ExpireHttp01ChallengesRequest;
use crate::http01::ExpireHttp01ChallengesRequestView;
use crate::http01::Http01ChallengeKey;
use crate::http01::Http01ChallengeKeyView;
use crate::http01::Http01ChallengeRecord;
use crate::http01::Http01ChallengeRecordView;
use crate::http01::PutHttp01ChallengeRequest;
use crate::http01::PutHttp01ChallengeRequestView;
use crate::ids;
use crate::instance::CreateInstanceRequest;
use crate::instance::CreateInstanceRequestView;
use crate::instance::InstanceRecord;
use crate::instance::InstanceState;
use crate::instance::RequestInstanceDeletion;
use crate::instance::RequestInstanceDeletionView;
use crate::materialization::MaterializationRecord;
use crate::materialization::MaterializationRecordView;
use crate::materialization::MaterializationState;
use crate::materialization::MaterializationTarget;
use crate::materialization::MaterializationTargetView;
use crate::materialization::RenderedObjectRef;
use crate::materialization::RenderedObjectRefView;
use crate::outcome;
use crate::route::CreateRouteBindingRequest;
use crate::route::CreateRouteBindingRequestView;
use crate::route::InvalidRoute;
use crate::route::PathPrefix;
use crate::route::ProtocolRoute;
use crate::route::RouteBindingRecord;
use crate::route::RouteBindingRecordView;
use crate::route::RouteHost;
use crate::route::RouteHostKind;
use crate::route::RouteHostView;
use crate::route::RouteIdentity;
use crate::route::RouteIdentityView;
use crate::route;
use crate::sleep_policy::IdleTimeoutOverridePolicy;
use crate::sleep_policy::IdleTimeoutOverridePolicyView;
use crate::sleep_policy::WorkloadSleepPolicy;
use crate::sleep_policy::WorkloadSleepPolicyView;
use crate::sleep_policy;
use crate::string_map::StringMap;
use crate::string_map;
use crate::text;
use crate::time;
use crate::workload::CreateWorkloadClassVersionRequest;
use crate::workload::CreateWorkloadClassVersionRequestView;
use crate::workload::LoadWorkloadClassVersionRequest;
use crate::workload::LoadWorkloadClassVersionRequestView;
use crate::workload::WorkloadClassVersion;
use crate::workload::WorkloadClassVersionRef;
use crate::workload::WorkloadClassVersionRefView;
use crate::workload::WorkloadClassVersionView;
use crate::workload::WorkloadExclusivityKeyTemplate;
use crate::workload::WorkloadExclusivityKeyTemplateView;
use crate::workload::WorkloadValueFieldRule;
use crate::workload::WorkloadValueFieldRuleView;
use crate::workload::WorkloadValueSchema;
use crate::workload::WorkloadValueSchemaView;
use crate::workload;

verus! {

pub const OPERATOR_SERVICE_NAME: &'static str = "sleepypods.controlplane.v1.OperatorControlPlane";

/// The calls that an operator makes.
pub const OPERATOR_UNARY_METHODS: [&'static str; 20] = [
    "ReencryptCertificate",
    "RemoveCertificate",
    "GetTlsBinding",
    "SetTlsBinding",
    "GetCertificateMetadata",
    "PublishCertificate",
    "CreateWorkloadClassVersion",
    "GetWorkloadClassVersion",
    "CreateInstance",
    "GetInstance",
    "DeleteInstance",
    "CreateRouteBinding",
    "GetRouteBinding",
    "DeleteRouteBinding",
    "PutHttp01Challenge",
    "DeleteHttp01Challenge",
    "ExpireHttp01Challenges",
    "ReconcileMaterialization",
    "ForceDeleteMaterialization",
    "ForceReleaseExclusivityKey",
];

/// Answers every call of an operator as one that only a store can answer.
#[derive(Clone, Copy, Debug)]
pub struct OperatorApiPlaceholder;

impl OperatorApiPlaceholder {
    pub fn new() -> Self {
        OperatorApiPlaceholder
    }
}

/// How a call is answered that only a store can answer.
pub fn placeholder_status(method: &'static str) -> (r: ApiStatus)
    ensures
        r.deep_view() == status::failure(
            StatusCode::Unimplemented,
            method@ + " transport is scaffolded; store-backed behavior is deferred"@,
        ),
{
    let message = text::join2(
        method,
        " transport is scaffolded; store-backed behavior is deferred",
    );
    ApiStatus::new(StatusCode::Unimplemented, message.as_str())
}

/// What is wrong with an identifier: it is blank.
pub open spec fn id_problem(value: Seq<char>, kind: Seq<char>) -> Option<ApiStatusView> {
    if text::is_blank(value) {
        Some(status::invalid_argument(ids::empty_string_message(kind)))
    } else {
        None
    }
}

fn blank_status(error: &EmptyStringError) -> (r: ApiStatus)
    ensures
        r.deep_view() == status::invalid_argument(ids::empty_string_message(error@)),
{
    ApiStatus::invalid_argument(error.to_string().as_str())
}

pub(crate) fn parse_idempotency_key(value: &str) -> (r: Result<IdempotencyKey, ApiStatus>)
    ensures
        outcome::of(r) == outcome::checked(id_problem(value@, "IdempotencyKey"@), value@),
{
    match IdempotencyKey::new(value) {
        Ok(id) => Ok(id),
        Err(error) => Err(blank_status(&error)),
    }
}

pub(crate) fn parse_instance_id(value: &str) -> (r: Result<InstanceId, ApiStatus>)
    ensures
        outcome::of(r) == outcome::checked(id_problem(value@, "InstanceId"@), value@),
{
    match InstanceId::new(value) {
        Ok(id) => Ok(id),
        Err(error) => Err(blank_status(&error)),
    }
}

pub(crate) fn parse_route_binding_id(value: &str) -> (r: Result<RouteBindingId, ApiStatus>)
    ensures
        outcome::of(r) == outcome::checked(id_problem(value@, "RouteBindingId"@), value@),
{
    match RouteBindingId::new(value) {
        Ok(id) => Ok(id),
        Err(error) => Err(blank_status(&error)),
    }
}

pub(crate) fn parse_materialization_id(value: &str) -> (r: Result<MaterializationId, ApiStatus>)
    ensures
        outcome::of(r) == outcome::checked(id_problem(value@, "MaterializationId"@), value@),
{
    match MaterializationId::new(value) {
        Ok(id) => Ok(id),
        Err(error) => Err(blank_status(&error)),
    }
}

pub(crate) fn parse_workload_class_id(value: &str) -> (r: Result<WorkloadClassId, ApiStatus>)
    ensures
        outcome::of(r) == outcome::checked(id_problem(value@, "WorkloadClassId"@), value@),
{
    match WorkloadClassId::new(value) {
        Ok(id) => Ok(id),
        Err(error) => Err(blank_status(&error)),
    }
}

/// What is wrong with a reference to a workload class.
pub open spec fn class_ref_problem(reference: pb::WorkloadClassVersionRefView) -> Option<
    ApiStatusView,
> {
    id_problem(reference.class_id, "WorkloadClassId"@)
}

/// What a reference to a workload class is.
pub open spec fn class_ref_of(
    reference: pb::WorkloadClassVersionRefView,
) -> WorkloadClassVersionRefView {
    WorkloadClassVersionRefView {
        class_id: reference.class_id,
        version: reference.version as nat,
    }
}

/// What is wrong with a reference to a workload class that is required.
pub open spec fn required_class_ref_problem(
    reference: Option<pb::WorkloadClassVersionRefView>,
    message: Seq<char>,
) -> Option<ApiStatusView> {
    match reference {
        None => Some(status::invalid_argument(message)),
        Some(reference) => class_ref_problem(reference),
    }
}

fn workload_class_ref_from_proto(reference: &pb::WorkloadClassVersionRef) -> (r: Result<
    WorkloadClassVersionRef,
    ApiStatus,
>)
    ensures
        outcome::of(r) == outcome::checked(
            class_ref_problem(reference.deep_view()),
            class_ref_of(reference.deep_view()),
        ),
{
    match parse_workload_class_id(reference.class_id.as_str()) {
        Err(error) => Err(error),
        Ok(class_id) => Ok(
            WorkloadClassVersionRef::new(class_id, Generation::new(reference.version)),
        ),
    }
}

fn required_class_ref(reference: &Option<pb::WorkloadClassVersionRef>, message: &str) -> (r: Result<
    WorkloadClassVersionRef,
    ApiStatus,
>)
    ensures
        outcome::of(r) == outcome::checked(
            required_class_ref_problem(reference.deep_view(), message@),
            class_ref_of(reference.deep_view()->0),
        ),
{
    match reference {
        None => Err(ApiStatus::invalid_argument(message)),
        Some(reference) => workload_class_ref_from_proto(reference),
    }
}

/// The version of a workload class that a call asks for.
pub fn get_workload_class_version_request(reference: &Option<pb::WorkloadClassVersionRef>) -> (r:
    Result<LoadWorkloadClassVersionRequest, ApiStatus>)
    ensures
        outcome::of(r) == outcome::checked(
            required_class_ref_problem(reference.deep_view(), "reference is required"@),
            LoadWorkloadClassVersionRequestView {
                reference: class_ref_of(reference.deep_view()->0),
            },
        ),
{
    match required_class_ref(reference, "reference is required") {
        Err(error) => Err(error),
        Ok(reference) => Ok(LoadWorkloadClassVersionRequest::new(reference)),
    }
}

/// The pairs of a map in a message, in their order.
pub open spec fn string_pairs(entries: Seq<pb::StringEntryView>) -> Seq<(Seq<char>, Seq<char>)> {
    entries.map_values(|entry: pb::StringEntryView| (entry.key, entry.value))
}

/// The map in a message: of two values under one key the last.
pub open spec fn strings_of(entries: Seq<pb::StringEntryView>) -> Map<Seq<char>, Seq<char>> {
    string_map::map_of_pairs(string_pairs(entries))
}

fn strings_from_proto(entries: &Vec<pb::StringEntry>) -> (r: StringMap<String>)
    ensures
        r.deep_view() == strings_of(entries.deep_view()),
{
    let ghost pairs = string_pairs(entries.deep_view());
    let mut map: StringMap<String> = StringMap::new();
    let mut i: usize = 0;
    assert(pairs.take(0) =~= Seq::empty());
    while i < entries.len()
        invariant
            0 <= i <= entries.len(),
            pairs == string_pairs(entries.deep_view()),
            map.deep_view() == string_map::map_of_pairs(pairs.take(i as int)),
        decreases entries.len() - i,
    {
        assert(pairs[i as int] == (entries@[i as int].key@, entries@[i as int].value@));
        map.insert(entries[i].key.as_str(), entries[i].value.clone());
        assert(pairs.take(i + 1).drop_last() =~= pairs.take(i as int));
        i = i + 1;
    }
    assert(pairs.take(i as int) =~= pairs);
    map
}

/// The message of a map, in key order.
pub open spec fn strings_message(pairs: Seq<(Seq<char>, Seq<char>)>) -> Seq<pb::StringEntryView> {
    pairs.map_values(
        |pair: (Seq<char>, Seq<char>)| pb::StringEntryView { key: pair.0, value: pair.1 },
    )
}

fn strings_to_proto(map: &StringMap<String>) -> (r: Vec<pb::StringEntry>)
    ensures
        r.deep_view() == strings_message(map.pairs()),
{
    let mut entries: Vec<pb::StringEntry> = Vec::new();
    let count: usize = map.len();
    let mut i: usize = 0;
    while i < count
        invariant
            0 <= i <= count,
            count == map.pairs().len(),
            entries.len() == i,
            forall|j: int|
                0 <= j < i ==> (#[trigger] entries@[j]).deep_view() == (pb::StringEntryView {
                    key: map.pairs()[j].0,
                    value: map.pairs()[j].1,
                }),
        decreases count - i,
    {
        entries.push(
            pb::StringEntry {
                key: map.key_at(i).to_owned(),
                value: map.value_at(i).clone(),
            },
        );
        i = i + 1;
    }
    assert(entries.deep_view() =~= strings_message(map.pairs()));
    entries
}

/// A map in a message stands for the map again.
pub proof fn lemma_strings_round_trip(map: StringMap<String>)
    ensures
        strings_of(strings_message(map.pairs())) == map.deep_view(),
{
    assert(string_pairs(strings_message(map.pairs())) =~= map.pairs());
}

/// What is wrong with a request for an instance.
pub open spec fn create_instance_problem(request: pb::CreateInstanceRequestView) -> Option<
    ApiStatusView,
> {
    outcome::first_of(
        required_class_ref_problem(request.workload_class, "workload_class is required"@),
        outcome::first_of(
            id_problem(request.idempotency_key, "IdempotencyKey"@),
            id_problem(request.instance_id, "InstanceId"@),
        ),
    )
}

/// What a request for an instance is. It binds no routes.
pub open spec fn create_instance_of(
    request: pb::CreateInstanceRequestView,
) -> CreateInstanceRequestView {
    CreateInstanceRequestView {
        idempotency_key: request.idempotency_key,
        instance_id: request.instance_id,
        workload_class: class_ref_of(request.workload_class->0),
        values: strings_of(request.values),
        route_bindings: Seq::empty(),
    }
}

/// The request for an instance that a message stands for.
pub fn create_instance_request_from_proto(request: &pb::CreateInstanceRequest) -> (r: Result<
    CreateInstanceRequest,
    ApiStatus,
>)
    ensures
        outcome::of(r) == outcome::checked(
            create_instance_problem(request.deep_view()),
            create_instance_of(request.deep_view()),
        ),
{
    let workload_class = match required_class_ref(
        &request.workload_class,
        "workload_class is required",
    ) {
        Ok(value) => value,
        Err(error) => {
            return Err(error);
        },
    };
    let idempotency_key = match parse_idempotency_key(request.idempotency_key.as_str()) {
        Ok(value) => value,
        Err(error) => {
            return Err(error);
        },
    };
    let instance_id = match parse_instance_id(request.instance_id.as_str()) {
        Ok(value) => value,
        Err(error) => {
            return Err(error);
        },
    };
    let values = strings_from_proto(&request.values);
    let created = CreateInstanceRequest::new(
        idempotency_key,
        instance_id,
        workload_class,
    ).with_values(values);
    Ok(created)
}

/// What is wrong with a request to delete an instance.
pub open spec fn delete_instance_problem(request: pb::DeleteInstanceRequestView) -> Option<
    ApiStatusView,
> {
    match request.expected_generation {
        None => Some(status::invalid_argument("expected_generation is required"@)),
        Some(generation) => if generation > i64::MAX {
            Some(
                status::invalid_argument(
                    "expected_generation exceeds the supported revision range"@,
                ),
            )
        } else {
            id_problem(request.instance_id, "InstanceId"@)
        },
    }
}

/// What a request to delete an instance is.
pub open spec fn delete_instance_of(
    request: pb::DeleteInstanceRequestView,
) -> RequestInstanceDeletionView {
    RequestInstanceDeletionView {
        instance_id: request.instance_id,
        expected_generation: request.expected_generation->0 as nat,
    }
}

/// The request to delete an instance that a message stands for.
pub fn delete_instance_request_from_proto(request: &pb::DeleteInstanceRequest) -> (r: Result<
    RequestInstanceDeletion,
    ApiStatus,
>)
    ensures
        outcome::of(r) == outcome::checked(
            delete_instance_problem(request.deep_view()),
            delete_instance_of(request.deep_view()),
        ),
{
    let expected_generation: u64 = match request.expected_generation {
        None => {
            return Err(ApiStatus::invalid_argument("expected_generation is required"));
        },
        Some(generation) => generation,
    };
    if expected_generation > i64::MAX as u64 {
        return Err(
            ApiStatus::invalid_argument(
                "expected_generation exceeds the supported revision range",
            ),
        );
    }
    match parse_instance_id(request.instance_id.as_str()) {
        Err(error) => Err(error),
        Ok(instance_id) => Ok(
            RequestInstanceDeletion {
                instance_id,
                expected_generation: Generation::new(expected_generation),
            },
        ),
    }
}

/// The rule that a message stands for.
pub open spec fn rule_of(rule: pb::WorkloadValueFieldRuleView) -> WorkloadValueFieldRuleView {
    WorkloadValueFieldRuleView { required: rule.required, default: rule.default_value }
}

/// The rules in a message, in their order.
pub open spec fn rule_pairs(entries: Seq<pb::ValueFieldEntryView>) -> Seq<
    (Seq<char>, WorkloadValueFieldRuleView),
> {
    entries.map_values(|entry: pb::ValueFieldEntryView| (entry.key, rule_of(entry.value)))
}

/// The schema that a message stands for.
pub open spec fn schema_of(schema: pb::WorkloadValueSchemaView) -> WorkloadValueSchemaView {
    WorkloadValueSchemaView {
        fields: string_map::map_of_pairs(rule_pairs(schema.fields)),
        allow_extra: schema.allow_extra,
    }
}

/// The schema of a message in which it may be left out: then no value is taken.
pub open spec fn optional_schema_of(
    schema: Option<pb::WorkloadValueSchemaView>,
) -> WorkloadValueSchemaView {
    match schema {
        Some(schema) => schema_of(schema),
        None => WorkloadValueSchemaView { fields: Map::empty(), allow_extra: false },
    }
}

fn optional_copy(value: &Option<String>) -> (r: Option<String>)
    ensures
        r.deep_view() == value.deep_view(),
{
    match value {
        Some(value) => Some(value.clone()),
        None => None,
    }
}

fn workload_value_schema_from_proto(schema: &pb::WorkloadValueSchema) -> (r: WorkloadValueSchema)
    ensures
        r.deep_view() == schema_of(schema.deep_view()),
{
    let entries = &schema.fields;
    let ghost pairs = rule_pairs(entries.deep_view());
    let mut fields: StringMap<WorkloadValueFieldRule> = StringMap::new();
    let mut i: usize = 0;
    assert(pairs.take(0) =~= Seq::empty());
    while i < entries.len()
        invariant
            0 <= i <= entries.len(),
            *entries == schema.fields,
            pairs == rule_pairs(entries.deep_view()),
            fields.deep_view() == string_map::map_of_pairs(pairs.take(i as int)),
        decreases entries.len() - i,
    {
        let entry = &entries[i];
        assert(pairs[i as int] == (entry.key@, rule_of(entry.value.deep_view())));
        let rule = WorkloadValueFieldRule {
            required: entry.value.required,
            default: optional_copy(&entry.value.default_value),
        };
        fields.insert(entry.key.as_str(), rule);
        assert(pairs.take(i + 1).drop_last() =~= pairs.take(i as int));
        i = i + 1;
    }
    assert(pairs.take(i as int) =~= pairs);
    WorkloadValueSchema { fields, allow_extra: schema.allow_extra }
}

/// The sleep policy that a message stands for.
pub open spec fn sleep_policy_of(policy: pb::WorkloadSleepPolicyView) -> WorkloadSleepPolicyView {
    WorkloadSleepPolicyView {
        idle_timeout_ms: policy.idle_timeout_ms,
        idle_retry_backoff_ms: policy.idle_retry_backoff_ms,
        drain_grace_timeout_ms: policy.drain_grace_timeout_ms,
        idle_timeout_override: match policy.idle_timeout_override {
            Some(chosen) => Some(
                IdleTimeoutOverridePolicyView {
                    value_field: chosen.value_field,
                    min_idle_timeout_ms: chosen.min_idle_timeout_ms,
                    max_idle_timeout_ms: chosen.max_idle_timeout_ms,
                },
            ),
            None => None,
        },
    }
}

/// What is wrong with a sleep policy in a message.
pub open spec fn sleep_policy_problem(policy: pb::WorkloadSleepPolicyView) -> Option<
    ApiStatusView,
> {
    match sleep_policy::policy_problem(sleep_policy_of(policy)) {
        Some(error) => Some(status::invalid_argument(sleep_policy::sleep_policy_message(error))),
        None => None,
    }
}

/// What is wrong with a sleep policy that is required.
pub open spec fn required_sleep_policy_problem(
    policy: Option<pb::WorkloadSleepPolicyView>,
) -> Option<
    ApiStatusView,
> {
    match policy {
        None => Some(status::invalid_argument("sleep_policy is required"@)),
        Some(policy) => sleep_policy_problem(policy),
    }
}

fn workload_sleep_policy_from_proto(policy: &pb::WorkloadSleepPolicy) -> (r: Result<
    WorkloadSleepPolicy,
    ApiStatus,
>)
    ensures
        outcome::of(r) == outcome::checked(
            sleep_policy_problem(policy.deep_view()),
            sleep_policy_of(policy.deep_view()),
        ),
{
    let idle_timeout_override = match &policy.idle_timeout_override {
        Some(chosen) => Some(
            IdleTimeoutOverridePolicy {
                value_field: chosen.value_field.clone(),
                min_idle_timeout_ms: chosen.min_idle_timeout_ms,
                max_idle_timeout_ms: chosen.max_idle_timeout_ms,
            },
        ),
        None => None,
    };
    let policy = WorkloadSleepPolicy {
        idle_timeout_ms: policy.idle_timeout_ms,
        idle_retry_backoff_ms: policy.idle_retry_backoff_ms,
        drain_grace_timeout_ms: policy.drain_grace_timeout_ms,
        idle_timeout_override,
    };
    match policy.validate() {
        Err(error) => Err(ApiStatus::invalid_argument(error.to_string().as_str())),
        Ok(()) => Ok(policy),
    }
}

/// What is wrong with an exclusivity key in a message.
pub open spec fn exclusivity_key_problem(key: pb::WorkloadExclusivityKeyView) -> Option<
    ApiStatusView,
> {
    match key.value {
        None => Some(status::invalid_argument("exclusivity_keys.value is required"@)),
        Some(value) => template::text_problem(value),
    }
}

/// The exclusivity key that a message stands for.
pub open spec fn exclusivity_key_of(
    key: pb::WorkloadExclusivityKeyView,
) -> WorkloadExclusivityKeyTemplateView {
    WorkloadExclusivityKeyTemplateView { name: key.name, value: template::text_of(key.value->0) }
}

fn workload_exclusivity_key_from_proto(key: &pb::WorkloadExclusivityKey) -> (r: Result<
    WorkloadExclusivityKeyTemplate,
    ApiStatus,
>)
    ensures
        outcome::of(r) == outcome::checked(
            exclusivity_key_problem(key.deep_view()),
            exclusivity_key_of(key.deep_view()),
        ),
{
    match &key.value {
        None => Err(ApiStatus::invalid_argument("exclusivity_keys.value is required")),
        Some(value) => match template::template_text_from_proto(value) {
            Err(error) => Err(error),
            Ok(value) => Ok(WorkloadExclusivityKeyTemplate::new(key.name.as_str(), value)),
        },
    }
}

/// The problem of each of the exclusivity keys.
pub open spec fn exclusivity_key_problems(
    items: Seq<pb::WorkloadExclusivityKeyView>,
) -> Seq<Option<ApiStatusView>> {
    items.map_values(|item: pb::WorkloadExclusivityKeyView| exclusivity_key_problem(item))
}

/// What the exclusivity keys are.
pub open spec fn exclusivity_keys_of(
    items: Seq<pb::WorkloadExclusivityKeyView>,
) -> Seq<WorkloadExclusivityKeyTemplateView> {
    items.map_values(|item: pb::WorkloadExclusivityKeyView| exclusivity_key_of(item))
}

fn exclusivity_keys_from_proto(
    items: &Vec<pb::WorkloadExclusivityKey>,
) -> (r: Result<Vec<WorkloadExclusivityKeyTemplate>, ApiStatus>)
    ensures
        outcome::of(r) == outcome::checked(
            outcome::first_problem(exclusivity_key_problems(items.deep_view()), 0),
            exclusivity_keys_of(items.deep_view()),
        ),
{
    let ghost problems = exclusivity_key_problems(items.deep_view());
    let mut values: Vec<WorkloadExclusivityKeyTemplate> = Vec::new();
    let mut i: usize = 0;
    while i < items.len()
        invariant
            0 <= i <= items.len(),
            problems == exclusivity_key_problems(items.deep_view()),
            outcome::first_problem(problems, 0) == outcome::first_problem(problems, i as int),
            values.len() == i,
            forall|j: int|
                0 <= j < i ==> (#[trigger] values@[j]).deep_view() == exclusivity_key_of(
                    items@[j].deep_view(),
                ),
        decreases items.len() - i,
    {
        assert(problems[i as int] == exclusivity_key_problem(items@[i as int].deep_view()));
        match workload_exclusivity_key_from_proto(&items[i]) {
            Err(error) => {
                return Err(error);
            },
            Ok(value) => {
                values.push(value);
            },
        }
        i = i + 1;
    }
    assert(values.deep_view() =~= exclusivity_keys_of(items.deep_view()));
    Ok(values)
}

/// What is wrong with the template of a request.
pub open spec fn request_template_problem(template: Option<pb::ManifestTemplateView>) -> Option<
    ApiStatusView,
> {
    match template {
        None => Some(status::invalid_argument("template is required"@)),
        Some(template) => template::manifest_template_problem(template),
    }
}

/// The version of a workload class that a request asks for.
pub open spec fn class_of(
    request: pb::CreateWorkloadClassVersionRequestView,
) -> WorkloadClassVersionView {
    WorkloadClassVersionView {
        reference: WorkloadClassVersionRefView {
            class_id: request.class_id,
            version: request.version as nat,
        },
        template_generation: request.template_generation as nat,
        template: template::manifest_template_of(request.template->0),
        default_values: strings_of(request.default_values),
        value_schema: optional_schema_of(request.value_schema),
        sleep_policy: sleep_policy_of(request.sleep_policy->0),
        exclusivity_keys: exclusivity_keys_of(request.exclusivity_keys),
    }
}

/// What is wrong with a version of a workload class.
pub open spec fn class_status_problem(class: WorkloadClassVersionView) -> Option<ApiStatusView> {
    match workload::class_problem(class) {
        Some(error) => Some(status::invalid_argument(workload::workload_class_message(error))),
        None => None,
    }
}

/// What is wrong with a request for a version of a workload class.
pub open spec fn create_class_problem(request: pb::CreateWorkloadClassVersionRequestView) -> Option<
    ApiStatusView,
> {
    outcome::first_of(
        id_problem(request.idempotency_key, "IdempotencyKey"@),
        outcome::first_of(
            id_problem(request.class_id, "WorkloadClassId"@),
            outcome::first_of(
                request_template_problem(request.template),
                outcome::first_of(
                    required_sleep_policy_problem(request.sleep_policy),
                    outcome::first_of(
                        outcome::first_problem(
                            exclusivity_key_problems(request.exclusivity_keys),
                            0,
                        ),
                        class_status_problem(class_of(request)),
                    ),
                ),
            ),
        ),
    )
}

/// The request for a version of a workload class that a message stands for.
pub fn create_workload_class_request_from_proto(
    request: &pb::CreateWorkloadClassVersionRequest,
) -> (r:
    Result<CreateWorkloadClassVersionRequest, ApiStatus>)
    ensures
        outcome::of(r) == outcome::checked(
            create_class_problem(request.deep_view()),
            CreateWorkloadClassVersionRequestView {
                workload_class_version: class_of(request.deep_view()),
            },
        ),
{
    if let Err(error) = parse_idempotency_key(request.idempotency_key.as_str()) {
        return Err(error);
    }
    let class_id = match parse_workload_class_id(request.class_id.as_str()) {
        Ok(value) => value,
        Err(error) => {
            return Err(error);
        },
    };
    let template = match &request.template {
        None => {
            return Err(ApiStatus::invalid_argument("template is required"));
        },
        Some(template) => match template::manifest_template_from_proto(template) {
            Ok(value) => value,
            Err(error) => {
                return Err(error);
            },
        },
    };
    let default_values = strings_from_proto(&request.default_values);
    let value_schema = match &request.value_schema {
        Some(schema) => workload_value_schema_from_proto(schema),
        None => WorkloadValueSchema::default(),
    };
    let sleep_policy = match &request.sleep_policy {
        None => {
            return Err(ApiStatus::invalid_argument("sleep_policy is required"));
        },
        Some(policy) => match workload_sleep_policy_from_proto(policy) {
            Ok(value) => value,
            Err(error) => {
                return Err(error);
            },
        },
    };
    let exclusivity_keys = match exclusivity_keys_from_proto(&request.exclusivity_keys) {
        Ok(value) => value,
        Err(error) => {
            return Err(error);
        },
    };
    let workload_class = WorkloadClassVersion {
        reference: WorkloadClassVersionRef::new(class_id, Generation::new(request.version)),
        template_generation: Generation::new(request.template_generation),
        template,
        default_values,
        value_schema,
        sleep_policy,
        exclusivity_keys,
    };
    assert(workload_class.deep_view() == class_of(request.deep_view()));
    if let Err(error) = workload_class.validate() {
        return Err(ApiStatus::invalid_argument(error.to_string().as_str()));
    }
    Ok(CreateWorkloadClassVersionRequest::new(workload_class))
}

/// What is wrong with the host of a route.
pub open spec fn host_problem(host: pb::RouteHostView) -> Option<ApiStatusView> {
    match host.kind {
        pb::RouteHostKind::Exact => if text::is_blank(route::normal_host(host.host)) {
            Some(
                status::invalid_argument(route::invalid_route_message(InvalidRoute::EmptyHost)),
            )
        } else {
            None
        },
        pb::RouteHostKind::WildcardSuffix => if text::is_blank(
            route::without_wildcard(route::normal_host(host.host)),
        ) {
            Some(
                status::invalid_argument(route::invalid_route_message(InvalidRoute::EmptyHost)),
            )
        } else {
            None
        },
        pb::RouteHostKind::Unspecified => Some(
            status::invalid_argument("route host kind is required"@),
        ),
        pb::RouteHostKind::Unrecognized => Some(
            status::invalid_argument("route host kind is invalid"@),
        ),
    }
}

/// The host that a message stands for.
pub open spec fn host_of(host: pb::RouteHostView) -> RouteHostView {
    match host.kind {
        pb::RouteHostKind::WildcardSuffix => RouteHostView {
            kind: RouteHostKind::WildcardSuffix,
            host: route::without_wildcard(route::normal_host(host.host)),
        },
        _ => RouteHostView { kind: RouteHostKind::Exact, host: route::normal_host(host.host) },
    }
}

fn route_host_from_proto(host: &pb::RouteHost) -> (r: Result<RouteHost, ApiStatus>)
    ensures
        outcome::of(r) == outcome::checked(
            host_problem(host.deep_view()),
            host_of(host.deep_view()),
        ),
{
    let parsed = match host.kind {
        pb::RouteHostKind::Exact => RouteHost::exact(host.host.as_str()),
        pb::RouteHostKind::WildcardSuffix => RouteHost::wildcard_suffix(host.host.as_str()),
        pb::RouteHostKind::Unspecified => {
            return Err(ApiStatus::invalid_argument("route host kind is required"));
        },
        pb::RouteHostKind::Unrecognized => {
            return Err(ApiStatus::invalid_argument("route host kind is invalid"));
        },
    };
    match parsed {
        Ok(host) => Ok(host),
        Err(error) => Err(ApiStatus::invalid_argument(error.to_string().as_str())),
    }
}

/// What is wrong with a host that is required.
pub open spec fn required_host_problem(
    host: Option<pb::RouteHostView>,
    message: Seq<char>,
) -> Option<ApiStatusView> {
    match host {
        None => Some(status::invalid_argument(message)),
        Some(host) => host_problem(host),
    }
}

fn required_host(host: &Option<pb::RouteHost>, message: &str) -> (r: Result<RouteHost, ApiStatus>)
    ensures
        outcome::of(r) == outcome::checked(
            required_host_problem(host.deep_view(), message@),
            host_of(host.deep_view()->0),
        ),
{
    match host {
        None => Err(ApiStatus::invalid_argument(message)),
        Some(host) => route_host_from_proto(host),
    }
}

/// What is wrong with the path prefix of a route.
pub open spec fn path_problem(path: Option<Seq<char>>) -> Option<ApiStatusView> {
    match path {
        Some(path) if !text::has_prefix(path, "/"@) => Some(
            status::invalid_argument(route::invalid_route_message(InvalidRoute::RelativePath)),
        ),
        _ => None,
    }
}

/// What is wrong with what tells a route.
pub open spec fn identity_problem(identity: pb::RouteIdentityView) -> Option<ApiStatusView> {
    match identity.kind {
        None => Some(status::invalid_argument("route identity kind is required"@)),
        Some(pb::RouteIdentityKindView::Http(http)) => outcome::first_of(
            required_host_problem(http.host, "HTTP route host is required"@),
            path_problem(http.path_prefix),
        ),
        Some(pb::RouteIdentityKindView::Sni(sni)) => required_host_problem(
            sni.host,
            "SNI route host is required"@,
        ),
    }
}

/// What tells the route that a message stands for.
pub open spec fn identity_of(identity: pb::RouteIdentityView) -> RouteIdentityView {
    match identity.kind->0 {
        pb::RouteIdentityKindView::Http(http) => RouteIdentityView::Http {
            host: host_of(http.host->0),
            path: http.path_prefix,
        },
        pb::RouteIdentityKindView::Sni(sni) => RouteIdentityView::Sni {
            host: host_of(sni.host->0),
        },
    }
}

/// What tells the route that a message stands for.
pub fn route_identity_from_proto(identity: &pb::RouteIdentity) -> (r: Result<
    RouteIdentity,
    ApiStatus,
>)
    ensures
        outcome::of(r) == outcome::checked(
            identity_problem(identity.deep_view()),
            identity_of(identity.deep_view()),
        ),
{
    match &identity.kind {
        None => Err(ApiStatus::invalid_argument("route identity kind is required")),
        Some(pb::RouteIdentityKind::Http(http)) => {
            let host = match required_host(&http.host, "HTTP route host is required") {
                Ok(value) => value,
                Err(error) => {
                    return Err(error);
                },
            };
            let path = match &http.path_prefix {
                None => None,
                Some(path) => match PathPrefix::new(path.as_str()) {
                    Ok(path) => Some(path),
                    Err(error) => {
                        return Err(ApiStatus::invalid_argument(error.to_string().as_str()));
                    },
                },
            };
            Ok(RouteIdentity::Http { host, path })
        },
        Some(pb::RouteIdentityKind::Sni(sni)) => match required_host(
            &sni.host,
            "SNI route host is required",
        ) {
            Ok(host) => Ok(RouteIdentity::Sni { host }),
            Err(error) => Err(error),
        },
    }
}

/// What is wrong with the protocol of a route.
pub open spec fn protocol_problem(protocol: pb::ProtocolRoute) -> Option<ApiStatusView> {
    match protocol {
        pb::ProtocolRoute::Http | pb::ProtocolRoute::TlsSni => None,
        pb::ProtocolRoute::Unspecified => Some(
            status::invalid_argument("protocol route is required"@),
        ),
        pb::ProtocolRoute::Unrecognized => Some(
            status::invalid_argument("protocol route is invalid"@),
        ),
    }
}

/// The protocol that a message stands for.
pub open spec fn protocol_of(protocol: pb::ProtocolRoute) -> ProtocolRoute {
    match protocol {
        pb::ProtocolRoute::TlsSni => ProtocolRoute::TlsSni,
        _ => ProtocolRoute::Http,
    }
}

pub(crate) fn protocol_from_proto(protocol: pb::ProtocolRoute) -> (r: Result<
    ProtocolRoute,
    ApiStatus,
>)
    ensures
        outcome::of(r) == outcome::checked(protocol_problem(protocol), protocol_of(protocol)),
{
    match protocol {
        pb::ProtocolRoute::Http => Ok(ProtocolRoute::Http),
        pb::ProtocolRoute::TlsSni => Ok(ProtocolRoute::TlsSni),
        pb::ProtocolRoute::Unspecified => Err(
            ApiStatus::invalid_argument("protocol route is required"),
        ),
        pb::ProtocolRoute::Unrecognized => Err(
            ApiStatus::invalid_argument("protocol route is invalid"),
        ),
    }
}

/// What is wrong with what tells a route, where it is required.
pub open spec fn required_identity_problem(identity: Option<pb::RouteIdentityView>) -> Option<
    ApiStatusView,
> {
    match identity {
        None => Some(status::invalid_argument("identity is required"@)),
        Some(identity) => identity_problem(identity),
    }
}

/// What is wrong with a request for a route.
pub open spec fn create_route_problem(request: pb::CreateRouteBindingRequestView) -> Option<
    ApiStatusView,
> {
    outcome::first_of(
        required_identity_problem(request.identity),
        outcome::first_of(
            protocol_problem(request.protocol),
            outcome::first_of(
                id_problem(request.idempotency_key, "IdempotencyKey"@),
                outcome::first_of(
                    id_problem(request.route_binding_id, "RouteBindingId"@),
                    id_problem(request.instance_id, "InstanceId"@),
                ),
            ),
        ),
    )
}

/// What a request for a route is.
pub open spec fn create_route_of(
    request: pb::CreateRouteBindingRequestView,
) -> CreateRouteBindingRequestView {
    CreateRouteBindingRequestView {
        idempotency_key: request.idempotency_key,
        route_binding_id: request.route_binding_id,
        instance_id: request.instance_id,
        identity: identity_of(request.identity->0),
        protocol: protocol_of(request.protocol),
    }
}

/// The request for a route that a message stands for.
pub fn create_route_binding_request_from_proto(request: &pb::CreateRouteBindingRequest) -> (r:
    Result<CreateRouteBindingRequest, ApiStatus>)
    ensures
        outcome::of(r) == outcome::checked(
            create_route_problem(request.deep_view()),
            create_route_of(request.deep_view()),
        ),
{
    let identity = match &request.identity {
        None => {
            return Err(ApiStatus::invalid_argument("identity is required"));
        },
        Some(identity) => match route_identity_from_proto(identity) {
            Ok(value) => value,
            Err(error) => {
                return Err(error);
            },
        },
    };
    let protocol = match protocol_from_proto(request.protocol) {
        Ok(value) => value,
        Err(error) => {
            return Err(error);
        },
    };
    let idempotency_key = match parse_idempotency_key(request.idempotency_key.as_str()) {
        Ok(value) => value,
        Err(error) => {
            return Err(error);
        },
    };
    let route_binding_id = match parse_route_binding_id(request.route_binding_id.as_str()) {
        Ok(value) => value,
        Err(error) => {
            return Err(error);
        },
    };
    let instance_id = match parse_instance_id(request.instance_id.as_str()) {
        Ok(value) => value,
        Err(error) => {
            return Err(error);
        },
    };
    Ok(
        CreateRouteBindingRequest::new(
            idempotency_key,
            route_binding_id,
            instance_id,
            identity,
            protocol,
        ),
    )
}

/// Asks for a materialization to be given up.
#[derive(Debug, PartialEq, Eq)]
pub struct ForceDeleteMaterializationRequest {
    pub materialization_id: MaterializationId,
    pub operator: String,
    pub reason: String,
}

/// What a [`ForceDeleteMaterializationRequest`] holds.
#[verifier::ext_equal]
pub struct ForceDeleteMaterializationRequestView {
    pub materialization_id: Seq<char>,
    pub operator: Seq<char>,
    pub reason: Seq<char>,
}

impl DeepView for ForceDeleteMaterializationRequest {
    type V = ForceDeleteMaterializationRequestView;

    open spec fn deep_view(&self) -> ForceDeleteMaterializationRequestView {
        ForceDeleteMaterializationRequestView {
            materialization_id: self.materialization_id.deep_view(),
            operator: self.operator.deep_view(),
            reason: self.reason.deep_view(),
        }
    }
}

impl Clone for ForceDeleteMaterializationRequest {
    fn clone(&self) -> (r: Self)
        ensures
            r.deep_view() == self.deep_view(),
    {
        ForceDeleteMaterializationRequest {
            materialization_id: self.materialization_id.clone(),
            operator: self.operator.clone(),
            reason: self.reason.clone(),
        }
    }
}

/// Asks for an exclusivity key to be released.
#[derive(Debug, PartialEq, Eq)]
pub struct ForceReleaseExclusivityKeyRequest {
    pub target: MaterializationTarget,
    pub key_name: String,
    pub key_value: String,
    pub operator: String,
    pub reason: String,
}

/// What a [`ForceReleaseExclusivityKeyRequest`] holds.
#[verifier::ext_equal]
pub struct ForceReleaseExclusivityKeyRequestView {
    pub target: MaterializationTargetView,
    pub key_name: Seq<char>,
    pub key_value: Seq<char>,
    pub operator: Seq<char>,
    pub reason: Seq<char>,
}

impl DeepView for ForceReleaseExclusivityKeyRequest {
    type V = ForceReleaseExclusivityKeyRequestView;

    open spec fn deep_view(&self) -> ForceReleaseExclusivityKeyRequestView {
        ForceReleaseExclusivityKeyRequestView {
            target: self.target.deep_view(),
            key_name: self.key_name.deep_view(),
            key_value: self.key_value.deep_view(),
            operator: self.operator.deep_view(),
            reason: self.reason.deep_view(),
        }
    }
}

impl Clone for ForceReleaseExclusivityKeyRequest {
    fn clone(&self) -> (r: Self)
        ensures
            r.deep_view() == self.deep_view(),
    {
        ForceReleaseExclusivityKeyRequest {
            target: self.target.clone(),
            key_name: self.key_name.clone(),
            key_value: self.key_value.clone(),
            operator: self.operator.clone(),
            reason: self.reason.clone(),
        }
    }
}

/// The request to give up a materialization that a message stands for.
pub fn force_delete_materialization_request_from_proto(
    request: &pb::ForceDeleteMaterializationRequest,
) -> (r: Result<ForceDeleteMaterializationRequest, ApiStatus>)
    ensures
        outcome::of(r) == outcome::checked(
            id_problem(request.materialization_id@, "MaterializationId"@),
            ForceDeleteMaterializationRequestView {
                materialization_id: request.materialization_id@,
                operator: request.operator@,
                reason: request.reason@,
            },
        ),
{
    match parse_materialization_id(request.materialization_id.as_str()) {
        Err(error) => Err(error),
        Ok(materialization_id) => Ok(
            ForceDeleteMaterializationRequest {
                materialization_id,
                operator: request.operator.clone(),
                reason: request.reason.clone(),
            },
        ),
    }
}

/// What is wrong with a cluster and a namespace.
pub open spec fn target_problem(cluster_id: Seq<char>, namespace: Seq<char>) -> Option<
    ApiStatusView,
> {
    if text::is_blank(cluster_id) {
        Some(
            status::invalid_argument(
                "materialization target "@ + "cluster_id"@ + " must not be empty"@,
            ),
        )
    } else if text::is_blank(namespace) {
        Some(
            status::invalid_argument(
                "materialization target "@ + "namespace"@ + " must not be empty"@,
            ),
        )
    } else {
        None
    }
}

/// The request to release an exclusivity key that a message stands for.
pub fn force_release_exclusivity_key_request_from_proto(
    request: &pb::ForceReleaseExclusivityKeyRequest,
) -> (r: Result<ForceReleaseExclusivityKeyRequest, ApiStatus>)
    ensures
        outcome::of(r) == outcome::checked(
            target_problem(request.cluster_id@, request.namespace@),
            ForceReleaseExclusivityKeyRequestView {
                target: MaterializationTargetView {
                    cluster_id: request.cluster_id@,
                    namespace: request.namespace@,
                },
                key_name: request.key_name@,
                key_value: request.key_value@,
                operator: request.operator@,
                reason: request.reason@,
            },
        ),
{
    match MaterializationTarget::new(request.cluster_id.as_str(), request.namespace.as_str()) {
        Err(error) => Err(ApiStatus::invalid_argument(error.to_string().as_str())),
        Ok(target) => Ok(
            ForceReleaseExclusivityKeyRequest {
                target,
                key_name: request.key_name.clone(),
                key_value: request.key_value.clone(),
                operator: request.operator.clone(),
                reason: request.reason.clone(),
            },
        ),
    }
}

/// The name of a state.
pub open spec fn materialization_state_text(state: MaterializationState) -> Seq<char> {
    match state {
        MaterializationState::Pending => "Pending"@,
        MaterializationState::Ready => "Ready"@,
        MaterializationState::Failed => "Failed"@,
        MaterializationState::Deleting => "Deleting"@,
        MaterializationState::Deleted => "Deleted"@,
    }
}

fn materialization_state_name(state: MaterializationState) -> (r: &'static str)
    ensures
        r@ == materialization_state_text(state),
{
    match state {
        MaterializationState::Pending => "Pending",
        MaterializationState::Ready => "Ready",
        MaterializationState::Failed => "Failed",
        MaterializationState::Deleting => "Deleting",
        MaterializationState::Deleted => "Deleted",
    }
}

/// The message of a reference to a workload class.
pub open spec fn class_ref_message(
    reference: WorkloadClassVersionRef,
) -> pb::WorkloadClassVersionRefView {
    pb::WorkloadClassVersionRefView { class_id: reference.class_id@, version: reference.version.0 }
}

fn workload_class_ref_to_proto(reference: &WorkloadClassVersionRef) -> (r:
    pb::WorkloadClassVersionRef)
    ensures
        r.deep_view() == class_ref_message(*reference),
{
    pb::WorkloadClassVersionRef {
        class_id: reference.class_id.as_str().to_owned(),
        version: reference.version.get(),
    }
}

/// The message of a state of an instance.
pub open spec fn instance_state_message(state: InstanceState) -> pb::InstanceState {
    match state {
        InstanceState::Cold => pb::InstanceState::Cold,
        InstanceState::Waking => pb::InstanceState::Waking,
        InstanceState::Running => pb::InstanceState::Running,
        InstanceState::Draining => pb::InstanceState::Draining,
        InstanceState::Failed => pb::InstanceState::Failed,
        InstanceState::Deleting => pb::InstanceState::Deleting,
        InstanceState::Deleted => pb::InstanceState::Deleted,
    }
}

pub(crate) fn instance_state_to_proto(state: InstanceState) -> (r: pb::InstanceState)
    ensures
        r == instance_state_message(state),
{
    match state {
        InstanceState::Cold => pb::InstanceState::Cold,
        InstanceState::Waking => pb::InstanceState::Waking,
        InstanceState::Running => pb::InstanceState::Running,
        InstanceState::Draining => pb::InstanceState::Draining,
        InstanceState::Failed => pb::InstanceState::Failed,
        InstanceState::Deleting => pb::InstanceState::Deleting,
        InstanceState::Deleted => pb::InstanceState::Deleted,
    }
}

/// The message of an instance.
pub open spec fn instance_message(instance: InstanceRecord) -> pb::InstanceView {
    pb::InstanceView {
        instance_id: instance.id@,
        workload_class: Some(class_ref_message(instance.workload_class)),
        values: strings_message(instance.values.pairs()),
        state: instance_state_message(instance.state),
        generation: instance.generation.0,
    }
}

/// The message of an instance.
pub fn instance_to_proto(instance: &InstanceRecord) -> (r: pb::Instance)
    ensures
        r.deep_view() == instance_message(*instance),
{
    pb::Instance {
        instance_id: instance.id.as_str().to_owned(),
        workload_class: Some(workload_class_ref_to_proto(&instance.workload_class)),
        values: strings_to_proto(&instance.values),
        state: instance_state_to_proto(instance.state),
        generation: instance.generation.get(),
    }
}

/// The message of an exclusivity key.
pub open spec fn exclusivity_key_message(
    key: WorkloadExclusivityKeyTemplate,
) -> pb::WorkloadExclusivityKeyView {
    pb::WorkloadExclusivityKeyView {
        name: key.name@,
        value: Some(template::text_message(key.value.deep_view())),
    }
}

fn workload_exclusivity_key_to_proto(key: &WorkloadExclusivityKeyTemplate) -> (r:
    pb::WorkloadExclusivityKey)
    ensures
        r.deep_view() == exclusivity_key_message(*key),
{
    pb::WorkloadExclusivityKey {
        name: key.name.clone(),
        value: Some(template::template_text_to_proto(&key.value)),
    }
}

/// The messages of exclusivity keys.
pub open spec fn exclusivity_keys_message(
    items: Seq<WorkloadExclusivityKeyTemplate>,
) -> Seq<pb::WorkloadExclusivityKeyView> {
    items.map_values(|item: WorkloadExclusivityKeyTemplate| exclusivity_key_message(item))
}

fn exclusivity_keys_to_proto(
    items: &Vec<WorkloadExclusivityKeyTemplate>,
) -> (r: Vec<pb::WorkloadExclusivityKey>)
    ensures
        r.deep_view() == exclusivity_keys_message(items@),
{
    let mut values: Vec<pb::WorkloadExclusivityKey> = Vec::new();
    let mut i: usize = 0;
    while i < items.len()
        invariant
            0 <= i <= items.len(),
            values.len() == i,
            forall|j: int|
                0 <= j < i ==> (#[trigger] values@[j]).deep_view() == exclusivity_key_message(
                    items@[j],
                ),
        decreases items.len() - i,
    {
        values.push(workload_exclusivity_key_to_proto(&items[i]));
        i = i + 1;
    }
    assert(values.deep_view() =~= exclusivity_keys_message(items@));
    values
}

/// The message of a schema, its fields in key order.
pub open spec fn schema_message(schema: WorkloadValueSchema) -> pb::WorkloadValueSchemaView {
    pb::WorkloadValueSchemaView {
        fields: schema.fields.pairs().map_values(
            |pair: (Seq<char>, WorkloadValueFieldRuleView)|
                pb::ValueFieldEntryView {
                    key: pair.0,
                    value: pb::WorkloadValueFieldRuleView {
                        required: pair.1.required,
                        default_value: pair.1.default,
                    },
                },
        ),
        allow_extra: schema.allow_extra,
    }
}

fn workload_value_schema_to_proto(schema: &WorkloadValueSchema) -> (r: pb::WorkloadValueSchema)
    ensures
        r.deep_view() == schema_message(*schema),
{
    let ghost pairs = schema.fields.pairs();
    let mut fields: Vec<pb::ValueFieldEntry> = Vec::new();
    let count: usize = schema.fields.len();
    let mut i: usize = 0;
    while i < count
        invariant
            0 <= i <= count,
            pairs == schema.fields.pairs(),
            count == pairs.len(),
            fields.len() == i,
            forall|j: int|
                0 <= j < i ==> (#[trigger] fields@[j]).deep_view() == (pb::ValueFieldEntryView {
                    key: pairs[j].0,
                    value: pb::WorkloadValueFieldRuleView {
                        required: pairs[j].1.required,
                        default_value: pairs[j].1.default,
                    },
                }),
        decreases count - i,
    {
        let rule = schema.fields.value_at(i);
        fields.push(
            pb::ValueFieldEntry {
                key: schema.fields.key_at(i).to_owned(),
                value: pb::WorkloadValueFieldRule {
                    required: rule.required,
                    default_value: optional_copy(&rule.default),
                },
            },
        );
        i = i + 1;
    }
    assert(fields.deep_view() =~= schema_message(*schema).fields);
    pb::WorkloadValueSchema { fields, allow_extra: schema.allow_extra }
}

/// The message of a sleep policy.
pub open spec fn sleep_policy_message(
    policy: WorkloadSleepPolicyView,
) -> pb::WorkloadSleepPolicyView {
    pb::WorkloadSleepPolicyView {
        idle_timeout_ms: policy.idle_timeout_ms,
        idle_retry_backoff_ms: policy.idle_retry_backoff_ms,
        drain_grace_timeout_ms: policy.drain_grace_timeout_ms,
        idle_timeout_override: match policy.idle_timeout_override {
            Some(chosen) => Some(
                pb::IdleTimeoutOverridePolicyView {
                    value_field: chosen.value_field,
                    min_idle_timeout_ms: chosen.min_idle_timeout_ms,
                    max_idle_timeout_ms: chosen.max_idle_timeout_ms,
                },
            ),
            None => None,
        },
    }
}

fn workload_sleep_policy_to_proto(policy: &WorkloadSleepPolicy) -> (r: pb::WorkloadSleepPolicy)
    ensures
        r.deep_view() == sleep_policy_message(policy.deep_view()),
{
    let idle_timeout_override = match &policy.idle_timeout_override {
        Some(chosen) => Some(
            pb::IdleTimeoutOverridePolicy {
                value_field: chosen.value_field.clone(),
                min_idle_timeout_ms: chosen.min_idle_timeout_ms,
                max_idle_timeout_ms: chosen.max_idle_timeout_ms,
            },
        ),
        None => None,
    };
    pb::WorkloadSleepPolicy {
        idle_timeout_ms: policy.idle_timeout_ms,
        idle_retry_backoff_ms: policy.idle_retry_backoff_ms,
        drain_grace_timeout_ms: policy.drain_grace_timeout_ms,
        idle_timeout_override,
    }
}

/// The message of a version of a workload class.
pub open spec fn class_message(class: WorkloadClassVersion) -> pb::WorkloadClassVersionView {
    pb::WorkloadClassVersionView {
        reference: Some(class_ref_message(class.reference)),
        template_generation: class.template_generation.0,
        default_values: strings_message(class.default_values.pairs()),
        value_schema: Some(schema_message(class.value_schema)),
        template: Some(template::manifest_template_message(class.template)),
        sleep_policy: Some(sleep_policy_message(class.sleep_policy.deep_view())),
        exclusivity_keys: exclusivity_keys_message(class.exclusivity_keys@),
    }
}

/// The message of a version of a workload class.
pub fn workload_class_to_proto(class: &WorkloadClassVersion) -> (r: pb::WorkloadClassVersion)
    ensures
        r.deep_view() == class_message(*class),
{
    pb::WorkloadClassVersion {
        reference: Some(workload_class_ref_to_proto(&class.reference)),
        template_generation: class.template_generation.get(),
        default_values: strings_to_proto(&class.default_values),
        value_schema: Some(workload_value_schema_to_proto(&class.value_schema)),
        template: Some(template::manifest_template_to_proto(&class.template)),
        sleep_policy: Some(workload_sleep_policy_to_proto(&class.sleep_policy)),
        exclusivity_keys: exclusivity_keys_to_proto(&class.exclusivity_keys),
    }
}

/// The message of the host of a route.
pub open spec fn host_message(host: RouteHostView) -> pb::RouteHostView {
    pb::RouteHostView {
        kind: match host.kind {
            RouteHostKind::Exact => pb::RouteHostKind::Exact,
            RouteHostKind::WildcardSuffix => pb::RouteHostKind::WildcardSuffix,
        },
        host: host.host,
    }
}

fn route_host_to_proto(host: &RouteHost) -> (r: pb::RouteHost)
    ensures
        r.deep_view() == host_message(host.deep_view()),
{
    let kind = match host.kind() {
        RouteHostKind::Exact => pb::RouteHostKind::Exact,
        RouteHostKind::WildcardSuffix => pb::RouteHostKind::WildcardSuffix,
    };
    pb::RouteHost { kind, host: host.as_str().to_owned() }
}

/// The message of what tells a route.
pub open spec fn identity_message(identity: RouteIdentityView) -> pb::RouteIdentityView {
    pb::RouteIdentityView {
        kind: Some(
            match identity {
                RouteIdentityView::Http { host, path } => pb::RouteIdentityKindView::Http(
                    pb::HttpRouteIdentityView {
                        host: Some(host_message(host)),
                        path_prefix: path,
                    },
                ),
                RouteIdentityView::Sni { host } => pb::RouteIdentityKindView::Sni(
                    pb::SniRouteIdentityView { host: Some(host_message(host)) },
                ),
            },
        ),
    }
}

/// The message of what tells a route.
pub fn route_identity_to_proto(identity: &RouteIdentity) -> (r: pb::RouteIdentity)
    ensures
        r.deep_view() == identity_message(identity.deep_view()),
{
    let kind = match identity {
        RouteIdentity::Http { host, path } => {
            let path_prefix = match path {
                Some(path) => Some(path.as_str().to_owned()),
                None => None,
            };
            pb::RouteIdentityKind::Http(
                pb::HttpRouteIdentity { host: Some(route_host_to_proto(host)), path_prefix },
            )
        },
        RouteIdentity::Sni { host } => pb::RouteIdentityKind::Sni(
            pb::SniRouteIdentity { host: Some(route_host_to_proto(host)) },
        ),
    };
    pb::RouteIdentity { kind: Some(kind) }
}

/// The message of a protocol.
pub open spec fn protocol_message(protocol: ProtocolRoute) -> pb::ProtocolRoute {
    match protocol {
        ProtocolRoute::Http => pb::ProtocolRoute::Http,
        ProtocolRoute::TlsSni => pb::ProtocolRoute::TlsSni,
    }
}

pub(crate) fn protocol_to_proto(protocol: ProtocolRoute) -> (r: pb::ProtocolRoute)
    ensures
        r == protocol_message(protocol),
{
    match protocol {
        ProtocolRoute::Http => pb::ProtocolRoute::Http,
        ProtocolRoute::TlsSni => pb::ProtocolRoute::TlsSni,
    }
}

/// The message of a route.
pub open spec fn route_binding_message(binding: RouteBindingRecordView) -> pb::RouteBindingView {
    pb::RouteBindingView {
        route_binding_id: binding.id,
        instance_id: binding.instance_id,
        identity: Some(identity_message(binding.identity)),
        protocol: protocol_message(binding.protocol),
    }
}

/// The message of a route.
pub fn route_binding_to_proto(binding: &RouteBindingRecord) -> (r: pb::RouteBinding)
    ensures
        r.deep_view() == route_binding_message(binding.deep_view()),
{
    pb::RouteBinding {
        route_binding_id: binding.id.as_str().to_owned(),
        instance_id: binding.instance_id.as_str().to_owned(),
        identity: Some(route_identity_to_proto(&binding.identity)),
        protocol: protocol_to_proto(binding.protocol),
    }
}

/// A message of what tells a route stands for it again: hosts and paths in their
/// normal form come back as they are.
pub proof fn lemma_identity_round_trip(identity: RouteIdentityView)
    requires
        match identity {
            RouteIdentityView::Http { host, path } => route::normal(host) && (path matches Some(prefix)
                ==> text::has_prefix(prefix, "/"@)),
            RouteIdentityView::Sni { host } => route::normal(host),
        },
    ensures
        identity_problem(identity_message(identity)) is None,
        identity_of(identity_message(identity)) == identity,
{
}

/// The message of an applied object.
pub open spec fn object_ref_message(object: RenderedObjectRefView) -> pb::RenderedObjectRefView {
    pb::RenderedObjectRefView {
        api_version: object.api_version,
        kind: object.kind,
        namespace: object.namespace,
        name: object.name,
    }
}

fn rendered_object_ref_to_proto(object: &RenderedObjectRef) -> (r: pb::RenderedObjectRef)
    ensures
        r.deep_view() == object_ref_message(object.deep_view()),
{
    pb::RenderedObjectRef {
        api_version: object.api_version.clone(),
        kind: object.kind.clone(),
        namespace: object.namespace.clone(),
        name: object.name.clone(),
    }
}

/// The messages of applied objects.
pub open spec fn object_refs_message(objects: Seq<RenderedObjectRefView>) -> Seq<
    pb::RenderedObjectRefView,
> {
    objects.map_values(|object: RenderedObjectRefView| object_ref_message(object))
}

fn object_refs_to_proto(objects: &Vec<RenderedObjectRef>) -> (r: Vec<pb::RenderedObjectRef>)
    ensures
        r.deep_view() == object_refs_message(objects.deep_view()),
{
    let mut messages: Vec<pb::RenderedObjectRef> = Vec::new();
    let mut i: usize = 0;
    while i < objects.len()
        invariant
            0 <= i <= objects.len(),
            messages.len() == i,
            forall|j: int|
                0 <= j < i ==> (#[trigger] messages@[j]).deep_view() == object_ref_message(
                    objects@[j].deep_view(),
                ),
        decreases objects.len() - i,
    {
        messages.push(rendered_object_ref_to_proto(&objects[i]));
        i = i + 1;
    }
    assert(messages.deep_view() =~= object_refs_message(objects.deep_view()));
    messages
}

/// What was seen of an applied object.
#[derive(Debug, PartialEq, Eq)]
pub struct ProjectionObservation {
    pub object_ref: RenderedObjectRef,
    pub state: String,
    pub reason: Option<String>,
    pub finalizers: Vec<String>,
    pub backend_uri: Option<String>,
}

/// What a [`ProjectionObservation`] holds.
#[verifier::ext_equal]
pub struct ProjectionObservationView {
    pub object_ref: RenderedObjectRefView,
    pub state: Seq<char>,
    pub reason: Option<Seq<char>>,
    pub finalizers: Seq<Seq<char>>,
    pub backend_uri: Option<Seq<char>>,
}

impl DeepView for ProjectionObservation {
    type V = ProjectionObservationView;

    open spec fn deep_view(&self) -> ProjectionObservationView {
        ProjectionObservationView {
            object_ref: self.object_ref.deep_view(),
            state: self.state.deep_view(),
            reason: self.reason.deep_view(),
            finalizers: self.finalizers.deep_view(),
            backend_uri: self.backend_uri.deep_view(),
        }
    }
}

impl Clone for ProjectionObservation {
    fn clone(&self) -> (r: Self)
        ensures
            r.deep_view() == self.deep_view(),
    {
        let r = ProjectionObservation {
            object_ref: self.object_ref.clone(),
            state: self.state.clone(),
            reason: self.reason.clone(),
            finalizers: self.finalizers.clone(),
            backend_uri: self.backend_uri.clone(),
        };
        assert(r.reason.deep_view() =~= self.reason.deep_view());
        assert(r.finalizers.deep_view() =~= self.finalizers.deep_view());
        assert(r.backend_uri.deep_view() =~= self.backend_uri.deep_view());
        r
    }
}

/// A text, or the empty one.
pub open spec fn or_empty(value: Option<Seq<char>>) -> Seq<char> {
    match value {
        Some(value) => value,
        None => Seq::empty(),
    }
}

fn owned_or_empty(value: &Option<String>) -> (r: String)
    ensures
        r@ == or_empty(value.deep_view()),
{
    match value {
        Some(value) => value.clone(),
        None => empty_string(),
    }
}

fn empty_string() -> (r: String)
    ensures
        r@ == Seq::<char>::empty(),
{
    proof {
        reveal_strlit("");
        assert(""@ =~= Seq::empty());
    }
    "".to_owned()
}

/// The message of what was seen of an applied object.
pub open spec fn observation_message(
    observation: ProjectionObservationView,
) -> pb::ProjectionObservationView {
    pb::ProjectionObservationView {
        object: Some(object_ref_message(observation.object_ref)),
        state: observation.state,
        reason: or_empty(observation.reason),
        finalizers: observation.finalizers,
        backend_uri: or_empty(observation.backend_uri),
    }
}

/// The message of what was seen of an applied object.
pub fn projection_observation_to_proto(observation: &ProjectionObservation) -> (r:
    pb::ProjectionObservation)
    ensures
        r.deep_view() == observation_message(observation.deep_view()),
{
    let finalizers = observation.finalizers.clone();
    assert(finalizers.deep_view() =~= observation.finalizers.deep_view());
    pb::ProjectionObservation {
        object: Some(rendered_object_ref_to_proto(&observation.object_ref)),
        state: observation.state.clone(),
        reason: owned_or_empty(&observation.reason),
        finalizers,
        backend_uri: owned_or_empty(&observation.backend_uri),
    }
}

/// Who is bringing a materialization up to date, and until when.
pub struct ReconciliationLease {
    pub owner: String,
    pub expires_at: SystemTime,
    pub attempt: u64,
}

/// An effect of which it is not known whether it took place.
#[derive(Debug, PartialEq, Eq)]
pub struct UncertainEffect {
    pub generation: Generation,
    pub owner: String,
    pub attempt: u64,
    pub effect_id: String,
    pub operation: String,
    pub object: RenderedObjectRef,
    pub expected_uid: Option<String>,
    pub expected_resource_version: Option<String>,
    pub started_at_unix_millis: i64,
}

/// What an [`UncertainEffect`] holds.
#[verifier::ext_equal]
pub struct UncertainEffectView {
    pub generation: nat,
    pub owner: Seq<char>,
    pub attempt: u64,
    pub effect_id: Seq<char>,
    pub operation: Seq<char>,
    pub object: RenderedObjectRefView,
    pub expected_uid: Option<Seq<char>>,
    pub expected_resource_version: Option<Seq<char>>,
    pub started_at_unix_millis: i64,
}

impl DeepView for UncertainEffect {
    type V = UncertainEffectView;

    open spec fn deep_view(&self) -> UncertainEffectView {
        UncertainEffectView {
            generation: self.generation.deep_view(),
            owner: self.owner.deep_view(),
            attempt: self.attempt.deep_view(),
            effect_id: self.effect_id.deep_view(),
            operation: self.operation.deep_view(),
            object: self.object.deep_view(),
            expected_uid: self.expected_uid.deep_view(),
            expected_resource_version: self.expected_resource_version.deep_view(),
            started_at_unix_millis: self.started_at_unix_millis.deep_view(),
        }
    }
}

impl Clone for UncertainEffect {
    fn clone(&self) -> (r: Self)
        ensures
            r.deep_view() == self.deep_view(),
    {
        let r = UncertainEffect {
            generation: self.generation,
            owner: self.owner.clone(),
            attempt: self.attempt,
            effect_id: self.effect_id.clone(),
            operation: self.operation.clone(),
            object: self.object.clone(),
            expected_uid: self.expected_uid.clone(),
            expected_resource_version: self.expected_resource_version.clone(),
            started_at_unix_millis: self.started_at_unix_millis,
        };
        assert(r.expected_uid.deep_view() =~= self.expected_uid.deep_view());
        assert(r.expected_resource_version.deep_view() =~= self.expected_resource_version.deep_view());
        r
    }
}

/// How far the work on a materialization is.
#[derive(Debug, PartialEq, Eq)]
pub struct MaterializationWorkStatus {
    pub next_attempt_at_unix_millis: Option<i64>,
    pub operation_deadline_unix_millis: Option<i64>,
    pub failure_count: u64,
    pub failure_kind: Option<String>,
    pub failure_message: Option<String>,
    pub wake_failure_message: Option<String>,
    pub uncertain_effect: Option<UncertainEffect>,
}

/// What a [`MaterializationWorkStatus`] holds.
#[verifier::ext_equal]
pub struct MaterializationWorkStatusView {
    pub next_attempt_at_unix_millis: Option<i64>,
    pub operation_deadline_unix_millis: Option<i64>,
    pub failure_count: u64,
    pub failure_kind: Option<Seq<char>>,
    pub failure_message: Option<Seq<char>>,
    pub wake_failure_message: Option<Seq<char>>,
    pub uncertain_effect: Option<UncertainEffectView>,
}

impl DeepView for MaterializationWorkStatus {
    type V = MaterializationWorkStatusView;

    open spec fn deep_view(&self) -> MaterializationWorkStatusView {
        MaterializationWorkStatusView {
            next_attempt_at_unix_millis: self.next_attempt_at_unix_millis.deep_view(),
            operation_deadline_unix_millis: self.operation_deadline_unix_millis.deep_view(),
            failure_count: self.failure_count.deep_view(),
            failure_kind: self.failure_kind.deep_view(),
            failure_message: self.failure_message.deep_view(),
            wake_failure_message: self.wake_failure_message.deep_view(),
            uncertain_effect: self.uncertain_effect.deep_view(),
        }
    }
}

impl Clone for MaterializationWorkStatus {
    fn clone(&self) -> (r: Self)
        ensures
            r.deep_view() == self.deep_view(),
    {
        let r = MaterializationWorkStatus {
            next_attempt_at_unix_millis: self.next_attempt_at_unix_millis,
            operation_deadline_unix_millis: self.operation_deadline_unix_millis,
            failure_count: self.failure_count,
            failure_kind: self.failure_kind.clone(),
            failure_message: self.failure_message.clone(),
            wake_failure_message: self.wake_failure_message.clone(),
            uncertain_effect: self.uncertain_effect.clone(),
        };
        assert(r.failure_kind.deep_view() =~= self.failure_kind.deep_view());
        assert(r.failure_message.deep_view() =~= self.failure_message.deep_view());
        assert(r.wake_failure_message.deep_view() =~= self.wake_failure_message.deep_view());
        assert(r.uncertain_effect.deep_view() =~= self.uncertain_effect.deep_view());
        r
    }
}

/// The message of an effect of which it is not known whether it took place.
pub open spec fn effect_message(effect: UncertainEffect) -> pb::UncertainMaterializationEffectView {
    pb::UncertainMaterializationEffectView {
        instance_generation: effect.generation.0,
        owner: effect.owner@,
        lease_attempt: effect.attempt,
        effect_id: effect.effect_id@,
        operation: effect.operation@,
        object: Some(object_ref_message(effect.object.deep_view())),
        expected_uid: or_empty(effect.expected_uid.deep_view()),
        expected_resource_version: or_empty(effect.expected_resource_version.deep_view()),
        started_at_unix_millis: effect.started_at_unix_millis,
    }
}

fn effect_to_proto(effect: &UncertainEffect) -> (r: pb::UncertainMaterializationEffect)
    ensures
        r.deep_view() == effect_message(*effect),
{
    pb::UncertainMaterializationEffect {
        instance_generation: effect.generation.get(),
        owner: effect.owner.clone(),
        lease_attempt: effect.attempt,
        effect_id: effect.effect_id.clone(),
        operation: effect.operation.clone(),
        object: Some(rendered_object_ref_to_proto(&effect.object)),
        expected_uid: owned_or_empty(&effect.expected_uid),
        expected_resource_version: owned_or_empty(&effect.expected_resource_version),
        started_at_unix_millis: effect.started_at_unix_millis,
    }
}

/// The answer on a materialization that is not there.
pub open spec fn not_found_response(
    materialization_id: Seq<char>,
) -> pb::ReconcileMaterializationResponseView {
    pb::ReconcileMaterializationResponseView {
        found: false,
        materialization_id,
        state: Seq::empty(),
        attempted: false,
        lease_owner: Seq::empty(),
        lease_expires_at_unix_millis: 0,
        lease_attempt: 0,
        observed_refs: Seq::empty(),
        projection_observations: Seq::empty(),
        next_attempt_at_unix_millis: None,
        operation_deadline_unix_millis: None,
        failure_count: 0,
        failure_kind: Seq::empty(),
        failure_message: None,
        wake_failure_message: None,
        uncertain_effect: None,
    }
}

/// The kind of the last failure: an effect that is not known to have taken place
/// comes first.
pub open spec fn failure_kind_of(status: MaterializationWorkStatus) -> Seq<char> {
    if status.uncertain_effect is Some {
        "uncertain"@
    } else {
        or_empty(status.failure_kind.deep_view())
    }
}

/// The answer on a materialization: what is stored of it, and how far the work on
/// it is, where that is known.
pub open spec fn found_response(
    materialization: MaterializationRecordView,
    lease: Option<ReconciliationLease>,
    attempted: bool,
    observations: Seq<pb::ProjectionObservationView>,
    status: Option<MaterializationWorkStatus>,
) -> pb::ReconcileMaterializationResponseView {
    pb::ReconcileMaterializationResponseView {
        found: true,
        materialization_id: materialization.id,
        state: materialization_state_text(materialization.state),
        attempted,
        lease_owner: match lease {
            Some(lease) => lease.owner@,
            None => Seq::empty(),
        },
        lease_expires_at_unix_millis: match lease {
            Some(lease) => match time::epoch_millis(lease.expires_at) {
                Some(millis) => millis,
                None => 0,
            },
            None => 0,
        },
        lease_attempt: match lease {
            Some(lease) => lease.attempt,
            None => 0,
        },
        observed_refs: object_refs_message(materialization.rendered_objects),
        projection_observations: observations,
        next_attempt_at_unix_millis: match status {
            Some(status) => status.next_attempt_at_unix_millis,
            None => None,
        },
        operation_deadline_unix_millis: match status {
            Some(status) => status.operation_deadline_unix_millis,
            None => None,
        },
        failure_count: match status {
            Some(status) => status.failure_count,
            None => 0,
        },
        failure_kind: match status {
            Some(status) => failure_kind_of(status),
            None => Seq::empty(),
        },
        failure_message: match status {
            Some(status) => status.failure_message.deep_view(),
            None => None,
        },
        wake_failure_message: match status {
            Some(status) => status.wake_failure_message.deep_view(),
            None => None,
        },
        uncertain_effect: match status {
            Some(status) => match status.uncertain_effect {
                Some(effect) => Some(effect_message(effect)),
                None => None,
            },
            None => None,
        },
    }
}

/// What is done about a materialization that was asked for: nothing if it is not
/// there; else it is put to work, unless only its status is asked for or it
/// belongs to another target.
pub enum ReconcileStep {
    Reply(pb::ReconcileMaterializationResponse),
    Enqueue,
    StatusOnly,
}

/// Whether a materialization is put to work: not if only its status is asked for, or if it
/// belongs to another target.
pub open spec fn is_put_to_work(
    request: pb::ReconcileMaterializationRequestView,
    target: MaterializationTargetView,
    materialization: MaterializationRecordView,
) -> bool {
    !request.status_only && materialization.target == target
}

/// What is done about a materialization that was asked for.
pub fn reconcile_materialization_step(
    request: &pb::ReconcileMaterializationRequest,
    materialization_id: &MaterializationId,
    target: &MaterializationTarget,
    before: Option<&MaterializationRecord>,
) -> (r: ReconcileStep)
    ensures
        match before {
            None => r matches ReconcileStep::Reply(response) && response.deep_view()
                == not_found_response(materialization_id@),
            Some(before) => if is_put_to_work(
                request.deep_view(),
                target.deep_view(),
                before.deep_view(),
            ) {
                r is Enqueue
            } else {
                r is StatusOnly
            },
        },
{
    match before {
        None => {
            let response = pb::ReconcileMaterializationResponse {
                found: false,
                materialization_id: materialization_id.as_str().to_owned(),
                state: empty_string(),
                attempted: false,
                lease_owner: empty_string(),
                lease_expires_at_unix_millis: 0,
                lease_attempt: 0,
                observed_refs: Vec::new(),
                projection_observations: Vec::new(),
                next_attempt_at_unix_millis: None,
                operation_deadline_unix_millis: None,
                failure_count: 0,
                failure_kind: empty_string(),
                failure_message: None,
                wake_failure_message: None,
                uncertain_effect: None,
            };
            assert(response.observed_refs.deep_view() =~= Seq::empty());
            assert(response.projection_observations.deep_view() =~= Seq::empty());
            ReconcileStep::Reply(response)
        },
        Some(before) => {
            if request.status_only || !before.target.is_same(target) {
                ReconcileStep::StatusOnly
            } else {
                ReconcileStep::Enqueue
            }
        },
    }
}

/// The answer on a materialization. The record as it is after the work was asked
/// for counts; where it is gone by then, the one before.
pub fn reconcile_materialization_response(
    before: &MaterializationRecord,
    before_lease: Option<ReconciliationLease>,
    after: Option<(MaterializationRecord, Option<ReconciliationLease>)>,
    attempted: bool,
    projection_observations: Vec<pb::ProjectionObservation>,
    status: Option<MaterializationWorkStatus>,
) -> (r: pb::ReconcileMaterializationResponse)
    ensures
        r.deep_view() == (match after {
            Some((materialization, lease)) => found_response(
                materialization.deep_view(),
                lease,
                attempted,
                projection_observations.deep_view(),
                status,
            ),
            None => found_response(
                before.deep_view(),
                before_lease,
                attempted,
                projection_observations.deep_view(),
                status,
            ),
        }),
{
    match after {
        Some((materialization, lease)) => materialization_response(
            &materialization,
            lease,
            attempted,
            projection_observations,
            status,
        ),
        None => materialization_response(
            before,
            before_lease,
            attempted,
            projection_observations,
            status,
        ),
    }
}

fn materialization_response(
    materialization: &MaterializationRecord,
    lease: Option<ReconciliationLease>,
    attempted: bool,
    projection_observations: Vec<pb::ProjectionObservation>,
    status: Option<MaterializationWorkStatus>,
) -> (r: pb::ReconcileMaterializationResponse)
    ensures
        r.deep_view() == found_response(
            materialization.deep_view(),
            lease,
            attempted,
            projection_observations.deep_view(),
            status,
        ),
{
    let lease_expires_at_unix_millis: i64 = match &lease {
        Some(lease) => match time::unix_millis(lease.expires_at) {
            Some(millis) => millis,
            None => 0,
        },
        None => 0,
    };
    let lease_attempt: u64 = match &lease {
        Some(lease) => lease.attempt,
        None => 0,
    };
    let lease_owner = match lease {
        Some(lease) => lease.owner,
        None => empty_string(),
    };
    let mut response = pb::ReconcileMaterializationResponse {
        found: true,
        materialization_id: materialization.id.as_str().to_owned(),
        state: materialization_state_name(materialization.state).to_owned(),
        attempted,
        lease_owner,
        lease_expires_at_unix_millis,
        lease_attempt,
        observed_refs: object_refs_to_proto(&materialization.rendered_objects),
        projection_observations,
        next_attempt_at_unix_millis: None,
        operation_deadline_unix_millis: None,
        failure_count: 0,
        failure_kind: empty_string(),
        failure_message: None,
        wake_failure_message: None,
        uncertain_effect: None,
    };
    if let Some(status) = status {
        response.next_attempt_at_unix_millis = status.next_attempt_at_unix_millis;
        response.operation_deadline_unix_millis = status.operation_deadline_unix_millis;
        response.failure_count = status.failure_count;
        response.failure_kind =
        match &status.uncertain_effect {
            Some(_) => "uncertain".to_owned(),
            None => owned_or_empty(&status.failure_kind),
        };
        response.uncertain_effect =
        match &status.uncertain_effect {
            Some(effect) => Some(effect_to_proto(effect)),
            None => None,
        };
        response.failure_message = status.failure_message;
        response.wake_failure_message = status.wake_failure_message;
    }
    response
}

/// The answer on a materialization that was given up.
pub fn force_delete_materialization_response(
    materialization_id: &str,
    materialization: Option<&MaterializationRecord>,
    projection_observations: Vec<pb::ProjectionObservation>,
) -> (r: pb::ForceDeleteMaterializationResponse)
    ensures
        r.deep_view() == (pb::ForceDeleteMaterializationResponseView {
            found: materialization is Some,
            materialization_id: materialization_id@,
            observed_refs: match materialization {
                Some(materialization) => object_refs_message(
                    materialization.rendered_objects.deep_view(),
                ),
                None => Seq::empty(),
            },
            projection_observations: projection_observations.deep_view(),
        }),
{
    let observed_refs = match materialization {
        Some(materialization) => object_refs_to_proto(&materialization.rendered_objects),
        None => {
            let none: Vec<pb::RenderedObjectRef> = Vec::new();
            assert(none.deep_view() =~= Seq::empty());
            none
        },
    };
    pb::ForceDeleteMaterializationResponse {
        found: materialization.is_some(),
        materialization_id: materialization_id.to_owned(),
        observed_refs,
        projection_observations,
    }
}

/// The message of a version of a workload class can be asked for again and stands
/// for the same version, where its texts and names are not empty and it is
/// accepted.
pub proof fn lemma_class_round_trip(
    class: WorkloadClassVersion,
    request: pb::CreateWorkloadClassVersionRequestView,
)
    requires
        template::manifest_template_expressible(class.template),
        forall|i: int|
            0 <= i < class.exclusivity_keys@.len() ==> (
            #[trigger] class.exclusivity_keys@[i]).value.deep_view().len() > 0,
        workload::class_problem(class.deep_view()) is None,
        !text::is_blank(class.reference.class_id@),
        !text::is_blank(request.idempotency_key),
        request.class_id == class.reference.class_id@,
        request.version == class.reference.version.0,
        request.template_generation == class.template_generation.0,
        request.template == class_message(class).template,
        request.default_values == class_message(class).default_values,
        request.value_schema == class_message(class).value_schema,
        request.sleep_policy == class_message(class).sleep_policy,
        request.exclusivity_keys == class_message(class).exclusivity_keys,
    ensures
        create_class_problem(request) is None,
        class_of(request) == class.deep_view(),
{
    template::lemma_template_round_trip(class.template);
    lemma_strings_round_trip(class.default_values);
    let schema = schema_message(class.value_schema);
    assert(rule_pairs(schema.fields) =~= class.value_schema.fields.pairs());
    let problems = exclusivity_key_problems(request.exclusivity_keys);
    assert forall|i: int| #![trigger problems[i]]
        #![trigger exclusivity_keys_of(request.exclusivity_keys)[i]]
        0 <= i < problems.len() implies problems[i] is None && exclusivity_keys_of(
        request.exclusivity_keys,
    )[i] == class.exclusivity_keys@[i].deep_view() by {
        assert(request.exclusivity_keys[i] == exclusivity_key_message(class.exclusivity_keys@[i]));
        template::lemma_text_round_trip(class.exclusivity_keys@[i].value.deep_view());
    }
    outcome::lemma_first_problem(problems, 0, problems.len() as int);
    assert(exclusivity_keys_of(request.exclusivity_keys) =~= class.exclusivity_keys.deep_view());
    assert(sleep_policy_of(request.sleep_policy->0) == class.sleep_policy.deep_view());
    assert(class_of(request) == class.deep_view());
}

/// The key of a challenge that a message names.
pub open spec fn challenge_key_of(key: Option<pb::Http01ChallengeKeyView>) -> Result<
    Http01ChallengeKeyView,
    ApiStatusView,
> {
    match key {
        None => Err(status::invalid_argument("key is required"@)),
        Some(key) => match http01::challenge_key(key.host, key.token) {
            Ok(key) => Ok(key),
            Err(error) => Err(
                status::invalid_argument(http01::invalid_challenge_message(error)),
            ),
        },
    }
}

/// The key of a challenge that a message names.
pub fn http01_key_from_proto(key: &Option<pb::Http01ChallengeKey>) -> (r: Result<
    Http01ChallengeKey,
    ApiStatus,
>)
    ensures
        outcome::of(r) == challenge_key_of(key.deep_view()),
{
    let key = match key {
        Some(key) => key,
        None => return Err(ApiStatus::invalid_argument("key is required")),
    };
    match Http01ChallengeKey::new(key.host.as_str(), key.token.as_str()) {
        Ok(key) => Ok(key),
        Err(error) => Err(ApiStatus::invalid_argument(error.to_string().as_str())),
    }
}

/// The answer to a challenge that a request puts, at some point in time.
pub open spec fn put_challenge(
    request: pb::PutHttp01ChallengeRequestView,
    now_unix_millis: i64,
) -> Result<PutHttp01ChallengeRequestView, ApiStatusView> {
    match challenge_key_of(request.key) {
        Err(error) => Err(error),
        Ok(key) => match http01::answer_problem(
            request.key_authorization,
            request.expires_at_unix_millis,
            now_unix_millis,
        ) {
            Some(error) => Err(
                status::invalid_argument(http01::invalid_challenge_message(error)),
            ),
            None => Ok(
                PutHttp01ChallengeRequestView {
                    key,
                    key_authorization: request.key_authorization,
                    expires_at_unix_millis: request.expires_at_unix_millis,
                },
            ),
        },
    }
}

/// The answer to a challenge that a request puts.
pub fn put_http01_request_from_proto(
    request: &pb::PutHttp01ChallengeRequest,
    now_unix_millis: i64,
) -> (r: Result<PutHttp01ChallengeRequest, ApiStatus>)
    ensures
        outcome::of(r) == put_challenge(request.deep_view(), now_unix_millis),
{
    let key = match http01_key_from_proto(&request.key) {
        Ok(key) => key,
        Err(error) => return Err(error),
    };
    match PutHttp01ChallengeRequest::new(
        key,
        request.key_authorization.as_str(),
        request.expires_at_unix_millis,
        now_unix_millis,
    ) {
        Ok(request) => Ok(request),
        Err(error) => Err(ApiStatus::invalid_argument(error.to_string().as_str())),
    }
}

/// The challenge whose answer a request drops.
pub fn delete_http01_request_from_proto(request: &pb::DeleteHttp01ChallengeRequest) -> (r: Result<
    DeleteHttp01ChallengeRequest,
    ApiStatus,
>)
    ensures
        outcome::of(r) == match challenge_key_of(request.deep_view().key) {
            Ok(key) => Ok(DeleteHttp01ChallengeRequestView { key }),
            Err(error) => Err(error),
        },
{
    match http01_key_from_proto(&request.key) {
        Ok(key) => Ok(DeleteHttp01ChallengeRequest::new(key)),
        Err(error) => Err(error),
    }
}

/// The answers that a request drops.
pub open spec fn expire_of(request: pb::ExpireHttp01ChallengesRequestView) -> Result<
    ExpireHttp01ChallengesRequestView,
    ApiStatusView,
> {
    if request.limit matches Some(limit) && limit > usize::MAX {
        Err(status::invalid_argument("HTTP-01 expire limit is too large"@))
    } else {
        Ok(
            ExpireHttp01ChallengesRequestView {
                now_unix_millis: request.now_unix_millis,
                limit: match request.limit {
                    Some(limit) => Some(limit as usize),
                    None => None,
                },
            },
        )
    }
}

/// The answers that a request drops.
pub fn expire_http01_request_from_proto(request: &pb::ExpireHttp01ChallengesRequest) -> (r: Result<
    ExpireHttp01ChallengesRequest,
    ApiStatus,
>)
    ensures
        outcome::of(r) == expire_of(request.deep_view()),
{
    let read = ExpireHttp01ChallengesRequest::new(request.now_unix_millis);
    match request.limit {
        None => Ok(read),
        Some(limit) => {
            if limit as u128 > usize::MAX as u128 {
                return Err(ApiStatus::invalid_argument("HTTP-01 expire limit is too large"));
            }
            Ok(read.with_limit(limit as usize))
        },
    }
}

/// The message of an answer to a challenge.
pub open spec fn challenge_message(challenge: Http01ChallengeRecordView) -> pb::Http01ChallengeView {
    pb::Http01ChallengeView {
        key: Some(
            pb::Http01ChallengeKeyView { host: challenge.key.host, token: challenge.key.token },
        ),
        key_authorization: challenge.key_authorization,
        expires_at_unix_millis: challenge.expires_at_unix_millis,
    }
}

/// The message of an answer to a challenge.
pub fn http01_to_proto(challenge: &Http01ChallengeRecord) -> (r: pb::Http01Challenge)
    ensures
        r.deep_view() == challenge_message(challenge.deep_view()),
{
    pb::Http01Challenge {
        key: Some(
            pb::Http01ChallengeKey {
                host: challenge.key.host().as_str().to_owned(),
                token: challenge.key.token().to_owned(),
            },
        ),
        key_authorization: challenge.key_authorization.clone(),
        expires_at_unix_millis: challenge.expires_at_unix_millis,
    }
}

} // verus!
