//! Templates in messages: what a message stands for, and the message of a
//! template.
use vstd::prelude::*;

use super::pb;
use super::status;
use super::status::ApiStatus;
use super::status::ApiStatusView;
use super::status::StatusCode;
use crate::manifest::template::ContainerPortTemplate;
use crate::manifest::template::ContainerPortTemplateView;
use crate::manifest::template::ContainerTemplate;
use crate::manifest::template::ContainerTemplateView;
use crate::manifest::template::CsiSecretRefTemplate;
use crate::manifest::template::CsiSecretRefTemplateView;
use crate::manifest::template::EnvVarTemplate;
use crate::manifest::template::EnvVarTemplateView;
use crate::manifest::template::ManifestTemplate;
use crate::manifest::template::ManifestTemplateView;
use crate::manifest::template::PersistentVolumeAccessMode;
use crate::manifest::template::PersistentVolumeReclaimPolicy;
use crate::manifest::template::PersistentVolumeSourceTemplate;
use crate::manifest::template::PersistentVolumeSourceTemplateView;
use crate::manifest::template::RawKubernetesManifestTemplate;
use crate::manifest::template::RawKubernetesManifestTemplateView;
use crate::manifest::template::ServicePortTemplate;
use crate::manifest::template::ServicePortTemplateView;
use crate::manifest::template::ServiceTemplate;
use crate::manifest::template::ServiceTemplateView;
use crate::manifest::template::SidecarTemplate;
use crate::manifest::template::SidecarTemplateView;
use crate::manifest::template::TemplateText;
use crate::manifest::template::TemplateTextPart;
use crate::manifest::template::TemplateTextPartView;
use crate::manifest::template::VolumeTemplate;
use crate::manifest::template::VolumeTemplateView;
use crate::manifest::template::WorkloadKind;
use crate::manifest::template::WorkloadTemplate;
use crate::manifest::template::WorkloadTemplateView;
use crate::outcome;
use crate::string_map;
use crate::string_map::StringMap;
use crate::text;

verus! {

/// A field that is required but was left out.
pub open spec fn missing(field: Seq<char>) -> ApiStatusView {
    status::invalid_argument(field + " is required"@)
}

fn missing_status(field: &str) -> (r: ApiStatus)
    ensures
        r.deep_view() == missing(field@),
{
    ApiStatus::invalid_argument(text::join2(field, " is required").as_str())
}

/// What is wrong with a text that must not be empty.
pub open spec fn empty_problem(value: Seq<char>, field: Seq<char>) -> Option<ApiStatusView> {
    if value.len() == 0 {
        Some(status::invalid_argument(field + " must not be empty"@))
    } else {
        None
    }
}

fn required_non_empty_string(value: &String, field: &str) -> (r: Result<String, ApiStatus>)
    ensures
        outcome::of(r) == outcome::checked(empty_problem(value@, field@), value@),
{
    if value.as_str().is_empty() {
        return Err(
            ApiStatus::invalid_argument(text::join2(field, " must not be empty").as_str()),
        );
    }
    Ok(value.clone())
}

/// What is wrong with a number that is no port.
pub open spec fn u16_problem(value: u32, field: Seq<char>) -> Option<ApiStatusView> {
    if value > 65535 {
        Some(status::invalid_argument(field + " must fit in uint16"@))
    } else {
        None
    }
}

fn u16_from_proto(field: &str, value: u32) -> (r: Result<u16, ApiStatus>)
    ensures
        outcome::of(r) == outcome::checked(u16_problem(value, field@), value as u16),
{
    if value > 65535 {
        return Err(
            ApiStatus::invalid_argument(text::join2(field, " must fit in uint16").as_str()),
        );
    }
    Ok(value as u16)
}

/// What is wrong with a part of a text.
pub open spec fn part_problem(part: pb::TemplateTextPartView) -> Option<ApiStatusView> {
    match part.kind {
        Some(_) => None,
        None => Some(status::invalid_argument("template text part kind is required"@)),
    }
}

/// A part of a text.
pub open spec fn part_of(part: pb::TemplateTextPartView) -> TemplateTextPartView {
    match part.kind->0 {
        pb::TemplateTextPartKindView::Literal(value) => TemplateTextPartView::Literal(value),
        pb::TemplateTextPartKindView::InstanceValue(field) => {
            TemplateTextPartView::InstanceValue(field)
        },
    }
}

fn template_text_part_from_proto(part: &pb::TemplateTextPart) -> (r: Result<
    TemplateTextPart,
    ApiStatus,
>)
    ensures
        outcome::of(r) == outcome::checked(
            part_problem(part.deep_view()),
            part_of(part.deep_view()),
        ),
{
    match &part.kind {
        None => Err(ApiStatus::invalid_argument("template text part kind is required")),
        Some(pb::TemplateTextPartKind::Literal(value)) => Ok(
            TemplateTextPart::literal(value.as_str()),
        ),
        Some(pb::TemplateTextPartKind::InstanceValue(field)) => Ok(
            TemplateTextPart::instance_value(field.as_str()),
        ),
    }
}

/// The problem of each of the parts of a text.
pub open spec fn part_problems(items: Seq<pb::TemplateTextPartView>) -> Seq<Option<ApiStatusView>> {
    items.map_values(|item: pb::TemplateTextPartView| part_problem(item))
}

/// What the parts of a text are.
pub open spec fn parts_of(items: Seq<pb::TemplateTextPartView>) -> Seq<TemplateTextPartView> {
    items.map_values(|item: pb::TemplateTextPartView| part_of(item))
}

fn parts_from_proto(
    items: &Vec<pb::TemplateTextPart>,
) -> (r: Result<Vec<TemplateTextPart>, ApiStatus>)
    ensures
        outcome::of(r) == outcome::checked(
            outcome::first_problem(part_problems(items.deep_view()), 0),
            parts_of(items.deep_view()),
        ),
{
    let ghost problems = part_problems(items.deep_view());
    let mut values: Vec<TemplateTextPart> = Vec::new();
    let mut i: usize = 0;
    while i < items.len()
        invariant
            0 <= i <= items.len(),
            problems == part_problems(items.deep_view()),
            outcome::first_problem(problems, 0) == outcome::first_problem(problems, i as int),
            values.len() == i,
            forall|j: int|
                0 <= j < i ==> (#[trigger] values@[j]).deep_view() == part_of(
                    items@[j].deep_view(),
                ),
        decreases items.len() - i,
    {
        assert(problems[i as int] == part_problem(items@[i as int].deep_view()));
        match template_text_part_from_proto(&items[i]) {
            Err(error) => {
                return Err(error);
            },
            Ok(value) => {
                values.push(value);
            },
        }
        i = i + 1;
    }
    assert(values.deep_view() =~= parts_of(items.deep_view()));
    Ok(values)
}

/// What is wrong with a text.
pub open spec fn text_problem(text: pb::TemplateTextView) -> Option<ApiStatusView> {
    if text.parts.len() == 0 {
        Some(status::invalid_argument("template text parts must not be empty"@))
    } else {
        outcome::first_problem(part_problems(text.parts), 0)
    }
}

/// A text.
pub open spec fn text_of(text: pb::TemplateTextView) -> Seq<TemplateTextPartView> {
    parts_of(text.parts)
}

/// The text that a message stands for.
pub fn template_text_from_proto(text: &pb::TemplateText) -> (r: Result<TemplateText, ApiStatus>)
    ensures
        outcome::of(r) == outcome::checked(
            text_problem(text.deep_view()),
            text_of(text.deep_view()),
        ),
{
    if text.parts.len() == 0 {
        return Err(ApiStatus::invalid_argument("template text parts must not be empty"));
    }
    match parts_from_proto(&text.parts) {
        Err(error) => Err(error),
        Ok(parts) => Ok(TemplateText::from_parts(parts)),
    }
}

/// What is wrong with a text that is required.
pub open spec fn required_text_problem(
    text: Option<pb::TemplateTextView>,
    field: Seq<char>,
) -> Option<ApiStatusView> {
    match text {
        None => Some(missing(field)),
        Some(text) => text_problem(text),
    }
}

fn required_text(text: &Option<pb::TemplateText>, field: &str) -> (r: Result<
    TemplateText,
    ApiStatus,
>)
    ensures
        outcome::of(r) == outcome::checked(
            required_text_problem(text.deep_view(), field@),
            text_of(text.deep_view()->0),
        ),
{
    match text {
        None => Err(missing_status(field)),
        Some(text) => template_text_from_proto(text),
    }
}

/// What is wrong with a text that may be left out.
pub open spec fn optional_text_problem(text: Option<pb::TemplateTextView>) -> Option<
    ApiStatusView,
> {
    match text {
        None => None,
        Some(text) => text_problem(text),
    }
}

/// A text that may be left out.
pub open spec fn optional_text_of(text: Option<pb::TemplateTextView>) -> Option<
    Seq<TemplateTextPartView>,
> {
    match text {
        None => None,
        Some(text) => Some(text_of(text)),
    }
}

fn optional_text(text: &Option<pb::TemplateText>) -> (r: Result<Option<TemplateText>, ApiStatus>)
    ensures
        outcome::of(r) == outcome::checked(
            optional_text_problem(text.deep_view()),
            optional_text_of(text.deep_view()),
        ),
{
    match text {
        None => Ok(None),
        Some(text) => match template_text_from_proto(text) {
            Err(error) => Err(error),
            Ok(text) => Ok(Some(text)),
        },
    }
}

/// The message of a part of a text.
pub open spec fn part_message(part: TemplateTextPartView) -> pb::TemplateTextPartView {
    pb::TemplateTextPartView {
        kind: Some(
            match part {
                TemplateTextPartView::Literal(value) => pb::TemplateTextPartKindView::Literal(
                    value,
                ),
                TemplateTextPartView::InstanceValue(field) => {
                    pb::TemplateTextPartKindView::InstanceValue(field)
                },
            },
        ),
    }
}

fn template_text_part_to_proto(part: &TemplateTextPart) -> (r: pb::TemplateTextPart)
    ensures
        r.deep_view() == part_message(part.deep_view()),
{
    let kind = match part {
        TemplateTextPart::Literal(value) => pb::TemplateTextPartKind::Literal(value.clone()),
        TemplateTextPart::InstanceValue(field) => pb::TemplateTextPartKind::InstanceValue(
            field.clone(),
        ),
    };
    pb::TemplateTextPart { kind: Some(kind) }
}

/// The message of a text.
pub open spec fn text_message(parts: Seq<TemplateTextPartView>) -> pb::TemplateTextView {
    pb::TemplateTextView {
        parts: parts.map_values(|part: TemplateTextPartView| part_message(part)),
    }
}

/// The message of a text.
pub fn template_text_to_proto(text: &TemplateText) -> (r: pb::TemplateText)
    ensures
        r.deep_view() == text_message(text.deep_view()),
{
    let items = text.parts();
    let mut parts: Vec<pb::TemplateTextPart> = Vec::new();
    let mut i: usize = 0;
    while i < items.len()
        invariant
            0 <= i <= items.len(),
            parts.len() == i,
            forall|j: int|
                0 <= j < i ==> (#[trigger] parts@[j]).deep_view() == part_message(
                    items@[j].deep_view(),
                ),
        decreases items.len() - i,
    {
        parts.push(template_text_part_to_proto(&items[i]));
        i = i + 1;
    }
    assert(parts.deep_view() =~= text_message(text.deep_view()).parts);
    pb::TemplateText { parts }
}

/// The message of a text that may be left out.
pub open spec fn optional_text_message(text: Option<Seq<TemplateTextPartView>>) -> Option<
    pb::TemplateTextView,
> {
    match text {
        Some(text) => Some(text_message(text)),
        None => None,
    }
}

fn optional_text_to_proto(text: &Option<TemplateText>) -> (r: Option<pb::TemplateText>)
    ensures
        r.deep_view() == optional_text_message(text.deep_view()),
{
    match text {
        Some(text) => Some(template_text_to_proto(text)),
        None => None,
    }
}

fn optional_string(value: &Option<String>) -> (r: Option<String>)
    ensures
        r.deep_view() == value.deep_view(),
{
    match value {
        Some(value) => Some(value.clone()),
        None => None,
    }
}

/// What is wrong with the kind of a workload.
pub open spec fn workload_kind_problem(value: pb::WorkloadKind) -> Option<ApiStatusView> {
    match value {
        pb::WorkloadKind::Deployment => None,
        pb::WorkloadKind::StatefulSet => None,
        pb::WorkloadKind::Unspecified => Some(
            status::invalid_argument("template.workload.kind is required"@),
        ),
        pb::WorkloadKind::Unrecognized => Some(
            status::invalid_argument("template.workload.kind is invalid"@),
        ),
    }
}

/// The value of the kind of a workload.
pub open spec fn workload_kind_of(value: pb::WorkloadKind) -> WorkloadKind {
    match value {
        pb::WorkloadKind::Deployment => WorkloadKind::Deployment,
        pb::WorkloadKind::StatefulSet => WorkloadKind::StatefulSet,
        _ => WorkloadKind::Deployment,
    }
}

fn workload_kind_from_proto(value: &pb::WorkloadKind) -> (r: Result<WorkloadKind, ApiStatus>)
    ensures
        outcome::of(r) == outcome::checked(workload_kind_problem(*value), workload_kind_of(*value)),
{
    match value {
        pb::WorkloadKind::Deployment => Ok(WorkloadKind::Deployment),
        pb::WorkloadKind::StatefulSet => Ok(WorkloadKind::StatefulSet),
        pb::WorkloadKind::Unspecified => Err(
            ApiStatus::invalid_argument("template.workload.kind is required"),
        ),
        pb::WorkloadKind::Unrecognized => Err(
            ApiStatus::invalid_argument("template.workload.kind is invalid"),
        ),
    }
}

/// The message of the kind of a workload.
pub open spec fn workload_kind_message(value: WorkloadKind) -> pb::WorkloadKind {
    match value {
        WorkloadKind::Deployment => pb::WorkloadKind::Deployment,
        WorkloadKind::StatefulSet => pb::WorkloadKind::StatefulSet,
    }
}

fn workload_kind_to_proto(value: WorkloadKind) -> (r: pb::WorkloadKind)
    ensures
        r == workload_kind_message(value),
{
    match value {
        WorkloadKind::Deployment => pb::WorkloadKind::Deployment,
        WorkloadKind::StatefulSet => pb::WorkloadKind::StatefulSet,
    }
}

/// What is wrong with an access mode.
pub open spec fn access_mode_problem(
    value: pb::PersistentVolumeAccessMode,
) -> Option<ApiStatusView> {
    match value {
        pb::PersistentVolumeAccessMode::ReadWriteOnce => None,
        pb::PersistentVolumeAccessMode::ReadOnlyMany => None,
        pb::PersistentVolumeAccessMode::ReadWriteMany => None,
        pb::PersistentVolumeAccessMode::Unspecified => Some(
            status::invalid_argument("template.volumes.access_modes must not be unspecified"@),
        ),
        pb::PersistentVolumeAccessMode::Unrecognized => Some(
            status::invalid_argument("template.volumes.access_modes is invalid"@),
        ),
    }
}

/// The value of an access mode.
pub open spec fn access_mode_of(
    value: pb::PersistentVolumeAccessMode,
) -> PersistentVolumeAccessMode {
    match value {
        pb::PersistentVolumeAccessMode::ReadWriteOnce => PersistentVolumeAccessMode::ReadWriteOnce,
        pb::PersistentVolumeAccessMode::ReadOnlyMany => PersistentVolumeAccessMode::ReadOnlyMany,
        pb::PersistentVolumeAccessMode::ReadWriteMany => PersistentVolumeAccessMode::ReadWriteMany,
        _ => PersistentVolumeAccessMode::ReadWriteOnce,
    }
}

fn access_mode_from_proto(
    value: &pb::PersistentVolumeAccessMode,
) -> (r: Result<PersistentVolumeAccessMode, ApiStatus>)
    ensures
        outcome::of(r) == outcome::checked(access_mode_problem(*value), access_mode_of(*value)),
{
    match value {
        pb::PersistentVolumeAccessMode::ReadWriteOnce => Ok(
            PersistentVolumeAccessMode::ReadWriteOnce,
        ),
        pb::PersistentVolumeAccessMode::ReadOnlyMany => Ok(
            PersistentVolumeAccessMode::ReadOnlyMany,
        ),
        pb::PersistentVolumeAccessMode::ReadWriteMany => Ok(
            PersistentVolumeAccessMode::ReadWriteMany,
        ),
        pb::PersistentVolumeAccessMode::Unspecified => Err(
            ApiStatus::invalid_argument("template.volumes.access_modes must not be unspecified"),
        ),
        pb::PersistentVolumeAccessMode::Unrecognized => Err(
            ApiStatus::invalid_argument("template.volumes.access_modes is invalid"),
        ),
    }
}

/// The message of an access mode.
pub open spec fn access_mode_message(
    value: PersistentVolumeAccessMode,
) -> pb::PersistentVolumeAccessMode {
    match value {
        PersistentVolumeAccessMode::ReadWriteOnce => pb::PersistentVolumeAccessMode::ReadWriteOnce,
        PersistentVolumeAccessMode::ReadOnlyMany => pb::PersistentVolumeAccessMode::ReadOnlyMany,
        PersistentVolumeAccessMode::ReadWriteMany => pb::PersistentVolumeAccessMode::ReadWriteMany,
    }
}

fn access_mode_to_proto(value: PersistentVolumeAccessMode) -> (r: pb::PersistentVolumeAccessMode)
    ensures
        r == access_mode_message(value),
{
    match value {
        PersistentVolumeAccessMode::ReadWriteOnce => pb::PersistentVolumeAccessMode::ReadWriteOnce,
        PersistentVolumeAccessMode::ReadOnlyMany => pb::PersistentVolumeAccessMode::ReadOnlyMany,
        PersistentVolumeAccessMode::ReadWriteMany => pb::PersistentVolumeAccessMode::ReadWriteMany,
    }
}

/// What is wrong with a reclaim policy.
pub open spec fn reclaim_policy_problem(
    value: pb::PersistentVolumeReclaimPolicy,
) -> Option<ApiStatusView> {
    match value {
        pb::PersistentVolumeReclaimPolicy::Retain => None,
        pb::PersistentVolumeReclaimPolicy::Delete => None,
        pb::PersistentVolumeReclaimPolicy::Unspecified => Some(
            status::invalid_argument("template.volumes.reclaim_policy is required"@),
        ),
        pb::PersistentVolumeReclaimPolicy::Unrecognized => Some(
            status::invalid_argument("template.volumes.reclaim_policy is invalid"@),
        ),
    }
}

/// The value of a reclaim policy.
pub open spec fn reclaim_policy_of(
    value: pb::PersistentVolumeReclaimPolicy,
) -> PersistentVolumeReclaimPolicy {
    match value {
        pb::PersistentVolumeReclaimPolicy::Retain => PersistentVolumeReclaimPolicy::Retain,
        pb::PersistentVolumeReclaimPolicy::Delete => PersistentVolumeReclaimPolicy::Delete,
        _ => PersistentVolumeReclaimPolicy::Retain,
    }
}

fn reclaim_policy_from_proto(
    value: &pb::PersistentVolumeReclaimPolicy,
) -> (r: Result<PersistentVolumeReclaimPolicy, ApiStatus>)
    ensures
        outcome::of(r) == outcome::checked(reclaim_policy_problem(*value), reclaim_policy_of(*value)),
{
    match value {
        pb::PersistentVolumeReclaimPolicy::Retain => Ok(PersistentVolumeReclaimPolicy::Retain),
        pb::PersistentVolumeReclaimPolicy::Delete => Ok(PersistentVolumeReclaimPolicy::Delete),
        pb::PersistentVolumeReclaimPolicy::Unspecified => Err(
            ApiStatus::invalid_argument("template.volumes.reclaim_policy is required"),
        ),
        pb::PersistentVolumeReclaimPolicy::Unrecognized => Err(
            ApiStatus::invalid_argument("template.volumes.reclaim_policy is invalid"),
        ),
    }
}

/// The message of a reclaim policy.
pub open spec fn reclaim_policy_message(
    value: PersistentVolumeReclaimPolicy,
) -> pb::PersistentVolumeReclaimPolicy {
    match value {
        PersistentVolumeReclaimPolicy::Retain => pb::PersistentVolumeReclaimPolicy::Retain,
        PersistentVolumeReclaimPolicy::Delete => pb::PersistentVolumeReclaimPolicy::Delete,
    }
}

fn reclaim_policy_to_proto(
    value: PersistentVolumeReclaimPolicy,
) -> (r: pb::PersistentVolumeReclaimPolicy)
    ensures
        r == reclaim_policy_message(value),
{
    match value {
        PersistentVolumeReclaimPolicy::Retain => pb::PersistentVolumeReclaimPolicy::Retain,
        PersistentVolumeReclaimPolicy::Delete => pb::PersistentVolumeReclaimPolicy::Delete,
    }
}

/// The problem of each of the access modes.
pub open spec fn access_mode_problems(
    items: Seq<pb::PersistentVolumeAccessMode>,
) -> Seq<Option<ApiStatusView>> {
    items.map_values(|item: pb::PersistentVolumeAccessMode| access_mode_problem(item))
}

/// What the access modes are.
pub open spec fn access_modes_of(
    items: Seq<pb::PersistentVolumeAccessMode>,
) -> Seq<PersistentVolumeAccessMode> {
    items.map_values(|item: pb::PersistentVolumeAccessMode| access_mode_of(item))
}

fn access_modes_from_proto(
    items: &Vec<pb::PersistentVolumeAccessMode>,
) -> (r: Result<Vec<PersistentVolumeAccessMode>, ApiStatus>)
    ensures
        outcome::of(r) == outcome::checked(
            outcome::first_problem(access_mode_problems(items.deep_view()), 0),
            access_modes_of(items.deep_view()),
        ),
{
    let ghost problems = access_mode_problems(items.deep_view());
    let mut values: Vec<PersistentVolumeAccessMode> = Vec::new();
    let mut i: usize = 0;
    while i < items.len()
        invariant
            0 <= i <= items.len(),
            problems == access_mode_problems(items.deep_view()),
            outcome::first_problem(problems, 0) == outcome::first_problem(problems, i as int),
            values.len() == i,
            forall|j: int|
                0 <= j < i ==> (#[trigger] values@[j]).deep_view() == access_mode_of(
                    items@[j].deep_view(),
                ),
        decreases items.len() - i,
    {
        assert(problems[i as int] == access_mode_problem(items@[i as int].deep_view()));
        match access_mode_from_proto(&items[i]) {
            Err(error) => {
                return Err(error);
            },
            Ok(value) => {
                values.push(value);
            },
        }
        i = i + 1;
    }
    assert(values.deep_view() =~= access_modes_of(items.deep_view()));
    Ok(values)
}

/// The messages of access modes.
pub open spec fn access_modes_message(
    items: Seq<PersistentVolumeAccessMode>,
) -> Seq<pb::PersistentVolumeAccessMode> {
    items.map_values(|item: PersistentVolumeAccessMode| access_mode_message(item))
}

fn access_modes_to_proto(
    items: &Vec<PersistentVolumeAccessMode>,
) -> (r: Vec<pb::PersistentVolumeAccessMode>)
    ensures
        r.deep_view() == access_modes_message(items@),
{
    let mut values: Vec<pb::PersistentVolumeAccessMode> = Vec::new();
    let mut i: usize = 0;
    while i < items.len()
        invariant
            0 <= i <= items.len(),
            values.len() == i,
            forall|j: int|
                0 <= j < i ==> (#[trigger] values@[j]).deep_view() == access_mode_message(
                    items@[j],
                ),
        decreases items.len() - i,
    {
        values.push(access_mode_to_proto(items[i]));
        i = i + 1;
    }
    assert(values.deep_view() =~= access_modes_message(items@));
    values
}

/// What is wrong with a port of a container, in the order of its fields.
pub open spec fn container_port_problem(
    template: pb::ContainerPortTemplateView,
) -> Option<ApiStatusView> {
    u16_problem(template.container_port, "template.container.ports.container_port"@)
}

/// What a port of a container is.
pub open spec fn container_port_of(
    template: pb::ContainerPortTemplateView,
) -> ContainerPortTemplateView {
    ContainerPortTemplateView {
        name: template.name,
        container_port: template.container_port as u16,
    }
}

fn container_port_from_proto(
    template: &pb::ContainerPortTemplate,
) -> (r: Result<ContainerPortTemplate, ApiStatus>)
    ensures
        outcome::of(r) == outcome::checked(
            container_port_problem(template.deep_view()),
            container_port_of(template.deep_view()),
        ),
{
    let container_port = match u16_from_proto(
        "template.container.ports.container_port",
        template.container_port,
    ) {
        Ok(value) => value,
        Err(error) => {
            return Err(error);
        },
    };
    Ok(
        ContainerPortTemplate {
            name: optional_string(&template.name),
            container_port,
        },
    )
}

/// The message of a port of a container.
pub open spec fn container_port_message(
    template: ContainerPortTemplate,
) -> pb::ContainerPortTemplateView {
    pb::ContainerPortTemplateView {
        name: template.name.deep_view(),
        container_port: template.container_port as u32,
    }
}

fn container_port_to_proto(template: &ContainerPortTemplate) -> (r: pb::ContainerPortTemplate)
    ensures
        r.deep_view() == container_port_message(*template),
{
    pb::ContainerPortTemplate {
        name: optional_string(&template.name),
        container_port: template.container_port as u32,
    }
}

/// The problem of each of the ports of a container.
pub open spec fn container_port_problems(
    items: Seq<pb::ContainerPortTemplateView>,
) -> Seq<Option<ApiStatusView>> {
    items.map_values(|item: pb::ContainerPortTemplateView| container_port_problem(item))
}

/// What the ports of a container are.
pub open spec fn container_ports_of(
    items: Seq<pb::ContainerPortTemplateView>,
) -> Seq<ContainerPortTemplateView> {
    items.map_values(|item: pb::ContainerPortTemplateView| container_port_of(item))
}

fn container_ports_from_proto(
    items: &Vec<pb::ContainerPortTemplate>,
) -> (r: Result<Vec<ContainerPortTemplate>, ApiStatus>)
    ensures
        outcome::of(r) == outcome::checked(
            outcome::first_problem(container_port_problems(items.deep_view()), 0),
            container_ports_of(items.deep_view()),
        ),
{
    let ghost problems = container_port_problems(items.deep_view());
    let mut values: Vec<ContainerPortTemplate> = Vec::new();
    let mut i: usize = 0;
    while i < items.len()
        invariant
            0 <= i <= items.len(),
            problems == container_port_problems(items.deep_view()),
            outcome::first_problem(problems, 0) == outcome::first_problem(problems, i as int),
            values.len() == i,
            forall|j: int|
                0 <= j < i ==> (#[trigger] values@[j]).deep_view() == container_port_of(
                    items@[j].deep_view(),
                ),
        decreases items.len() - i,
    {
        assert(problems[i as int] == container_port_problem(items@[i as int].deep_view()));
        match container_port_from_proto(&items[i]) {
            Err(error) => {
                return Err(error);
            },
            Ok(value) => {
                values.push(value);
            },
        }
        i = i + 1;
    }
    assert(values.deep_view() =~= container_ports_of(items.deep_view()));
    Ok(values)
}

/// The messages of the ports of a container.
pub open spec fn container_ports_message(
    items: Seq<ContainerPortTemplate>,
) -> Seq<pb::ContainerPortTemplateView> {
    items.map_values(|item: ContainerPortTemplate| container_port_message(item))
}

fn container_ports_to_proto(
    items: &Vec<ContainerPortTemplate>,
) -> (r: Vec<pb::ContainerPortTemplate>)
    ensures
        r.deep_view() == container_ports_message(items@),
{
    let mut values: Vec<pb::ContainerPortTemplate> = Vec::new();
    let mut i: usize = 0;
    while i < items.len()
        invariant
            0 <= i <= items.len(),
            values.len() == i,
            forall|j: int|
                0 <= j < i ==> (#[trigger] values@[j]).deep_view() == container_port_message(
                    items@[j],
                ),
        decreases items.len() - i,
    {
        values.push(container_port_to_proto(&items[i]));
        i = i + 1;
    }
    assert(values.deep_view() =~= container_ports_message(items@));
    values
}

/// What is wrong with an environment variable, in the order of its fields.
pub open spec fn env_var_problem(template: pb::EnvVarTemplateView) -> Option<ApiStatusView> {
    outcome::first_of(
        empty_problem(template.name, "template.container.env.name"@),
        required_text_problem(template.value, "template.container.env.value"@),
    )
}

/// What an environment variable is.
pub open spec fn env_var_of(template: pb::EnvVarTemplateView) -> EnvVarTemplateView {
    EnvVarTemplateView {
        name: template.name,
        value: text_of(template.value->0),
    }
}

fn env_var_from_proto(template: &pb::EnvVarTemplate) -> (r: Result<EnvVarTemplate, ApiStatus>)
    ensures
        outcome::of(r) == outcome::checked(
            env_var_problem(template.deep_view()),
            env_var_of(template.deep_view()),
        ),
{
    let name = match required_non_empty_string(&template.name, "template.container.env.name") {
        Ok(value) => value,
        Err(error) => {
            return Err(error);
        },
    };
    let value = match required_text(&template.value, "template.container.env.value") {
        Ok(value) => value,
        Err(error) => {
            return Err(error);
        },
    };
    Ok(
        EnvVarTemplate {
            name,
            value,
        },
    )
}

/// The message of an environment variable.
pub open spec fn env_var_message(template: EnvVarTemplate) -> pb::EnvVarTemplateView {
    pb::EnvVarTemplateView {
        name: template.name@,
        value: Some(text_message(template.value.deep_view())),
    }
}

fn env_var_to_proto(template: &EnvVarTemplate) -> (r: pb::EnvVarTemplate)
    ensures
        r.deep_view() == env_var_message(*template),
{
    pb::EnvVarTemplate {
        name: template.name.clone(),
        value: Some(template_text_to_proto(&template.value)),
    }
}

/// Whether an environment variable has a message: none of its texts and names is empty.
pub open spec fn env_var_expressible(template: EnvVarTemplate) -> bool {
    &&& template.name@.len() > 0
    &&& template.value.deep_view().len() > 0
}

/// The problem of each of the environment variables.
pub open spec fn env_var_problems(
    items: Seq<pb::EnvVarTemplateView>,
) -> Seq<Option<ApiStatusView>> {
    items.map_values(|item: pb::EnvVarTemplateView| env_var_problem(item))
}

/// What the environment variables are.
pub open spec fn env_vars_of(items: Seq<pb::EnvVarTemplateView>) -> Seq<EnvVarTemplateView> {
    items.map_values(|item: pb::EnvVarTemplateView| env_var_of(item))
}

fn env_vars_from_proto(
    items: &Vec<pb::EnvVarTemplate>,
) -> (r: Result<Vec<EnvVarTemplate>, ApiStatus>)
    ensures
        outcome::of(r) == outcome::checked(
            outcome::first_problem(env_var_problems(items.deep_view()), 0),
            env_vars_of(items.deep_view()),
        ),
{
    let ghost problems = env_var_problems(items.deep_view());
    let mut values: Vec<EnvVarTemplate> = Vec::new();
    let mut i: usize = 0;
    while i < items.len()
        invariant
            0 <= i <= items.len(),
            problems == env_var_problems(items.deep_view()),
            outcome::first_problem(problems, 0) == outcome::first_problem(problems, i as int),
            values.len() == i,
            forall|j: int|
                0 <= j < i ==> (#[trigger] values@[j]).deep_view() == env_var_of(
                    items@[j].deep_view(),
                ),
        decreases items.len() - i,
    {
        assert(problems[i as int] == env_var_problem(items@[i as int].deep_view()));
        match env_var_from_proto(&items[i]) {
            Err(error) => {
                return Err(error);
            },
            Ok(value) => {
                values.push(value);
            },
        }
        i = i + 1;
    }
    assert(values.deep_view() =~= env_vars_of(items.deep_view()));
    Ok(values)
}

/// The messages of environment variables.
pub open spec fn env_vars_message(items: Seq<EnvVarTemplate>) -> Seq<pb::EnvVarTemplateView> {
    items.map_values(|item: EnvVarTemplate| env_var_message(item))
}

fn env_vars_to_proto(items: &Vec<EnvVarTemplate>) -> (r: Vec<pb::EnvVarTemplate>)
    ensures
        r.deep_view() == env_vars_message(items@),
{
    let mut values: Vec<pb::EnvVarTemplate> = Vec::new();
    let mut i: usize = 0;
    while i < items.len()
        invariant
            0 <= i <= items.len(),
            values.len() == i,
            forall|j: int|
                0 <= j < i ==> (#[trigger] values@[j]).deep_view() == env_var_message(items@[j]),
        decreases items.len() - i,
    {
        values.push(env_var_to_proto(&items[i]));
        i = i + 1;
    }
    assert(values.deep_view() =~= env_vars_message(items@));
    values
}

/// What is wrong with the container of the application, in the order of its fields.
pub open spec fn container_problem(template: pb::ContainerTemplateView) -> Option<ApiStatusView> {
    outcome::first_of(
        empty_problem(template.name, "template.container.name"@),
        outcome::first_of(
        required_text_problem(template.image, "template.container.image"@),
        outcome::first_of(
        outcome::first_problem(container_port_problems(template.ports), 0),
        outcome::first_problem(env_var_problems(template.env), 0),
    ),
    ),
    )
}

/// What the container of the application is.
pub open spec fn container_of(template: pb::ContainerTemplateView) -> ContainerTemplateView {
    ContainerTemplateView {
        name: template.name,
        image: text_of(template.image->0),
        ports: container_ports_of(template.ports),
        env: env_vars_of(template.env),
    }
}

fn container_from_proto(
    template: &pb::ContainerTemplate,
) -> (r: Result<ContainerTemplate, ApiStatus>)
    ensures
        outcome::of(r) == outcome::checked(
            container_problem(template.deep_view()),
            container_of(template.deep_view()),
        ),
{
    let name = match required_non_empty_string(&template.name, "template.container.name") {
        Ok(value) => value,
        Err(error) => {
            return Err(error);
        },
    };
    let image = match required_text(&template.image, "template.container.image") {
        Ok(value) => value,
        Err(error) => {
            return Err(error);
        },
    };
    let ports = match container_ports_from_proto(&template.ports) {
        Ok(value) => value,
        Err(error) => {
            return Err(error);
        },
    };
    let env = match env_vars_from_proto(&template.env) {
        Ok(value) => value,
        Err(error) => {
            return Err(error);
        },
    };
    Ok(
        ContainerTemplate {
            name,
            image,
            ports,
            env,
        },
    )
}

/// The message of the container of the application.
pub open spec fn container_message(template: ContainerTemplate) -> pb::ContainerTemplateView {
    pb::ContainerTemplateView {
        name: template.name@,
        image: Some(text_message(template.image.deep_view())),
        ports: container_ports_message(template.ports@),
        env: env_vars_message(template.env@),
    }
}

fn container_to_proto(template: &ContainerTemplate) -> (r: pb::ContainerTemplate)
    ensures
        r.deep_view() == container_message(*template),
{
    pb::ContainerTemplate {
        name: template.name.clone(),
        image: Some(template_text_to_proto(&template.image)),
        ports: container_ports_to_proto(&template.ports),
        env: env_vars_to_proto(&template.env),
    }
}

/// Whether a container has a message: none of its texts and names is empty.
pub open spec fn container_expressible(template: ContainerTemplate) -> bool {
    &&& template.name@.len() > 0
    &&& template.image.deep_view().len() > 0
    &&& forall|i: int| 0 <= i < template.env.len() ==> env_var_expressible(#[trigger] template.env@[i])
}

/// What is wrong with a container that is required.
pub open spec fn required_container_problem(
    template: Option<pb::ContainerTemplateView>,
    field: Seq<char>,
) -> Option<ApiStatusView> {
    match template {
        None => Some(missing(field)),
        Some(template) => container_problem(template),
    }
}

fn required_container(
    template: &Option<pb::ContainerTemplate>,
    field: &str,
) -> (r: Result<ContainerTemplate, ApiStatus>)
    ensures
        outcome::of(r) == outcome::checked(
            required_container_problem(template.deep_view(), field@),
            container_of(template.deep_view()->0),
        ),
{
    match template {
        None => Err(missing_status(field)),
        Some(template) => container_from_proto(template),
    }
}

/// What is wrong with the workload, in the order of its fields.
pub open spec fn workload_problem(template: pb::WorkloadTemplateView) -> Option<ApiStatusView> {
    outcome::first_of(
        workload_kind_problem(template.kind),
        outcome::first_of(
        required_text_problem(template.name, "template.workload.name"@),
        required_container_problem(template.app_container, "template.workload.app_container"@),
    ),
    )
}

/// What the workload is.
pub open spec fn workload_of(template: pb::WorkloadTemplateView) -> WorkloadTemplateView {
    WorkloadTemplateView {
        kind: workload_kind_of(template.kind),
        name: text_of(template.name->0),
        replicas: template.replicas,
        app_container: container_of(template.app_container->0),
    }
}

fn workload_from_proto(template: &pb::WorkloadTemplate) -> (r: Result<WorkloadTemplate, ApiStatus>)
    ensures
        outcome::of(r) == outcome::checked(
            workload_problem(template.deep_view()),
            workload_of(template.deep_view()),
        ),
{
    let kind = match workload_kind_from_proto(&template.kind) {
        Ok(value) => value,
        Err(error) => {
            return Err(error);
        },
    };
    let name = match required_text(&template.name, "template.workload.name") {
        Ok(value) => value,
        Err(error) => {
            return Err(error);
        },
    };
    let app_container = match required_container(
        &template.app_container,
        "template.workload.app_container",
    ) {
        Ok(value) => value,
        Err(error) => {
            return Err(error);
        },
    };
    Ok(
        WorkloadTemplate {
            kind,
            name,
            replicas: template.replicas,
            app_container,
        },
    )
}

/// The message of the workload.
pub open spec fn workload_message(template: WorkloadTemplate) -> pb::WorkloadTemplateView {
    pb::WorkloadTemplateView {
        kind: workload_kind_message(template.kind),
        name: Some(text_message(template.name.deep_view())),
        replicas: template.replicas,
        app_container: Some(container_message(template.app_container)),
    }
}

fn workload_to_proto(template: &WorkloadTemplate) -> (r: pb::WorkloadTemplate)
    ensures
        r.deep_view() == workload_message(*template),
{
    pb::WorkloadTemplate {
        kind: workload_kind_to_proto(template.kind),
        name: Some(template_text_to_proto(&template.name)),
        replicas: template.replicas,
        app_container: Some(container_to_proto(&template.app_container)),
    }
}

/// Whether a workload has a message: none of its texts and names is empty.
pub open spec fn workload_expressible(template: WorkloadTemplate) -> bool {
    &&& template.name.deep_view().len() > 0
    &&& container_expressible(template.app_container)
}

/// What is wrong with a workload that is required.
pub open spec fn required_workload_problem(
    template: Option<pb::WorkloadTemplateView>,
    field: Seq<char>,
) -> Option<ApiStatusView> {
    match template {
        None => Some(missing(field)),
        Some(template) => workload_problem(template),
    }
}

fn required_workload(
    template: &Option<pb::WorkloadTemplate>,
    field: &str,
) -> (r: Result<WorkloadTemplate, ApiStatus>)
    ensures
        outcome::of(r) == outcome::checked(
            required_workload_problem(template.deep_view(), field@),
            workload_of(template.deep_view()->0),
        ),
{
    match template {
        None => Err(missing_status(field)),
        Some(template) => workload_from_proto(template),
    }
}

/// What is wrong with the sidecar, in the order of its fields.
pub open spec fn sidecar_problem(template: pb::SidecarTemplateView) -> Option<ApiStatusView> {
    outcome::first_of(
        empty_problem(template.name, "template.sidecar.name"@),
        outcome::first_of(
        required_text_problem(template.image, "template.sidecar.image"@),
        u16_problem(template.listen_port, "template.sidecar.listen_port"@),
    ),
    )
}

/// What the sidecar is.
pub open spec fn sidecar_of(template: pb::SidecarTemplateView) -> SidecarTemplateView {
    SidecarTemplateView {
        name: template.name,
        image: text_of(template.image->0),
        listen_port: template.listen_port as u16,
        mode: template.mode,
    }
}

fn sidecar_from_proto(template: &pb::SidecarTemplate) -> (r: Result<SidecarTemplate, ApiStatus>)
    ensures
        outcome::of(r) == outcome::checked(
            sidecar_problem(template.deep_view()),
            sidecar_of(template.deep_view()),
        ),
{
    let name = match required_non_empty_string(&template.name, "template.sidecar.name") {
        Ok(value) => value,
        Err(error) => {
            return Err(error);
        },
    };
    let image = match required_text(&template.image, "template.sidecar.image") {
        Ok(value) => value,
        Err(error) => {
            return Err(error);
        },
    };
    let listen_port = match u16_from_proto("template.sidecar.listen_port", template.listen_port) {
        Ok(value) => value,
        Err(error) => {
            return Err(error);
        },
    };
    Ok(
        SidecarTemplate {
            name,
            image,
            listen_port,
            mode: optional_string(&template.mode),
        },
    )
}

/// The message of the sidecar.
pub open spec fn sidecar_message(template: SidecarTemplate) -> pb::SidecarTemplateView {
    pb::SidecarTemplateView {
        name: template.name@,
        image: Some(text_message(template.image.deep_view())),
        listen_port: template.listen_port as u32,
        mode: template.mode.deep_view(),
    }
}

fn sidecar_to_proto(template: &SidecarTemplate) -> (r: pb::SidecarTemplate)
    ensures
        r.deep_view() == sidecar_message(*template),
{
    pb::SidecarTemplate {
        name: template.name.clone(),
        image: Some(template_text_to_proto(&template.image)),
        listen_port: template.listen_port as u32,
        mode: optional_string(&template.mode),
    }
}

/// Whether a sidecar has a message: none of its texts and names is empty.
pub open spec fn sidecar_expressible(template: SidecarTemplate) -> bool {
    &&& template.name@.len() > 0
    &&& template.image.deep_view().len() > 0
}

/// What is wrong with a sidecar that is required.
pub open spec fn required_sidecar_problem(
    template: Option<pb::SidecarTemplateView>,
    field: Seq<char>,
) -> Option<ApiStatusView> {
    match template {
        None => Some(missing(field)),
        Some(template) => sidecar_problem(template),
    }
}

fn required_sidecar(
    template: &Option<pb::SidecarTemplate>,
    field: &str,
) -> (r: Result<SidecarTemplate, ApiStatus>)
    ensures
        outcome::of(r) == outcome::checked(
            required_sidecar_problem(template.deep_view(), field@),
            sidecar_of(template.deep_view()->0),
        ),
{
    match template {
        None => Err(missing_status(field)),
        Some(template) => sidecar_from_proto(template),
    }
}

/// What is wrong with a port of a service, in the order of its fields.
pub open spec fn service_port_problem(
    template: pb::ServicePortTemplateView,
) -> Option<ApiStatusView> {
    outcome::first_of(
        u16_problem(template.port, "template.service.ports.port"@),
        u16_problem(template.target_port, "template.service.ports.target_port"@),
    )
}

/// What a port of a service is.
pub open spec fn service_port_of(template: pb::ServicePortTemplateView) -> ServicePortTemplateView {
    ServicePortTemplateView {
        name: template.name,
        port: template.port as u16,
        target_port: template.target_port as u16,
    }
}

fn service_port_from_proto(
    template: &pb::ServicePortTemplate,
) -> (r: Result<ServicePortTemplate, ApiStatus>)
    ensures
        outcome::of(r) == outcome::checked(
            service_port_problem(template.deep_view()),
            service_port_of(template.deep_view()),
        ),
{
    let port = match u16_from_proto("template.service.ports.port", template.port) {
        Ok(value) => value,
        Err(error) => {
            return Err(error);
        },
    };
    let target_port = match u16_from_proto(
        "template.service.ports.target_port",
        template.target_port,
    ) {
        Ok(value) => value,
        Err(error) => {
            return Err(error);
        },
    };
    Ok(
        ServicePortTemplate {
            name: optional_string(&template.name),
            port,
            target_port,
        },
    )
}

/// The message of a port of a service.
pub open spec fn service_port_message(
    template: ServicePortTemplate,
) -> pb::ServicePortTemplateView {
    pb::ServicePortTemplateView {
        name: template.name.deep_view(),
        port: template.port as u32,
        target_port: template.target_port as u32,
    }
}

fn service_port_to_proto(template: &ServicePortTemplate) -> (r: pb::ServicePortTemplate)
    ensures
        r.deep_view() == service_port_message(*template),
{
    pb::ServicePortTemplate {
        name: optional_string(&template.name),
        port: template.port as u32,
        target_port: template.target_port as u32,
    }
}

/// The problem of each of the ports of a service.
pub open spec fn service_port_problems(
    items: Seq<pb::ServicePortTemplateView>,
) -> Seq<Option<ApiStatusView>> {
    items.map_values(|item: pb::ServicePortTemplateView| service_port_problem(item))
}

/// What the ports of a service are.
pub open spec fn service_ports_of(
    items: Seq<pb::ServicePortTemplateView>,
) -> Seq<ServicePortTemplateView> {
    items.map_values(|item: pb::ServicePortTemplateView| service_port_of(item))
}

fn service_ports_from_proto(
    items: &Vec<pb::ServicePortTemplate>,
) -> (r: Result<Vec<ServicePortTemplate>, ApiStatus>)
    ensures
        outcome::of(r) == outcome::checked(
            outcome::first_problem(service_port_problems(items.deep_view()), 0),
            service_ports_of(items.deep_view()),
        ),
{
    let ghost problems = service_port_problems(items.deep_view());
    let mut values: Vec<ServicePortTemplate> = Vec::new();
    let mut i: usize = 0;
    while i < items.len()
        invariant
            0 <= i <= items.len(),
            problems == service_port_problems(items.deep_view()),
            outcome::first_problem(problems, 0) == outcome::first_problem(problems, i as int),
            values.len() == i,
            forall|j: int|
                0 <= j < i ==> (#[trigger] values@[j]).deep_view() == service_port_of(
                    items@[j].deep_view(),
                ),
        decreases items.len() - i,
    {
        assert(problems[i as int] == service_port_problem(items@[i as int].deep_view()));
        match service_port_from_proto(&items[i]) {
            Err(error) => {
                return Err(error);
            },
            Ok(value) => {
                values.push(value);
            },
        }
        i = i + 1;
    }
    assert(values.deep_view() =~= service_ports_of(items.deep_view()));
    Ok(values)
}

/// The messages of the ports of a service.
pub open spec fn service_ports_message(
    items: Seq<ServicePortTemplate>,
) -> Seq<pb::ServicePortTemplateView> {
    items.map_values(|item: ServicePortTemplate| service_port_message(item))
}

fn service_ports_to_proto(items: &Vec<ServicePortTemplate>) -> (r: Vec<pb::ServicePortTemplate>)
    ensures
        r.deep_view() == service_ports_message(items@),
{
    let mut values: Vec<pb::ServicePortTemplate> = Vec::new();
    let mut i: usize = 0;
    while i < items.len()
        invariant
            0 <= i <= items.len(),
            values.len() == i,
            forall|j: int|
                0 <= j < i ==> (#[trigger] values@[j]).deep_view() == service_port_message(
                    items@[j],
                ),
        decreases items.len() - i,
    {
        values.push(service_port_to_proto(&items[i]));
        i = i + 1;
    }
    assert(values.deep_view() =~= service_ports_message(items@));
    values
}

/// What is wrong with the service, in the order of its fields.
pub open spec fn service_problem(template: pb::ServiceTemplateView) -> Option<ApiStatusView> {
    outcome::first_of(
        required_text_problem(template.name, "template.service.name"@),
        outcome::first_problem(service_port_problems(template.ports), 0),
    )
}

/// What the service is.
pub open spec fn service_of(template: pb::ServiceTemplateView) -> ServiceTemplateView {
    ServiceTemplateView {
        name: text_of(template.name->0),
        ports: service_ports_of(template.ports),
    }
}

fn service_from_proto(template: &pb::ServiceTemplate) -> (r: Result<ServiceTemplate, ApiStatus>)
    ensures
        outcome::of(r) == outcome::checked(
            service_problem(template.deep_view()),
            service_of(template.deep_view()),
        ),
{
    let name = match required_text(&template.name, "template.service.name") {
        Ok(value) => value,
        Err(error) => {
            return Err(error);
        },
    };
    let ports = match service_ports_from_proto(&template.ports) {
        Ok(value) => value,
        Err(error) => {
            return Err(error);
        },
    };
    Ok(
        ServiceTemplate {
            name,
            ports,
        },
    )
}

/// The message of the service.
pub open spec fn service_message(template: ServiceTemplate) -> pb::ServiceTemplateView {
    pb::ServiceTemplateView {
        name: Some(text_message(template.name.deep_view())),
        ports: service_ports_message(template.ports@),
    }
}

fn service_to_proto(template: &ServiceTemplate) -> (r: pb::ServiceTemplate)
    ensures
        r.deep_view() == service_message(*template),
{
    pb::ServiceTemplate {
        name: Some(template_text_to_proto(&template.name)),
        ports: service_ports_to_proto(&template.ports),
    }
}

/// Whether a service has a message: none of its texts and names is empty.
pub open spec fn service_expressible(template: ServiceTemplate) -> bool {
    &&& template.name.deep_view().len() > 0
}

/// What is wrong with a service that may be left out.
pub open spec fn optional_service_problem(template: Option<pb::ServiceTemplateView>) -> Option<
    ApiStatusView,
> {
    match template {
        None => None,
        Some(template) => service_problem(template),
    }
}

/// What a service that may be left out is.
pub open spec fn optional_service_of(
    template: Option<pb::ServiceTemplateView>,
) -> Option<ServiceTemplateView> {
    match template {
        None => None,
        Some(template) => Some(service_of(template)),
    }
}

fn optional_service(
    template: &Option<pb::ServiceTemplate>,
) -> (r: Result<Option<ServiceTemplate>, ApiStatus>)
    ensures
        outcome::of(r) == outcome::checked(
            optional_service_problem(template.deep_view()),
            optional_service_of(template.deep_view()),
        ),
{
    match template {
        None => Ok(None),
        Some(template) => match service_from_proto(template) {
            Err(error) => Err(error),
            Ok(value) => Ok(Some(value)),
        },
    }
}

/// The message of a service that may be left out.
pub open spec fn optional_service_message(
    template: Option<ServiceTemplate>,
) -> Option<pb::ServiceTemplateView> {
    match template {
        None => None,
        Some(template) => Some(service_message(template)),
    }
}

fn optional_service_to_proto(template: &Option<ServiceTemplate>) -> (r: Option<pb::ServiceTemplate>)
    ensures
        r.deep_view() == optional_service_message(*template),
{
    match template {
        None => None,
        Some(template) => Some(service_to_proto(template)),
    }
}

/// What is wrong with the secret of a CSI driver.
pub open spec fn secret_problem(
    secret: Option<pb::CsiSecretRefTemplateView>,
    name_field: Seq<char>,
    namespace_field: Seq<char>,
) -> Option<ApiStatusView> {
    match secret {
        None => None,
        Some(secret) => outcome::first_of(
            required_text_problem(secret.name, name_field),
            required_text_problem(secret.namespace, namespace_field),
        ),
    }
}

/// What the secret of a CSI driver is.
pub open spec fn secret_of(secret: Option<pb::CsiSecretRefTemplateView>) -> Option<
    CsiSecretRefTemplateView,
> {
    match secret {
        None => None,
        Some(secret) => Some(
            CsiSecretRefTemplateView {
                name: text_of(secret.name->0),
                namespace: text_of(secret.namespace->0),
            },
        ),
    }
}

fn csi_secret_ref_from_proto(
    secret: &Option<pb::CsiSecretRefTemplate>,
    name_field: &str,
    namespace_field: &str,
) -> (r: Result<Option<Box<CsiSecretRefTemplate>>, ApiStatus>)
    ensures
        outcome::of(r) == outcome::checked(
            secret_problem(secret.deep_view(), name_field@, namespace_field@),
            secret_of(secret.deep_view()),
        ),
{
    match secret {
        None => Ok(None),
        Some(secret) => {
            let name = match required_text(&secret.name, name_field) {
                Ok(value) => value,
                Err(error) => {
                    return Err(error);
                },
            };
            let namespace = match required_text(&secret.namespace, namespace_field) {
                Ok(value) => value,
                Err(error) => {
                    return Err(error);
                },
            };
            Ok(Some(Box::new(CsiSecretRefTemplate { name, namespace })))
        },
    }
}

/// The message of the secret of a CSI driver.
pub open spec fn secret_message(secret: Option<CsiSecretRefTemplateView>) -> Option<
    pb::CsiSecretRefTemplateView,
> {
    match secret {
        None => None,
        Some(secret) => Some(
            pb::CsiSecretRefTemplateView {
                name: Some(text_message(secret.name)),
                namespace: Some(text_message(secret.namespace)),
            },
        ),
    }
}

fn csi_secret_ref_to_proto(secret: &Option<Box<CsiSecretRefTemplate>>) -> (r: Option<
    pb::CsiSecretRefTemplate,
>)
    ensures
        r.deep_view() == secret_message(secret.deep_view()),
{
    match secret {
        None => None,
        Some(secret) => Some(
            pb::CsiSecretRefTemplate {
                name: Some(template_text_to_proto(&secret.name)),
                namespace: Some(template_text_to_proto(&secret.namespace)),
            },
        ),
    }
}

/// The problem of each volume attribute.
pub open spec fn attribute_problems(entries: Seq<pb::TextEntryView>) -> Seq<
    Option<ApiStatusView>,
> {
    entries.map_values(|entry: pb::TextEntryView| text_problem(entry.value))
}

/// The volume attributes as pairs, in their order.
pub open spec fn attribute_pairs(entries: Seq<pb::TextEntryView>) -> Seq<
    (Seq<char>, Seq<TemplateTextPartView>),
> {
    entries.map_values(|entry: pb::TextEntryView| (entry.key, text_of(entry.value)))
}

/// The volume attributes: of two under one key the last.
pub open spec fn attributes_of(entries: Seq<pb::TextEntryView>) -> Map<
    Seq<char>,
    Seq<TemplateTextPartView>,
> {
    string_map::map_of_pairs(attribute_pairs(entries))
}

fn attributes_from_proto(entries: &Vec<pb::TextEntry>) -> (r: Result<
    StringMap<TemplateText>,
    ApiStatus,
>)
    ensures
        outcome::of(r) == outcome::checked(
            outcome::first_problem(attribute_problems(entries.deep_view()), 0),
            attributes_of(entries.deep_view()),
        ),
{
    let ghost view = entries.deep_view();
    let ghost problems = attribute_problems(view);
    let ghost pairs = attribute_pairs(view);
    let mut attributes: StringMap<TemplateText> = StringMap::new();
    let mut i: usize = 0;
    assert(pairs.take(0) =~= Seq::empty());
    while i < entries.len()
        invariant
            0 <= i <= entries.len(),
            view == entries.deep_view(),
            problems == attribute_problems(view),
            pairs == attribute_pairs(view),
            outcome::first_problem(problems, 0) == outcome::first_problem(problems, i as int),
            attributes.deep_view() == string_map::map_of_pairs(pairs.take(i as int)),
        decreases entries.len() - i,
    {
        let entry = &entries[i];
        assert(view[i as int] == entry.deep_view());
        assert(problems[i as int] == text_problem(entry.value.deep_view()));
        match template_text_from_proto(&entry.value) {
            Err(error) => {
                return Err(error);
            },
            Ok(value) => {
                attributes.insert(entry.key.as_str(), value);
            },
        }
        assert(pairs.take(i + 1).drop_last() =~= pairs.take(i as int));
        i = i + 1;
    }
    assert(pairs.take(i as int) =~= pairs);
    Ok(attributes)
}

/// The messages of volume attributes, in key order.
pub open spec fn attributes_message(
    pairs: Seq<(Seq<char>, Seq<TemplateTextPartView>)>,
) -> Seq<pb::TextEntryView> {
    pairs.map_values(
        |pair: (Seq<char>, Seq<TemplateTextPartView>)|
            pb::TextEntryView { key: pair.0, value: text_message(pair.1) },
    )
}

fn attributes_to_proto(attributes: &StringMap<TemplateText>) -> (r: Vec<pb::TextEntry>)
    ensures
        r.deep_view() == attributes_message(attributes.pairs()),
{
    let mut entries: Vec<pb::TextEntry> = Vec::new();
    let count: usize = attributes.len();
    let mut i: usize = 0;
    while i < count
        invariant
            0 <= i <= count,
            count == attributes.pairs().len(),
            entries.len() == i,
            forall|j: int|
                0 <= j < i ==> (#[trigger] entries@[j]).deep_view() == (pb::TextEntryView {
                    key: attributes.pairs()[j].0,
                    value: text_message(attributes.pairs()[j].1),
                }),
        decreases count - i,
    {
        entries.push(
            pb::TextEntry {
                key: attributes.key_at(i).to_owned(),
                value: template_text_to_proto(attributes.value_at(i)),
            },
        );
        i = i + 1;
    }
    assert(entries.deep_view() =~= attributes_message(attributes.pairs()));
    entries
}

/// What is wrong with the secrets of a CSI driver.
pub open spec fn secrets_problem(csi: pb::CsiVolumeSourceTemplateView) -> Option<ApiStatusView> {
    outcome::first_of(
        secret_problem(
        csi.controller_publish_secret_ref,
        "template.volumes.source.csi.controller_publish_secret_ref.name"@,
        "template.volumes.source.csi.controller_publish_secret_ref.namespace"@,
    ),
        outcome::first_of(
        secret_problem(
        csi.node_stage_secret_ref,
        "template.volumes.source.csi.node_stage_secret_ref.name"@,
        "template.volumes.source.csi.node_stage_secret_ref.namespace"@,
    ),
        outcome::first_of(
        secret_problem(
        csi.node_publish_secret_ref,
        "template.volumes.source.csi.node_publish_secret_ref.name"@,
        "template.volumes.source.csi.node_publish_secret_ref.namespace"@,
    ),
        outcome::first_of(
        secret_problem(
        csi.controller_expand_secret_ref,
        "template.volumes.source.csi.controller_expand_secret_ref.name"@,
        "template.volumes.source.csi.controller_expand_secret_ref.namespace"@,
    ),
        secret_problem(
        csi.node_expand_secret_ref,
        "template.volumes.source.csi.node_expand_secret_ref.name"@,
        "template.volumes.source.csi.node_expand_secret_ref.namespace"@,
    ),
    ),
    ),
    ),
    )
}

/// What is wrong with a volume of a CSI driver.
pub open spec fn csi_problem(csi: pb::CsiVolumeSourceTemplateView) -> Option<ApiStatusView> {
    outcome::first_of(
        required_text_problem(csi.driver, "template.volumes.source.csi.driver"@),
        outcome::first_of(
            required_text_problem(csi.volume_handle, "template.volumes.source.csi.volume_handle"@),
            outcome::first_of(
                optional_text_problem(csi.fs_type),
                outcome::first_of(
                    outcome::first_problem(attribute_problems(csi.volume_attributes), 0),
                    secrets_problem(csi),
                ),
            ),
        ),
    )
}

/// What is wrong with the source of a volume.
pub open spec fn source_problem(template: pb::PersistentVolumeSourceTemplateView) -> Option<
    ApiStatusView,
> {
    match template.kind {
        None => Some(status::invalid_argument("template.volumes.source kind is required"@)),
        Some(pb::PersistentVolumeSourceKindView::Csi(csi)) => csi_problem(csi),
        Some(pb::PersistentVolumeSourceKindView::HostPath(host_path)) => outcome::first_of(
            required_text_problem(host_path.path, "template.volumes.source.host_path.path"@),
            optional_text_problem(host_path.type_),
        ),
    }
}

/// What the source of a volume is.
pub open spec fn source_of(
    template: pb::PersistentVolumeSourceTemplateView,
) -> PersistentVolumeSourceTemplateView {
    match template.kind->0 {
        pb::PersistentVolumeSourceKindView::Csi(csi) => PersistentVolumeSourceTemplateView::Csi {
            driver: text_of(csi.driver->0),
            volume_handle: text_of(csi.volume_handle->0),
            fs_type: optional_text_of(csi.fs_type),
            read_only: csi.read_only,
            volume_attributes: attributes_of(csi.volume_attributes),
            controller_publish_secret_ref: secret_of(csi.controller_publish_secret_ref),
            node_stage_secret_ref: secret_of(csi.node_stage_secret_ref),
            node_publish_secret_ref: secret_of(csi.node_publish_secret_ref),
            controller_expand_secret_ref: secret_of(csi.controller_expand_secret_ref),
            node_expand_secret_ref: secret_of(csi.node_expand_secret_ref),
        },
        pb::PersistentVolumeSourceKindView::HostPath(host_path) => {
            PersistentVolumeSourceTemplateView::HostPath {
                path: text_of(host_path.path->0),
                type_: optional_text_of(host_path.type_),
            }
        },
    }
}

/// The source of a volume that a message stands for.
pub fn volume_source_template_from_proto(template: &pb::PersistentVolumeSourceTemplate) -> (r: Result<
    PersistentVolumeSourceTemplate,
    ApiStatus,
>)
    ensures
        outcome::of(r) == outcome::checked(
            source_problem(template.deep_view()),
            source_of(template.deep_view()),
        ),
{
    match &template.kind {
        None => Err(ApiStatus::invalid_argument("template.volumes.source kind is required")),
        Some(pb::PersistentVolumeSourceKind::Csi(csi)) => {
            let driver = match required_text(&csi.driver, "template.volumes.source.csi.driver") {
                Ok(value) => value,
                Err(error) => {
                    return Err(error);
                },
            };
            let volume_handle = match required_text(
                &csi.volume_handle,
                "template.volumes.source.csi.volume_handle",
            ) {
                Ok(value) => value,
                Err(error) => {
                    return Err(error);
                },
            };
            let fs_type = match optional_text(&csi.fs_type) {
                Ok(value) => value,
                Err(error) => {
                    return Err(error);
                },
            };
            let volume_attributes = match attributes_from_proto(&csi.volume_attributes) {
                Ok(value) => value,
                Err(error) => {
                    return Err(error);
                },
            };
            let controller_publish_secret_ref = match csi_secret_ref_from_proto(
                &csi.controller_publish_secret_ref,
                "template.volumes.source.csi.controller_publish_secret_ref.name",
                "template.volumes.source.csi.controller_publish_secret_ref.namespace",
            ) {
                Ok(value) => value,
                Err(error) => {
                    return Err(error);
                },
            };
            let node_stage_secret_ref = match csi_secret_ref_from_proto(
                &csi.node_stage_secret_ref,
                "template.volumes.source.csi.node_stage_secret_ref.name",
                "template.volumes.source.csi.node_stage_secret_ref.namespace",
            ) {
                Ok(value) => value,
                Err(error) => {
                    return Err(error);
                },
            };
            let node_publish_secret_ref = match csi_secret_ref_from_proto(
                &csi.node_publish_secret_ref,
                "template.volumes.source.csi.node_publish_secret_ref.name",
                "template.volumes.source.csi.node_publish_secret_ref.namespace",
            ) {
                Ok(value) => value,
                Err(error) => {
                    return Err(error);
                },
            };
            let controller_expand_secret_ref = match csi_secret_ref_from_proto(
                &csi.controller_expand_secret_ref,
                "template.volumes.source.csi.controller_expand_secret_ref.name",
                "template.volumes.source.csi.controller_expand_secret_ref.namespace",
            ) {
                Ok(value) => value,
                Err(error) => {
                    return Err(error);
                },
            };
            let node_expand_secret_ref = match csi_secret_ref_from_proto(
                &csi.node_expand_secret_ref,
                "template.volumes.source.csi.node_expand_secret_ref.name",
                "template.volumes.source.csi.node_expand_secret_ref.namespace",
            ) {
                Ok(value) => value,
                Err(error) => {
                    return Err(error);
                },
            };
            Ok(
                PersistentVolumeSourceTemplate::Csi {
                    driver,
                    volume_handle,
                    fs_type,
                    read_only: csi.read_only,
                    volume_attributes,
                    controller_publish_secret_ref,
                    node_stage_secret_ref,
                    node_publish_secret_ref,
                    controller_expand_secret_ref,
                    node_expand_secret_ref,
                },
            )
        },
        Some(pb::PersistentVolumeSourceKind::HostPath(host_path)) => {
            let path = match required_text(
                &host_path.path,
                "template.volumes.source.host_path.path",
            ) {
                Ok(value) => value,
                Err(error) => {
                    return Err(error);
                },
            };
            let type_ = match optional_text(&host_path.type_) {
                Ok(value) => value,
                Err(error) => {
                    return Err(error);
                },
            };
            Ok(PersistentVolumeSourceTemplate::HostPath { path, type_ })
        },
    }
}

/// The message of the source of a volume.
pub open spec fn source_message(
    template: PersistentVolumeSourceTemplate,
) -> pb::PersistentVolumeSourceTemplateView {
    pb::PersistentVolumeSourceTemplateView {
        kind: Some(
            match template {
                PersistentVolumeSourceTemplate::Csi {
                    driver,
                    volume_handle,
                    fs_type,
                    read_only,
                    volume_attributes,
                    controller_publish_secret_ref,
                    node_stage_secret_ref,
                    node_publish_secret_ref,
                    controller_expand_secret_ref,
                    node_expand_secret_ref,
                } => pb::PersistentVolumeSourceKindView::Csi(
                    pb::CsiVolumeSourceTemplateView {
                        driver: Some(text_message(driver.deep_view())),
                        volume_handle: Some(text_message(volume_handle.deep_view())),
                        fs_type: optional_text_message(fs_type.deep_view()),
                        read_only,
                        volume_attributes: attributes_message(volume_attributes.pairs()),
                        controller_publish_secret_ref: secret_message(
                            controller_publish_secret_ref.deep_view(),
                        ),
                        node_stage_secret_ref: secret_message(node_stage_secret_ref.deep_view()),
                        node_publish_secret_ref: secret_message(
                            node_publish_secret_ref.deep_view(),
                        ),
                        controller_expand_secret_ref: secret_message(
                            controller_expand_secret_ref.deep_view(),
                        ),
                        node_expand_secret_ref: secret_message(node_expand_secret_ref.deep_view()),
                    },
                ),
                PersistentVolumeSourceTemplate::HostPath { path, type_ } => {
                    pb::PersistentVolumeSourceKindView::HostPath(
                        pb::HostPathVolumeSourceTemplateView {
                            path: Some(text_message(path.deep_view())),
                            type_: optional_text_message(type_.deep_view()),
                        },
                    )
                },
            },
        ),
    }
}

/// The message of the source of a volume.
pub fn volume_source_template_to_proto(template: &PersistentVolumeSourceTemplate) -> (r:
    pb::PersistentVolumeSourceTemplate)
    ensures
        r.deep_view() == source_message(*template),
{
    let kind = match template {
        PersistentVolumeSourceTemplate::Csi {
            driver,
            volume_handle,
            fs_type,
            read_only,
            volume_attributes,
            controller_publish_secret_ref,
            node_stage_secret_ref,
            node_publish_secret_ref,
            controller_expand_secret_ref,
            node_expand_secret_ref,
        } => pb::PersistentVolumeSourceKind::Csi(
            pb::CsiVolumeSourceTemplate {
                driver: Some(template_text_to_proto(driver)),
                volume_handle: Some(template_text_to_proto(volume_handle)),
                fs_type: optional_text_to_proto(fs_type),
                read_only: *read_only,
                volume_attributes: attributes_to_proto(volume_attributes),
                controller_publish_secret_ref: csi_secret_ref_to_proto(
                    controller_publish_secret_ref,
                ),
                node_stage_secret_ref: csi_secret_ref_to_proto(node_stage_secret_ref),
                node_publish_secret_ref: csi_secret_ref_to_proto(node_publish_secret_ref),
                controller_expand_secret_ref: csi_secret_ref_to_proto(controller_expand_secret_ref),
                node_expand_secret_ref: csi_secret_ref_to_proto(node_expand_secret_ref),
            },
        ),
        PersistentVolumeSourceTemplate::HostPath { path, type_ } => {
            pb::PersistentVolumeSourceKind::HostPath(
                pb::HostPathVolumeSourceTemplate {
                    path: Some(template_text_to_proto(path)),
                    type_: optional_text_to_proto(type_),
                },
            )
        },
    };
    pb::PersistentVolumeSourceTemplate { kind: Some(kind) }
}

/// Whether the secret of a CSI driver has a message.
pub open spec fn secret_expressible(secret: Option<CsiSecretRefTemplateView>) -> bool {
    secret matches Some(secret) ==> secret.name.len() > 0 && secret.namespace.len() > 0
}

/// Whether the source of a volume has a message: none of its texts is empty.
pub open spec fn source_expressible(template: PersistentVolumeSourceTemplate) -> bool {
    match template {
        PersistentVolumeSourceTemplate::Csi {
            driver,
            volume_handle,
            fs_type,
            volume_attributes,
            controller_publish_secret_ref,
            node_stage_secret_ref,
            node_publish_secret_ref,
            controller_expand_secret_ref,
            node_expand_secret_ref,
            ..
        } => {
            &&& driver.deep_view().len() > 0
            &&& volume_handle.deep_view().len() > 0
            &&& fs_type matches Some(text) ==> text.deep_view().len() > 0
            &&& forall|i: int|
                0 <= i < volume_attributes.pairs().len() ==> (
                #[trigger] volume_attributes.pairs()[i]).1.len() > 0
            &&& secret_expressible(controller_publish_secret_ref.deep_view())
            &&& secret_expressible(node_stage_secret_ref.deep_view())
            &&& secret_expressible(node_publish_secret_ref.deep_view())
            &&& secret_expressible(controller_expand_secret_ref.deep_view())
            &&& secret_expressible(node_expand_secret_ref.deep_view())
        },
        PersistentVolumeSourceTemplate::HostPath { path, type_ } => {
            &&& path.deep_view().len() > 0
            &&& type_ matches Some(text) ==> text.deep_view().len() > 0
        },
    }
}

/// What is wrong with the source of a volume that is required.
pub open spec fn required_source_problem(
    template: Option<pb::PersistentVolumeSourceTemplateView>,
    field: Seq<char>,
) -> Option<ApiStatusView> {
    match template {
        None => Some(missing(field)),
        Some(template) => source_problem(template),
    }
}

fn required_source(
    template: &Option<pb::PersistentVolumeSourceTemplate>,
    field: &str,
) -> (r: Result<
    PersistentVolumeSourceTemplate,
    ApiStatus,
>)
    ensures
        outcome::of(r) == outcome::checked(
            required_source_problem(template.deep_view(), field@),
            source_of(template.deep_view()->0),
        ),
{
    match template {
        None => Err(missing_status(field)),
        Some(template) => volume_source_template_from_proto(template),
    }
}

/// What is wrong with a volume, in the order of its fields.
pub open spec fn volume_problem(template: pb::VolumeTemplateView) -> Option<ApiStatusView> {
    outcome::first_of(
        empty_problem(template.name, "template.volumes.name"@),
        outcome::first_of(
        required_text_problem(template.mount_path, "template.volumes.mount_path"@),
        outcome::first_of(
        required_text_problem(template.pv_name, "template.volumes.pv_name"@),
        outcome::first_of(
        required_text_problem(template.pvc_name, "template.volumes.pvc_name"@),
        outcome::first_of(
        outcome::first_problem(access_mode_problems(template.access_modes), 0),
        outcome::first_of(
        required_text_problem(template.capacity, "template.volumes.capacity"@),
        outcome::first_of(
        reclaim_policy_problem(template.reclaim_policy),
        outcome::first_of(
        optional_text_problem(template.storage_class_name),
        required_source_problem(template.source, "template.volumes.source"@),
    ),
    ),
    ),
    ),
    ),
    ),
    ),
    )
}

/// What a volume is.
pub open spec fn volume_of(template: pb::VolumeTemplateView) -> VolumeTemplateView {
    VolumeTemplateView {
        name: template.name,
        mount_path: text_of(template.mount_path->0),
        pv_name: text_of(template.pv_name->0),
        pvc_name: text_of(template.pvc_name->0),
        access_modes: access_modes_of(template.access_modes),
        capacity: text_of(template.capacity->0),
        reclaim_policy: reclaim_policy_of(template.reclaim_policy),
        storage_class_name: optional_text_of(template.storage_class_name),
        source: source_of(template.source->0),
    }
}

fn volume_from_proto(template: &pb::VolumeTemplate) -> (r: Result<VolumeTemplate, ApiStatus>)
    ensures
        outcome::of(r) == outcome::checked(
            volume_problem(template.deep_view()),
            volume_of(template.deep_view()),
        ),
{
    let name = match required_non_empty_string(&template.name, "template.volumes.name") {
        Ok(value) => value,
        Err(error) => {
            return Err(error);
        },
    };
    let mount_path = match required_text(&template.mount_path, "template.volumes.mount_path") {
        Ok(value) => value,
        Err(error) => {
            return Err(error);
        },
    };
    let pv_name = match required_text(&template.pv_name, "template.volumes.pv_name") {
        Ok(value) => value,
        Err(error) => {
            return Err(error);
        },
    };
    let pvc_name = match required_text(&template.pvc_name, "template.volumes.pvc_name") {
        Ok(value) => value,
        Err(error) => {
            return Err(error);
        },
    };
    let access_modes = match access_modes_from_proto(&template.access_modes) {
        Ok(value) => value,
        Err(error) => {
            return Err(error);
        },
    };
    let capacity = match required_text(&template.capacity, "template.volumes.capacity") {
        Ok(value) => value,
        Err(error) => {
            return Err(error);
        },
    };
    let reclaim_policy = match reclaim_policy_from_proto(&template.reclaim_policy) {
        Ok(value) => value,
        Err(error) => {
            return Err(error);
        },
    };
    let storage_class_name = match optional_text(&template.storage_class_name) {
        Ok(value) => value,
        Err(error) => {
            return Err(error);
        },
    };
    let source = match required_source(&template.source, "template.volumes.source") {
        Ok(value) => value,
        Err(error) => {
            return Err(error);
        },
    };
    Ok(
        VolumeTemplate {
            name,
            mount_path,
            pv_name,
            pvc_name,
            access_modes,
            capacity,
            reclaim_policy,
            storage_class_name,
            source,
        },
    )
}

/// The message of a volume.
pub open spec fn volume_message(template: VolumeTemplate) -> pb::VolumeTemplateView {
    pb::VolumeTemplateView {
        name: template.name@,
        mount_path: Some(text_message(template.mount_path.deep_view())),
        pv_name: Some(text_message(template.pv_name.deep_view())),
        pvc_name: Some(text_message(template.pvc_name.deep_view())),
        access_modes: access_modes_message(template.access_modes@),
        capacity: Some(text_message(template.capacity.deep_view())),
        reclaim_policy: reclaim_policy_message(template.reclaim_policy),
        storage_class_name: optional_text_message(template.storage_class_name.deep_view()),
        source: Some(source_message(template.source)),
    }
}

fn volume_to_proto(template: &VolumeTemplate) -> (r: pb::VolumeTemplate)
    ensures
        r.deep_view() == volume_message(*template),
{
    pb::VolumeTemplate {
        name: template.name.clone(),
        mount_path: Some(template_text_to_proto(&template.mount_path)),
        pv_name: Some(template_text_to_proto(&template.pv_name)),
        pvc_name: Some(template_text_to_proto(&template.pvc_name)),
        access_modes: access_modes_to_proto(&template.access_modes),
        capacity: Some(template_text_to_proto(&template.capacity)),
        reclaim_policy: reclaim_policy_to_proto(template.reclaim_policy),
        storage_class_name: optional_text_to_proto(&template.storage_class_name),
        source: Some(volume_source_template_to_proto(&template.source)),
    }
}

/// Whether a volume has a message: none of its texts and names is empty.
pub open spec fn volume_expressible(template: VolumeTemplate) -> bool {
    &&& template.name@.len() > 0
    &&& template.mount_path.deep_view().len() > 0
    &&& template.pv_name.deep_view().len() > 0
    &&& template.pvc_name.deep_view().len() > 0
    &&& template.capacity.deep_view().len() > 0
    &&& template.storage_class_name matches Some(text) ==> text.deep_view().len() > 0
    &&& source_expressible(template.source)
}

/// The problem of each of the volumes.
pub open spec fn volume_problems(items: Seq<pb::VolumeTemplateView>) -> Seq<Option<ApiStatusView>> {
    items.map_values(|item: pb::VolumeTemplateView| volume_problem(item))
}

/// What the volumes are.
pub open spec fn volumes_of(items: Seq<pb::VolumeTemplateView>) -> Seq<VolumeTemplateView> {
    items.map_values(|item: pb::VolumeTemplateView| volume_of(item))
}

fn volumes_from_proto(
    items: &Vec<pb::VolumeTemplate>,
) -> (r: Result<Vec<VolumeTemplate>, ApiStatus>)
    ensures
        outcome::of(r) == outcome::checked(
            outcome::first_problem(volume_problems(items.deep_view()), 0),
            volumes_of(items.deep_view()),
        ),
{
    let ghost problems = volume_problems(items.deep_view());
    let mut values: Vec<VolumeTemplate> = Vec::new();
    let mut i: usize = 0;
    while i < items.len()
        invariant
            0 <= i <= items.len(),
            problems == volume_problems(items.deep_view()),
            outcome::first_problem(problems, 0) == outcome::first_problem(problems, i as int),
            values.len() == i,
            forall|j: int|
                0 <= j < i ==> (#[trigger] values@[j]).deep_view() == volume_of(
                    items@[j].deep_view(),
                ),
        decreases items.len() - i,
    {
        assert(problems[i as int] == volume_problem(items@[i as int].deep_view()));
        match volume_from_proto(&items[i]) {
            Err(error) => {
                return Err(error);
            },
            Ok(value) => {
                values.push(value);
            },
        }
        i = i + 1;
    }
    assert(values.deep_view() =~= volumes_of(items.deep_view()));
    Ok(values)
}

/// The messages of volumes.
pub open spec fn volumes_message(items: Seq<VolumeTemplate>) -> Seq<pb::VolumeTemplateView> {
    items.map_values(|item: VolumeTemplate| volume_message(item))
}

fn volumes_to_proto(items: &Vec<VolumeTemplate>) -> (r: Vec<pb::VolumeTemplate>)
    ensures
        r.deep_view() == volumes_message(items@),
{
    let mut values: Vec<pb::VolumeTemplate> = Vec::new();
    let mut i: usize = 0;
    while i < items.len()
        invariant
            0 <= i <= items.len(),
            values.len() == i,
            forall|j: int|
                0 <= j < i ==> (#[trigger] values@[j]).deep_view() == volume_message(items@[j]),
        decreases items.len() - i,
    {
        values.push(volume_to_proto(&items[i]));
        i = i + 1;
    }
    assert(values.deep_view() =~= volumes_message(items@));
    values
}

/// What is wrong with an object that is given as text, in the order of its fields.
pub open spec fn raw_object_problem(
    template: pb::RawKubernetesManifestTemplateView,
) -> Option<ApiStatusView> {
    required_text_problem(template.manifest, "template.raw_objects.manifest"@)
}

/// What an object that is given as text is.
pub open spec fn raw_object_of(
    template: pb::RawKubernetesManifestTemplateView,
) -> RawKubernetesManifestTemplateView {
    RawKubernetesManifestTemplateView {
        manifest: text_of(template.manifest->0),
    }
}

fn raw_object_from_proto(
    template: &pb::RawKubernetesManifestTemplate,
) -> (r: Result<RawKubernetesManifestTemplate, ApiStatus>)
    ensures
        outcome::of(r) == outcome::checked(
            raw_object_problem(template.deep_view()),
            raw_object_of(template.deep_view()),
        ),
{
    let manifest = match required_text(&template.manifest, "template.raw_objects.manifest") {
        Ok(value) => value,
        Err(error) => {
            return Err(error);
        },
    };
    Ok(
        RawKubernetesManifestTemplate {
            manifest,
        },
    )
}

/// The message of an object that is given as text.
pub open spec fn raw_object_message(
    template: RawKubernetesManifestTemplate,
) -> pb::RawKubernetesManifestTemplateView {
    pb::RawKubernetesManifestTemplateView {
        manifest: Some(text_message(template.manifest.deep_view())),
    }
}

fn raw_object_to_proto(
    template: &RawKubernetesManifestTemplate,
) -> (r: pb::RawKubernetesManifestTemplate)
    ensures
        r.deep_view() == raw_object_message(*template),
{
    pb::RawKubernetesManifestTemplate {
        manifest: Some(template_text_to_proto(&template.manifest)),
    }
}

/// Whether an object that is given as text has a message: none of its texts and names is empty.
pub open spec fn raw_object_expressible(template: RawKubernetesManifestTemplate) -> bool {
    &&& template.manifest.deep_view().len() > 0
}

/// The problem of each of the objects that are given as text.
pub open spec fn raw_object_problems(
    items: Seq<pb::RawKubernetesManifestTemplateView>,
) -> Seq<Option<ApiStatusView>> {
    items.map_values(|item: pb::RawKubernetesManifestTemplateView| raw_object_problem(item))
}

/// What the objects that are given as text are.
pub open spec fn raw_objects_of(
    items: Seq<pb::RawKubernetesManifestTemplateView>,
) -> Seq<RawKubernetesManifestTemplateView> {
    items.map_values(|item: pb::RawKubernetesManifestTemplateView| raw_object_of(item))
}

fn raw_objects_from_proto(
    items: &Vec<pb::RawKubernetesManifestTemplate>,
) -> (r: Result<Vec<RawKubernetesManifestTemplate>, ApiStatus>)
    ensures
        outcome::of(r) == outcome::checked(
            outcome::first_problem(raw_object_problems(items.deep_view()), 0),
            raw_objects_of(items.deep_view()),
        ),
{
    let ghost problems = raw_object_problems(items.deep_view());
    let mut values: Vec<RawKubernetesManifestTemplate> = Vec::new();
    let mut i: usize = 0;
    while i < items.len()
        invariant
            0 <= i <= items.len(),
            problems == raw_object_problems(items.deep_view()),
            outcome::first_problem(problems, 0) == outcome::first_problem(problems, i as int),
            values.len() == i,
            forall|j: int|
                0 <= j < i ==> (#[trigger] values@[j]).deep_view() == raw_object_of(
                    items@[j].deep_view(),
                ),
        decreases items.len() - i,
    {
        assert(problems[i as int] == raw_object_problem(items@[i as int].deep_view()));
        match raw_object_from_proto(&items[i]) {
            Err(error) => {
                return Err(error);
            },
            Ok(value) => {
                values.push(value);
            },
        }
        i = i + 1;
    }
    assert(values.deep_view() =~= raw_objects_of(items.deep_view()));
    Ok(values)
}

/// The messages of objects that are given as text.
pub open spec fn raw_objects_message(
    items: Seq<RawKubernetesManifestTemplate>,
) -> Seq<pb::RawKubernetesManifestTemplateView> {
    items.map_values(|item: RawKubernetesManifestTemplate| raw_object_message(item))
}

fn raw_objects_to_proto(
    items: &Vec<RawKubernetesManifestTemplate>,
) -> (r: Vec<pb::RawKubernetesManifestTemplate>)
    ensures
        r.deep_view() == raw_objects_message(items@),
{
    let mut values: Vec<pb::RawKubernetesManifestTemplate> = Vec::new();
    let mut i: usize = 0;
    while i < items.len()
        invariant
            0 <= i <= items.len(),
            values.len() == i,
            forall|j: int|
                0 <= j < i ==> (#[trigger] values@[j]).deep_view() == raw_object_message(items@[j]),
        decreases items.len() - i,
    {
        values.push(raw_object_to_proto(&items[i]));
        i = i + 1;
    }
    assert(values.deep_view() =~= raw_objects_message(items@));
    values
}

/// What is wrong with a template, in the order of its fields.
pub open spec fn manifest_template_problem(
    template: pb::ManifestTemplateView,
) -> Option<ApiStatusView> {
    outcome::first_of(
        required_workload_problem(template.workload, "template.workload"@),
        outcome::first_of(
        required_sidecar_problem(template.sidecar, "template.sidecar"@),
        outcome::first_of(
        optional_service_problem(template.service),
        outcome::first_of(
        outcome::first_problem(volume_problems(template.volumes), 0),
        outcome::first_problem(raw_object_problems(template.raw_objects), 0),
    ),
    ),
    ),
    )
}

/// What a template is.
pub open spec fn manifest_template_of(template: pb::ManifestTemplateView) -> ManifestTemplateView {
    ManifestTemplateView {
        workload: workload_of(template.workload->0),
        sidecar: sidecar_of(template.sidecar->0),
        service: optional_service_of(template.service),
        volumes: volumes_of(template.volumes),
        raw_objects: raw_objects_of(template.raw_objects),
    }
}

pub fn manifest_template_from_proto(
    template: &pb::ManifestTemplate,
) -> (r: Result<ManifestTemplate, ApiStatus>)
    ensures
        outcome::of(r) == outcome::checked(
            manifest_template_problem(template.deep_view()),
            manifest_template_of(template.deep_view()),
        ),
{
    let workload = match required_workload(&template.workload, "template.workload") {
        Ok(value) => value,
        Err(error) => {
            return Err(error);
        },
    };
    let sidecar = match required_sidecar(&template.sidecar, "template.sidecar") {
        Ok(value) => value,
        Err(error) => {
            return Err(error);
        },
    };
    let service = match optional_service(&template.service) {
        Ok(value) => value,
        Err(error) => {
            return Err(error);
        },
    };
    let volumes = match volumes_from_proto(&template.volumes) {
        Ok(value) => value,
        Err(error) => {
            return Err(error);
        },
    };
    let raw_objects = match raw_objects_from_proto(&template.raw_objects) {
        Ok(value) => value,
        Err(error) => {
            return Err(error);
        },
    };
    Ok(
        ManifestTemplate {
            workload,
            sidecar,
            service,
            volumes,
            raw_objects,
        },
    )
}

/// The message of a template.
pub open spec fn manifest_template_message(template: ManifestTemplate) -> pb::ManifestTemplateView {
    pb::ManifestTemplateView {
        workload: Some(workload_message(template.workload)),
        sidecar: Some(sidecar_message(template.sidecar)),
        service: optional_service_message(template.service),
        volumes: volumes_message(template.volumes@),
        raw_objects: raw_objects_message(template.raw_objects@),
    }
}

pub fn manifest_template_to_proto(template: &ManifestTemplate) -> (r: pb::ManifestTemplate)
    ensures
        r.deep_view() == manifest_template_message(*template),
{
    pb::ManifestTemplate {
        workload: Some(workload_to_proto(&template.workload)),
        sidecar: Some(sidecar_to_proto(&template.sidecar)),
        service: optional_service_to_proto(&template.service),
        volumes: volumes_to_proto(&template.volumes),
        raw_objects: raw_objects_to_proto(&template.raw_objects),
    }
}

/// Whether a template has a message: none of its texts and names is empty.
pub open spec fn manifest_template_expressible(template: ManifestTemplate) -> bool {
    &&& workload_expressible(template.workload)
    &&& sidecar_expressible(template.sidecar)
    &&& template.service matches Some(value) ==> service_expressible(value)
    &&& forall|i: int| 0 <= i < template.volumes.len() ==> volume_expressible(#[trigger] template.volumes@[i])
    &&& forall|i: int| 0 <= i < template.raw_objects.len() ==> raw_object_expressible(#[trigger] template.raw_objects@[i])
}

/// The message of a text stands for that text again.
pub proof fn lemma_text_round_trip(parts: Seq<TemplateTextPartView>)
    requires
        parts.len() > 0,
    ensures
        text_problem(text_message(parts)) is None,
        text_of(text_message(parts)) == parts,
{
    let problems = part_problems(text_message(parts).parts);
    assert forall|i: int| 0 <= i < problems.len() implies (#[trigger] problems[i]) is None by {}
    outcome::lemma_first_problem(problems, 0, problems.len() as int);
    assert(text_of(text_message(parts)) =~= parts);
}

proof fn lemma_no_problem(problems: Seq<Option<ApiStatusView>>)
    requires
        forall|i: int| 0 <= i < problems.len() ==> (#[trigger] problems[i]) is None,
    ensures
        outcome::first_problem(problems, 0) is None,
{
    outcome::lemma_first_problem(problems, 0, problems.len() as int);
}

proof fn lemma_container_round_trip(template: ContainerTemplate)
    requires
        container_expressible(template),
    ensures
        container_problem(container_message(template)) is None,
        container_of(container_message(template)) == template.deep_view(),
{
    let message = container_message(template);
    lemma_text_round_trip(template.image.deep_view());
    let ports = container_port_problems(message.ports);
    assert forall|i: int| 0 <= i < ports.len() implies (#[trigger] ports[i]) is None by {
        assert(message.ports[i] == container_port_message(template.ports@[i]));
    }
    lemma_no_problem(ports);
    assert(container_ports_of(message.ports) =~= template.ports.deep_view());
    let env = env_var_problems(message.env);
    assert forall|i: int| #![trigger env[i]]
        #![trigger env_vars_of(message.env)[i]]
        0 <= i < env.len() implies env[i] is None && env_vars_of(message.env)[i]
        == template.env@[i].deep_view() by {
        assert(message.env[i] == env_var_message(template.env@[i]));
        lemma_text_round_trip(template.env@[i].value.deep_view());
    }
    lemma_no_problem(env);
    assert(env_vars_of(message.env) =~= template.env.deep_view());
}

proof fn lemma_service_round_trip(template: ServiceTemplate)
    requires
        service_expressible(template),
    ensures
        service_problem(service_message(template)) is None,
        service_of(service_message(template)) == template.deep_view(),
{
    let message = service_message(template);
    lemma_text_round_trip(template.name.deep_view());
    let ports = service_port_problems(message.ports);
    assert forall|i: int| 0 <= i < ports.len() implies (#[trigger] ports[i]) is None by {
        assert(message.ports[i] == service_port_message(template.ports@[i]));
    }
    lemma_no_problem(ports);
    assert(service_ports_of(message.ports) =~= template.ports.deep_view());
}

proof fn lemma_secret_round_trip(
    secret: Option<CsiSecretRefTemplateView>,
    name_field: Seq<char>,
    namespace_field: Seq<char>,
)
    requires
        secret_expressible(secret),
    ensures
        secret_problem(secret_message(secret), name_field, namespace_field) is None,
        secret_of(secret_message(secret)) == secret,
{
    if let Some(secret) = secret {
        lemma_text_round_trip(secret.name);
        lemma_text_round_trip(secret.namespace);
    }
}

proof fn lemma_attributes_round_trip(pairs: Seq<(Seq<char>, Seq<TemplateTextPartView>)>)
    requires
        forall|i: int| 0 <= i < pairs.len() ==> (#[trigger] pairs[i]).1.len() > 0,
    ensures
        outcome::first_problem(attribute_problems(attributes_message(pairs)), 0) is None,
        attributes_of(attributes_message(pairs)) == string_map::map_of_pairs(pairs),
{
    let message = attributes_message(pairs);
    let problems = attribute_problems(message);
    assert forall|i: int| #![trigger problems[i]]
        #![trigger attribute_pairs(message)[i]]
        0 <= i < problems.len() implies problems[i] is None && attribute_pairs(message)[i]
        == pairs[i] by {
        assert(pairs[i].1.len() > 0);
        lemma_text_round_trip(pairs[i].1);
    }
    lemma_no_problem(problems);
    assert(attribute_pairs(message) =~= pairs);
}

/// The message of the source of a volume stands for that source again. A source with
/// an empty text has a message that stands for none.
pub proof fn lemma_source_round_trip(template: PersistentVolumeSourceTemplate)
    requires
        source_expressible(template),
    ensures
        source_problem(source_message(template)) is None,
        source_of(source_message(template)) == template.deep_view(),
{
    match template {
        PersistentVolumeSourceTemplate::Csi {
            driver,
            volume_handle,
            fs_type,
            read_only,
            volume_attributes,
            controller_publish_secret_ref,
            node_stage_secret_ref,
            node_publish_secret_ref,
            controller_expand_secret_ref,
            node_expand_secret_ref,
        } => {
            lemma_text_round_trip(driver.deep_view());
            lemma_text_round_trip(volume_handle.deep_view());
            if let Some(text) = fs_type {
                lemma_text_round_trip(text.deep_view());
            }
            lemma_attributes_round_trip(volume_attributes.pairs());
            lemma_secret_round_trip(
                controller_publish_secret_ref.deep_view(),
                "template.volumes.source.csi.controller_publish_secret_ref.name"@,
                "template.volumes.source.csi.controller_publish_secret_ref.namespace"@,
            );
            lemma_secret_round_trip(
                node_stage_secret_ref.deep_view(),
                "template.volumes.source.csi.node_stage_secret_ref.name"@,
                "template.volumes.source.csi.node_stage_secret_ref.namespace"@,
            );
            lemma_secret_round_trip(
                node_publish_secret_ref.deep_view(),
                "template.volumes.source.csi.node_publish_secret_ref.name"@,
                "template.volumes.source.csi.node_publish_secret_ref.namespace"@,
            );
            lemma_secret_round_trip(
                controller_expand_secret_ref.deep_view(),
                "template.volumes.source.csi.controller_expand_secret_ref.name"@,
                "template.volumes.source.csi.controller_expand_secret_ref.namespace"@,
            );
            lemma_secret_round_trip(
                node_expand_secret_ref.deep_view(),
                "template.volumes.source.csi.node_expand_secret_ref.name"@,
                "template.volumes.source.csi.node_expand_secret_ref.namespace"@,
            );
        },
        PersistentVolumeSourceTemplate::HostPath { path, type_ } => {
            lemma_text_round_trip(path.deep_view());
            if let Some(text) = type_ {
                lemma_text_round_trip(text.deep_view());
            }
        },
    }
}

proof fn lemma_text_problem_code(text: pb::TemplateTextView)
    ensures
        text_problem(text) matches Some(error) ==> error.code == StatusCode::InvalidArgument,
{
    lemma_first_part_problem_code(text.parts, 0);
}

proof fn lemma_first_part_problem_code(parts: Seq<pb::TemplateTextPartView>, from: int)
    requires
        0 <= from,
    ensures
        outcome::first_problem(part_problems(parts), from) matches Some(error) ==> error.code
            == StatusCode::InvalidArgument,
    decreases parts.len() - from,
{
    if from < parts.len() && part_problems(parts)[from] is None {
        lemma_first_part_problem_code(parts, from + 1);
    }
}

/// A message of the source of a volume that lacks its kind, the driver or the handle
/// of a CSI volume, or the path of a host path, is an invalid argument.
pub proof fn lemma_incomplete_source_is_refused(template: pb::PersistentVolumeSourceTemplateView)
    requires
        match template.kind {
            None => true,
            Some(pb::PersistentVolumeSourceKindView::Csi(csi)) => csi.driver is None
                || csi.volume_handle is None,
            Some(pb::PersistentVolumeSourceKindView::HostPath(host_path)) => host_path.path is None,
        },
    ensures
        source_problem(template) matches Some(error) && error.code == StatusCode::InvalidArgument,
{
    if let Some(pb::PersistentVolumeSourceKindView::Csi(csi)) = template.kind {
        if let Some(driver) = csi.driver {
            lemma_text_problem_code(driver);
        }
    }
}

proof fn lemma_volume_round_trip(template: VolumeTemplate)
    requires
        volume_expressible(template),
    ensures
        volume_problem(volume_message(template)) is None,
        volume_of(volume_message(template)) == template.deep_view(),
{
    let message = volume_message(template);
    lemma_text_round_trip(template.mount_path.deep_view());
    lemma_text_round_trip(template.pv_name.deep_view());
    lemma_text_round_trip(template.pvc_name.deep_view());
    lemma_text_round_trip(template.capacity.deep_view());
    if let Some(text) = template.storage_class_name {
        lemma_text_round_trip(text.deep_view());
    }
    lemma_source_round_trip(template.source);
    let modes = access_mode_problems(message.access_modes);
    assert forall|i: int| 0 <= i < modes.len() implies (#[trigger] modes[i]) is None by {
        assert(message.access_modes[i] == access_mode_message(template.access_modes@[i]));
    }
    lemma_no_problem(modes);
    assert(access_modes_of(message.access_modes) =~= template.access_modes.deep_view());
}

/// The message of a template stands for that template again. A template with an
/// empty text or name has a message that stands for none.
pub proof fn lemma_template_round_trip(template: ManifestTemplate)
    requires
        manifest_template_expressible(template),
    ensures
        manifest_template_problem(manifest_template_message(template)) is None,
        manifest_template_of(manifest_template_message(template)) == template.deep_view(),
{
    let message = manifest_template_message(template);
    lemma_text_round_trip(template.workload.name.deep_view());
    lemma_container_round_trip(template.workload.app_container);
    lemma_text_round_trip(template.sidecar.image.deep_view());
    if let Some(service) = template.service {
        lemma_service_round_trip(service);
    }
    let volumes = volume_problems(message.volumes);
    assert forall|i: int| #![trigger volumes[i]]
        #![trigger volumes_of(message.volumes)[i]]
        0 <= i < volumes.len() implies volumes[i] is None && volumes_of(message.volumes)[i]
        == template.volumes@[i].deep_view() by {
        assert(message.volumes[i] == volume_message(template.volumes@[i]));
        lemma_volume_round_trip(template.volumes@[i]);
    }
    lemma_no_problem(volumes);
    assert(volumes_of(message.volumes) =~= template.volumes.deep_view());
    let raw = raw_object_problems(message.raw_objects);
    assert forall|i: int| #![trigger raw[i]]
        #![trigger raw_objects_of(message.raw_objects)[i]]
        0 <= i < raw.len() implies raw[i] is None && raw_objects_of(message.raw_objects)[i]
        == template.raw_objects@[i].deep_view() by {
        assert(message.raw_objects[i] == raw_object_message(template.raw_objects@[i]));
        lemma_text_round_trip(template.raw_objects@[i].manifest.deep_view());
    }
    lemma_no_problem(raw);
    assert(raw_objects_of(message.raw_objects) =~= template.raw_objects.deep_view());
}

} // verus!
