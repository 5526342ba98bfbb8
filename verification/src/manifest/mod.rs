//! Rendering of Kubernetes manifests from templates.
use vstd::prelude::*;

use crate::ids::Generation;
use crate::instance::InstanceRecord;
use crate::sleep_policy::ResolvedSleepPolicy;
use crate::text;
use crate::workload;

pub mod laws;
pub mod objects;
pub mod refusal_laws;
pub mod render;
pub mod serialize;
pub mod serialize_laws;
pub mod template;

pub use self::objects::{
    ApplyOrder, Container, ContainerPort, CsiPersistentVolumeSource, Deployment, DeploymentSpec,
    EnvVar, HostPathPersistentVolumeSource, KubernetesObject, LabelSelector, ObjectMeta,
    PersistentVolume, PersistentVolumeClaim, PersistentVolumeClaimRef, PersistentVolumeClaimSpec,
    PersistentVolumeClaimVolumeSource, PersistentVolumeSource, PersistentVolumeSpec, PodSpec,
    PodTemplateMetadata, PodTemplateSpec, PodVolume, RenderedManifest, RenderedManifestObject,
    Service, ServicePort, ServiceSpec, StatefulSet, StatefulSetSpec, VolumeMount,
    VolumeResourceRequirements,
};
pub use self::render::render_manifests;
pub use self::template::{
    ContainerPortTemplate, ContainerTemplate, EnvVarTemplate, ManifestTemplate,
    PersistentVolumeAccessMode, PersistentVolumeReclaimPolicy, PersistentVolumeSourceTemplate,
    ServicePortTemplate, ServiceTemplate, SidecarTemplate, TemplateText, TemplateTextPart,
    VolumeTemplate, WorkloadKind, WorkloadTemplate,
};

verus! {

pub const LABEL_INSTANCE_ID: &'static str = "sleepypods.io/instance-id";

pub const LABEL_INSTANCE_GENERATION: &'static str = "sleepypods.io/instance-generation";

pub const LABEL_WORKLOAD_CLASS_ID: &'static str = "sleepypods.io/workload-class-id";

pub const LABEL_WORKLOAD_CLASS_VERSION: &'static str = "sleepypods.io/workload-class-version";

pub const LABEL_WORKLOAD_NAME: &'static str = "sleepypods.io/workload-name";

pub const ANNOTATION_TEMPLATE_GENERATION: &'static str = "sleepypods.io/template-generation";

/// Asks for the objects of an instance.
pub struct RenderManifestRequest<'a> {
    pub template: &'a ManifestTemplate,
    pub instance: &'a InstanceRecord,
    pub sleep_policy: ResolvedSleepPolicy,
    pub namespace: &'a str,
    pub template_generation: Option<Generation>,
}

/// Why a manifest cannot be rendered.
#[allow(inconsistent_fields)]
#[derive(Debug, PartialEq, Eq)]
pub enum ManifestRenderError {
    MissingInstanceValue { field: String },
    InvalidName { field: &'static str, value: String },
    InvalidField { field: &'static str, message: String },
    InvalidReplicas { kind: WorkloadKind, replicas: u32, message: String },
}

/// What a [`ManifestRenderError`] holds.
#[allow(inconsistent_fields)]
#[verifier::ext_equal]
pub enum ManifestRenderErrorView {
    MissingInstanceValue { field: Seq<char> },
    InvalidName { field: Seq<char>, value: Seq<char> },
    InvalidField { field: Seq<char>, message: Seq<char> },
    InvalidReplicas { kind: WorkloadKind, replicas: u32, message: Seq<char> },
}

impl DeepView for ManifestRenderError {
    type V = ManifestRenderErrorView;

    open spec fn deep_view(&self) -> ManifestRenderErrorView {
        match self {
            ManifestRenderError::MissingInstanceValue {
                field,
            } => ManifestRenderErrorView::MissingInstanceValue {
                field: field.deep_view(),
            },
            ManifestRenderError::InvalidName {
                field,
                value,
            } => ManifestRenderErrorView::InvalidName {
                field: field.deep_view(),
                value: value.deep_view(),
            },
            ManifestRenderError::InvalidField {
                field,
                message,
            } => ManifestRenderErrorView::InvalidField {
                field: field.deep_view(),
                message: message.deep_view(),
            },
            ManifestRenderError::InvalidReplicas {
                kind,
                replicas,
                message,
            } => ManifestRenderErrorView::InvalidReplicas {
                kind: kind.deep_view(),
                replicas: replicas.deep_view(),
                message: message.deep_view(),
            },
        }
    }
}

impl Clone for ManifestRenderError {
    fn clone(&self) -> (r: Self)
        ensures
            r.deep_view() == self.deep_view(),
    {
        match self {
            ManifestRenderError::MissingInstanceValue {
                field,
            } => ManifestRenderError::MissingInstanceValue {
                field: field.clone(),
            },
            ManifestRenderError::InvalidName { field, value } => ManifestRenderError::InvalidName {
                field: *field,
                value: value.clone(),
            },
            ManifestRenderError::InvalidField {
                field,
                message,
            } => ManifestRenderError::InvalidField {
                field: *field,
                message: message.clone(),
            },
            ManifestRenderError::InvalidReplicas {
                kind,
                replicas,
                message,
            } => ManifestRenderError::InvalidReplicas {
                kind: *kind,
                replicas: *replicas,
                message: message.clone(),
            },
        }
    }
}

/// What is shown for a manifest that cannot be rendered.
pub open spec fn manifest_render_message(error: ManifestRenderErrorView) -> Seq<char> {
    match error {
        ManifestRenderErrorView::MissingInstanceValue { field } => {
            "missing instance value "@ + text::debug_text(field)
        },
        ManifestRenderErrorView::InvalidName { field, value } => {
            field + " rendered invalid Kubernetes name "@ + text::debug_text(value)
        },
        ManifestRenderErrorView::InvalidField { field, message } => {
            field + " is invalid: "@ + message
        },
        ManifestRenderErrorView::InvalidReplicas { kind, replicas, message } => {
            workload::kind_name(kind) + " replicas "@ + text::decimal(replicas as nat)
                + " are invalid: "@ + message
        },
    }
}

impl ManifestRenderError {
    pub fn to_string(&self) -> (r: String)
        ensures
            r@ == manifest_render_message(self.deep_view()),
    {
        match self {
            ManifestRenderError::MissingInstanceValue { field } => {
                let field = text::quoted(field.as_str());
                text::join2("missing instance value ", field.as_str())
            },
            ManifestRenderError::InvalidName { field, value } => {
                let value = text::quoted(value.as_str());
                text::join3(field, " rendered invalid Kubernetes name ", value.as_str())
            },
            ManifestRenderError::InvalidField { field, message } => {
                text::join3(field, " is invalid: ", message.as_str())
            },
            ManifestRenderError::InvalidReplicas { kind, replicas, message } => {
                let count = text::number(*replicas as u64);
                text::join5(
                    workload::workload_kind_name(*kind),
                    " replicas ",
                    count.as_str(),
                    " are invalid: ",
                    message.as_str(),
                )
            },
        }
    }
}

} // verus!
