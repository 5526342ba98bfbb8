//! Domain model of the SleepyPods control plane.
pub mod api;
pub mod auth;
pub mod certificate;
pub mod config;
pub mod http01;
pub mod idle;
pub mod ids;
pub mod instance;
pub mod json;
pub mod kube_materializer;
pub mod kubernetes_name;
pub mod manifest;
pub mod materialization;
pub mod materializer;
pub mod outcome;
pub mod postgres;
pub mod route;
mod same;
pub mod sleep_policy;
pub mod store;
pub mod string_map;
pub mod text;
pub mod time;
pub mod wake;
pub mod workload;

pub use auth::{
    AuthConfig, AuthFailureReason, AuthProvider, BearerToken, CallerRole, ControlPlaneAuth,
    ControlPlaneAuthInterceptor, InvalidBearerToken, InvalidStaticBearerTokens,
    OptionalBearerTokenInterceptor, StaticBearerAuthProvider, StaticBearerTokens,
};
pub use config::{
    ControlPlaneConfig, PostgresStoreConfig, StoreProviderConfig, StoreProviderName,
};
pub use http01::{
    DeleteHttp01ChallengeRequest, ExpireHttp01ChallengesRequest, Http01ChallengeKey,
    Http01ChallengeRecord, PutHttp01ChallengeRequest,
};
pub use ids::{
    BackendGeneration, Generation, IdempotencyKey, InstanceId, MaterializationId, NonEmptyString,
    RouteBindingId, WorkloadClassId,
};
pub use instance::{
    CompareAndSwapInstanceStateRequest, CreateInstanceRequest, CreateInstanceResult,
    CreateInstanceValidationError, DeleteInstanceRequest, GetInstanceRequest, InstanceRecord,
    InstanceState, InstanceValues, StateTransitionReason,
};
pub use kube_materializer::{
    InvalidKubeMaterializerClientConfig, KubeMaterializerClientConfig,
};
pub use manifest::{
    render_manifests, ApplyOrder, Container, ContainerPort, ContainerPortTemplate,
    ContainerTemplate, CsiPersistentVolumeSource, Deployment, DeploymentSpec, EnvVar,
    EnvVarTemplate, HostPathPersistentVolumeSource, KubernetesObject, LabelSelector,
    ManifestRenderError, ManifestTemplate, ObjectMeta, PersistentVolume,
    PersistentVolumeAccessMode, PersistentVolumeClaim, PersistentVolumeClaimRef,
    PersistentVolumeClaimSpec, PersistentVolumeClaimVolumeSource, PersistentVolumeReclaimPolicy,
    PersistentVolumeSource, PersistentVolumeSourceTemplate, PersistentVolumeSpec, PodSpec,
    PodTemplateMetadata, PodTemplateSpec, PodVolume, RenderManifestRequest, RenderedManifest,
    RenderedManifestObject, Service, ServicePort, ServicePortTemplate, ServiceSpec,
    ServiceTemplate, SidecarTemplate, StatefulSet, StatefulSetSpec, TemplateText, TemplateTextPart,
    VolumeMount, VolumeResourceRequirements, VolumeTemplate, WorkloadKind, WorkloadTemplate,
};
pub use materialization::{
    BackendEndpoint, BeginSleepRequest, BeginSleepResult, CompleteWakeRequest, CompleteWakeResult,
    FinalizeSleepRequest, FinalizeSleepResult, LoadActiveMaterializationRequest,
    MaterializationRecord, MaterializationState, MaterializationTarget,
    RecordMaterializationRequest, RenderedObjectRef,
};
pub use materializer::{
    rendered_object_ref, AppliedMaterialization, KubernetesClientError, KubernetesMaterializer,
    MaterializerError,
};
pub use route::{
    CachePolicy, CreateRouteBindingRequest, PathPrefix, ProtocolRoute, RouteBindingRecord,
    RouteBindingSpec, RouteEntry, RouteHost, RouteHostKind, RouteIdentity, RouteResolution,
};
pub use sleep_policy::{
    IdleTimeoutOverridePolicy, ResolvedSleepPolicy, SleepPolicyError, WorkloadSleepPolicy,
};
pub use store::StoreError;
pub use workload::{
    CreateWorkloadClassVersionRequest, LoadWorkloadClassVersionRequest, RenderedExclusivityKey,
    ValueSchemaError, WorkloadClassValidationError, WorkloadClassVersion, WorkloadClassVersionRef,
    WorkloadExclusivityKeyTemplate, WorkloadValueFieldRule, WorkloadValueSchema,
};
