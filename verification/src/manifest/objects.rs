//! The Kubernetes objects that are applied for an instance.
use vstd::prelude::*;

use super::template::PersistentVolumeAccessMode;
use super::template::PersistentVolumeReclaimPolicy;
use crate::ids::Generation;
use crate::string_map::StringMap;

verus! {

/// The order in which objects are applied.
#[derive(Clone, Copy, Debug, PartialEq, Eq, PartialOrd, Ord, Structural)]
pub enum ApplyOrder {
    PersistentVolume,
    PersistentVolumeClaim,
    Service,
    Workload,
}

impl DeepView for ApplyOrder {
    type V = ApplyOrder;

    open spec fn deep_view(&self) -> ApplyOrder {
        *self
    }
}

/// The metadata of an object.
#[derive(Debug, PartialEq, Eq)]
pub struct ObjectMeta {
    pub name: String,
    pub namespace: Option<String>,
    pub labels: StringMap<String>,
    pub annotations: StringMap<String>,
}

/// What an [`ObjectMeta`] holds.
#[verifier::ext_equal]
pub struct ObjectMetaView {
    pub name: Seq<char>,
    pub namespace: Option<Seq<char>>,
    pub labels: Map<Seq<char>, Seq<char>>,
    pub annotations: Map<Seq<char>, Seq<char>>,
}

impl DeepView for ObjectMeta {
    type V = ObjectMetaView;

    open spec fn deep_view(&self) -> ObjectMetaView {
        ObjectMetaView {
            name: self.name.deep_view(),
            namespace: self.namespace.deep_view(),
            labels: self.labels.deep_view(),
            annotations: self.annotations.deep_view(),
        }
    }
}

impl Clone for ObjectMeta {
    fn clone(&self) -> (r: Self)
        ensures
            r.deep_view() == self.deep_view(),
    {
        let r = ObjectMeta {
            name: self.name.clone(),
            namespace: self.namespace.clone(),
            labels: self.labels.clone(),
            annotations: self.annotations.clone(),
        };
        assert(r.namespace.deep_view() =~= self.namespace.deep_view());
        assert(r.labels.deep_view() =~= self.labels.deep_view());
        assert(r.annotations.deep_view() =~= self.annotations.deep_view());
        r
    }
}

/// Labels that select pods.
#[derive(Debug, PartialEq, Eq)]
pub struct LabelSelector {
    pub match_labels: StringMap<String>,
}

/// What a [`LabelSelector`] holds.
#[verifier::ext_equal]
pub struct LabelSelectorView {
    pub match_labels: Map<Seq<char>, Seq<char>>,
}

impl DeepView for LabelSelector {
    type V = LabelSelectorView;

    open spec fn deep_view(&self) -> LabelSelectorView {
        LabelSelectorView {
            match_labels: self.match_labels.deep_view(),
        }
    }
}

impl Clone for LabelSelector {
    fn clone(&self) -> (r: Self)
        ensures
            r.deep_view() == self.deep_view(),
    {
        let r = LabelSelector {
            match_labels: self.match_labels.clone(),
        };
        assert(r.match_labels.deep_view() =~= self.match_labels.deep_view());
        r
    }
}

/// A port that a container opens.
#[derive(Debug, PartialEq, Eq)]
pub struct ContainerPort {
    pub name: Option<String>,
    pub container_port: u16,
}

/// What a [`ContainerPort`] holds.
#[verifier::ext_equal]
pub struct ContainerPortView {
    pub name: Option<Seq<char>>,
    pub container_port: u16,
}

impl DeepView for ContainerPort {
    type V = ContainerPortView;

    open spec fn deep_view(&self) -> ContainerPortView {
        ContainerPortView {
            name: self.name.deep_view(),
            container_port: self.container_port.deep_view(),
        }
    }
}

impl Clone for ContainerPort {
    fn clone(&self) -> (r: Self)
        ensures
            r.deep_view() == self.deep_view(),
    {
        let r = ContainerPort {
            name: self.name.clone(),
            container_port: self.container_port,
        };
        assert(r.name.deep_view() =~= self.name.deep_view());
        r
    }
}

/// An environment variable.
#[derive(Debug, PartialEq, Eq)]
pub struct EnvVar {
    pub name: String,
    pub value: String,
}

/// What an [`EnvVar`] holds.
#[verifier::ext_equal]
pub struct EnvVarView {
    pub name: Seq<char>,
    pub value: Seq<char>,
}

impl DeepView for EnvVar {
    type V = EnvVarView;

    open spec fn deep_view(&self) -> EnvVarView {
        EnvVarView {
            name: self.name.deep_view(),
            value: self.value.deep_view(),
        }
    }
}

impl Clone for EnvVar {
    fn clone(&self) -> (r: Self)
        ensures
            r.deep_view() == self.deep_view(),
    {
        EnvVar {
            name: self.name.clone(),
            value: self.value.clone(),
        }
    }
}

/// Where a container mounts a volume.
#[derive(Debug, PartialEq, Eq)]
pub struct VolumeMount {
    pub name: String,
    pub mount_path: String,
}

/// What a [`VolumeMount`] holds.
#[verifier::ext_equal]
pub struct VolumeMountView {
    pub name: Seq<char>,
    pub mount_path: Seq<char>,
}

impl DeepView for VolumeMount {
    type V = VolumeMountView;

    open spec fn deep_view(&self) -> VolumeMountView {
        VolumeMountView {
            name: self.name.deep_view(),
            mount_path: self.mount_path.deep_view(),
        }
    }
}

impl Clone for VolumeMount {
    fn clone(&self) -> (r: Self)
        ensures
            r.deep_view() == self.deep_view(),
    {
        VolumeMount {
            name: self.name.clone(),
            mount_path: self.mount_path.clone(),
        }
    }
}

/// A container of a pod.
#[derive(Debug, PartialEq, Eq)]
pub struct Container {
    pub name: String,
    pub image: String,
    pub ports: Vec<ContainerPort>,
    pub env: Vec<EnvVar>,
    pub volume_mounts: Vec<VolumeMount>,
}

/// What a [`Container`] holds.
#[verifier::ext_equal]
pub struct ContainerView {
    pub name: Seq<char>,
    pub image: Seq<char>,
    pub ports: Seq<ContainerPortView>,
    pub env: Seq<EnvVarView>,
    pub volume_mounts: Seq<VolumeMountView>,
}

impl DeepView for Container {
    type V = ContainerView;

    open spec fn deep_view(&self) -> ContainerView {
        ContainerView {
            name: self.name.deep_view(),
            image: self.image.deep_view(),
            ports: self.ports.deep_view(),
            env: self.env.deep_view(),
            volume_mounts: self.volume_mounts.deep_view(),
        }
    }
}

impl Clone for Container {
    fn clone(&self) -> (r: Self)
        ensures
            r.deep_view() == self.deep_view(),
    {
        let r = Container {
            name: self.name.clone(),
            image: self.image.clone(),
            ports: self.ports.clone(),
            env: self.env.clone(),
            volume_mounts: self.volume_mounts.clone(),
        };
        assert(r.ports.deep_view() =~= self.ports.deep_view());
        assert(r.env.deep_view() =~= self.env.deep_view());
        assert(r.volume_mounts.deep_view() =~= self.volume_mounts.deep_view());
        r
    }
}

/// The claim behind a pod volume.
#[derive(Debug, PartialEq, Eq)]
pub struct PersistentVolumeClaimVolumeSource {
    pub claim_name: String,
}

/// What a [`PersistentVolumeClaimVolumeSource`] holds.
#[verifier::ext_equal]
pub struct PersistentVolumeClaimVolumeSourceView {
    pub claim_name: Seq<char>,
}

impl DeepView for PersistentVolumeClaimVolumeSource {
    type V = PersistentVolumeClaimVolumeSourceView;

    open spec fn deep_view(&self) -> PersistentVolumeClaimVolumeSourceView {
        PersistentVolumeClaimVolumeSourceView {
            claim_name: self.claim_name.deep_view(),
        }
    }
}

impl Clone for PersistentVolumeClaimVolumeSource {
    fn clone(&self) -> (r: Self)
        ensures
            r.deep_view() == self.deep_view(),
    {
        PersistentVolumeClaimVolumeSource {
            claim_name: self.claim_name.clone(),
        }
    }
}

/// A volume of a pod.
#[derive(Debug, PartialEq, Eq)]
pub struct PodVolume {
    pub name: String,
    pub persistent_volume_claim: PersistentVolumeClaimVolumeSource,
}

/// What a [`PodVolume`] holds.
#[verifier::ext_equal]
pub struct PodVolumeView {
    pub name: Seq<char>,
    pub persistent_volume_claim: PersistentVolumeClaimVolumeSourceView,
}

impl DeepView for PodVolume {
    type V = PodVolumeView;

    open spec fn deep_view(&self) -> PodVolumeView {
        PodVolumeView {
            name: self.name.deep_view(),
            persistent_volume_claim: self.persistent_volume_claim.deep_view(),
        }
    }
}

impl Clone for PodVolume {
    fn clone(&self) -> (r: Self)
        ensures
            r.deep_view() == self.deep_view(),
    {
        PodVolume {
            name: self.name.clone(),
            persistent_volume_claim: self.persistent_volume_claim.clone(),
        }
    }
}

/// The containers and volumes of a pod.
#[derive(Debug, PartialEq, Eq)]
pub struct PodSpec {
    pub containers: Vec<Container>,
    pub volumes: Vec<PodVolume>,
}

/// What a [`PodSpec`] holds.
#[verifier::ext_equal]
pub struct PodSpecView {
    pub containers: Seq<ContainerView>,
    pub volumes: Seq<PodVolumeView>,
}

impl DeepView for PodSpec {
    type V = PodSpecView;

    open spec fn deep_view(&self) -> PodSpecView {
        PodSpecView {
            containers: self.containers.deep_view(),
            volumes: self.volumes.deep_view(),
        }
    }
}

impl Clone for PodSpec {
    fn clone(&self) -> (r: Self)
        ensures
            r.deep_view() == self.deep_view(),
    {
        let r = PodSpec {
            containers: self.containers.clone(),
            volumes: self.volumes.clone(),
        };
        assert(r.containers.deep_view() =~= self.containers.deep_view());
        assert(r.volumes.deep_view() =~= self.volumes.deep_view());
        r
    }
}

/// The metadata of the pods of a workload.
#[derive(Debug, PartialEq, Eq)]
pub struct PodTemplateMetadata {
    pub labels: StringMap<String>,
    pub annotations: StringMap<String>,
}

/// What a [`PodTemplateMetadata`] holds.
#[verifier::ext_equal]
pub struct PodTemplateMetadataView {
    pub labels: Map<Seq<char>, Seq<char>>,
    pub annotations: Map<Seq<char>, Seq<char>>,
}

impl DeepView for PodTemplateMetadata {
    type V = PodTemplateMetadataView;

    open spec fn deep_view(&self) -> PodTemplateMetadataView {
        PodTemplateMetadataView {
            labels: self.labels.deep_view(),
            annotations: self.annotations.deep_view(),
        }
    }
}

impl Clone for PodTemplateMetadata {
    fn clone(&self) -> (r: Self)
        ensures
            r.deep_view() == self.deep_view(),
    {
        let r = PodTemplateMetadata {
            labels: self.labels.clone(),
            annotations: self.annotations.clone(),
        };
        assert(r.labels.deep_view() =~= self.labels.deep_view());
        assert(r.annotations.deep_view() =~= self.annotations.deep_view());
        r
    }
}

/// The pods of a workload.
#[derive(Debug, PartialEq, Eq)]
pub struct PodTemplateSpec {
    pub metadata: PodTemplateMetadata,
    pub spec: PodSpec,
}

/// What a [`PodTemplateSpec`] holds.
#[verifier::ext_equal]
pub struct PodTemplateSpecView {
    pub metadata: PodTemplateMetadataView,
    pub spec: PodSpecView,
}

impl DeepView for PodTemplateSpec {
    type V = PodTemplateSpecView;

    open spec fn deep_view(&self) -> PodTemplateSpecView {
        PodTemplateSpecView {
            metadata: self.metadata.deep_view(),
            spec: self.spec.deep_view(),
        }
    }
}

impl Clone for PodTemplateSpec {
    fn clone(&self) -> (r: Self)
        ensures
            r.deep_view() == self.deep_view(),
    {
        PodTemplateSpec {
            metadata: self.metadata.clone(),
            spec: self.spec.clone(),
        }
    }
}

/// What a Deployment asks for.
#[derive(Debug, PartialEq, Eq)]
pub struct DeploymentSpec {
    pub replicas: u32,
    pub selector: LabelSelector,
    pub template: PodTemplateSpec,
}

/// What a [`DeploymentSpec`] holds.
#[verifier::ext_equal]
pub struct DeploymentSpecView {
    pub replicas: u32,
    pub selector: LabelSelectorView,
    pub template: PodTemplateSpecView,
}

impl DeepView for DeploymentSpec {
    type V = DeploymentSpecView;

    open spec fn deep_view(&self) -> DeploymentSpecView {
        DeploymentSpecView {
            replicas: self.replicas.deep_view(),
            selector: self.selector.deep_view(),
            template: self.template.deep_view(),
        }
    }
}

impl Clone for DeploymentSpec {
    fn clone(&self) -> (r: Self)
        ensures
            r.deep_view() == self.deep_view(),
    {
        DeploymentSpec {
            replicas: self.replicas,
            selector: self.selector.clone(),
            template: self.template.clone(),
        }
    }
}

/// A Deployment.
#[derive(Debug, PartialEq, Eq)]
pub struct Deployment {
    pub metadata: ObjectMeta,
    pub spec: DeploymentSpec,
}

/// What a [`Deployment`] holds.
#[verifier::ext_equal]
pub struct DeploymentView {
    pub metadata: ObjectMetaView,
    pub spec: DeploymentSpecView,
}

impl DeepView for Deployment {
    type V = DeploymentView;

    open spec fn deep_view(&self) -> DeploymentView {
        DeploymentView {
            metadata: self.metadata.deep_view(),
            spec: self.spec.deep_view(),
        }
    }
}

impl Clone for Deployment {
    fn clone(&self) -> (r: Self)
        ensures
            r.deep_view() == self.deep_view(),
    {
        Deployment {
            metadata: self.metadata.clone(),
            spec: self.spec.clone(),
        }
    }
}

/// What a StatefulSet asks for.
#[derive(Debug, PartialEq, Eq)]
pub struct StatefulSetSpec {
    pub replicas: u32,
    pub service_name: String,
    pub selector: LabelSelector,
    pub template: PodTemplateSpec,
}

/// What a [`StatefulSetSpec`] holds.
#[verifier::ext_equal]
pub struct StatefulSetSpecView {
    pub replicas: u32,
    pub service_name: Seq<char>,
    pub selector: LabelSelectorView,
    pub template: PodTemplateSpecView,
}

impl DeepView for StatefulSetSpec {
    type V = StatefulSetSpecView;

    open spec fn deep_view(&self) -> StatefulSetSpecView {
        StatefulSetSpecView {
            replicas: self.replicas.deep_view(),
            service_name: self.service_name.deep_view(),
            selector: self.selector.deep_view(),
            template: self.template.deep_view(),
        }
    }
}

impl Clone for StatefulSetSpec {
    fn clone(&self) -> (r: Self)
        ensures
            r.deep_view() == self.deep_view(),
    {
        StatefulSetSpec {
            replicas: self.replicas,
            service_name: self.service_name.clone(),
            selector: self.selector.clone(),
            template: self.template.clone(),
        }
    }
}

/// A StatefulSet.
#[derive(Debug, PartialEq, Eq)]
pub struct StatefulSet {
    pub metadata: ObjectMeta,
    pub spec: StatefulSetSpec,
}

/// What a [`StatefulSet`] holds.
#[verifier::ext_equal]
pub struct StatefulSetView {
    pub metadata: ObjectMetaView,
    pub spec: StatefulSetSpecView,
}

impl DeepView for StatefulSet {
    type V = StatefulSetView;

    open spec fn deep_view(&self) -> StatefulSetView {
        StatefulSetView {
            metadata: self.metadata.deep_view(),
            spec: self.spec.deep_view(),
        }
    }
}

impl Clone for StatefulSet {
    fn clone(&self) -> (r: Self)
        ensures
            r.deep_view() == self.deep_view(),
    {
        StatefulSet {
            metadata: self.metadata.clone(),
            spec: self.spec.clone(),
        }
    }
}

/// A port of a Service.
#[derive(Debug, PartialEq, Eq)]
pub struct ServicePort {
    pub name: Option<String>,
    pub port: u16,
    pub target_port: u16,
}

/// What a [`ServicePort`] holds.
#[verifier::ext_equal]
pub struct ServicePortView {
    pub name: Option<Seq<char>>,
    pub port: u16,
    pub target_port: u16,
}

impl DeepView for ServicePort {
    type V = ServicePortView;

    open spec fn deep_view(&self) -> ServicePortView {
        ServicePortView {
            name: self.name.deep_view(),
            port: self.port.deep_view(),
            target_port: self.target_port.deep_view(),
        }
    }
}

impl Clone for ServicePort {
    fn clone(&self) -> (r: Self)
        ensures
            r.deep_view() == self.deep_view(),
    {
        let r = ServicePort {
            name: self.name.clone(),
            port: self.port,
            target_port: self.target_port,
        };
        assert(r.name.deep_view() =~= self.name.deep_view());
        r
    }
}

/// What a Service asks for.
#[derive(Debug, PartialEq, Eq)]
pub struct ServiceSpec {
    pub selector: StringMap<String>,
    pub ports: Vec<ServicePort>,
}

/// What a [`ServiceSpec`] holds.
#[verifier::ext_equal]
pub struct ServiceSpecView {
    pub selector: Map<Seq<char>, Seq<char>>,
    pub ports: Seq<ServicePortView>,
}

impl DeepView for ServiceSpec {
    type V = ServiceSpecView;

    open spec fn deep_view(&self) -> ServiceSpecView {
        ServiceSpecView {
            selector: self.selector.deep_view(),
            ports: self.ports.deep_view(),
        }
    }
}

impl Clone for ServiceSpec {
    fn clone(&self) -> (r: Self)
        ensures
            r.deep_view() == self.deep_view(),
    {
        let r = ServiceSpec {
            selector: self.selector.clone(),
            ports: self.ports.clone(),
        };
        assert(r.selector.deep_view() =~= self.selector.deep_view());
        assert(r.ports.deep_view() =~= self.ports.deep_view());
        r
    }
}

/// A Service.
#[derive(Debug, PartialEq, Eq)]
pub struct Service {
    pub metadata: ObjectMeta,
    pub spec: ServiceSpec,
}

/// What a [`Service`] holds.
#[verifier::ext_equal]
pub struct ServiceView {
    pub metadata: ObjectMetaView,
    pub spec: ServiceSpecView,
}

impl DeepView for Service {
    type V = ServiceView;

    open spec fn deep_view(&self) -> ServiceView {
        ServiceView {
            metadata: self.metadata.deep_view(),
            spec: self.spec.deep_view(),
        }
    }
}

impl Clone for Service {
    fn clone(&self) -> (r: Self)
        ensures
            r.deep_view() == self.deep_view(),
    {
        Service {
            metadata: self.metadata.clone(),
            spec: self.spec.clone(),
        }
    }
}

/// The claim that a volume is kept for.
#[derive(Debug, PartialEq, Eq)]
pub struct PersistentVolumeClaimRef {
    pub namespace: String,
    pub name: String,
}

/// What a [`PersistentVolumeClaimRef`] holds.
#[verifier::ext_equal]
pub struct PersistentVolumeClaimRefView {
    pub namespace: Seq<char>,
    pub name: Seq<char>,
}

impl DeepView for PersistentVolumeClaimRef {
    type V = PersistentVolumeClaimRefView;

    open spec fn deep_view(&self) -> PersistentVolumeClaimRefView {
        PersistentVolumeClaimRefView {
            namespace: self.namespace.deep_view(),
            name: self.name.deep_view(),
        }
    }
}

impl Clone for PersistentVolumeClaimRef {
    fn clone(&self) -> (r: Self)
        ensures
            r.deep_view() == self.deep_view(),
    {
        PersistentVolumeClaimRef {
            namespace: self.namespace.clone(),
            name: self.name.clone(),
        }
    }
}

/// A volume of a CSI driver.
#[derive(Debug, PartialEq, Eq)]
pub struct CsiPersistentVolumeSource {
    pub driver: String,
    pub volume_handle: String,
    pub fs_type: Option<String>,
    pub read_only: bool,
    pub volume_attributes: StringMap<String>,
}

/// What a [`CsiPersistentVolumeSource`] holds.
#[verifier::ext_equal]
pub struct CsiPersistentVolumeSourceView {
    pub driver: Seq<char>,
    pub volume_handle: Seq<char>,
    pub fs_type: Option<Seq<char>>,
    pub read_only: bool,
    pub volume_attributes: Map<Seq<char>, Seq<char>>,
}

impl DeepView for CsiPersistentVolumeSource {
    type V = CsiPersistentVolumeSourceView;

    open spec fn deep_view(&self) -> CsiPersistentVolumeSourceView {
        CsiPersistentVolumeSourceView {
            driver: self.driver.deep_view(),
            volume_handle: self.volume_handle.deep_view(),
            fs_type: self.fs_type.deep_view(),
            read_only: self.read_only.deep_view(),
            volume_attributes: self.volume_attributes.deep_view(),
        }
    }
}

impl Clone for CsiPersistentVolumeSource {
    fn clone(&self) -> (r: Self)
        ensures
            r.deep_view() == self.deep_view(),
    {
        let r = CsiPersistentVolumeSource {
            driver: self.driver.clone(),
            volume_handle: self.volume_handle.clone(),
            fs_type: self.fs_type.clone(),
            read_only: self.read_only,
            volume_attributes: self.volume_attributes.clone(),
        };
        assert(r.fs_type.deep_view() =~= self.fs_type.deep_view());
        assert(r.volume_attributes.deep_view() =~= self.volume_attributes.deep_view());
        r
    }
}

/// A volume on the host.
#[derive(Debug, PartialEq, Eq)]
pub struct HostPathPersistentVolumeSource {
    pub path: String,
    pub type_: Option<String>,
}

/// What a [`HostPathPersistentVolumeSource`] holds.
#[verifier::ext_equal]
pub struct HostPathPersistentVolumeSourceView {
    pub path: Seq<char>,
    pub type_: Option<Seq<char>>,
}

impl DeepView for HostPathPersistentVolumeSource {
    type V = HostPathPersistentVolumeSourceView;

    open spec fn deep_view(&self) -> HostPathPersistentVolumeSourceView {
        HostPathPersistentVolumeSourceView {
            path: self.path.deep_view(),
            type_: self.type_.deep_view(),
        }
    }
}

impl Clone for HostPathPersistentVolumeSource {
    fn clone(&self) -> (r: Self)
        ensures
            r.deep_view() == self.deep_view(),
    {
        let r = HostPathPersistentVolumeSource {
            path: self.path.clone(),
            type_: self.type_.clone(),
        };
        assert(r.type_.deep_view() =~= self.type_.deep_view());
        r
    }
}

/// Where the data of a volume lives.
#[derive(Debug, PartialEq, Eq)]
pub enum PersistentVolumeSource {
    Csi(CsiPersistentVolumeSource),
    HostPath(HostPathPersistentVolumeSource),
}

/// What a [`PersistentVolumeSource`] holds.
#[verifier::ext_equal]
pub enum PersistentVolumeSourceView {
    Csi(CsiPersistentVolumeSourceView),
    HostPath(HostPathPersistentVolumeSourceView),
}

impl DeepView for PersistentVolumeSource {
    type V = PersistentVolumeSourceView;

    open spec fn deep_view(&self) -> PersistentVolumeSourceView {
        match self {
            PersistentVolumeSource::Csi(value) => PersistentVolumeSourceView::Csi(
                value.deep_view(),
            ),
            PersistentVolumeSource::HostPath(value) => PersistentVolumeSourceView::HostPath(
                value.deep_view(),
            ),
        }
    }
}

impl Clone for PersistentVolumeSource {
    fn clone(&self) -> (r: Self)
        ensures
            r.deep_view() == self.deep_view(),
    {
        match self {
            PersistentVolumeSource::Csi(value) => PersistentVolumeSource::Csi(value.clone()),
            PersistentVolumeSource::HostPath(value) => PersistentVolumeSource::HostPath(
                value.clone(),
            ),
        }
    }
}

/// What a PersistentVolume is.
#[derive(Debug, PartialEq, Eq)]
pub struct PersistentVolumeSpec {
    pub capacity: String,
    pub access_modes: Vec<PersistentVolumeAccessMode>,
    pub persistent_volume_reclaim_policy: PersistentVolumeReclaimPolicy,
    pub storage_class_name: Option<String>,
    pub claim_ref: PersistentVolumeClaimRef,
    pub source: PersistentVolumeSource,
}

/// What a [`PersistentVolumeSpec`] holds.
#[verifier::ext_equal]
pub struct PersistentVolumeSpecView {
    pub capacity: Seq<char>,
    pub access_modes: Seq<PersistentVolumeAccessMode>,
    pub persistent_volume_reclaim_policy: PersistentVolumeReclaimPolicy,
    pub storage_class_name: Option<Seq<char>>,
    pub claim_ref: PersistentVolumeClaimRefView,
    pub source: PersistentVolumeSourceView,
}

impl DeepView for PersistentVolumeSpec {
    type V = PersistentVolumeSpecView;

    open spec fn deep_view(&self) -> PersistentVolumeSpecView {
        PersistentVolumeSpecView {
            capacity: self.capacity.deep_view(),
            access_modes: self.access_modes.deep_view(),
            persistent_volume_reclaim_policy: self.persistent_volume_reclaim_policy.deep_view(),
            storage_class_name: self.storage_class_name.deep_view(),
            claim_ref: self.claim_ref.deep_view(),
            source: self.source.deep_view(),
        }
    }
}

impl Clone for PersistentVolumeSpec {
    fn clone(&self) -> (r: Self)
        ensures
            r.deep_view() == self.deep_view(),
    {
        let r = PersistentVolumeSpec {
            capacity: self.capacity.clone(),
            access_modes: self.access_modes.clone(),
            persistent_volume_reclaim_policy: self.persistent_volume_reclaim_policy,
            storage_class_name: self.storage_class_name.clone(),
            claim_ref: self.claim_ref.clone(),
            source: self.source.clone(),
        };
        assert(r.access_modes.deep_view() =~= self.access_modes.deep_view());
        assert(r.storage_class_name.deep_view() =~= self.storage_class_name.deep_view());
        r
    }
}

/// A PersistentVolume.
#[derive(Debug, PartialEq, Eq)]
pub struct PersistentVolume {
    pub metadata: ObjectMeta,
    pub spec: PersistentVolumeSpec,
}

/// What a [`PersistentVolume`] holds.
#[verifier::ext_equal]
pub struct PersistentVolumeView {
    pub metadata: ObjectMetaView,
    pub spec: PersistentVolumeSpecView,
}

impl DeepView for PersistentVolume {
    type V = PersistentVolumeView;

    open spec fn deep_view(&self) -> PersistentVolumeView {
        PersistentVolumeView {
            metadata: self.metadata.deep_view(),
            spec: self.spec.deep_view(),
        }
    }
}

impl Clone for PersistentVolume {
    fn clone(&self) -> (r: Self)
        ensures
            r.deep_view() == self.deep_view(),
    {
        PersistentVolume {
            metadata: self.metadata.clone(),
            spec: self.spec.clone(),
        }
    }
}

/// How much storage a claim asks for.
#[derive(Debug, PartialEq, Eq)]
pub struct VolumeResourceRequirements {
    pub requests_storage: String,
}

/// What a [`VolumeResourceRequirements`] holds.
#[verifier::ext_equal]
pub struct VolumeResourceRequirementsView {
    pub requests_storage: Seq<char>,
}

impl DeepView for VolumeResourceRequirements {
    type V = VolumeResourceRequirementsView;

    open spec fn deep_view(&self) -> VolumeResourceRequirementsView {
        VolumeResourceRequirementsView {
            requests_storage: self.requests_storage.deep_view(),
        }
    }
}

impl Clone for VolumeResourceRequirements {
    fn clone(&self) -> (r: Self)
        ensures
            r.deep_view() == self.deep_view(),
    {
        VolumeResourceRequirements {
            requests_storage: self.requests_storage.clone(),
        }
    }
}

/// What a PersistentVolumeClaim asks for.
#[derive(Debug, PartialEq, Eq)]
pub struct PersistentVolumeClaimSpec {
    pub access_modes: Vec<PersistentVolumeAccessMode>,
    pub resources: VolumeResourceRequirements,
    pub storage_class_name: Option<String>,
    pub volume_name: String,
}

/// What a [`PersistentVolumeClaimSpec`] holds.
#[verifier::ext_equal]
pub struct PersistentVolumeClaimSpecView {
    pub access_modes: Seq<PersistentVolumeAccessMode>,
    pub resources: VolumeResourceRequirementsView,
    pub storage_class_name: Option<Seq<char>>,
    pub volume_name: Seq<char>,
}

impl DeepView for PersistentVolumeClaimSpec {
    type V = PersistentVolumeClaimSpecView;

    open spec fn deep_view(&self) -> PersistentVolumeClaimSpecView {
        PersistentVolumeClaimSpecView {
            access_modes: self.access_modes.deep_view(),
            resources: self.resources.deep_view(),
            storage_class_name: self.storage_class_name.deep_view(),
            volume_name: self.volume_name.deep_view(),
        }
    }
}

impl Clone for PersistentVolumeClaimSpec {
    fn clone(&self) -> (r: Self)
        ensures
            r.deep_view() == self.deep_view(),
    {
        let r = PersistentVolumeClaimSpec {
            access_modes: self.access_modes.clone(),
            resources: self.resources.clone(),
            storage_class_name: self.storage_class_name.clone(),
            volume_name: self.volume_name.clone(),
        };
        assert(r.access_modes.deep_view() =~= self.access_modes.deep_view());
        assert(r.storage_class_name.deep_view() =~= self.storage_class_name.deep_view());
        r
    }
}

/// A PersistentVolumeClaim.
#[derive(Debug, PartialEq, Eq)]
pub struct PersistentVolumeClaim {
    pub metadata: ObjectMeta,
    pub spec: PersistentVolumeClaimSpec,
}

/// What a [`PersistentVolumeClaim`] holds.
#[verifier::ext_equal]
pub struct PersistentVolumeClaimView {
    pub metadata: ObjectMetaView,
    pub spec: PersistentVolumeClaimSpecView,
}

impl DeepView for PersistentVolumeClaim {
    type V = PersistentVolumeClaimView;

    open spec fn deep_view(&self) -> PersistentVolumeClaimView {
        PersistentVolumeClaimView {
            metadata: self.metadata.deep_view(),
            spec: self.spec.deep_view(),
        }
    }
}

impl Clone for PersistentVolumeClaim {
    fn clone(&self) -> (r: Self)
        ensures
            r.deep_view() == self.deep_view(),
    {
        PersistentVolumeClaim {
            metadata: self.metadata.clone(),
            spec: self.spec.clone(),
        }
    }
}

/// An object of the cluster.
#[derive(Debug, PartialEq, Eq)]
pub enum KubernetesObject {
    Deployment(Deployment),
    StatefulSet(StatefulSet),
    Service(Service),
    PersistentVolume(PersistentVolume),
    PersistentVolumeClaim(PersistentVolumeClaim),
}

/// What a [`KubernetesObject`] holds.
#[verifier::ext_equal]
pub enum KubernetesObjectView {
    Deployment(DeploymentView),
    StatefulSet(StatefulSetView),
    Service(ServiceView),
    PersistentVolume(PersistentVolumeView),
    PersistentVolumeClaim(PersistentVolumeClaimView),
}

impl DeepView for KubernetesObject {
    type V = KubernetesObjectView;

    open spec fn deep_view(&self) -> KubernetesObjectView {
        match self {
            KubernetesObject::Deployment(value) => KubernetesObjectView::Deployment(
                value.deep_view(),
            ),
            KubernetesObject::StatefulSet(value) => KubernetesObjectView::StatefulSet(
                value.deep_view(),
            ),
            KubernetesObject::Service(value) => KubernetesObjectView::Service(value.deep_view()),
            KubernetesObject::PersistentVolume(value) => KubernetesObjectView::PersistentVolume(
                value.deep_view(),
            ),
            KubernetesObject::PersistentVolumeClaim(value) => KubernetesObjectView::PersistentVolumeClaim(
                value.deep_view(),
            ),
        }
    }
}

impl Clone for KubernetesObject {
    fn clone(&self) -> (r: Self)
        ensures
            r.deep_view() == self.deep_view(),
    {
        match self {
            KubernetesObject::Deployment(value) => KubernetesObject::Deployment(value.clone()),
            KubernetesObject::StatefulSet(value) => KubernetesObject::StatefulSet(value.clone()),
            KubernetesObject::Service(value) => KubernetesObject::Service(value.clone()),
            KubernetesObject::PersistentVolume(value) => KubernetesObject::PersistentVolume(
                value.clone(),
            ),
            KubernetesObject::PersistentVolumeClaim(value) => KubernetesObject::PersistentVolumeClaim(
                value.clone(),
            ),
        }
    }
}

/// An object and when it is applied.
#[derive(Debug, PartialEq, Eq)]
pub struct RenderedManifestObject {
    pub apply_order: ApplyOrder,
    pub object: KubernetesObject,
}

/// What a [`RenderedManifestObject`] holds.
#[verifier::ext_equal]
pub struct RenderedManifestObjectView {
    pub apply_order: ApplyOrder,
    pub object: KubernetesObjectView,
}

impl DeepView for RenderedManifestObject {
    type V = RenderedManifestObjectView;

    open spec fn deep_view(&self) -> RenderedManifestObjectView {
        RenderedManifestObjectView {
            apply_order: self.apply_order.deep_view(),
            object: self.object.deep_view(),
        }
    }
}

impl Clone for RenderedManifestObject {
    fn clone(&self) -> (r: Self)
        ensures
            r.deep_view() == self.deep_view(),
    {
        RenderedManifestObject {
            apply_order: self.apply_order,
            object: self.object.clone(),
        }
    }
}

/// The objects rendered for one incarnation of an instance.
#[derive(Debug, PartialEq, Eq)]
pub struct RenderedManifest {
    pub instance_generation: Generation,
    pub template_generation: Option<Generation>,
    pub objects: Vec<RenderedManifestObject>,
}

/// What a [`RenderedManifest`] holds.
#[verifier::ext_equal]
pub struct RenderedManifestView {
    pub instance_generation: nat,
    pub template_generation: Option<nat>,
    pub objects: Seq<RenderedManifestObjectView>,
}

impl DeepView for RenderedManifest {
    type V = RenderedManifestView;

    open spec fn deep_view(&self) -> RenderedManifestView {
        RenderedManifestView {
            instance_generation: self.instance_generation.deep_view(),
            template_generation: self.template_generation.deep_view(),
            objects: self.objects.deep_view(),
        }
    }
}

impl Clone for RenderedManifest {
    fn clone(&self) -> (r: Self)
        ensures
            r.deep_view() == self.deep_view(),
    {
        let r = RenderedManifest {
            instance_generation: self.instance_generation,
            template_generation: self.template_generation,
            objects: self.objects.clone(),
        };
        assert(r.objects.deep_view() =~= self.objects.deep_view());
        r
    }
}

impl KubernetesObjectView {
    /// The kind of the object.
    pub open spec fn kind(self) -> Seq<char> {
        match self {
            KubernetesObjectView::Deployment(_) => "Deployment"@,
            KubernetesObjectView::StatefulSet(_) => "StatefulSet"@,
            KubernetesObjectView::Service(_) => "Service"@,
            KubernetesObjectView::PersistentVolume(_) => "PersistentVolume"@,
            KubernetesObjectView::PersistentVolumeClaim(_) => "PersistentVolumeClaim"@,
        }
    }

    /// The API group and version of the object.
    pub open spec fn api_version(self) -> Seq<char> {
        match self {
            KubernetesObjectView::Deployment(_) | KubernetesObjectView::StatefulSet(_) => {
                "apps/v1"@
            },
            KubernetesObjectView::Service(_)
            | KubernetesObjectView::PersistentVolume(_)
            | KubernetesObjectView::PersistentVolumeClaim(_) => "v1"@,
        }
    }

    /// The metadata of the object.
    pub open spec fn metadata(self) -> ObjectMetaView {
        match self {
            KubernetesObjectView::Deployment(object) => object.metadata,
            KubernetesObjectView::StatefulSet(object) => object.metadata,
            KubernetesObjectView::Service(object) => object.metadata,
            KubernetesObjectView::PersistentVolume(object) => object.metadata,
            KubernetesObjectView::PersistentVolumeClaim(object) => object.metadata,
        }
    }

    /// The metadata of the pods of a workload.
    pub open spec fn pod_metadata(self) -> Option<PodTemplateMetadataView> {
        match self {
            KubernetesObjectView::Deployment(object) => Some(object.spec.template.metadata),
            KubernetesObjectView::StatefulSet(object) => Some(object.spec.template.metadata),
            KubernetesObjectView::Service(_)
            | KubernetesObjectView::PersistentVolume(_)
            | KubernetesObjectView::PersistentVolumeClaim(_) => None,
        }
    }
}

impl KubernetesObject {
    pub fn kind(&self) -> (r: &'static str)
        ensures
            r@ == self.deep_view().kind(),
    {
        match self {
            KubernetesObject::Deployment(_) => "Deployment",
            KubernetesObject::StatefulSet(_) => "StatefulSet",
            KubernetesObject::Service(_) => "Service",
            KubernetesObject::PersistentVolume(_) => "PersistentVolume",
            KubernetesObject::PersistentVolumeClaim(_) => "PersistentVolumeClaim",
        }
    }

    pub fn api_version(&self) -> (r: &'static str)
        ensures
            r@ == self.deep_view().api_version(),
    {
        match self {
            KubernetesObject::Deployment(_) | KubernetesObject::StatefulSet(_) => "apps/v1",
            KubernetesObject::Service(_)
            | KubernetesObject::PersistentVolume(_)
            | KubernetesObject::PersistentVolumeClaim(_) => "v1",
        }
    }

    /// The metadata of the object.
    pub fn metadata(&self) -> (r: &ObjectMeta)
        ensures
            r.deep_view() == self.deep_view().metadata(),
    {
        match self {
            KubernetesObject::Deployment(object) => &object.metadata,
            KubernetesObject::StatefulSet(object) => &object.metadata,
            KubernetesObject::Service(object) => &object.metadata,
            KubernetesObject::PersistentVolume(object) => &object.metadata,
            KubernetesObject::PersistentVolumeClaim(object) => &object.metadata,
        }
    }

    pub fn name(&self) -> (r: &str)
        ensures
            r@ == self.deep_view().metadata().name,
    {
        self.metadata().name.as_str()
    }
}

} // verus!
