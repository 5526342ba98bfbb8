//! Templates that a workload class gives for its Kubernetes objects.
use vstd::prelude::*;
use vstd::string::*;

use super::ManifestRenderError;
use super::ManifestRenderErrorView;
use crate::instance::InstanceValues;
use crate::outcome;
use crate::same::Same;
use crate::string_map::StringMap;

verus! {

/// One piece of a template text.
#[derive(Debug, PartialEq, Eq)]
pub enum TemplateTextPart {
    Literal(String),
    InstanceValue(String),
}

/// What a [`TemplateTextPart`] holds.
#[verifier::ext_equal]
pub enum TemplateTextPartView {
    Literal(Seq<char>),
    InstanceValue(Seq<char>),
}

impl DeepView for TemplateTextPart {
    type V = TemplateTextPartView;

    open spec fn deep_view(&self) -> TemplateTextPartView {
        match self {
            TemplateTextPart::Literal(value) => TemplateTextPartView::Literal(value.deep_view()),
            TemplateTextPart::InstanceValue(value) => TemplateTextPartView::InstanceValue(
                value.deep_view(),
            ),
        }
    }
}

impl Clone for TemplateTextPart {
    fn clone(&self) -> (r: Self)
        ensures
            r.deep_view() == self.deep_view(),
    {
        match self {
            TemplateTextPart::Literal(value) => TemplateTextPart::Literal(value.clone()),
            TemplateTextPart::InstanceValue(value) => TemplateTextPart::InstanceValue(
                value.clone(),
            ),
        }
    }
}

impl Same for TemplateTextPart {
    fn is_same(&self, other: &Self) -> (r: bool) {
        match (self, other) {
            (TemplateTextPart::Literal(a), TemplateTextPart::Literal(b)) => a.is_same(b),
            (TemplateTextPart::InstanceValue(a), TemplateTextPart::InstanceValue(b)) => a.is_same(
                b,
            ),
            _ => false,
        }
    }
}

/// A text with places for instance values.
#[derive(Debug, PartialEq, Eq)]
pub struct TemplateText {
    parts: Vec<TemplateTextPart>,
}

impl DeepView for TemplateText {
    type V = Seq<TemplateTextPartView>;

    closed spec fn deep_view(&self) -> Seq<TemplateTextPartView> {
        self.parts.deep_view()
    }
}

impl Clone for TemplateText {
    fn clone(&self) -> (r: Self)
        ensures
            r.deep_view() == self.deep_view(),
    {
        let r = TemplateText { parts: self.parts.clone() };
        assert(r.parts.deep_view() =~= self.parts.deep_view());
        r
    }
}

impl Same for TemplateText {
    fn is_same(&self, other: &Self) -> (r: bool) {
        self.parts.is_same(&other.parts)
    }
}

/// The kind of controller that runs a workload.
#[derive(Clone, Copy, Debug, PartialEq, Eq, Structural)]
pub enum WorkloadKind {
    Deployment,
    StatefulSet,
}

impl DeepView for WorkloadKind {
    type V = WorkloadKind;

    open spec fn deep_view(&self) -> WorkloadKind {
        *self
    }
}

impl Same for WorkloadKind {
    fn is_same(&self, other: &Self) -> (r: bool) {
        *self == *other
    }
}

/// How a volume may be mounted.
#[derive(Clone, Copy, Debug, PartialEq, Eq, Structural)]
pub enum PersistentVolumeAccessMode {
    ReadWriteOnce,
    ReadOnlyMany,
    ReadWriteMany,
}

impl DeepView for PersistentVolumeAccessMode {
    type V = PersistentVolumeAccessMode;

    open spec fn deep_view(&self) -> PersistentVolumeAccessMode {
        *self
    }
}

impl Same for PersistentVolumeAccessMode {
    fn is_same(&self, other: &Self) -> (r: bool) {
        *self == *other
    }
}

/// What becomes of a volume once it is released.
#[derive(Clone, Copy, Debug, PartialEq, Eq, Structural)]
pub enum PersistentVolumeReclaimPolicy {
    Retain,
    Delete,
}

impl DeepView for PersistentVolumeReclaimPolicy {
    type V = PersistentVolumeReclaimPolicy;

    open spec fn deep_view(&self) -> PersistentVolumeReclaimPolicy {
        *self
    }
}

impl Same for PersistentVolumeReclaimPolicy {
    fn is_same(&self, other: &Self) -> (r: bool) {
        *self == *other
    }
}

/// A port that a container opens.
#[derive(Debug, PartialEq, Eq)]
pub struct ContainerPortTemplate {
    pub name: Option<String>,
    pub container_port: u16,
}

/// What a [`ContainerPortTemplate`] holds.
#[verifier::ext_equal]
pub struct ContainerPortTemplateView {
    pub name: Option<Seq<char>>,
    pub container_port: u16,
}

impl DeepView for ContainerPortTemplate {
    type V = ContainerPortTemplateView;

    open spec fn deep_view(&self) -> ContainerPortTemplateView {
        ContainerPortTemplateView {
            name: self.name.deep_view(),
            container_port: self.container_port.deep_view(),
        }
    }
}

impl Clone for ContainerPortTemplate {
    fn clone(&self) -> (r: Self)
        ensures
            r.deep_view() == self.deep_view(),
    {
        let r = ContainerPortTemplate {
            name: self.name.clone(),
            container_port: self.container_port,
        };
        assert(r.name.deep_view() =~= self.name.deep_view());
        r
    }
}

impl Same for ContainerPortTemplate {
    fn is_same(&self, other: &Self) -> (r: bool) {
        self.name.is_same(&other.name)
            && self.container_port.is_same(&other.container_port)
    }
}

/// An environment variable of a container.
#[derive(Debug, PartialEq, Eq)]
pub struct EnvVarTemplate {
    pub name: String,
    pub value: TemplateText,
}

/// What an [`EnvVarTemplate`] holds.
#[verifier::ext_equal]
pub struct EnvVarTemplateView {
    pub name: Seq<char>,
    pub value: Seq<TemplateTextPartView>,
}

impl DeepView for EnvVarTemplate {
    type V = EnvVarTemplateView;

    open spec fn deep_view(&self) -> EnvVarTemplateView {
        EnvVarTemplateView {
            name: self.name.deep_view(),
            value: self.value.deep_view(),
        }
    }
}

impl Clone for EnvVarTemplate {
    fn clone(&self) -> (r: Self)
        ensures
            r.deep_view() == self.deep_view(),
    {
        EnvVarTemplate {
            name: self.name.clone(),
            value: self.value.clone(),
        }
    }
}

impl Same for EnvVarTemplate {
    fn is_same(&self, other: &Self) -> (r: bool) {
        self.name.is_same(&other.name) && self.value.is_same(&other.value)
    }
}

/// The application container.
#[derive(Debug, PartialEq, Eq)]
pub struct ContainerTemplate {
    pub name: String,
    pub image: TemplateText,
    pub ports: Vec<ContainerPortTemplate>,
    pub env: Vec<EnvVarTemplate>,
}

/// What a [`ContainerTemplate`] holds.
#[verifier::ext_equal]
pub struct ContainerTemplateView {
    pub name: Seq<char>,
    pub image: Seq<TemplateTextPartView>,
    pub ports: Seq<ContainerPortTemplateView>,
    pub env: Seq<EnvVarTemplateView>,
}

impl DeepView for ContainerTemplate {
    type V = ContainerTemplateView;

    open spec fn deep_view(&self) -> ContainerTemplateView {
        ContainerTemplateView {
            name: self.name.deep_view(),
            image: self.image.deep_view(),
            ports: self.ports.deep_view(),
            env: self.env.deep_view(),
        }
    }
}

impl Clone for ContainerTemplate {
    fn clone(&self) -> (r: Self)
        ensures
            r.deep_view() == self.deep_view(),
    {
        let r = ContainerTemplate {
            name: self.name.clone(),
            image: self.image.clone(),
            ports: self.ports.clone(),
            env: self.env.clone(),
        };
        assert(r.ports.deep_view() =~= self.ports.deep_view());
        assert(r.env.deep_view() =~= self.env.deep_view());
        r
    }
}

impl Same for ContainerTemplate {
    fn is_same(&self, other: &Self) -> (r: bool) {
        self.name.is_same(&other.name)
            && self.image.is_same(&other.image)
            && self.ports.is_same(&other.ports)
            && self.env.is_same(&other.env)
    }
}

/// The controller and the application container of a workload.
#[derive(Debug, PartialEq, Eq)]
pub struct WorkloadTemplate {
    pub kind: WorkloadKind,
    pub name: TemplateText,
    pub replicas: Option<u32>,
    pub app_container: ContainerTemplate,
}

/// What a [`WorkloadTemplate`] holds.
#[verifier::ext_equal]
pub struct WorkloadTemplateView {
    pub kind: WorkloadKind,
    pub name: Seq<TemplateTextPartView>,
    pub replicas: Option<u32>,
    pub app_container: ContainerTemplateView,
}

impl DeepView for WorkloadTemplate {
    type V = WorkloadTemplateView;

    open spec fn deep_view(&self) -> WorkloadTemplateView {
        WorkloadTemplateView {
            kind: self.kind.deep_view(),
            name: self.name.deep_view(),
            replicas: self.replicas.deep_view(),
            app_container: self.app_container.deep_view(),
        }
    }
}

impl Clone for WorkloadTemplate {
    fn clone(&self) -> (r: Self)
        ensures
            r.deep_view() == self.deep_view(),
    {
        WorkloadTemplate {
            kind: self.kind,
            name: self.name.clone(),
            replicas: self.replicas,
            app_container: self.app_container.clone(),
        }
    }
}

impl Same for WorkloadTemplate {
    fn is_same(&self, other: &Self) -> (r: bool) {
        self.kind.is_same(&other.kind)
            && self.name.is_same(&other.name)
            && self.replicas.is_same(&other.replicas)
            && self.app_container.is_same(&other.app_container)
    }
}

/// The proxy container beside the application.
#[derive(Debug, PartialEq, Eq)]
pub struct SidecarTemplate {
    pub name: String,
    pub image: TemplateText,
    pub listen_port: u16,
    pub mode: Option<String>,
}

/// What a [`SidecarTemplate`] holds.
#[verifier::ext_equal]
pub struct SidecarTemplateView {
    pub name: Seq<char>,
    pub image: Seq<TemplateTextPartView>,
    pub listen_port: u16,
    pub mode: Option<Seq<char>>,
}

impl DeepView for SidecarTemplate {
    type V = SidecarTemplateView;

    open spec fn deep_view(&self) -> SidecarTemplateView {
        SidecarTemplateView {
            name: self.name.deep_view(),
            image: self.image.deep_view(),
            listen_port: self.listen_port.deep_view(),
            mode: self.mode.deep_view(),
        }
    }
}

impl Clone for SidecarTemplate {
    fn clone(&self) -> (r: Self)
        ensures
            r.deep_view() == self.deep_view(),
    {
        let r = SidecarTemplate {
            name: self.name.clone(),
            image: self.image.clone(),
            listen_port: self.listen_port,
            mode: self.mode.clone(),
        };
        assert(r.mode.deep_view() =~= self.mode.deep_view());
        r
    }
}

impl Same for SidecarTemplate {
    fn is_same(&self, other: &Self) -> (r: bool) {
        self.name.is_same(&other.name)
            && self.image.is_same(&other.image)
            && self.listen_port.is_same(&other.listen_port)
            && self.mode.is_same(&other.mode)
    }
}

/// A port of a service.
#[derive(Debug, PartialEq, Eq)]
pub struct ServicePortTemplate {
    pub name: Option<String>,
    pub port: u16,
    pub target_port: u16,
}

/// What a [`ServicePortTemplate`] holds.
#[verifier::ext_equal]
pub struct ServicePortTemplateView {
    pub name: Option<Seq<char>>,
    pub port: u16,
    pub target_port: u16,
}

impl DeepView for ServicePortTemplate {
    type V = ServicePortTemplateView;

    open spec fn deep_view(&self) -> ServicePortTemplateView {
        ServicePortTemplateView {
            name: self.name.deep_view(),
            port: self.port.deep_view(),
            target_port: self.target_port.deep_view(),
        }
    }
}

impl Clone for ServicePortTemplate {
    fn clone(&self) -> (r: Self)
        ensures
            r.deep_view() == self.deep_view(),
    {
        let r = ServicePortTemplate {
            name: self.name.clone(),
            port: self.port,
            target_port: self.target_port,
        };
        assert(r.name.deep_view() =~= self.name.deep_view());
        r
    }
}

impl Same for ServicePortTemplate {
    fn is_same(&self, other: &Self) -> (r: bool) {
        self.name.is_same(&other.name)
            && self.port.is_same(&other.port)
            && self.target_port.is_same(&other.target_port)
    }
}

/// The service in front of a workload.
#[derive(Debug, PartialEq, Eq)]
pub struct ServiceTemplate {
    pub name: TemplateText,
    pub ports: Vec<ServicePortTemplate>,
}

/// What a [`ServiceTemplate`] holds.
#[verifier::ext_equal]
pub struct ServiceTemplateView {
    pub name: Seq<TemplateTextPartView>,
    pub ports: Seq<ServicePortTemplateView>,
}

impl DeepView for ServiceTemplate {
    type V = ServiceTemplateView;

    open spec fn deep_view(&self) -> ServiceTemplateView {
        ServiceTemplateView {
            name: self.name.deep_view(),
            ports: self.ports.deep_view(),
        }
    }
}

impl Clone for ServiceTemplate {
    fn clone(&self) -> (r: Self)
        ensures
            r.deep_view() == self.deep_view(),
    {
        let r = ServiceTemplate {
            name: self.name.clone(),
            ports: self.ports.clone(),
        };
        assert(r.ports.deep_view() =~= self.ports.deep_view());
        r
    }
}

impl Same for ServiceTemplate {
    fn is_same(&self, other: &Self) -> (r: bool) {
        self.name.is_same(&other.name) && self.ports.is_same(&other.ports)
    }
}

/// A secret that a CSI driver is handed.
#[derive(Debug, PartialEq, Eq)]
pub struct CsiSecretRefTemplate {
    pub name: TemplateText,
    pub namespace: TemplateText,
}

/// What a [`CsiSecretRefTemplate`] holds.
#[verifier::ext_equal]
pub struct CsiSecretRefTemplateView {
    pub name: Seq<TemplateTextPartView>,
    pub namespace: Seq<TemplateTextPartView>,
}

impl DeepView for CsiSecretRefTemplate {
    type V = CsiSecretRefTemplateView;

    open spec fn deep_view(&self) -> CsiSecretRefTemplateView {
        CsiSecretRefTemplateView {
            name: self.name.deep_view(),
            namespace: self.namespace.deep_view(),
        }
    }
}

impl Clone for CsiSecretRefTemplate {
    fn clone(&self) -> (r: Self)
        ensures
            r.deep_view() == self.deep_view(),
    {
        CsiSecretRefTemplate {
            name: self.name.clone(),
            namespace: self.namespace.clone(),
        }
    }
}

impl Same for CsiSecretRefTemplate {
    fn is_same(&self, other: &Self) -> (r: bool) {
        self.name.is_same(&other.name) && self.namespace.is_same(&other.namespace)
    }
}

/// Where the data of a volume lives.
#[derive(Debug, PartialEq, Eq)]
pub enum PersistentVolumeSourceTemplate {
    Csi {
        driver: TemplateText,
        volume_handle: TemplateText,
        fs_type: Option<TemplateText>,
        read_only: bool,
        volume_attributes: StringMap<TemplateText>,
        controller_publish_secret_ref: Option<Box<CsiSecretRefTemplate>>,
        node_stage_secret_ref: Option<Box<CsiSecretRefTemplate>>,
        node_publish_secret_ref: Option<Box<CsiSecretRefTemplate>>,
        controller_expand_secret_ref: Option<Box<CsiSecretRefTemplate>>,
        node_expand_secret_ref: Option<Box<CsiSecretRefTemplate>>,
    },
    HostPath { path: TemplateText, type_: Option<TemplateText> },
}

/// What a [`PersistentVolumeSourceTemplate`] holds.
#[verifier::ext_equal]
pub enum PersistentVolumeSourceTemplateView {
    Csi {
        driver: Seq<TemplateTextPartView>,
        volume_handle: Seq<TemplateTextPartView>,
        fs_type: Option<Seq<TemplateTextPartView>>,
        read_only: bool,
        volume_attributes: Map<Seq<char>, Seq<TemplateTextPartView>>,
        controller_publish_secret_ref: Option<CsiSecretRefTemplateView>,
        node_stage_secret_ref: Option<CsiSecretRefTemplateView>,
        node_publish_secret_ref: Option<CsiSecretRefTemplateView>,
        controller_expand_secret_ref: Option<CsiSecretRefTemplateView>,
        node_expand_secret_ref: Option<CsiSecretRefTemplateView>,
    },
    HostPath { path: Seq<TemplateTextPartView>, type_: Option<Seq<TemplateTextPartView>> },
}

impl DeepView for PersistentVolumeSourceTemplate {
    type V = PersistentVolumeSourceTemplateView;

    open spec fn deep_view(&self) -> PersistentVolumeSourceTemplateView {
        match self {
            PersistentVolumeSourceTemplate::Csi {
                driver,
                volume_handle,
                fs_type,
                read_only,
                volume_attributes,
                controller_publish_secret_ref,
                node_stage_secret_ref,
                node_publish_secret_ref,
                controller_expand_secret_ref,
                node_expand_secret_ref,
            } => PersistentVolumeSourceTemplateView::Csi {
                driver: driver.deep_view(),
                volume_handle: volume_handle.deep_view(),
                fs_type: fs_type.deep_view(),
                read_only: read_only.deep_view(),
                volume_attributes: volume_attributes.deep_view(),
                controller_publish_secret_ref: controller_publish_secret_ref.deep_view(),
                node_stage_secret_ref: node_stage_secret_ref.deep_view(),
                node_publish_secret_ref: node_publish_secret_ref.deep_view(),
                controller_expand_secret_ref: controller_expand_secret_ref.deep_view(),
                node_expand_secret_ref: node_expand_secret_ref.deep_view(),
            },
            PersistentVolumeSourceTemplate::HostPath {
                path,
                type_,
            } => PersistentVolumeSourceTemplateView::HostPath {
                path: path.deep_view(),
                type_: type_.deep_view(),
            },
        }
    }
}

impl Clone for PersistentVolumeSourceTemplate {
    fn clone(&self) -> (r: Self)
        ensures
            r.deep_view() == self.deep_view(),
    {
        match self {
            PersistentVolumeSourceTemplate::Csi {
                driver,
                volume_handle,
                fs_type,
                read_only,
                volume_attributes,
                controller_publish_secret_ref,
                node_stage_secret_ref,
                node_publish_secret_ref,
                controller_expand_secret_ref,
                node_expand_secret_ref,
            } => {
                let fs_type_copy = fs_type.clone();
                assert(fs_type_copy.deep_view() =~= fs_type.deep_view());
                let volume_attributes_copy = volume_attributes.clone();
                assert(volume_attributes_copy.deep_view() =~= volume_attributes.deep_view());
                let controller_publish_secret_ref_copy = controller_publish_secret_ref.clone();
                assert(controller_publish_secret_ref_copy.deep_view() =~= controller_publish_secret_ref.deep_view());
                let node_stage_secret_ref_copy = node_stage_secret_ref.clone();
                assert(node_stage_secret_ref_copy.deep_view() =~= node_stage_secret_ref.deep_view());
                let node_publish_secret_ref_copy = node_publish_secret_ref.clone();
                assert(node_publish_secret_ref_copy.deep_view() =~= node_publish_secret_ref.deep_view());
                let controller_expand_secret_ref_copy = controller_expand_secret_ref.clone();
                assert(controller_expand_secret_ref_copy.deep_view() =~= controller_expand_secret_ref.deep_view());
                let node_expand_secret_ref_copy = node_expand_secret_ref.clone();
                assert(node_expand_secret_ref_copy.deep_view() =~= node_expand_secret_ref.deep_view());
                PersistentVolumeSourceTemplate::Csi {
                    driver: driver.clone(),
                    volume_handle: volume_handle.clone(),
                    fs_type: fs_type_copy,
                    read_only: *read_only,
                    volume_attributes: volume_attributes_copy,
                    controller_publish_secret_ref: controller_publish_secret_ref_copy,
                    node_stage_secret_ref: node_stage_secret_ref_copy,
                    node_publish_secret_ref: node_publish_secret_ref_copy,
                    controller_expand_secret_ref: controller_expand_secret_ref_copy,
                    node_expand_secret_ref: node_expand_secret_ref_copy,
                }
            },
            PersistentVolumeSourceTemplate::HostPath { path, type_ } => {
                let type__copy = type_.clone();
                assert(type__copy.deep_view() =~= type_.deep_view());
                PersistentVolumeSourceTemplate::HostPath { path: path.clone(), type_: type__copy }
            },
        }
    }
}

impl Same for PersistentVolumeSourceTemplate {
    fn is_same(&self, other: &Self) -> (r: bool) {
        match (self, other) {
            (
                PersistentVolumeSourceTemplate::Csi {
                    driver,
                    volume_handle,
                    fs_type,
                    read_only,
                    volume_attributes,
                    controller_publish_secret_ref,
                    node_stage_secret_ref,
                    node_publish_secret_ref,
                    controller_expand_secret_ref,
                    node_expand_secret_ref,
                },
                PersistentVolumeSourceTemplate::Csi {
                    driver: other_driver,
                    volume_handle: other_volume_handle,
                    fs_type: other_fs_type,
                    read_only: other_read_only,
                    volume_attributes: other_volume_attributes,
                    controller_publish_secret_ref: other_controller_publish_secret_ref,
                    node_stage_secret_ref: other_node_stage_secret_ref,
                    node_publish_secret_ref: other_node_publish_secret_ref,
                    controller_expand_secret_ref: other_controller_expand_secret_ref,
                    node_expand_secret_ref: other_node_expand_secret_ref,
                },
            ) => driver.is_same(other_driver)
                && volume_handle.is_same(other_volume_handle)
                && fs_type.is_same(other_fs_type)
                && read_only.is_same(other_read_only)
                && volume_attributes.is_same(other_volume_attributes)
                && controller_publish_secret_ref.is_same(other_controller_publish_secret_ref)
                && node_stage_secret_ref.is_same(other_node_stage_secret_ref)
                && node_publish_secret_ref.is_same(other_node_publish_secret_ref)
                && controller_expand_secret_ref.is_same(other_controller_expand_secret_ref)
                && node_expand_secret_ref.is_same(other_node_expand_secret_ref),
            (
                PersistentVolumeSourceTemplate::HostPath { path, type_ },
                PersistentVolumeSourceTemplate::HostPath { path: other_path, type_: other_type },
            ) => path.is_same(other_path) && type_.is_same(other_type),
            _ => false,
        }
    }
}

/// A volume, its claim and where it is mounted.
#[derive(Debug, PartialEq, Eq)]
pub struct VolumeTemplate {
    pub name: String,
    pub mount_path: TemplateText,
    pub pv_name: TemplateText,
    pub pvc_name: TemplateText,
    pub access_modes: Vec<PersistentVolumeAccessMode>,
    pub capacity: TemplateText,
    pub reclaim_policy: PersistentVolumeReclaimPolicy,
    pub storage_class_name: Option<TemplateText>,
    pub source: PersistentVolumeSourceTemplate,
}

/// What a [`VolumeTemplate`] holds.
#[verifier::ext_equal]
pub struct VolumeTemplateView {
    pub name: Seq<char>,
    pub mount_path: Seq<TemplateTextPartView>,
    pub pv_name: Seq<TemplateTextPartView>,
    pub pvc_name: Seq<TemplateTextPartView>,
    pub access_modes: Seq<PersistentVolumeAccessMode>,
    pub capacity: Seq<TemplateTextPartView>,
    pub reclaim_policy: PersistentVolumeReclaimPolicy,
    pub storage_class_name: Option<Seq<TemplateTextPartView>>,
    pub source: PersistentVolumeSourceTemplateView,
}

impl DeepView for VolumeTemplate {
    type V = VolumeTemplateView;

    open spec fn deep_view(&self) -> VolumeTemplateView {
        VolumeTemplateView {
            name: self.name.deep_view(),
            mount_path: self.mount_path.deep_view(),
            pv_name: self.pv_name.deep_view(),
            pvc_name: self.pvc_name.deep_view(),
            access_modes: self.access_modes.deep_view(),
            capacity: self.capacity.deep_view(),
            reclaim_policy: self.reclaim_policy.deep_view(),
            storage_class_name: self.storage_class_name.deep_view(),
            source: self.source.deep_view(),
        }
    }
}

impl Clone for VolumeTemplate {
    fn clone(&self) -> (r: Self)
        ensures
            r.deep_view() == self.deep_view(),
    {
        let r = VolumeTemplate {
            name: self.name.clone(),
            mount_path: self.mount_path.clone(),
            pv_name: self.pv_name.clone(),
            pvc_name: self.pvc_name.clone(),
            access_modes: self.access_modes.clone(),
            capacity: self.capacity.clone(),
            reclaim_policy: self.reclaim_policy,
            storage_class_name: self.storage_class_name.clone(),
            source: self.source.clone(),
        };
        assert(r.access_modes.deep_view() =~= self.access_modes.deep_view());
        assert(r.storage_class_name.deep_view() =~= self.storage_class_name.deep_view());
        r
    }
}

impl Same for VolumeTemplate {
    fn is_same(&self, other: &Self) -> (r: bool) {
        self.name.is_same(&other.name)
            && self.mount_path.is_same(&other.mount_path)
            && self.pv_name.is_same(&other.pv_name)
            && self.pvc_name.is_same(&other.pvc_name)
            && self.access_modes.is_same(&other.access_modes)
            && self.capacity.is_same(&other.capacity)
            && self.reclaim_policy.is_same(&other.reclaim_policy)
            && self.storage_class_name.is_same(&other.storage_class_name)
            && self.source.is_same(&other.source)
    }
}

/// A Kubernetes manifest given as text.
#[derive(Debug, PartialEq, Eq)]
pub struct RawKubernetesManifestTemplate {
    pub manifest: TemplateText,
}

/// What a [`RawKubernetesManifestTemplate`] holds.
#[verifier::ext_equal]
pub struct RawKubernetesManifestTemplateView {
    pub manifest: Seq<TemplateTextPartView>,
}

impl DeepView for RawKubernetesManifestTemplate {
    type V = RawKubernetesManifestTemplateView;

    open spec fn deep_view(&self) -> RawKubernetesManifestTemplateView {
        RawKubernetesManifestTemplateView {
            manifest: self.manifest.deep_view(),
        }
    }
}

impl Clone for RawKubernetesManifestTemplate {
    fn clone(&self) -> (r: Self)
        ensures
            r.deep_view() == self.deep_view(),
    {
        RawKubernetesManifestTemplate {
            manifest: self.manifest.clone(),
        }
    }
}

impl Same for RawKubernetesManifestTemplate {
    fn is_same(&self, other: &Self) -> (r: bool) {
        self.manifest.is_same(&other.manifest)
    }
}

/// The templates of a workload class.
#[derive(Debug, PartialEq, Eq)]
pub struct ManifestTemplate {
    pub workload: WorkloadTemplate,
    pub sidecar: SidecarTemplate,
    pub service: Option<ServiceTemplate>,
    pub volumes: Vec<VolumeTemplate>,
    pub raw_objects: Vec<RawKubernetesManifestTemplate>,
}

/// What a [`ManifestTemplate`] holds.
#[verifier::ext_equal]
pub struct ManifestTemplateView {
    pub workload: WorkloadTemplateView,
    pub sidecar: SidecarTemplateView,
    pub service: Option<ServiceTemplateView>,
    pub volumes: Seq<VolumeTemplateView>,
    pub raw_objects: Seq<RawKubernetesManifestTemplateView>,
}

impl DeepView for ManifestTemplate {
    type V = ManifestTemplateView;

    open spec fn deep_view(&self) -> ManifestTemplateView {
        ManifestTemplateView {
            workload: self.workload.deep_view(),
            sidecar: self.sidecar.deep_view(),
            service: self.service.deep_view(),
            volumes: self.volumes.deep_view(),
            raw_objects: self.raw_objects.deep_view(),
        }
    }
}

impl Clone for ManifestTemplate {
    fn clone(&self) -> (r: Self)
        ensures
            r.deep_view() == self.deep_view(),
    {
        let r = ManifestTemplate {
            workload: self.workload.clone(),
            sidecar: self.sidecar.clone(),
            service: self.service.clone(),
            volumes: self.volumes.clone(),
            raw_objects: self.raw_objects.clone(),
        };
        assert(r.service.deep_view() =~= self.service.deep_view());
        assert(r.volumes.deep_view() =~= self.volumes.deep_view());
        assert(r.raw_objects.deep_view() =~= self.raw_objects.deep_view());
        r
    }
}

impl Same for ManifestTemplate {
    fn is_same(&self, other: &Self) -> (r: bool) {
        self.workload.is_same(&other.workload)
            && self.sidecar.is_same(&other.sidecar)
            && self.service.is_same(&other.service)
            && self.volumes.is_same(&other.volumes)
            && self.raw_objects.is_same(&other.raw_objects)
    }
}

/// The text of one part, where its value is known.
pub open spec fn part_text(
    part: TemplateTextPartView,
    values: Map<Seq<char>, Seq<char>>,
) -> Seq<char> {
    match part {
        TemplateTextPartView::Literal(text) => text,
        TemplateTextPartView::InstanceValue(field) => values[field],
    }
}

/// Whether a part asks for a value that the instance does not have.
pub open spec fn part_missing(
    part: TemplateTextPartView,
    values: Map<Seq<char>, Seq<char>>,
) -> bool {
    part matches TemplateTextPartView::InstanceValue(field) && !values.contains_key(field)
}

/// The texts of the parts, one after the other.
pub open spec fn parts_text(
    parts: Seq<TemplateTextPartView>,
    values: Map<Seq<char>, Seq<char>>,
) -> Seq<char>
    decreases parts.len(),
{
    if parts.len() == 0 {
        Seq::empty()
    } else {
        parts_text(parts.drop_last(), values) + part_text(parts.last(), values)
    }
}

/// The field of the first part whose value is missing.
pub open spec fn first_missing(
    parts: Seq<TemplateTextPartView>,
    values: Map<Seq<char>, Seq<char>>,
) -> Option<Seq<char>>
    decreases parts.len(),
{
    if parts.len() == 0 {
        None
    } else if part_missing(parts[0], values) {
        Some(parts[0]->InstanceValue_0)
    } else {
        first_missing(parts.drop_first(), values)
    }
}

/// What a template text renders to.
pub open spec fn rendered_text(
    parts: Seq<TemplateTextPartView>,
    values: Map<Seq<char>, Seq<char>>,
) -> Result<Seq<char>, ManifestRenderErrorView> {
    match first_missing(parts, values) {
        Some(field) => Err(ManifestRenderErrorView::MissingInstanceValue { field }),
        None => Ok(parts_text(parts, values)),
    }
}

proof fn lemma_first_missing(
    parts: Seq<TemplateTextPartView>,
    values: Map<Seq<char>, Seq<char>>,
    i: int,
)
    requires
        0 <= i <= parts.len(),
        forall|j: int| 0 <= j < i ==> !part_missing(#[trigger] parts[j], values),
    ensures
        i == parts.len() ==> first_missing(parts, values) is None,
        i < parts.len() && part_missing(parts[i], values) ==> first_missing(parts, values) == Some(
            parts[i]->InstanceValue_0,
        ),
    decreases parts.len(),
{
    if parts.len() > 0 && i > 0 {
        assert(!part_missing(parts[0], values));
        assert forall|j: int| 0 <= j < i - 1 implies !part_missing(
            #[trigger] parts.drop_first()[j],
            values,
        ) by {
            assert(parts.drop_first()[j] == parts[j + 1]);
        }
        lemma_first_missing(parts.drop_first(), values, i - 1);
    }
}

impl TemplateText {
    /// A fixed text.
    pub fn literal(value: &str) -> (r: Self)
        ensures
            r.deep_view() == seq![TemplateTextPartView::Literal(value@)],
    {
        let r = TemplateText { parts: vec![TemplateTextPart::Literal(value.to_owned())] };
        assert(r.deep_view() =~= seq![TemplateTextPartView::Literal(value@)]);
        r
    }

    /// The value that the instance has for a field.
    pub fn instance_value(field: &str) -> (r: Self)
        ensures
            r.deep_view() == seq![TemplateTextPartView::InstanceValue(field@)],
    {
        let r = TemplateText { parts: vec![TemplateTextPart::InstanceValue(field.to_owned())] };
        assert(r.deep_view() =~= seq![TemplateTextPartView::InstanceValue(field@)]);
        r
    }

    pub fn from_parts(parts: Vec<TemplateTextPart>) -> (r: Self)
        ensures
            r.deep_view() == parts.deep_view(),
    {
        TemplateText { parts }
    }

    pub fn parts(&self) -> (r: &Vec<TemplateTextPart>)
        ensures
            r.deep_view() == self.deep_view(),
    {
        &self.parts
    }

    /// The text for an instance, or the first field that it has no value for.
    pub fn render(&self, values: &InstanceValues) -> (r: Result<String, ManifestRenderError>)
        ensures
            outcome::of(r) == rendered_text(self.deep_view(), values.deep_view()),
    {
        let ghost parts = self.deep_view();
        let ghost known = values.deep_view();
        let mut rendered = String::new();
        let mut i: usize = 0;
        assert(parts.take(0) =~= Seq::<TemplateTextPartView>::empty());
        while i < self.parts.len()
            invariant
                0 <= i <= self.parts.len(),
                parts == self.parts.deep_view(),
                parts.len() == self.parts.len(),
                known == values.deep_view(),
                rendered@ == parts_text(parts.take(i as int), known),
                forall|j: int| 0 <= j < i ==> !part_missing(#[trigger] parts[j], known),
            decreases self.parts.len() - i,
        {
            assert(parts[i as int] == self.parts@[i as int].deep_view());
            assert(parts.take(i + 1).drop_last() =~= parts.take(i as int));
            match &self.parts[i] {
                TemplateTextPart::Literal(value) => rendered.append(value.as_str()),
                TemplateTextPart::InstanceValue(field) => {
                    match values.get(field.as_str()) {
                        Some(value) => rendered.append(value.as_str()),
                        None => {
                            proof {
                                lemma_first_missing(parts, known, i as int);
                            }
                            return Err(
                                ManifestRenderError::MissingInstanceValue { field: field.clone() },
                            );
                        },
                    }
                },
            }
            i = i + 1;
        }
        proof {
            lemma_first_missing(parts, known, i as int);
            assert(parts.take(i as int) =~= parts);
        }
        Ok(rendered)
    }
}

impl TemplateTextPart {
    pub fn literal(value: &str) -> (r: Self)
        ensures
            r.deep_view() == TemplateTextPartView::Literal(value@),
    {
        TemplateTextPart::Literal(value.to_owned())
    }

    pub fn instance_value(field: &str) -> (r: Self)
        ensures
            r.deep_view() == TemplateTextPartView::InstanceValue(field@),
    {
        TemplateTextPart::InstanceValue(field.to_owned())
    }
}

/// A literal renders to itself, whatever the values.
pub proof fn lemma_literal_renders_to_itself(
    literal: Seq<char>,
    values: Map<Seq<char>, Seq<char>>,
)
    ensures
        rendered_text(seq![TemplateTextPartView::Literal(literal)], values) == Ok::<
            Seq<char>,
            ManifestRenderErrorView,
        >(literal),
{
    let parts = seq![TemplateTextPartView::Literal(literal)];
    lemma_first_missing(parts, values, 1);
    assert(parts.drop_last() =~= Seq::<TemplateTextPartView>::empty());
    assert(parts_text(parts.drop_last(), values) =~= Seq::<char>::empty());
    assert(parts_text(parts, values) =~= literal);
}

/// A place for an instance value renders to that value, and cannot be rendered for an
/// instance that does not have it.
pub proof fn lemma_place_renders_to_the_value(
    field: Seq<char>,
    values: Map<Seq<char>, Seq<char>>,
)
    ensures
        values.contains_key(field) ==> rendered_text(
            seq![TemplateTextPartView::InstanceValue(field)],
            values,
        ) == Ok::<Seq<char>, ManifestRenderErrorView>(values[field]),
        !values.contains_key(field) ==> rendered_text(
            seq![TemplateTextPartView::InstanceValue(field)],
            values,
        ) == Err::<Seq<char>, ManifestRenderErrorView>(
            ManifestRenderErrorView::MissingInstanceValue { field },
        ),
{
    let parts = seq![TemplateTextPartView::InstanceValue(field)];
    if values.contains_key(field) {
        lemma_first_missing(parts, values, 1);
        assert(parts.drop_last() =~= Seq::<TemplateTextPartView>::empty());
        assert(parts_text(parts.drop_last(), values) =~= Seq::<char>::empty());
        assert(parts_text(parts, values) =~= values[field]);
    } else {
        lemma_first_missing(parts, values, 0);
    }
}

/// A text renders piece by piece: what two texts render to, one after the other, is what
/// the two together render to. The first value that is missing is the one that is named.
pub proof fn lemma_texts_render_piece_by_piece(
    first: Seq<TemplateTextPartView>,
    second: Seq<TemplateTextPartView>,
    values: Map<Seq<char>, Seq<char>>,
)
    ensures
        rendered_text(first, values) is Err ==> rendered_text(first + second, values)
            == rendered_text(first, values),
        rendered_text(first, values) is Ok && rendered_text(second, values) is Err
            ==> rendered_text(first + second, values) == rendered_text(second, values),
        rendered_text(first, values) is Ok && rendered_text(second, values) is Ok
            ==> rendered_text(first + second, values) == Ok::<Seq<char>, ManifestRenderErrorView>(
            rendered_text(first, values)->Ok_0 + rendered_text(second, values)->Ok_0,
        ),
{
    lemma_missing_of_both(first, second, values);
    lemma_text_of_both(first, second, values);
}

proof fn lemma_missing_of_both(
    first: Seq<TemplateTextPartView>,
    second: Seq<TemplateTextPartView>,
    values: Map<Seq<char>, Seq<char>>,
)
    ensures
        first_missing(first + second, values) == match first_missing(first, values) {
            Some(field) => Some(field),
            None => first_missing(second, values),
        },
    decreases first.len(),
{
    if first.len() == 0 {
        assert(first + second =~= second);
    } else {
        assert((first + second)[0] == first[0]);
        assert((first + second).drop_first() =~= first.drop_first() + second);
        lemma_missing_of_both(first.drop_first(), second, values);
    }
}

proof fn lemma_text_of_both(
    first: Seq<TemplateTextPartView>,
    second: Seq<TemplateTextPartView>,
    values: Map<Seq<char>, Seq<char>>,
)
    ensures
        parts_text(first + second, values) == parts_text(first, values) + parts_text(
            second,
            values,
        ),
    decreases second.len(),
{
    if second.len() == 0 {
        assert(first + second =~= first);
        assert(parts_text(first, values) + parts_text(second, values) =~= parts_text(
            first,
            values,
        ));
    } else {
        assert((first + second).last() == second.last());
        assert((first + second).drop_last() =~= first + second.drop_last());
        lemma_text_of_both(first, second.drop_last(), values);
        assert(parts_text(first + second, values) =~= parts_text(first, values) + parts_text(
            second,
            values,
        ));
    }
}

} // verus!
