//! The messages of the API, as they come off the wire: any field may be left
//! out, and a number need not be one that an enumeration knows.
use vstd::prelude::*;

verus! {

/// The kind of a workload.
#[derive(Clone, Copy, Debug, PartialEq, Eq, Structural)]
pub enum WorkloadKind {
    Unspecified,
    Deployment,
    StatefulSet,
    Unrecognized,
}

impl DeepView for WorkloadKind {
    type V = WorkloadKind;

    open spec fn deep_view(&self) -> WorkloadKind {
        *self
    }
}

/// How a volume may be mounted.
#[derive(Clone, Copy, Debug, PartialEq, Eq, Structural)]
pub enum PersistentVolumeAccessMode {
    Unspecified,
    ReadWriteOnce,
    ReadOnlyMany,
    ReadWriteMany,
    Unrecognized,
}

impl DeepView for PersistentVolumeAccessMode {
    type V = PersistentVolumeAccessMode;

    open spec fn deep_view(&self) -> PersistentVolumeAccessMode {
        *self
    }
}

/// What becomes of a volume without a claim.
#[derive(Clone, Copy, Debug, PartialEq, Eq, Structural)]
pub enum PersistentVolumeReclaimPolicy {
    Unspecified,
    Retain,
    Delete,
    Unrecognized,
}

impl DeepView for PersistentVolumeReclaimPolicy {
    type V = PersistentVolumeReclaimPolicy;

    open spec fn deep_view(&self) -> PersistentVolumeReclaimPolicy {
        *self
    }
}

/// How the host of a route is matched.
#[derive(Clone, Copy, Debug, PartialEq, Eq, Structural)]
pub enum RouteHostKind {
    Unspecified,
    Exact,
    WildcardSuffix,
    Unrecognized,
}

impl DeepView for RouteHostKind {
    type V = RouteHostKind;

    open spec fn deep_view(&self) -> RouteHostKind {
        *self
    }
}

/// The protocol of a route.
#[derive(Clone, Copy, Debug, PartialEq, Eq, Structural)]
pub enum ProtocolRoute {
    Unspecified,
    Http,
    TlsSni,
    Unrecognized,
}

impl DeepView for ProtocolRoute {
    type V = ProtocolRoute;

    open spec fn deep_view(&self) -> ProtocolRoute {
        *self
    }
}

/// The state of an instance.
#[derive(Clone, Copy, Debug, PartialEq, Eq, Structural)]
pub enum InstanceState {
    Unspecified,
    Cold,
    Waking,
    Running,
    Draining,
    Failed,
    Deleting,
    Deleted,
    Unrecognized,
}

impl DeepView for InstanceState {
    type V = InstanceState;

    open spec fn deep_view(&self) -> InstanceState {
        *self
    }
}

/// What a part of a text is.
#[derive(Debug, PartialEq, Eq)]
pub enum TemplateTextPartKind {
    Literal(String),
    InstanceValue(String),
}

/// What a [`TemplateTextPartKind`] holds.
#[verifier::ext_equal]
pub enum TemplateTextPartKindView {
    Literal(Seq<char>),
    InstanceValue(Seq<char>),
}

impl DeepView for TemplateTextPartKind {
    type V = TemplateTextPartKindView;

    open spec fn deep_view(&self) -> TemplateTextPartKindView {
        match self {
            TemplateTextPartKind::Literal(value) => TemplateTextPartKindView::Literal(
                value.deep_view(),
            ),
            TemplateTextPartKind::InstanceValue(value) => TemplateTextPartKindView::InstanceValue(
                value.deep_view(),
            ),
        }
    }
}

impl Clone for TemplateTextPartKind {
    fn clone(&self) -> (r: Self)
        ensures
            r.deep_view() == self.deep_view(),
    {
        match self {
            TemplateTextPartKind::Literal(value) => TemplateTextPartKind::Literal(value.clone()),
            TemplateTextPartKind::InstanceValue(value) => TemplateTextPartKind::InstanceValue(
                value.clone(),
            ),
        }
    }
}

/// A part of a text.
#[derive(Debug, PartialEq, Eq)]
pub struct TemplateTextPart {
    pub kind: Option<TemplateTextPartKind>,
}

/// What a [`TemplateTextPart`] holds.
#[verifier::ext_equal]
pub struct TemplateTextPartView {
    pub kind: Option<TemplateTextPartKindView>,
}

impl DeepView for TemplateTextPart {
    type V = TemplateTextPartView;

    open spec fn deep_view(&self) -> TemplateTextPartView {
        TemplateTextPartView {
            kind: self.kind.deep_view(),
        }
    }
}

impl Clone for TemplateTextPart {
    fn clone(&self) -> (r: Self)
        ensures
            r.deep_view() == self.deep_view(),
    {
        let r = TemplateTextPart {
            kind: self.kind.clone(),
        };
        assert(r.kind.deep_view() =~= self.kind.deep_view());
        r
    }
}

/// A text that depends on the values of an instance.
#[derive(Debug, PartialEq, Eq)]
pub struct TemplateText {
    pub parts: Vec<TemplateTextPart>,
}

/// What a [`TemplateText`] holds.
#[verifier::ext_equal]
pub struct TemplateTextView {
    pub parts: Seq<TemplateTextPartView>,
}

impl DeepView for TemplateText {
    type V = TemplateTextView;

    open spec fn deep_view(&self) -> TemplateTextView {
        TemplateTextView {
            parts: self.parts.deep_view(),
        }
    }
}

impl Clone for TemplateText {
    fn clone(&self) -> (r: Self)
        ensures
            r.deep_view() == self.deep_view(),
    {
        let r = TemplateText {
            parts: self.parts.clone(),
        };
        assert(r.parts.deep_view() =~= self.parts.deep_view());
        r
    }
}

/// A text under a key.
#[derive(Debug, PartialEq, Eq)]
pub struct TextEntry {
    pub key: String,
    pub value: TemplateText,
}

/// What a [`TextEntry`] holds.
#[verifier::ext_equal]
pub struct TextEntryView {
    pub key: Seq<char>,
    pub value: TemplateTextView,
}

impl DeepView for TextEntry {
    type V = TextEntryView;

    open spec fn deep_view(&self) -> TextEntryView {
        TextEntryView {
            key: self.key.deep_view(),
            value: self.value.deep_view(),
        }
    }
}

impl Clone for TextEntry {
    fn clone(&self) -> (r: Self)
        ensures
            r.deep_view() == self.deep_view(),
    {
        TextEntry {
            key: self.key.clone(),
            value: self.value.clone(),
        }
    }
}

/// A value under a key.
#[derive(Debug, PartialEq, Eq)]
pub struct StringEntry {
    pub key: String,
    pub value: String,
}

/// What a [`StringEntry`] holds.
#[verifier::ext_equal]
pub struct StringEntryView {
    pub key: Seq<char>,
    pub value: Seq<char>,
}

impl DeepView for StringEntry {
    type V = StringEntryView;

    open spec fn deep_view(&self) -> StringEntryView {
        StringEntryView {
            key: self.key.deep_view(),
            value: self.value.deep_view(),
        }
    }
}

impl Clone for StringEntry {
    fn clone(&self) -> (r: Self)
        ensures
            r.deep_view() == self.deep_view(),
    {
        StringEntry {
            key: self.key.clone(),
            value: self.value.clone(),
        }
    }
}

/// A port of a container.
#[derive(Debug, PartialEq, Eq)]
pub struct ContainerPortTemplate {
    pub name: Option<String>,
    pub container_port: u32,
}

/// What a [`ContainerPortTemplate`] holds.
#[verifier::ext_equal]
pub struct ContainerPortTemplateView {
    pub name: Option<Seq<char>>,
    pub container_port: u32,
}

impl DeepView for ContainerPortTemplate {
    type V = ContainerPortTemplateView;

    open spec fn deep_view(&self) -> ContainerPortTemplateView {
        ContainerPortTemplateView {
            name: self.name.deep_view(),
            container_port: self.container_port.deep_view(),
        }
    }
}

impl Clone for ContainerPortTemplate {
    fn clone(&self) -> (r: Self)
        ensures
            r.deep_view() == self.deep_view(),
    {
        let r = ContainerPortTemplate {
            name: self.name.clone(),
            container_port: self.container_port,
        };
        assert(r.name.deep_view() =~= self.name.deep_view());
        r
    }
}

/// An environment variable.
#[derive(Debug, PartialEq, Eq)]
pub struct EnvVarTemplate {
    pub name: String,
    pub value: Option<TemplateText>,
}

/// What an [`EnvVarTemplate`] holds.
#[verifier::ext_equal]
pub struct EnvVarTemplateView {
    pub name: Seq<char>,
    pub value: Option<TemplateTextView>,
}

impl DeepView for EnvVarTemplate {
    type V = EnvVarTemplateView;

    open spec fn deep_view(&self) -> EnvVarTemplateView {
        EnvVarTemplateView {
            name: self.name.deep_view(),
            value: self.value.deep_view(),
        }
    }
}

impl Clone for EnvVarTemplate {
    fn clone(&self) -> (r: Self)
        ensures
            r.deep_view() == self.deep_view(),
    {
        let r = EnvVarTemplate {
            name: self.name.clone(),
            value: self.value.clone(),
        };
        assert(r.value.deep_view() =~= self.value.deep_view());
        r
    }
}

/// The container of the application.
#[derive(Debug, PartialEq, Eq)]
pub struct ContainerTemplate {
    pub name: String,
    pub image: Option<TemplateText>,
    pub ports: Vec<ContainerPortTemplate>,
    pub env: Vec<EnvVarTemplate>,
}

/// What a [`ContainerTemplate`] holds.
#[verifier::ext_equal]
pub struct ContainerTemplateView {
    pub name: Seq<char>,
    pub image: Option<TemplateTextView>,
    pub ports: Seq<ContainerPortTemplateView>,
    pub env: Seq<EnvVarTemplateView>,
}

impl DeepView for ContainerTemplate {
    type V = ContainerTemplateView;

    open spec fn deep_view(&self) -> ContainerTemplateView {
        ContainerTemplateView {
            name: self.name.deep_view(),
            image: self.image.deep_view(),
            ports: self.ports.deep_view(),
            env: self.env.deep_view(),
        }
    }
}

impl Clone for ContainerTemplate {
    fn clone(&self) -> (r: Self)
        ensures
            r.deep_view() == self.deep_view(),
    {
        let r = ContainerTemplate {
            name: self.name.clone(),
            image: self.image.clone(),
            ports: self.ports.clone(),
            env: self.env.clone(),
        };
        assert(r.image.deep_view() =~= self.image.deep_view());
        assert(r.ports.deep_view() =~= self.ports.deep_view());
        assert(r.env.deep_view() =~= self.env.deep_view());
        r
    }
}

/// The workload.
#[derive(Debug, PartialEq, Eq)]
pub struct WorkloadTemplate {
    pub kind: WorkloadKind,
    pub name: Option<TemplateText>,
    pub replicas: Option<u32>,
    pub app_container: Option<ContainerTemplate>,
}

/// What a [`WorkloadTemplate`] holds.
#[verifier::ext_equal]
pub struct WorkloadTemplateView {
    pub kind: WorkloadKind,
    pub name: Option<TemplateTextView>,
    pub replicas: Option<u32>,
    pub app_container: Option<ContainerTemplateView>,
}

impl DeepView for WorkloadTemplate {
    type V = WorkloadTemplateView;

    open spec fn deep_view(&self) -> WorkloadTemplateView {
        WorkloadTemplateView {
            kind: self.kind.deep_view(),
            name: self.name.deep_view(),
            replicas: self.replicas.deep_view(),
            app_container: self.app_container.deep_view(),
        }
    }
}

impl Clone for WorkloadTemplate {
    fn clone(&self) -> (r: Self)
        ensures
            r.deep_view() == self.deep_view(),
    {
        let r = WorkloadTemplate {
            kind: self.kind,
            name: self.name.clone(),
            replicas: self.replicas,
            app_container: self.app_container.clone(),
        };
        assert(r.name.deep_view() =~= self.name.deep_view());
        assert(r.app_container.deep_view() =~= self.app_container.deep_view());
        r
    }
}

/// The sidecar.
#[derive(Debug, PartialEq, Eq)]
pub struct SidecarTemplate {
    pub name: String,
    pub image: Option<TemplateText>,
    pub listen_port: u32,
    pub mode: Option<String>,
}

/// What a [`SidecarTemplate`] holds.
#[verifier::ext_equal]
pub struct SidecarTemplateView {
    pub name: Seq<char>,
    pub image: Option<TemplateTextView>,
    pub listen_port: u32,
    pub mode: Option<Seq<char>>,
}

impl DeepView for SidecarTemplate {
    type V = SidecarTemplateView;

    open spec fn deep_view(&self) -> SidecarTemplateView {
        SidecarTemplateView {
            name: self.name.deep_view(),
            image: self.image.deep_view(),
            listen_port: self.listen_port.deep_view(),
            mode: self.mode.deep_view(),
        }
    }
}

impl Clone for SidecarTemplate {
    fn clone(&self) -> (r: Self)
        ensures
            r.deep_view() == self.deep_view(),
    {
        let r = SidecarTemplate {
            name: self.name.clone(),
            image: self.image.clone(),
            listen_port: self.listen_port,
            mode: self.mode.clone(),
        };
        assert(r.image.deep_view() =~= self.image.deep_view());
        assert(r.mode.deep_view() =~= self.mode.deep_view());
        r
    }
}

/// A port of a service.
#[derive(Debug, PartialEq, Eq)]
pub struct ServicePortTemplate {
    pub name: Option<String>,
    pub port: u32,
    pub target_port: u32,
}

/// What a [`ServicePortTemplate`] holds.
#[verifier::ext_equal]
pub struct ServicePortTemplateView {
    pub name: Option<Seq<char>>,
    pub port: u32,
    pub target_port: u32,
}

impl DeepView for ServicePortTemplate {
    type V = ServicePortTemplateView;

    open spec fn deep_view(&self) -> ServicePortTemplateView {
        ServicePortTemplateView {
            name: self.name.deep_view(),
            port: self.port.deep_view(),
            target_port: self.target_port.deep_view(),
        }
    }
}

impl Clone for ServicePortTemplate {
    fn clone(&self) -> (r: Self)
        ensures
            r.deep_view() == self.deep_view(),
    {
        let r = ServicePortTemplate {
            name: self.name.clone(),
            port: self.port,
            target_port: self.target_port,
        };
        assert(r.name.deep_view() =~= self.name.deep_view());
        r
    }
}

/// The service.
#[derive(Debug, PartialEq, Eq)]
pub struct ServiceTemplate {
    pub name: Option<TemplateText>,
    pub ports: Vec<ServicePortTemplate>,
}

/// What a [`ServiceTemplate`] holds.
#[verifier::ext_equal]
pub struct ServiceTemplateView {
    pub name: Option<TemplateTextView>,
    pub ports: Seq<ServicePortTemplateView>,
}

impl DeepView for ServiceTemplate {
    type V = ServiceTemplateView;

    open spec fn deep_view(&self) -> ServiceTemplateView {
        ServiceTemplateView {
            name: self.name.deep_view(),
            ports: self.ports.deep_view(),
        }
    }
}

impl Clone for ServiceTemplate {
    fn clone(&self) -> (r: Self)
        ensures
            r.deep_view() == self.deep_view(),
    {
        let r = ServiceTemplate {
            name: self.name.clone(),
            ports: self.ports.clone(),
        };
        assert(r.name.deep_view() =~= self.name.deep_view());
        assert(r.ports.deep_view() =~= self.ports.deep_view());
        r
    }
}

/// A secret that a CSI driver uses.
#[derive(Debug, PartialEq, Eq)]
pub struct CsiSecretRefTemplate {
    pub name: Option<TemplateText>,
    pub namespace: Option<TemplateText>,
}

/// What a [`CsiSecretRefTemplate`] holds.
#[verifier::ext_equal]
pub struct CsiSecretRefTemplateView {
    pub name: Option<TemplateTextView>,
    pub namespace: Option<TemplateTextView>,
}

impl DeepView for CsiSecretRefTemplate {
    type V = CsiSecretRefTemplateView;

    open spec fn deep_view(&self) -> CsiSecretRefTemplateView {
        CsiSecretRefTemplateView {
            name: self.name.deep_view(),
            namespace: self.namespace.deep_view(),
        }
    }
}

impl Clone for CsiSecretRefTemplate {
    fn clone(&self) -> (r: Self)
        ensures
            r.deep_view() == self.deep_view(),
    {
        let r = CsiSecretRefTemplate {
            name: self.name.clone(),
            namespace: self.namespace.clone(),
        };
        assert(r.name.deep_view() =~= self.name.deep_view());
        assert(r.namespace.deep_view() =~= self.namespace.deep_view());
        r
    }
}

/// A volume of a CSI driver.
#[derive(Debug, PartialEq, Eq)]
pub struct CsiVolumeSourceTemplate {
    pub driver: Option<TemplateText>,
    pub volume_handle: Option<TemplateText>,
    pub fs_type: Option<TemplateText>,
    pub read_only: bool,
    pub volume_attributes: Vec<TextEntry>,
    pub controller_publish_secret_ref: Option<CsiSecretRefTemplate>,
    pub node_stage_secret_ref: Option<CsiSecretRefTemplate>,
    pub node_publish_secret_ref: Option<CsiSecretRefTemplate>,
    pub controller_expand_secret_ref: Option<CsiSecretRefTemplate>,
    pub node_expand_secret_ref: Option<CsiSecretRefTemplate>,
}

/// What a [`CsiVolumeSourceTemplate`] holds.
#[verifier::ext_equal]
pub struct CsiVolumeSourceTemplateView {
    pub driver: Option<TemplateTextView>,
    pub volume_handle: Option<TemplateTextView>,
    pub fs_type: Option<TemplateTextView>,
    pub read_only: bool,
    pub volume_attributes: Seq<TextEntryView>,
    pub controller_publish_secret_ref: Option<CsiSecretRefTemplateView>,
    pub node_stage_secret_ref: Option<CsiSecretRefTemplateView>,
    pub node_publish_secret_ref: Option<CsiSecretRefTemplateView>,
    pub controller_expand_secret_ref: Option<CsiSecretRefTemplateView>,
    pub node_expand_secret_ref: Option<CsiSecretRefTemplateView>,
}

impl DeepView for CsiVolumeSourceTemplate {
    type V = CsiVolumeSourceTemplateView;

    open spec fn deep_view(&self) -> CsiVolumeSourceTemplateView {
        CsiVolumeSourceTemplateView {
            driver: self.driver.deep_view(),
            volume_handle: self.volume_handle.deep_view(),
            fs_type: self.fs_type.deep_view(),
            read_only: self.read_only.deep_view(),
            volume_attributes: self.volume_attributes.deep_view(),
            controller_publish_secret_ref: self.controller_publish_secret_ref.deep_view(),
            node_stage_secret_ref: self.node_stage_secret_ref.deep_view(),
            node_publish_secret_ref: self.node_publish_secret_ref.deep_view(),
            controller_expand_secret_ref: self.controller_expand_secret_ref.deep_view(),
            node_expand_secret_ref: self.node_expand_secret_ref.deep_view(),
        }
    }
}

impl Clone for CsiVolumeSourceTemplate {
    fn clone(&self) -> (r: Self)
        ensures
            r.deep_view() == self.deep_view(),
    {
        let r = CsiVolumeSourceTemplate {
            driver: self.driver.clone(),
            volume_handle: self.volume_handle.clone(),
            fs_type: self.fs_type.clone(),
            read_only: self.read_only,
            volume_attributes: self.volume_attributes.clone(),
            controller_publish_secret_ref: self.controller_publish_secret_ref.clone(),
            node_stage_secret_ref: self.node_stage_secret_ref.clone(),
            node_publish_secret_ref: self.node_publish_secret_ref.clone(),
            controller_expand_secret_ref: self.controller_expand_secret_ref.clone(),
            node_expand_secret_ref: self.node_expand_secret_ref.clone(),
        };
        assert(r.driver.deep_view() =~= self.driver.deep_view());
        assert(r.volume_handle.deep_view() =~= self.volume_handle.deep_view());
        assert(r.fs_type.deep_view() =~= self.fs_type.deep_view());
        assert(r.volume_attributes.deep_view() =~= self.volume_attributes.deep_view());
        assert(r.controller_publish_secret_ref.deep_view() =~= self.controller_publish_secret_ref.deep_view());
        assert(r.node_stage_secret_ref.deep_view() =~= self.node_stage_secret_ref.deep_view());
        assert(r.node_publish_secret_ref.deep_view() =~= self.node_publish_secret_ref.deep_view());
        assert(r.controller_expand_secret_ref.deep_view() =~= self.controller_expand_secret_ref.deep_view());
        assert(r.node_expand_secret_ref.deep_view() =~= self.node_expand_secret_ref.deep_view());
        r
    }
}

/// A directory of the host.
#[derive(Debug, PartialEq, Eq)]
pub struct HostPathVolumeSourceTemplate {
    pub path: Option<TemplateText>,
    pub type_: Option<TemplateText>,
}

/// What a [`HostPathVolumeSourceTemplate`] holds.
#[verifier::ext_equal]
pub struct HostPathVolumeSourceTemplateView {
    pub path: Option<TemplateTextView>,
    pub type_: Option<TemplateTextView>,
}

impl DeepView for HostPathVolumeSourceTemplate {
    type V = HostPathVolumeSourceTemplateView;

    open spec fn deep_view(&self) -> HostPathVolumeSourceTemplateView {
        HostPathVolumeSourceTemplateView {
            path: self.path.deep_view(),
            type_: self.type_.deep_view(),
        }
    }
}

impl Clone for HostPathVolumeSourceTemplate {
    fn clone(&self) -> (r: Self)
        ensures
            r.deep_view() == self.deep_view(),
    {
        let r = HostPathVolumeSourceTemplate {
            path: self.path.clone(),
            type_: self.type_.clone(),
        };
        assert(r.path.deep_view() =~= self.path.deep_view());
        assert(r.type_.deep_view() =~= self.type_.deep_view());
        r
    }
}

/// What a volume source is.
#[derive(Debug, PartialEq, Eq)]
pub enum PersistentVolumeSourceKind {
    Csi(CsiVolumeSourceTemplate),
    HostPath(HostPathVolumeSourceTemplate),
}

/// What a [`PersistentVolumeSourceKind`] holds.
#[verifier::ext_equal]
pub enum PersistentVolumeSourceKindView {
    Csi(CsiVolumeSourceTemplateView),
    HostPath(HostPathVolumeSourceTemplateView),
}

impl DeepView for PersistentVolumeSourceKind {
    type V = PersistentVolumeSourceKindView;

    open spec fn deep_view(&self) -> PersistentVolumeSourceKindView {
        match self {
            PersistentVolumeSourceKind::Csi(value) => PersistentVolumeSourceKindView::Csi(
                value.deep_view(),
            ),
            PersistentVolumeSourceKind::HostPath(value) => PersistentVolumeSourceKindView::HostPath(
                value.deep_view(),
            ),
        }
    }
}

impl Clone for PersistentVolumeSourceKind {
    fn clone(&self) -> (r: Self)
        ensures
            r.deep_view() == self.deep_view(),
    {
        match self {
            PersistentVolumeSourceKind::Csi(value) => PersistentVolumeSourceKind::Csi(
                value.clone(),
            ),
            PersistentVolumeSourceKind::HostPath(value) => PersistentVolumeSourceKind::HostPath(
                value.clone(),
            ),
        }
    }
}

/// Where the data of a volume lives.
#[derive(Debug, PartialEq, Eq)]
pub struct PersistentVolumeSourceTemplate {
    pub kind: Option<PersistentVolumeSourceKind>,
}

/// What a [`PersistentVolumeSourceTemplate`] holds.
#[verifier::ext_equal]
pub struct PersistentVolumeSourceTemplateView {
    pub kind: Option<PersistentVolumeSourceKindView>,
}

impl DeepView for PersistentVolumeSourceTemplate {
    type V = PersistentVolumeSourceTemplateView;

    open spec fn deep_view(&self) -> PersistentVolumeSourceTemplateView {
        PersistentVolumeSourceTemplateView {
            kind: self.kind.deep_view(),
        }
    }
}

impl Clone for PersistentVolumeSourceTemplate {
    fn clone(&self) -> (r: Self)
        ensures
            r.deep_view() == self.deep_view(),
    {
        let r = PersistentVolumeSourceTemplate {
            kind: self.kind.clone(),
        };
        assert(r.kind.deep_view() =~= self.kind.deep_view());
        r
    }
}

/// A volume.
#[derive(Debug, PartialEq, Eq)]
pub struct VolumeTemplate {
    pub name: String,
    pub mount_path: Option<TemplateText>,
    pub pv_name: Option<TemplateText>,
    pub pvc_name: Option<TemplateText>,
    pub access_modes: Vec<PersistentVolumeAccessMode>,
    pub capacity: Option<TemplateText>,
    pub reclaim_policy: PersistentVolumeReclaimPolicy,
    pub storage_class_name: Option<TemplateText>,
    pub source: Option<PersistentVolumeSourceTemplate>,
}

/// What a [`VolumeTemplate`] holds.
#[verifier::ext_equal]
pub struct VolumeTemplateView {
    pub name: Seq<char>,
    pub mount_path: Option<TemplateTextView>,
    pub pv_name: Option<TemplateTextView>,
    pub pvc_name: Option<TemplateTextView>,
    pub access_modes: Seq<PersistentVolumeAccessMode>,
    pub capacity: Option<TemplateTextView>,
    pub reclaim_policy: PersistentVolumeReclaimPolicy,
    pub storage_class_name: Option<TemplateTextView>,
    pub source: Option<PersistentVolumeSourceTemplateView>,
}

impl DeepView for VolumeTemplate {
    type V = VolumeTemplateView;

    open spec fn deep_view(&self) -> VolumeTemplateView {
        VolumeTemplateView {
            name: self.name.deep_view(),
            mount_path: self.mount_path.deep_view(),
            pv_name: self.pv_name.deep_view(),
            pvc_name: self.pvc_name.deep_view(),
            access_modes: self.access_modes.deep_view(),
            capacity: self.capacity.deep_view(),
            reclaim_policy: self.reclaim_policy.deep_view(),
            storage_class_name: self.storage_class_name.deep_view(),
            source: self.source.deep_view(),
        }
    }
}

impl Clone for VolumeTemplate {
    fn clone(&self) -> (r: Self)
        ensures
            r.deep_view() == self.deep_view(),
    {
        let r = VolumeTemplate {
            name: self.name.clone(),
            mount_path: self.mount_path.clone(),
            pv_name: self.pv_name.clone(),
            pvc_name: self.pvc_name.clone(),
            access_modes: self.access_modes.clone(),
            capacity: self.capacity.clone(),
            reclaim_policy: self.reclaim_policy,
            storage_class_name: self.storage_class_name.clone(),
            source: self.source.clone(),
        };
        assert(r.mount_path.deep_view() =~= self.mount_path.deep_view());
        assert(r.pv_name.deep_view() =~= self.pv_name.deep_view());
        assert(r.pvc_name.deep_view() =~= self.pvc_name.deep_view());
        assert(r.access_modes.deep_view() =~= self.access_modes.deep_view());
        assert(r.capacity.deep_view() =~= self.capacity.deep_view());
        assert(r.storage_class_name.deep_view() =~= self.storage_class_name.deep_view());
        assert(r.source.deep_view() =~= self.source.deep_view());
        r
    }
}

/// An object that is given as text.
#[derive(Debug, PartialEq, Eq)]
pub struct RawKubernetesManifestTemplate {
    pub manifest: Option<TemplateText>,
}

/// What a [`RawKubernetesManifestTemplate`] holds.
#[verifier::ext_equal]
pub struct RawKubernetesManifestTemplateView {
    pub manifest: Option<TemplateTextView>,
}

impl DeepView for RawKubernetesManifestTemplate {
    type V = RawKubernetesManifestTemplateView;

    open spec fn deep_view(&self) -> RawKubernetesManifestTemplateView {
        RawKubernetesManifestTemplateView {
            manifest: self.manifest.deep_view(),
        }
    }
}

impl Clone for RawKubernetesManifestTemplate {
    fn clone(&self) -> (r: Self)
        ensures
            r.deep_view() == self.deep_view(),
    {
        let r = RawKubernetesManifestTemplate {
            manifest: self.manifest.clone(),
        };
        assert(r.manifest.deep_view() =~= self.manifest.deep_view());
        r
    }
}

/// What is rendered for an instance.
#[derive(Debug, PartialEq, Eq)]
pub struct ManifestTemplate {
    pub workload: Option<WorkloadTemplate>,
    pub sidecar: Option<SidecarTemplate>,
    pub service: Option<ServiceTemplate>,
    pub volumes: Vec<VolumeTemplate>,
    pub raw_objects: Vec<RawKubernetesManifestTemplate>,
}

/// What a [`ManifestTemplate`] holds.
#[verifier::ext_equal]
pub struct ManifestTemplateView {
    pub workload: Option<WorkloadTemplateView>,
    pub sidecar: Option<SidecarTemplateView>,
    pub service: Option<ServiceTemplateView>,
    pub volumes: Seq<VolumeTemplateView>,
    pub raw_objects: Seq<RawKubernetesManifestTemplateView>,
}

impl DeepView for ManifestTemplate {
    type V = ManifestTemplateView;

    open spec fn deep_view(&self) -> ManifestTemplateView {
        ManifestTemplateView {
            workload: self.workload.deep_view(),
            sidecar: self.sidecar.deep_view(),
            service: self.service.deep_view(),
            volumes: self.volumes.deep_view(),
            raw_objects: self.raw_objects.deep_view(),
        }
    }
}

impl Clone for ManifestTemplate {
    fn clone(&self) -> (r: Self)
        ensures
            r.deep_view() == self.deep_view(),
    {
        let r = ManifestTemplate {
            workload: self.workload.clone(),
            sidecar: self.sidecar.clone(),
            service: self.service.clone(),
            volumes: self.volumes.clone(),
            raw_objects: self.raw_objects.clone(),
        };
        assert(r.workload.deep_view() =~= self.workload.deep_view());
        assert(r.sidecar.deep_view() =~= self.sidecar.deep_view());
        assert(r.service.deep_view() =~= self.service.deep_view());
        assert(r.volumes.deep_view() =~= self.volumes.deep_view());
        assert(r.raw_objects.deep_view() =~= self.raw_objects.deep_view());
        r
    }
}

/// A version of a workload class.
#[derive(Debug, PartialEq, Eq)]
pub struct WorkloadClassVersionRef {
    pub class_id: String,
    pub version: u64,
}

/// What a [`WorkloadClassVersionRef`] holds.
#[verifier::ext_equal]
pub struct WorkloadClassVersionRefView {
    pub class_id: Seq<char>,
    pub version: u64,
}

impl DeepView for WorkloadClassVersionRef {
    type V = WorkloadClassVersionRefView;

    open spec fn deep_view(&self) -> WorkloadClassVersionRefView {
        WorkloadClassVersionRefView {
            class_id: self.class_id.deep_view(),
            version: self.version.deep_view(),
        }
    }
}

impl Clone for WorkloadClassVersionRef {
    fn clone(&self) -> (r: Self)
        ensures
            r.deep_view() == self.deep_view(),
    {
        WorkloadClassVersionRef {
            class_id: self.class_id.clone(),
            version: self.version,
        }
    }
}

/// How an instance may choose its idle timeout.
#[derive(Debug, PartialEq, Eq)]
pub struct IdleTimeoutOverridePolicy {
    pub value_field: String,
    pub min_idle_timeout_ms: u64,
    pub max_idle_timeout_ms: u64,
}

/// What an [`IdleTimeoutOverridePolicy`] holds.
#[verifier::ext_equal]
pub struct IdleTimeoutOverridePolicyView {
    pub value_field: Seq<char>,
    pub min_idle_timeout_ms: u64,
    pub max_idle_timeout_ms: u64,
}

impl DeepView for IdleTimeoutOverridePolicy {
    type V = IdleTimeoutOverridePolicyView;

    open spec fn deep_view(&self) -> IdleTimeoutOverridePolicyView {
        IdleTimeoutOverridePolicyView {
            value_field: self.value_field.deep_view(),
            min_idle_timeout_ms: self.min_idle_timeout_ms.deep_view(),
            max_idle_timeout_ms: self.max_idle_timeout_ms.deep_view(),
        }
    }
}

impl Clone for IdleTimeoutOverridePolicy {
    fn clone(&self) -> (r: Self)
        ensures
            r.deep_view() == self.deep_view(),
    {
        IdleTimeoutOverridePolicy {
            value_field: self.value_field.clone(),
            min_idle_timeout_ms: self.min_idle_timeout_ms,
            max_idle_timeout_ms: self.max_idle_timeout_ms,
        }
    }
}

/// When instances are put to sleep.
#[derive(Debug, PartialEq, Eq)]
pub struct WorkloadSleepPolicy {
    pub idle_timeout_ms: u64,
    pub idle_retry_backoff_ms: u64,
    pub drain_grace_timeout_ms: u64,
    pub idle_timeout_override: Option<IdleTimeoutOverridePolicy>,
}

/// What a [`WorkloadSleepPolicy`] holds.
#[verifier::ext_equal]
pub struct WorkloadSleepPolicyView {
    pub idle_timeout_ms: u64,
    pub idle_retry_backoff_ms: u64,
    pub drain_grace_timeout_ms: u64,
    pub idle_timeout_override: Option<IdleTimeoutOverridePolicyView>,
}

impl DeepView for WorkloadSleepPolicy {
    type V = WorkloadSleepPolicyView;

    open spec fn deep_view(&self) -> WorkloadSleepPolicyView {
        WorkloadSleepPolicyView {
            idle_timeout_ms: self.idle_timeout_ms.deep_view(),
            idle_retry_backoff_ms: self.idle_retry_backoff_ms.deep_view(),
            drain_grace_timeout_ms: self.drain_grace_timeout_ms.deep_view(),
            idle_timeout_override: self.idle_timeout_override.deep_view(),
        }
    }
}

impl Clone for WorkloadSleepPolicy {
    fn clone(&self) -> (r: Self)
        ensures
            r.deep_view() == self.deep_view(),
    {
        let r = WorkloadSleepPolicy {
            idle_timeout_ms: self.idle_timeout_ms,
            idle_retry_backoff_ms: self.idle_retry_backoff_ms,
            drain_grace_timeout_ms: self.drain_grace_timeout_ms,
            idle_timeout_override: self.idle_timeout_override.clone(),
        };
        assert(r.idle_timeout_override.deep_view() =~= self.idle_timeout_override.deep_view());
        r
    }
}

/// Whether a value must be given, and what it is otherwise.
#[derive(Debug, PartialEq, Eq)]
pub struct WorkloadValueFieldRule {
    pub required: bool,
    pub default_value: Option<String>,
}

/// What a [`WorkloadValueFieldRule`] holds.
#[verifier::ext_equal]
pub struct WorkloadValueFieldRuleView {
    pub required: bool,
    pub default_value: Option<Seq<char>>,
}

impl DeepView for WorkloadValueFieldRule {
    type V = WorkloadValueFieldRuleView;

    open spec fn deep_view(&self) -> WorkloadValueFieldRuleView {
        WorkloadValueFieldRuleView {
            required: self.required.deep_view(),
            default_value: self.default_value.deep_view(),
        }
    }
}

impl Clone for WorkloadValueFieldRule {
    fn clone(&self) -> (r: Self)
        ensures
            r.deep_view() == self.deep_view(),
    {
        let r = WorkloadValueFieldRule {
            required: self.required,
            default_value: self.default_value.clone(),
        };
        assert(r.default_value.deep_view() =~= self.default_value.deep_view());
        r
    }
}

/// The rule of a field.
#[derive(Debug, PartialEq, Eq)]
pub struct ValueFieldEntry {
    pub key: String,
    pub value: WorkloadValueFieldRule,
}

/// What a [`ValueFieldEntry`] holds.
#[verifier::ext_equal]
pub struct ValueFieldEntryView {
    pub key: Seq<char>,
    pub value: WorkloadValueFieldRuleView,
}

impl DeepView for ValueFieldEntry {
    type V = ValueFieldEntryView;

    open spec fn deep_view(&self) -> ValueFieldEntryView {
        ValueFieldEntryView {
            key: self.key.deep_view(),
            value: self.value.deep_view(),
        }
    }
}

impl Clone for ValueFieldEntry {
    fn clone(&self) -> (r: Self)
        ensures
            r.deep_view() == self.deep_view(),
    {
        ValueFieldEntry {
            key: self.key.clone(),
            value: self.value.clone(),
        }
    }
}

/// The values that instances take.
#[derive(Debug, PartialEq, Eq)]
pub struct WorkloadValueSchema {
    pub fields: Vec<ValueFieldEntry>,
    pub allow_extra: bool,
}

/// What a [`WorkloadValueSchema`] holds.
#[verifier::ext_equal]
pub struct WorkloadValueSchemaView {
    pub fields: Seq<ValueFieldEntryView>,
    pub allow_extra: bool,
}

impl DeepView for WorkloadValueSchema {
    type V = WorkloadValueSchemaView;

    open spec fn deep_view(&self) -> WorkloadValueSchemaView {
        WorkloadValueSchemaView {
            fields: self.fields.deep_view(),
            allow_extra: self.allow_extra.deep_view(),
        }
    }
}

impl Clone for WorkloadValueSchema {
    fn clone(&self) -> (r: Self)
        ensures
            r.deep_view() == self.deep_view(),
    {
        let r = WorkloadValueSchema {
            fields: self.fields.clone(),
            allow_extra: self.allow_extra,
        };
        assert(r.fields.deep_view() =~= self.fields.deep_view());
        r
    }
}

/// A key that at most one instance of a target holds.
#[derive(Debug, PartialEq, Eq)]
pub struct WorkloadExclusivityKey {
    pub name: String,
    pub value: Option<TemplateText>,
}

/// What a [`WorkloadExclusivityKey`] holds.
#[verifier::ext_equal]
pub struct WorkloadExclusivityKeyView {
    pub name: Seq<char>,
    pub value: Option<TemplateTextView>,
}

impl DeepView for WorkloadExclusivityKey {
    type V = WorkloadExclusivityKeyView;

    open spec fn deep_view(&self) -> WorkloadExclusivityKeyView {
        WorkloadExclusivityKeyView {
            name: self.name.deep_view(),
            value: self.value.deep_view(),
        }
    }
}

impl Clone for WorkloadExclusivityKey {
    fn clone(&self) -> (r: Self)
        ensures
            r.deep_view() == self.deep_view(),
    {
        let r = WorkloadExclusivityKey {
            name: self.name.clone(),
            value: self.value.clone(),
        };
        assert(r.value.deep_view() =~= self.value.deep_view());
        r
    }
}

/// Asks for a version of a workload class.
#[derive(Debug, PartialEq, Eq)]
pub struct CreateWorkloadClassVersionRequest {
    pub idempotency_key: String,
    pub class_id: String,
    pub version: u64,
    pub template_generation: u64,
    pub template: Option<ManifestTemplate>,
    pub default_values: Vec<StringEntry>,
    pub value_schema: Option<WorkloadValueSchema>,
    pub sleep_policy: Option<WorkloadSleepPolicy>,
    pub exclusivity_keys: Vec<WorkloadExclusivityKey>,
}

/// What a [`CreateWorkloadClassVersionRequest`] holds.
#[verifier::ext_equal]
pub struct CreateWorkloadClassVersionRequestView {
    pub idempotency_key: Seq<char>,
    pub class_id: Seq<char>,
    pub version: u64,
    pub template_generation: u64,
    pub template: Option<ManifestTemplateView>,
    pub default_values: Seq<StringEntryView>,
    pub value_schema: Option<WorkloadValueSchemaView>,
    pub sleep_policy: Option<WorkloadSleepPolicyView>,
    pub exclusivity_keys: Seq<WorkloadExclusivityKeyView>,
}

impl DeepView for CreateWorkloadClassVersionRequest {
    type V = CreateWorkloadClassVersionRequestView;

    open spec fn deep_view(&self) -> CreateWorkloadClassVersionRequestView {
        CreateWorkloadClassVersionRequestView {
            idempotency_key: self.idempotency_key.deep_view(),
            class_id: self.class_id.deep_view(),
            version: self.version.deep_view(),
            template_generation: self.template_generation.deep_view(),
            template: self.template.deep_view(),
            default_values: self.default_values.deep_view(),
            value_schema: self.value_schema.deep_view(),
            sleep_policy: self.sleep_policy.deep_view(),
            exclusivity_keys: self.exclusivity_keys.deep_view(),
        }
    }
}

impl Clone for CreateWorkloadClassVersionRequest {
    fn clone(&self) -> (r: Self)
        ensures
            r.deep_view() == self.deep_view(),
    {
        let r = CreateWorkloadClassVersionRequest {
            idempotency_key: self.idempotency_key.clone(),
            class_id: self.class_id.clone(),
            version: self.version,
            template_generation: self.template_generation,
            template: self.template.clone(),
            default_values: self.default_values.clone(),
            value_schema: self.value_schema.clone(),
            sleep_policy: self.sleep_policy.clone(),
            exclusivity_keys: self.exclusivity_keys.clone(),
        };
        assert(r.template.deep_view() =~= self.template.deep_view());
        assert(r.default_values.deep_view() =~= self.default_values.deep_view());
        assert(r.value_schema.deep_view() =~= self.value_schema.deep_view());
        assert(r.sleep_policy.deep_view() =~= self.sleep_policy.deep_view());
        assert(r.exclusivity_keys.deep_view() =~= self.exclusivity_keys.deep_view());
        r
    }
}

/// A version of a workload class.
#[derive(Debug, PartialEq, Eq)]
pub struct WorkloadClassVersion {
    pub reference: Option<WorkloadClassVersionRef>,
    pub template_generation: u64,
    pub default_values: Vec<StringEntry>,
    pub value_schema: Option<WorkloadValueSchema>,
    pub template: Option<ManifestTemplate>,
    pub sleep_policy: Option<WorkloadSleepPolicy>,
    pub exclusivity_keys: Vec<WorkloadExclusivityKey>,
}

/// What a [`WorkloadClassVersion`] holds.
#[verifier::ext_equal]
pub struct WorkloadClassVersionView {
    pub reference: Option<WorkloadClassVersionRefView>,
    pub template_generation: u64,
    pub default_values: Seq<StringEntryView>,
    pub value_schema: Option<WorkloadValueSchemaView>,
    pub template: Option<ManifestTemplateView>,
    pub sleep_policy: Option<WorkloadSleepPolicyView>,
    pub exclusivity_keys: Seq<WorkloadExclusivityKeyView>,
}

impl DeepView for WorkloadClassVersion {
    type V = WorkloadClassVersionView;

    open spec fn deep_view(&self) -> WorkloadClassVersionView {
        WorkloadClassVersionView {
            reference: self.reference.deep_view(),
            template_generation: self.template_generation.deep_view(),
            default_values: self.default_values.deep_view(),
            value_schema: self.value_schema.deep_view(),
            template: self.template.deep_view(),
            sleep_policy: self.sleep_policy.deep_view(),
            exclusivity_keys: self.exclusivity_keys.deep_view(),
        }
    }
}

impl Clone for WorkloadClassVersion {
    fn clone(&self) -> (r: Self)
        ensures
            r.deep_view() == self.deep_view(),
    {
        let r = WorkloadClassVersion {
            reference: self.reference.clone(),
            template_generation: self.template_generation,
            default_values: self.default_values.clone(),
            value_schema: self.value_schema.clone(),
            template: self.template.clone(),
            sleep_policy: self.sleep_policy.clone(),
            exclusivity_keys: self.exclusivity_keys.clone(),
        };
        assert(r.reference.deep_view() =~= self.reference.deep_view());
        assert(r.default_values.deep_view() =~= self.default_values.deep_view());
        assert(r.value_schema.deep_view() =~= self.value_schema.deep_view());
        assert(r.template.deep_view() =~= self.template.deep_view());
        assert(r.sleep_policy.deep_view() =~= self.sleep_policy.deep_view());
        assert(r.exclusivity_keys.deep_view() =~= self.exclusivity_keys.deep_view());
        r
    }
}

/// Asks for an instance.
#[derive(Debug, PartialEq, Eq)]
pub struct CreateInstanceRequest {
    pub idempotency_key: String,
    pub instance_id: String,
    pub workload_class: Option<WorkloadClassVersionRef>,
    pub values: Vec<StringEntry>,
}

/// What a [`CreateInstanceRequest`] holds.
#[verifier::ext_equal]
pub struct CreateInstanceRequestView {
    pub idempotency_key: Seq<char>,
    pub instance_id: Seq<char>,
    pub workload_class: Option<WorkloadClassVersionRefView>,
    pub values: Seq<StringEntryView>,
}

impl DeepView for CreateInstanceRequest {
    type V = CreateInstanceRequestView;

    open spec fn deep_view(&self) -> CreateInstanceRequestView {
        CreateInstanceRequestView {
            idempotency_key: self.idempotency_key.deep_view(),
            instance_id: self.instance_id.deep_view(),
            workload_class: self.workload_class.deep_view(),
            values: self.values.deep_view(),
        }
    }
}

impl Clone for CreateInstanceRequest {
    fn clone(&self) -> (r: Self)
        ensures
            r.deep_view() == self.deep_view(),
    {
        let r = CreateInstanceRequest {
            idempotency_key: self.idempotency_key.clone(),
            instance_id: self.instance_id.clone(),
            workload_class: self.workload_class.clone(),
            values: self.values.clone(),
        };
        assert(r.workload_class.deep_view() =~= self.workload_class.deep_view());
        assert(r.values.deep_view() =~= self.values.deep_view());
        r
    }
}

/// An instance.
#[derive(Debug, PartialEq, Eq)]
pub struct Instance {
    pub instance_id: String,
    pub workload_class: Option<WorkloadClassVersionRef>,
    pub values: Vec<StringEntry>,
    pub state: InstanceState,
    pub generation: u64,
}

/// What an [`Instance`] holds.
#[verifier::ext_equal]
pub struct InstanceView {
    pub instance_id: Seq<char>,
    pub workload_class: Option<WorkloadClassVersionRefView>,
    pub values: Seq<StringEntryView>,
    pub state: InstanceState,
    pub generation: u64,
}

impl DeepView for Instance {
    type V = InstanceView;

    open spec fn deep_view(&self) -> InstanceView {
        InstanceView {
            instance_id: self.instance_id.deep_view(),
            workload_class: self.workload_class.deep_view(),
            values: self.values.deep_view(),
            state: self.state.deep_view(),
            generation: self.generation.deep_view(),
        }
    }
}

impl Clone for Instance {
    fn clone(&self) -> (r: Self)
        ensures
            r.deep_view() == self.deep_view(),
    {
        let r = Instance {
            instance_id: self.instance_id.clone(),
            workload_class: self.workload_class.clone(),
            values: self.values.clone(),
            state: self.state,
            generation: self.generation,
        };
        assert(r.workload_class.deep_view() =~= self.workload_class.deep_view());
        assert(r.values.deep_view() =~= self.values.deep_view());
        r
    }
}

/// Asks for an instance to be deleted.
#[derive(Debug, PartialEq, Eq)]
pub struct DeleteInstanceRequest {
    pub instance_id: String,
    pub expected_generation: Option<u64>,
}

/// What a [`DeleteInstanceRequest`] holds.
#[verifier::ext_equal]
pub struct DeleteInstanceRequestView {
    pub instance_id: Seq<char>,
    pub expected_generation: Option<u64>,
}

impl DeepView for DeleteInstanceRequest {
    type V = DeleteInstanceRequestView;

    open spec fn deep_view(&self) -> DeleteInstanceRequestView {
        DeleteInstanceRequestView {
            instance_id: self.instance_id.deep_view(),
            expected_generation: self.expected_generation.deep_view(),
        }
    }
}

impl Clone for DeleteInstanceRequest {
    fn clone(&self) -> (r: Self)
        ensures
            r.deep_view() == self.deep_view(),
    {
        DeleteInstanceRequest {
            instance_id: self.instance_id.clone(),
            expected_generation: self.expected_generation,
        }
    }
}

/// The host of a route.
#[derive(Debug, PartialEq, Eq)]
pub struct RouteHost {
    pub kind: RouteHostKind,
    pub host: String,
}

/// What a [`RouteHost`] holds.
#[verifier::ext_equal]
pub struct RouteHostView {
    pub kind: RouteHostKind,
    pub host: Seq<char>,
}

impl DeepView for RouteHost {
    type V = RouteHostView;

    open spec fn deep_view(&self) -> RouteHostView {
        RouteHostView {
            kind: self.kind.deep_view(),
            host: self.host.deep_view(),
        }
    }
}

impl Clone for RouteHost {
    fn clone(&self) -> (r: Self)
        ensures
            r.deep_view() == self.deep_view(),
    {
        RouteHost {
            kind: self.kind,
            host: self.host.clone(),
        }
    }
}

/// What tells an HTTP route.
#[derive(Debug, PartialEq, Eq)]
pub struct HttpRouteIdentity {
    pub host: Option<RouteHost>,
    pub path_prefix: Option<String>,
}

/// What a [`HttpRouteIdentity`] holds.
#[verifier::ext_equal]
pub struct HttpRouteIdentityView {
    pub host: Option<RouteHostView>,
    pub path_prefix: Option<Seq<char>>,
}

impl DeepView for HttpRouteIdentity {
    type V = HttpRouteIdentityView;

    open spec fn deep_view(&self) -> HttpRouteIdentityView {
        HttpRouteIdentityView {
            host: self.host.deep_view(),
            path_prefix: self.path_prefix.deep_view(),
        }
    }
}

impl Clone for HttpRouteIdentity {
    fn clone(&self) -> (r: Self)
        ensures
            r.deep_view() == self.deep_view(),
    {
        let r = HttpRouteIdentity {
            host: self.host.clone(),
            path_prefix: self.path_prefix.clone(),
        };
        assert(r.host.deep_view() =~= self.host.deep_view());
        assert(r.path_prefix.deep_view() =~= self.path_prefix.deep_view());
        r
    }
}

/// What tells a TLS route.
#[derive(Debug, PartialEq, Eq)]
pub struct SniRouteIdentity {
    pub host: Option<RouteHost>,
}

/// What a [`SniRouteIdentity`] holds.
#[verifier::ext_equal]
pub struct SniRouteIdentityView {
    pub host: Option<RouteHostView>,
}

impl DeepView for SniRouteIdentity {
    type V = SniRouteIdentityView;

    open spec fn deep_view(&self) -> SniRouteIdentityView {
        SniRouteIdentityView {
            host: self.host.deep_view(),
        }
    }
}

impl Clone for SniRouteIdentity {
    fn clone(&self) -> (r: Self)
        ensures
            r.deep_view() == self.deep_view(),
    {
        let r = SniRouteIdentity {
            host: self.host.clone(),
        };
        assert(r.host.deep_view() =~= self.host.deep_view());
        r
    }
}

/// What tells a route.
#[derive(Debug, PartialEq, Eq)]
pub enum RouteIdentityKind {
    Http(HttpRouteIdentity),
    Sni(SniRouteIdentity),
}

/// What a [`RouteIdentityKind`] holds.
#[verifier::ext_equal]
pub enum RouteIdentityKindView {
    Http(HttpRouteIdentityView),
    Sni(SniRouteIdentityView),
}

impl DeepView for RouteIdentityKind {
    type V = RouteIdentityKindView;

    open spec fn deep_view(&self) -> RouteIdentityKindView {
        match self {
            RouteIdentityKind::Http(value) => RouteIdentityKindView::Http(value.deep_view()),
            RouteIdentityKind::Sni(value) => RouteIdentityKindView::Sni(value.deep_view()),
        }
    }
}

impl Clone for RouteIdentityKind {
    fn clone(&self) -> (r: Self)
        ensures
            r.deep_view() == self.deep_view(),
    {
        match self {
            RouteIdentityKind::Http(value) => RouteIdentityKind::Http(value.clone()),
            RouteIdentityKind::Sni(value) => RouteIdentityKind::Sni(value.clone()),
        }
    }
}

/// What tells a route.
#[derive(Debug, PartialEq, Eq)]
pub struct RouteIdentity {
    pub kind: Option<RouteIdentityKind>,
}

/// What a [`RouteIdentity`] holds.
#[verifier::ext_equal]
pub struct RouteIdentityView {
    pub kind: Option<RouteIdentityKindView>,
}

impl DeepView for RouteIdentity {
    type V = RouteIdentityView;

    open spec fn deep_view(&self) -> RouteIdentityView {
        RouteIdentityView {
            kind: self.kind.deep_view(),
        }
    }
}

impl Clone for RouteIdentity {
    fn clone(&self) -> (r: Self)
        ensures
            r.deep_view() == self.deep_view(),
    {
        let r = RouteIdentity {
            kind: self.kind.clone(),
        };
        assert(r.kind.deep_view() =~= self.kind.deep_view());
        r
    }
}

/// Asks for a route to an instance.
#[derive(Debug, PartialEq, Eq)]
pub struct CreateRouteBindingRequest {
    pub idempotency_key: String,
    pub route_binding_id: String,
    pub instance_id: String,
    pub identity: Option<RouteIdentity>,
    pub protocol: ProtocolRoute,
}

/// What a [`CreateRouteBindingRequest`] holds.
#[verifier::ext_equal]
pub struct CreateRouteBindingRequestView {
    pub idempotency_key: Seq<char>,
    pub route_binding_id: Seq<char>,
    pub instance_id: Seq<char>,
    pub identity: Option<RouteIdentityView>,
    pub protocol: ProtocolRoute,
}

impl DeepView for CreateRouteBindingRequest {
    type V = CreateRouteBindingRequestView;

    open spec fn deep_view(&self) -> CreateRouteBindingRequestView {
        CreateRouteBindingRequestView {
            idempotency_key: self.idempotency_key.deep_view(),
            route_binding_id: self.route_binding_id.deep_view(),
            instance_id: self.instance_id.deep_view(),
            identity: self.identity.deep_view(),
            protocol: self.protocol.deep_view(),
        }
    }
}

impl Clone for CreateRouteBindingRequest {
    fn clone(&self) -> (r: Self)
        ensures
            r.deep_view() == self.deep_view(),
    {
        let r = CreateRouteBindingRequest {
            idempotency_key: self.idempotency_key.clone(),
            route_binding_id: self.route_binding_id.clone(),
            instance_id: self.instance_id.clone(),
            identity: self.identity.clone(),
            protocol: self.protocol,
        };
        assert(r.identity.deep_view() =~= self.identity.deep_view());
        r
    }
}

/// A route to an instance.
#[derive(Debug, PartialEq, Eq)]
pub struct RouteBinding {
    pub route_binding_id: String,
    pub instance_id: String,
    pub identity: Option<RouteIdentity>,
    pub protocol: ProtocolRoute,
}

/// What a [`RouteBinding`] holds.
#[verifier::ext_equal]
pub struct RouteBindingView {
    pub route_binding_id: Seq<char>,
    pub instance_id: Seq<char>,
    pub identity: Option<RouteIdentityView>,
    pub protocol: ProtocolRoute,
}

impl DeepView for RouteBinding {
    type V = RouteBindingView;

    open spec fn deep_view(&self) -> RouteBindingView {
        RouteBindingView {
            route_binding_id: self.route_binding_id.deep_view(),
            instance_id: self.instance_id.deep_view(),
            identity: self.identity.deep_view(),
            protocol: self.protocol.deep_view(),
        }
    }
}

impl Clone for RouteBinding {
    fn clone(&self) -> (r: Self)
        ensures
            r.deep_view() == self.deep_view(),
    {
        let r = RouteBinding {
            route_binding_id: self.route_binding_id.clone(),
            instance_id: self.instance_id.clone(),
            identity: self.identity.clone(),
            protocol: self.protocol,
        };
        assert(r.identity.deep_view() =~= self.identity.deep_view());
        r
    }
}

/// Asks for a materialization to be given up.
#[derive(Debug, PartialEq, Eq)]
pub struct ForceDeleteMaterializationRequest {
    pub materialization_id: String,
    pub operator: String,
    pub reason: String,
}

/// What a [`ForceDeleteMaterializationRequest`] holds.
#[verifier::ext_equal]
pub struct ForceDeleteMaterializationRequestView {
    pub materialization_id: Seq<char>,
    pub operator: Seq<char>,
    pub reason: Seq<char>,
}

impl DeepView for ForceDeleteMaterializationRequest {
    type V = ForceDeleteMaterializationRequestView;

    open spec fn deep_view(&self) -> ForceDeleteMaterializationRequestView {
        ForceDeleteMaterializationRequestView {
            materialization_id: self.materialization_id.deep_view(),
            operator: self.operator.deep_view(),
            reason: self.reason.deep_view(),
        }
    }
}

impl Clone for ForceDeleteMaterializationRequest {
    fn clone(&self) -> (r: Self)
        ensures
            r.deep_view() == self.deep_view(),
    {
        ForceDeleteMaterializationRequest {
            materialization_id: self.materialization_id.clone(),
            operator: self.operator.clone(),
            reason: self.reason.clone(),
        }
    }
}

/// Asks for an exclusivity key to be released.
#[derive(Debug, PartialEq, Eq)]
pub struct ForceReleaseExclusivityKeyRequest {
    pub cluster_id: String,
    pub namespace: String,
    pub key_name: String,
    pub key_value: String,
    pub operator: String,
    pub reason: String,
}

/// What a [`ForceReleaseExclusivityKeyRequest`] holds.
#[verifier::ext_equal]
pub struct ForceReleaseExclusivityKeyRequestView {
    pub cluster_id: Seq<char>,
    pub namespace: Seq<char>,
    pub key_name: Seq<char>,
    pub key_value: Seq<char>,
    pub operator: Seq<char>,
    pub reason: Seq<char>,
}

impl DeepView for ForceReleaseExclusivityKeyRequest {
    type V = ForceReleaseExclusivityKeyRequestView;

    open spec fn deep_view(&self) -> ForceReleaseExclusivityKeyRequestView {
        ForceReleaseExclusivityKeyRequestView {
            cluster_id: self.cluster_id.deep_view(),
            namespace: self.namespace.deep_view(),
            key_name: self.key_name.deep_view(),
            key_value: self.key_value.deep_view(),
            operator: self.operator.deep_view(),
            reason: self.reason.deep_view(),
        }
    }
}

impl Clone for ForceReleaseExclusivityKeyRequest {
    fn clone(&self) -> (r: Self)
        ensures
            r.deep_view() == self.deep_view(),
    {
        ForceReleaseExclusivityKeyRequest {
            cluster_id: self.cluster_id.clone(),
            namespace: self.namespace.clone(),
            key_name: self.key_name.clone(),
            key_value: self.key_value.clone(),
            operator: self.operator.clone(),
            reason: self.reason.clone(),
        }
    }
}

/// An applied object.
#[derive(Debug, PartialEq, Eq)]
pub struct RenderedObjectRef {
    pub api_version: String,
    pub kind: String,
    pub namespace: String,
    pub name: String,
}

/// What a [`RenderedObjectRef`] holds.
#[verifier::ext_equal]
pub struct RenderedObjectRefView {
    pub api_version: Seq<char>,
    pub kind: Seq<char>,
    pub namespace: Seq<char>,
    pub name: Seq<char>,
}

impl DeepView for RenderedObjectRef {
    type V = RenderedObjectRefView;

    open spec fn deep_view(&self) -> RenderedObjectRefView {
        RenderedObjectRefView {
            api_version: self.api_version.deep_view(),
            kind: self.kind.deep_view(),
            namespace: self.namespace.deep_view(),
            name: self.name.deep_view(),
        }
    }
}

impl Clone for RenderedObjectRef {
    fn clone(&self) -> (r: Self)
        ensures
            r.deep_view() == self.deep_view(),
    {
        RenderedObjectRef {
            api_version: self.api_version.clone(),
            kind: self.kind.clone(),
            namespace: self.namespace.clone(),
            name: self.name.clone(),
        }
    }
}

/// What was seen of an applied object.
#[derive(Debug, PartialEq, Eq)]
pub struct ProjectionObservation {
    pub object: Option<RenderedObjectRef>,
    pub state: String,
    pub reason: String,
    pub finalizers: Vec<String>,
    pub backend_uri: String,
}

/// What a [`ProjectionObservation`] holds.
#[verifier::ext_equal]
pub struct ProjectionObservationView {
    pub object: Option<RenderedObjectRefView>,
    pub state: Seq<char>,
    pub reason: Seq<char>,
    pub finalizers: Seq<Seq<char>>,
    pub backend_uri: Seq<char>,
}

impl DeepView for ProjectionObservation {
    type V = ProjectionObservationView;

    open spec fn deep_view(&self) -> ProjectionObservationView {
        ProjectionObservationView {
            object: self.object.deep_view(),
            state: self.state.deep_view(),
            reason: self.reason.deep_view(),
            finalizers: self.finalizers.deep_view(),
            backend_uri: self.backend_uri.deep_view(),
        }
    }
}

impl Clone for ProjectionObservation {
    fn clone(&self) -> (r: Self)
        ensures
            r.deep_view() == self.deep_view(),
    {
        let r = ProjectionObservation {
            object: self.object.clone(),
            state: self.state.clone(),
            reason: self.reason.clone(),
            finalizers: self.finalizers.clone(),
            backend_uri: self.backend_uri.clone(),
        };
        assert(r.object.deep_view() =~= self.object.deep_view());
        assert(r.finalizers.deep_view() =~= self.finalizers.deep_view());
        r
    }
}

/// An effect of which it is not known whether it took place.
#[derive(Debug, PartialEq, Eq)]
pub struct UncertainMaterializationEffect {
    pub instance_generation: u64,
    pub owner: String,
    pub lease_attempt: u64,
    pub effect_id: String,
    pub operation: String,
    pub object: Option<RenderedObjectRef>,
    pub expected_uid: String,
    pub expected_resource_version: String,
    pub started_at_unix_millis: i64,
}

/// What an [`UncertainMaterializationEffect`] holds.
#[verifier::ext_equal]
pub struct UncertainMaterializationEffectView {
    pub instance_generation: u64,
    pub owner: Seq<char>,
    pub lease_attempt: u64,
    pub effect_id: Seq<char>,
    pub operation: Seq<char>,
    pub object: Option<RenderedObjectRefView>,
    pub expected_uid: Seq<char>,
    pub expected_resource_version: Seq<char>,
    pub started_at_unix_millis: i64,
}

impl DeepView for UncertainMaterializationEffect {
    type V = UncertainMaterializationEffectView;

    open spec fn deep_view(&self) -> UncertainMaterializationEffectView {
        UncertainMaterializationEffectView {
            instance_generation: self.instance_generation.deep_view(),
            owner: self.owner.deep_view(),
            lease_attempt: self.lease_attempt.deep_view(),
            effect_id: self.effect_id.deep_view(),
            operation: self.operation.deep_view(),
            object: self.object.deep_view(),
            expected_uid: self.expected_uid.deep_view(),
            expected_resource_version: self.expected_resource_version.deep_view(),
            started_at_unix_millis: self.started_at_unix_millis.deep_view(),
        }
    }
}

impl Clone for UncertainMaterializationEffect {
    fn clone(&self) -> (r: Self)
        ensures
            r.deep_view() == self.deep_view(),
    {
        let r = UncertainMaterializationEffect {
            instance_generation: self.instance_generation,
            owner: self.owner.clone(),
            lease_attempt: self.lease_attempt,
            effect_id: self.effect_id.clone(),
            operation: self.operation.clone(),
            object: self.object.clone(),
            expected_uid: self.expected_uid.clone(),
            expected_resource_version: self.expected_resource_version.clone(),
            started_at_unix_millis: self.started_at_unix_millis,
        };
        assert(r.object.deep_view() =~= self.object.deep_view());
        r
    }
}

/// Asks for a materialization to be brought up to date, or only for its status.
#[derive(Debug, PartialEq, Eq)]
pub struct ReconcileMaterializationRequest {
    pub materialization_id: String,
    pub status_only: bool,
}

/// What a [`ReconcileMaterializationRequest`] holds.
#[verifier::ext_equal]
pub struct ReconcileMaterializationRequestView {
    pub materialization_id: Seq<char>,
    pub status_only: bool,
}

impl DeepView for ReconcileMaterializationRequest {
    type V = ReconcileMaterializationRequestView;

    open spec fn deep_view(&self) -> ReconcileMaterializationRequestView {
        ReconcileMaterializationRequestView {
            materialization_id: self.materialization_id.deep_view(),
            status_only: self.status_only.deep_view(),
        }
    }
}

impl Clone for ReconcileMaterializationRequest {
    fn clone(&self) -> (r: Self)
        ensures
            r.deep_view() == self.deep_view(),
    {
        ReconcileMaterializationRequest {
            materialization_id: self.materialization_id.clone(),
            status_only: self.status_only,
        }
    }
}

/// The status of a materialization.
#[derive(Debug, PartialEq, Eq)]
pub struct ReconcileMaterializationResponse {
    pub found: bool,
    pub materialization_id: String,
    pub state: String,
    pub attempted: bool,
    pub lease_owner: String,
    pub lease_expires_at_unix_millis: i64,
    pub lease_attempt: u64,
    pub observed_refs: Vec<RenderedObjectRef>,
    pub projection_observations: Vec<ProjectionObservation>,
    pub next_attempt_at_unix_millis: Option<i64>,
    pub operation_deadline_unix_millis: Option<i64>,
    pub failure_count: u64,
    pub failure_kind: String,
    pub failure_message: Option<String>,
    pub wake_failure_message: Option<String>,
    pub uncertain_effect: Option<UncertainMaterializationEffect>,
}

/// What a [`ReconcileMaterializationResponse`] holds.
#[verifier::ext_equal]
pub struct ReconcileMaterializationResponseView {
    pub found: bool,
    pub materialization_id: Seq<char>,
    pub state: Seq<char>,
    pub attempted: bool,
    pub lease_owner: Seq<char>,
    pub lease_expires_at_unix_millis: i64,
    pub lease_attempt: u64,
    pub observed_refs: Seq<RenderedObjectRefView>,
    pub projection_observations: Seq<ProjectionObservationView>,
    pub next_attempt_at_unix_millis: Option<i64>,
    pub operation_deadline_unix_millis: Option<i64>,
    pub failure_count: u64,
    pub failure_kind: Seq<char>,
    pub failure_message: Option<Seq<char>>,
    pub wake_failure_message: Option<Seq<char>>,
    pub uncertain_effect: Option<UncertainMaterializationEffectView>,
}

impl DeepView for ReconcileMaterializationResponse {
    type V = ReconcileMaterializationResponseView;

    open spec fn deep_view(&self) -> ReconcileMaterializationResponseView {
        ReconcileMaterializationResponseView {
            found: self.found.deep_view(),
            materialization_id: self.materialization_id.deep_view(),
            state: self.state.deep_view(),
            attempted: self.attempted.deep_view(),
            lease_owner: self.lease_owner.deep_view(),
            lease_expires_at_unix_millis: self.lease_expires_at_unix_millis.deep_view(),
            lease_attempt: self.lease_attempt.deep_view(),
            observed_refs: self.observed_refs.deep_view(),
            projection_observations: self.projection_observations.deep_view(),
            next_attempt_at_unix_millis: self.next_attempt_at_unix_millis.deep_view(),
            operation_deadline_unix_millis: self.operation_deadline_unix_millis.deep_view(),
            failure_count: self.failure_count.deep_view(),
            failure_kind: self.failure_kind.deep_view(),
            failure_message: self.failure_message.deep_view(),
            wake_failure_message: self.wake_failure_message.deep_view(),
            uncertain_effect: self.uncertain_effect.deep_view(),
        }
    }
}

impl Clone for ReconcileMaterializationResponse {
    fn clone(&self) -> (r: Self)
        ensures
            r.deep_view() == self.deep_view(),
    {
        let r = ReconcileMaterializationResponse {
            found: self.found,
            materialization_id: self.materialization_id.clone(),
            state: self.state.clone(),
            attempted: self.attempted,
            lease_owner: self.lease_owner.clone(),
            lease_expires_at_unix_millis: self.lease_expires_at_unix_millis,
            lease_attempt: self.lease_attempt,
            observed_refs: self.observed_refs.clone(),
            projection_observations: self.projection_observations.clone(),
            next_attempt_at_unix_millis: self.next_attempt_at_unix_millis,
            operation_deadline_unix_millis: self.operation_deadline_unix_millis,
            failure_count: self.failure_count,
            failure_kind: self.failure_kind.clone(),
            failure_message: self.failure_message.clone(),
            wake_failure_message: self.wake_failure_message.clone(),
            uncertain_effect: self.uncertain_effect.clone(),
        };
        assert(r.observed_refs.deep_view() =~= self.observed_refs.deep_view());
        assert(r.projection_observations.deep_view() =~= self.projection_observations.deep_view());
        assert(r.failure_message.deep_view() =~= self.failure_message.deep_view());
        assert(r.wake_failure_message.deep_view() =~= self.wake_failure_message.deep_view());
        assert(r.uncertain_effect.deep_view() =~= self.uncertain_effect.deep_view());
        r
    }
}

/// What became of a materialization that was given up.
#[derive(Debug, PartialEq, Eq)]
pub struct ForceDeleteMaterializationResponse {
    pub found: bool,
    pub materialization_id: String,
    pub observed_refs: Vec<RenderedObjectRef>,
    pub projection_observations: Vec<ProjectionObservation>,
}

/// What a [`ForceDeleteMaterializationResponse`] holds.
#[verifier::ext_equal]
pub struct ForceDeleteMaterializationResponseView {
    pub found: bool,
    pub materialization_id: Seq<char>,
    pub observed_refs: Seq<RenderedObjectRefView>,
    pub projection_observations: Seq<ProjectionObservationView>,
}

impl DeepView for ForceDeleteMaterializationResponse {
    type V = ForceDeleteMaterializationResponseView;

    open spec fn deep_view(&self) -> ForceDeleteMaterializationResponseView {
        ForceDeleteMaterializationResponseView {
            found: self.found.deep_view(),
            materialization_id: self.materialization_id.deep_view(),
            observed_refs: self.observed_refs.deep_view(),
            projection_observations: self.projection_observations.deep_view(),
        }
    }
}

impl Clone for ForceDeleteMaterializationResponse {
    fn clone(&self) -> (r: Self)
        ensures
            r.deep_view() == self.deep_view(),
    {
        let r = ForceDeleteMaterializationResponse {
            found: self.found,
            materialization_id: self.materialization_id.clone(),
            observed_refs: self.observed_refs.clone(),
            projection_observations: self.projection_observations.clone(),
        };
        assert(r.observed_refs.deep_view() =~= self.observed_refs.deep_view());
        assert(r.projection_observations.deep_view() =~= self.projection_observations.deep_view());
        r
    }
}

/// A chain of certificates, the leaf first, and its private key.
#[derive(Debug, PartialEq, Eq)]
pub struct CertificateBundle {
    pub chain_der: Vec<Vec<u8>>,
    pub private_key_pkcs8_der: Vec<u8>,
}

/// What a [`CertificateBundle`] holds.
#[verifier::ext_equal]
pub struct CertificateBundleView {
    pub chain_der: Seq<Seq<u8>>,
    pub private_key_pkcs8_der: Seq<u8>,
}

impl DeepView for CertificateBundle {
    type V = CertificateBundleView;

    open spec fn deep_view(&self) -> CertificateBundleView {
        CertificateBundleView {
            chain_der: self.chain_der.deep_view(),
            private_key_pkcs8_der: self.private_key_pkcs8_der.deep_view(),
        }
    }
}

impl Clone for CertificateBundle {
    fn clone(&self) -> (r: Self)
        ensures
            r.deep_view() == self.deep_view(),
    {
        let r = CertificateBundle {
            chain_der: self.chain_der.clone(),
            private_key_pkcs8_der: self.private_key_pkcs8_der.clone(),
        };
        assert(r.chain_der.deep_view() =~= self.chain_der.deep_view());
        assert(r.private_key_pkcs8_der.deep_view() =~= self.private_key_pkcs8_der.deep_view());
        r
    }
}

/// What is known of a certificate without its material.
#[derive(Debug, PartialEq, Eq)]
pub struct CertificateMetadata {
    pub certificate_id: String,
    pub version: u64,
    pub deleted: bool,
    pub not_before_unix_millis: i64,
    pub not_after_unix_millis: i64,
    pub dns_names: Vec<String>,
    pub leaf_sha256: Vec<u8>,
    pub sealing_key_id: Option<String>,
    pub sealing_revision: u64,
}

/// What a [`CertificateMetadata`] holds.
#[verifier::ext_equal]
pub struct CertificateMetadataView {
    pub certificate_id: Seq<char>,
    pub version: u64,
    pub deleted: bool,
    pub not_before_unix_millis: i64,
    pub not_after_unix_millis: i64,
    pub dns_names: Seq<Seq<char>>,
    pub leaf_sha256: Seq<u8>,
    pub sealing_key_id: Option<Seq<char>>,
    pub sealing_revision: u64,
}

impl DeepView for CertificateMetadata {
    type V = CertificateMetadataView;

    open spec fn deep_view(&self) -> CertificateMetadataView {
        CertificateMetadataView {
            certificate_id: self.certificate_id.deep_view(),
            version: self.version.deep_view(),
            deleted: self.deleted.deep_view(),
            not_before_unix_millis: self.not_before_unix_millis.deep_view(),
            not_after_unix_millis: self.not_after_unix_millis.deep_view(),
            dns_names: self.dns_names.deep_view(),
            leaf_sha256: self.leaf_sha256.deep_view(),
            sealing_key_id: self.sealing_key_id.deep_view(),
            sealing_revision: self.sealing_revision.deep_view(),
        }
    }
}

impl Clone for CertificateMetadata {
    fn clone(&self) -> (r: Self)
        ensures
            r.deep_view() == self.deep_view(),
    {
        let r = CertificateMetadata {
            certificate_id: self.certificate_id.clone(),
            version: self.version,
            deleted: self.deleted,
            not_before_unix_millis: self.not_before_unix_millis,
            not_after_unix_millis: self.not_after_unix_millis,
            dns_names: self.dns_names.clone(),
            leaf_sha256: self.leaf_sha256.clone(),
            sealing_key_id: self.sealing_key_id.clone(),
            sealing_revision: self.sealing_revision,
        };
        assert(r.dns_names.deep_view() =~= self.dns_names.deep_view());
        assert(r.leaf_sha256.deep_view() =~= self.leaf_sha256.deep_view());
        assert(r.sealing_key_id.deep_view() =~= self.sealing_key_id.deep_view());
        r
    }
}

/// The certificate that a host is bound to.
#[derive(Debug, PartialEq, Eq)]
pub struct TlsBinding {
    pub hostname: String,
    pub certificate_id: Option<String>,
    pub revision: u64,
}

/// What a [`TlsBinding`] holds.
#[verifier::ext_equal]
pub struct TlsBindingView {
    pub hostname: Seq<char>,
    pub certificate_id: Option<Seq<char>>,
    pub revision: u64,
}

impl DeepView for TlsBinding {
    type V = TlsBindingView;

    open spec fn deep_view(&self) -> TlsBindingView {
        TlsBindingView {
            hostname: self.hostname.deep_view(),
            certificate_id: self.certificate_id.deep_view(),
            revision: self.revision.deep_view(),
        }
    }
}

impl Clone for TlsBinding {
    fn clone(&self) -> (r: Self)
        ensures
            r.deep_view() == self.deep_view(),
    {
        let r = TlsBinding {
            hostname: self.hostname.clone(),
            certificate_id: self.certificate_id.clone(),
            revision: self.revision,
        };
        assert(r.certificate_id.deep_view() =~= self.certificate_id.deep_view());
        r
    }
}

/// Asks to store a certificate.
#[derive(Debug, PartialEq, Eq)]
pub struct PublishCertificateRequest {
    pub certificate_id: String,
    pub expected_version: Option<u64>,
    pub bundle: Option<CertificateBundle>,
}

/// What a [`PublishCertificateRequest`] holds.
#[verifier::ext_equal]
pub struct PublishCertificateRequestView {
    pub certificate_id: Seq<char>,
    pub expected_version: Option<u64>,
    pub bundle: Option<CertificateBundleView>,
}

impl DeepView for PublishCertificateRequest {
    type V = PublishCertificateRequestView;

    open spec fn deep_view(&self) -> PublishCertificateRequestView {
        PublishCertificateRequestView {
            certificate_id: self.certificate_id.deep_view(),
            expected_version: self.expected_version.deep_view(),
            bundle: self.bundle.deep_view(),
        }
    }
}

impl Clone for PublishCertificateRequest {
    fn clone(&self) -> (r: Self)
        ensures
            r.deep_view() == self.deep_view(),
    {
        let r = PublishCertificateRequest {
            certificate_id: self.certificate_id.clone(),
            expected_version: self.expected_version,
            bundle: self.bundle.clone(),
        };
        assert(r.bundle.deep_view() =~= self.bundle.deep_view());
        r
    }
}

/// Asks what is known of a certificate.
#[derive(Debug, PartialEq, Eq)]
pub struct GetCertificateMetadataRequest {
    pub certificate_id: String,
}

/// What a [`GetCertificateMetadataRequest`] holds.
#[verifier::ext_equal]
pub struct GetCertificateMetadataRequestView {
    pub certificate_id: Seq<char>,
}

impl DeepView for GetCertificateMetadataRequest {
    type V = GetCertificateMetadataRequestView;

    open spec fn deep_view(&self) -> GetCertificateMetadataRequestView {
        GetCertificateMetadataRequestView {
            certificate_id: self.certificate_id.deep_view(),
        }
    }
}

impl Clone for GetCertificateMetadataRequest {
    fn clone(&self) -> (r: Self)
        ensures
            r.deep_view() == self.deep_view(),
    {
        GetCertificateMetadataRequest {
            certificate_id: self.certificate_id.clone(),
        }
    }
}

/// Asks to bind a host to a certificate, or to none.
#[derive(Debug, PartialEq, Eq)]
pub struct SetTlsBindingRequest {
    pub hostname: String,
    pub expected_revision: Option<u64>,
    pub certificate_id: Option<String>,
}

/// What a [`SetTlsBindingRequest`] holds.
#[verifier::ext_equal]
pub struct SetTlsBindingRequestView {
    pub hostname: Seq<char>,
    pub expected_revision: Option<u64>,
    pub certificate_id: Option<Seq<char>>,
}

impl DeepView for SetTlsBindingRequest {
    type V = SetTlsBindingRequestView;

    open spec fn deep_view(&self) -> SetTlsBindingRequestView {
        SetTlsBindingRequestView {
            hostname: self.hostname.deep_view(),
            expected_revision: self.expected_revision.deep_view(),
            certificate_id: self.certificate_id.deep_view(),
        }
    }
}

impl Clone for SetTlsBindingRequest {
    fn clone(&self) -> (r: Self)
        ensures
            r.deep_view() == self.deep_view(),
    {
        let r = SetTlsBindingRequest {
            hostname: self.hostname.clone(),
            expected_revision: self.expected_revision,
            certificate_id: self.certificate_id.clone(),
        };
        assert(r.certificate_id.deep_view() =~= self.certificate_id.deep_view());
        r
    }
}

/// Asks what a host is bound to.
#[derive(Debug, PartialEq, Eq)]
pub struct GetTlsBindingRequest {
    pub hostname: String,
}

/// What a [`GetTlsBindingRequest`] holds.
#[verifier::ext_equal]
pub struct GetTlsBindingRequestView {
    pub hostname: Seq<char>,
}

impl DeepView for GetTlsBindingRequest {
    type V = GetTlsBindingRequestView;

    open spec fn deep_view(&self) -> GetTlsBindingRequestView {
        GetTlsBindingRequestView {
            hostname: self.hostname.deep_view(),
        }
    }
}

impl Clone for GetTlsBindingRequest {
    fn clone(&self) -> (r: Self)
        ensures
            r.deep_view() == self.deep_view(),
    {
        GetTlsBindingRequest {
            hostname: self.hostname.clone(),
        }
    }
}

/// Asks to delete a certificate.
#[derive(Debug, PartialEq, Eq)]
pub struct RemoveCertificateRequest {
    pub certificate_id: String,
    pub expected_version: Option<u64>,
}

/// What a [`RemoveCertificateRequest`] holds.
#[verifier::ext_equal]
pub struct RemoveCertificateRequestView {
    pub certificate_id: Seq<char>,
    pub expected_version: Option<u64>,
}

impl DeepView for RemoveCertificateRequest {
    type V = RemoveCertificateRequestView;

    open spec fn deep_view(&self) -> RemoveCertificateRequestView {
        RemoveCertificateRequestView {
            certificate_id: self.certificate_id.deep_view(),
            expected_version: self.expected_version.deep_view(),
        }
    }
}

impl Clone for RemoveCertificateRequest {
    fn clone(&self) -> (r: Self)
        ensures
            r.deep_view() == self.deep_view(),
    {
        RemoveCertificateRequest {
            certificate_id: self.certificate_id.clone(),
            expected_version: self.expected_version,
        }
    }
}

/// Asks to seal the private key of a certificate anew.
#[derive(Debug, PartialEq, Eq)]
pub struct ReencryptCertificateRequest {
    pub certificate_id: String,
    pub expected_version: Option<u64>,
    pub expected_sealing_revision: Option<u64>,
}

/// What a [`ReencryptCertificateRequest`] holds.
#[verifier::ext_equal]
pub struct ReencryptCertificateRequestView {
    pub certificate_id: Seq<char>,
    pub expected_version: Option<u64>,
    pub expected_sealing_revision: Option<u64>,
}

impl DeepView for ReencryptCertificateRequest {
    type V = ReencryptCertificateRequestView;

    open spec fn deep_view(&self) -> ReencryptCertificateRequestView {
        ReencryptCertificateRequestView {
            certificate_id: self.certificate_id.deep_view(),
            expected_version: self.expected_version.deep_view(),
            expected_sealing_revision: self.expected_sealing_revision.deep_view(),
        }
    }
}

impl Clone for ReencryptCertificateRequest {
    fn clone(&self) -> (r: Self)
        ensures
            r.deep_view() == self.deep_view(),
    {
        ReencryptCertificateRequest {
            certificate_id: self.certificate_id.clone(),
            expected_version: self.expected_version,
            expected_sealing_revision: self.expected_sealing_revision,
        }
    }
}

/// Asks for the certificate of a host.
#[derive(Debug, PartialEq, Eq)]
pub struct ResolveTlsCertificateRequest {
    pub server_name: String,
    pub known_view_revision: Option<u64>,
}

/// What a [`ResolveTlsCertificateRequest`] holds.
#[verifier::ext_equal]
pub struct ResolveTlsCertificateRequestView {
    pub server_name: Seq<char>,
    pub known_view_revision: Option<u64>,
}

impl DeepView for ResolveTlsCertificateRequest {
    type V = ResolveTlsCertificateRequestView;

    open spec fn deep_view(&self) -> ResolveTlsCertificateRequestView {
        ResolveTlsCertificateRequestView {
            server_name: self.server_name.deep_view(),
            known_view_revision: self.known_view_revision.deep_view(),
        }
    }
}

impl Clone for ResolveTlsCertificateRequest {
    fn clone(&self) -> (r: Self)
        ensures
            r.deep_view() == self.deep_view(),
    {
        ResolveTlsCertificateRequest {
            server_name: self.server_name.clone(),
            known_view_revision: self.known_view_revision,
        }
    }
}

/// A certificate with its material.
#[derive(Debug, PartialEq, Eq)]
pub struct FoundTlsCertificate {
    pub metadata: Option<CertificateMetadata>,
    pub bundle: Option<CertificateBundle>,
}

/// What a [`FoundTlsCertificate`] holds.
#[verifier::ext_equal]
pub struct FoundTlsCertificateView {
    pub metadata: Option<CertificateMetadataView>,
    pub bundle: Option<CertificateBundleView>,
}

impl DeepView for FoundTlsCertificate {
    type V = FoundTlsCertificateView;

    open spec fn deep_view(&self) -> FoundTlsCertificateView {
        FoundTlsCertificateView {
            metadata: self.metadata.deep_view(),
            bundle: self.bundle.deep_view(),
        }
    }
}

impl Clone for FoundTlsCertificate {
    fn clone(&self) -> (r: Self)
        ensures
            r.deep_view() == self.deep_view(),
    {
        let r = FoundTlsCertificate {
            metadata: self.metadata.clone(),
            bundle: self.bundle.clone(),
        };
        assert(r.metadata.deep_view() =~= self.metadata.deep_view());
        assert(r.bundle.deep_view() =~= self.bundle.deep_view());
        r
    }
}

/// The certificate of a host.
#[derive(Debug, PartialEq, Eq)]
pub enum ResolveTlsCertificateValue {
    Missing,
    Found(FoundTlsCertificate),
    Unchanged(CertificateMetadata),
}

/// What a [`ResolveTlsCertificateValue`] holds.
#[verifier::ext_equal]
pub enum ResolveTlsCertificateValueView {
    Missing,
    Found(FoundTlsCertificateView),
    Unchanged(CertificateMetadataView),
}

impl DeepView for ResolveTlsCertificateValue {
    type V = ResolveTlsCertificateValueView;

    open spec fn deep_view(&self) -> ResolveTlsCertificateValueView {
        match self {
            ResolveTlsCertificateValue::Missing => ResolveTlsCertificateValueView::Missing,
            ResolveTlsCertificateValue::Found(value) => ResolveTlsCertificateValueView::Found(
                value.deep_view(),
            ),
            ResolveTlsCertificateValue::Unchanged(value) => ResolveTlsCertificateValueView::Unchanged(
                value.deep_view(),
            ),
        }
    }
}

impl Clone for ResolveTlsCertificateValue {
    fn clone(&self) -> (r: Self)
        ensures
            r.deep_view() == self.deep_view(),
    {
        match self {
            ResolveTlsCertificateValue::Missing => ResolveTlsCertificateValue::Missing,
            ResolveTlsCertificateValue::Found(value) => ResolveTlsCertificateValue::Found(
                value.clone(),
            ),
            ResolveTlsCertificateValue::Unchanged(value) => ResolveTlsCertificateValue::Unchanged(
                value.clone(),
            ),
        }
    }
}

/// The certificate of a host, and for how long it may be used.
#[derive(Debug, PartialEq, Eq)]
pub struct ResolveTlsCertificateResponse {
    pub server_name: String,
    pub view_revision: u64,
    pub observed_at_unix_millis: i64,
    pub authorization_ttl_millis: u64,
    pub value: Option<ResolveTlsCertificateValue>,
}

/// What a [`ResolveTlsCertificateResponse`] holds.
#[verifier::ext_equal]
pub struct ResolveTlsCertificateResponseView {
    pub server_name: Seq<char>,
    pub view_revision: u64,
    pub observed_at_unix_millis: i64,
    pub authorization_ttl_millis: u64,
    pub value: Option<ResolveTlsCertificateValueView>,
}

impl DeepView for ResolveTlsCertificateResponse {
    type V = ResolveTlsCertificateResponseView;

    open spec fn deep_view(&self) -> ResolveTlsCertificateResponseView {
        ResolveTlsCertificateResponseView {
            server_name: self.server_name.deep_view(),
            view_revision: self.view_revision.deep_view(),
            observed_at_unix_millis: self.observed_at_unix_millis.deep_view(),
            authorization_ttl_millis: self.authorization_ttl_millis.deep_view(),
            value: self.value.deep_view(),
        }
    }
}

impl Clone for ResolveTlsCertificateResponse {
    fn clone(&self) -> (r: Self)
        ensures
            r.deep_view() == self.deep_view(),
    {
        let r = ResolveTlsCertificateResponse {
            server_name: self.server_name.clone(),
            view_revision: self.view_revision,
            observed_at_unix_millis: self.observed_at_unix_millis,
            authorization_ttl_millis: self.authorization_ttl_millis,
            value: self.value.clone(),
        };
        assert(r.value.deep_view() =~= self.value.deep_view());
        r
    }
}

/// Asks to be told of changes to hosts.
#[derive(Debug, PartialEq, Eq)]
pub struct WatchTlsCertificatesRequest {
    pub registration: u64,
    pub hostnames: Vec<String>,
}

/// What a [`WatchTlsCertificatesRequest`] holds.
#[verifier::ext_equal]
pub struct WatchTlsCertificatesRequestView {
    pub registration: u64,
    pub hostnames: Seq<Seq<char>>,
}

impl DeepView for WatchTlsCertificatesRequest {
    type V = WatchTlsCertificatesRequestView;

    open spec fn deep_view(&self) -> WatchTlsCertificatesRequestView {
        WatchTlsCertificatesRequestView {
            registration: self.registration.deep_view(),
            hostnames: self.hostnames.deep_view(),
        }
    }
}

impl Clone for WatchTlsCertificatesRequest {
    fn clone(&self) -> (r: Self)
        ensures
            r.deep_view() == self.deep_view(),
    {
        let r = WatchTlsCertificatesRequest {
            registration: self.registration,
            hostnames: self.hostnames.clone(),
        };
        assert(r.hostnames.deep_view() =~= self.hostnames.deep_view());
        r
    }
}

/// The bindings of the hosts of a registration.
#[derive(Debug, PartialEq, Eq)]
pub struct TlsCertificateSnapshot {
    pub registration: u64,
    pub cursor: u64,
    pub bindings: Vec<TlsBinding>,
}

/// What a [`TlsCertificateSnapshot`] holds.
#[verifier::ext_equal]
pub struct TlsCertificateSnapshotView {
    pub registration: u64,
    pub cursor: u64,
    pub bindings: Seq<TlsBindingView>,
}

impl DeepView for TlsCertificateSnapshot {
    type V = TlsCertificateSnapshotView;

    open spec fn deep_view(&self) -> TlsCertificateSnapshotView {
        TlsCertificateSnapshotView {
            registration: self.registration.deep_view(),
            cursor: self.cursor.deep_view(),
            bindings: self.bindings.deep_view(),
        }
    }
}

impl Clone for TlsCertificateSnapshot {
    fn clone(&self) -> (r: Self)
        ensures
            r.deep_view() == self.deep_view(),
    {
        let r = TlsCertificateSnapshot {
            registration: self.registration,
            cursor: self.cursor,
            bindings: self.bindings.clone(),
        };
        assert(r.bindings.deep_view() =~= self.bindings.deep_view());
        r
    }
}

/// A change to a host.
#[derive(Debug, PartialEq, Eq)]
pub struct TlsCertificateEvent {
    pub hostname: String,
    pub view_revision: u64,
    pub certificate_id: Option<String>,
    pub invalidate: bool,
}

/// What a [`TlsCertificateEvent`] holds.
#[verifier::ext_equal]
pub struct TlsCertificateEventView {
    pub hostname: Seq<char>,
    pub view_revision: u64,
    pub certificate_id: Option<Seq<char>>,
    pub invalidate: bool,
}

impl DeepView for TlsCertificateEvent {
    type V = TlsCertificateEventView;

    open spec fn deep_view(&self) -> TlsCertificateEventView {
        TlsCertificateEventView {
            hostname: self.hostname.deep_view(),
            view_revision: self.view_revision.deep_view(),
            certificate_id: self.certificate_id.deep_view(),
            invalidate: self.invalidate.deep_view(),
        }
    }
}

impl Clone for TlsCertificateEvent {
    fn clone(&self) -> (r: Self)
        ensures
            r.deep_view() == self.deep_view(),
    {
        let r = TlsCertificateEvent {
            hostname: self.hostname.clone(),
            view_revision: self.view_revision,
            certificate_id: self.certificate_id.clone(),
            invalidate: self.invalidate,
        };
        assert(r.certificate_id.deep_view() =~= self.certificate_id.deep_view());
        r
    }
}

/// Changes to hosts.
#[derive(Debug, PartialEq, Eq)]
pub struct TlsCertificateChanges {
    pub cursor: u64,
    pub events: Vec<TlsCertificateEvent>,
}

/// What a [`TlsCertificateChanges`] holds.
#[verifier::ext_equal]
pub struct TlsCertificateChangesView {
    pub cursor: u64,
    pub events: Seq<TlsCertificateEventView>,
}

impl DeepView for TlsCertificateChanges {
    type V = TlsCertificateChangesView;

    open spec fn deep_view(&self) -> TlsCertificateChangesView {
        TlsCertificateChangesView {
            cursor: self.cursor.deep_view(),
            events: self.events.deep_view(),
        }
    }
}

impl Clone for TlsCertificateChanges {
    fn clone(&self) -> (r: Self)
        ensures
            r.deep_view() == self.deep_view(),
    {
        let r = TlsCertificateChanges {
            cursor: self.cursor,
            events: self.events.clone(),
        };
        assert(r.events.deep_view() =~= self.events.deep_view());
        r
    }
}

/// Changes were lost.
#[derive(Debug, PartialEq, Eq)]
pub struct TlsCertificateReset {
    pub cursor: u64,
}

/// What a [`TlsCertificateReset`] holds.
#[verifier::ext_equal]
pub struct TlsCertificateResetView {
    pub cursor: u64,
}

impl DeepView for TlsCertificateReset {
    type V = TlsCertificateResetView;

    open spec fn deep_view(&self) -> TlsCertificateResetView {
        TlsCertificateResetView {
            cursor: self.cursor.deep_view(),
        }
    }
}

impl Clone for TlsCertificateReset {
    fn clone(&self) -> (r: Self)
        ensures
            r.deep_view() == self.deep_view(),
    {
        TlsCertificateReset {
            cursor: self.cursor,
        }
    }
}

/// What a watch tells.
#[derive(Debug, PartialEq, Eq)]
pub enum WatchTlsCertificatesValue {
    Snapshot(TlsCertificateSnapshot),
    Changes(TlsCertificateChanges),
    Reset(TlsCertificateReset),
}

/// What a [`WatchTlsCertificatesValue`] holds.
#[verifier::ext_equal]
pub enum WatchTlsCertificatesValueView {
    Snapshot(TlsCertificateSnapshotView),
    Changes(TlsCertificateChangesView),
    Reset(TlsCertificateResetView),
}

impl DeepView for WatchTlsCertificatesValue {
    type V = WatchTlsCertificatesValueView;

    open spec fn deep_view(&self) -> WatchTlsCertificatesValueView {
        match self {
            WatchTlsCertificatesValue::Snapshot(value) => WatchTlsCertificatesValueView::Snapshot(
                value.deep_view(),
            ),
            WatchTlsCertificatesValue::Changes(value) => WatchTlsCertificatesValueView::Changes(
                value.deep_view(),
            ),
            WatchTlsCertificatesValue::Reset(value) => WatchTlsCertificatesValueView::Reset(
                value.deep_view(),
            ),
        }
    }
}

impl Clone for WatchTlsCertificatesValue {
    fn clone(&self) -> (r: Self)
        ensures
            r.deep_view() == self.deep_view(),
    {
        match self {
            WatchTlsCertificatesValue::Snapshot(value) => WatchTlsCertificatesValue::Snapshot(
                value.clone(),
            ),
            WatchTlsCertificatesValue::Changes(value) => WatchTlsCertificatesValue::Changes(
                value.clone(),
            ),
            WatchTlsCertificatesValue::Reset(value) => WatchTlsCertificatesValue::Reset(
                value.clone(),
            ),
        }
    }
}

/// What a watch tells.
#[derive(Debug, PartialEq, Eq)]
pub struct WatchTlsCertificatesResponse {
    pub value: Option<WatchTlsCertificatesValue>,
}

/// What a [`WatchTlsCertificatesResponse`] holds.
#[verifier::ext_equal]
pub struct WatchTlsCertificatesResponseView {
    pub value: Option<WatchTlsCertificatesValueView>,
}

impl DeepView for WatchTlsCertificatesResponse {
    type V = WatchTlsCertificatesResponseView;

    open spec fn deep_view(&self) -> WatchTlsCertificatesResponseView {
        WatchTlsCertificatesResponseView {
            value: self.value.deep_view(),
        }
    }
}

impl Clone for WatchTlsCertificatesResponse {
    fn clone(&self) -> (r: Self)
        ensures
            r.deep_view() == self.deep_view(),
    {
        let r = WatchTlsCertificatesResponse {
            value: self.value.clone(),
        };
        assert(r.value.deep_view() =~= self.value.deep_view());
        r
    }
}

/// Asks to wake an instance.
#[derive(Debug, PartialEq, Eq)]
pub struct ProxyWakeInstanceRequest {
    pub instance_id: String,
    pub expected_generation: u64,
    pub backend_generation: Option<u64>,
}

/// What a [`ProxyWakeInstanceRequest`] holds.
#[verifier::ext_equal]
pub struct ProxyWakeInstanceRequestView {
    pub instance_id: Seq<char>,
    pub expected_generation: u64,
    pub backend_generation: Option<u64>,
}

impl DeepView for ProxyWakeInstanceRequest {
    type V = ProxyWakeInstanceRequestView;

    open spec fn deep_view(&self) -> ProxyWakeInstanceRequestView {
        ProxyWakeInstanceRequestView {
            instance_id: self.instance_id.deep_view(),
            expected_generation: self.expected_generation.deep_view(),
            backend_generation: self.backend_generation.deep_view(),
        }
    }
}

impl Clone for ProxyWakeInstanceRequest {
    fn clone(&self) -> (r: Self)
        ensures
            r.deep_view() == self.deep_view(),
    {
        ProxyWakeInstanceRequest {
            instance_id: self.instance_id.clone(),
            expected_generation: self.expected_generation,
            backend_generation: self.backend_generation,
        }
    }
}

/// The instance is awake.
#[derive(Debug, PartialEq, Eq)]
pub struct ProxyWakeReadyResult {
    pub instance_id: String,
    pub instance_generation: u64,
    pub backend_uri: String,
    pub backend_generation: u64,
}

/// What a [`ProxyWakeReadyResult`] holds.
#[verifier::ext_equal]
pub struct ProxyWakeReadyResultView {
    pub instance_id: Seq<char>,
    pub instance_generation: u64,
    pub backend_uri: Seq<char>,
    pub backend_generation: u64,
}

impl DeepView for ProxyWakeReadyResult {
    type V = ProxyWakeReadyResultView;

    open spec fn deep_view(&self) -> ProxyWakeReadyResultView {
        ProxyWakeReadyResultView {
            instance_id: self.instance_id.deep_view(),
            instance_generation: self.instance_generation.deep_view(),
            backend_uri: self.backend_uri.deep_view(),
            backend_generation: self.backend_generation.deep_view(),
        }
    }
}

impl Clone for ProxyWakeReadyResult {
    fn clone(&self) -> (r: Self)
        ensures
            r.deep_view() == self.deep_view(),
    {
        ProxyWakeReadyResult {
            instance_id: self.instance_id.clone(),
            instance_generation: self.instance_generation,
            backend_uri: self.backend_uri.clone(),
            backend_generation: self.backend_generation,
        }
    }
}

/// The instance is waking.
#[derive(Debug, PartialEq, Eq)]
pub struct ProxyWakeStillWakingResult {
    pub instance_id: String,
    pub instance_generation: u64,
}

/// What a [`ProxyWakeStillWakingResult`] holds.
#[verifier::ext_equal]
pub struct ProxyWakeStillWakingResultView {
    pub instance_id: Seq<char>,
    pub instance_generation: u64,
}

impl DeepView for ProxyWakeStillWakingResult {
    type V = ProxyWakeStillWakingResultView;

    open spec fn deep_view(&self) -> ProxyWakeStillWakingResultView {
        ProxyWakeStillWakingResultView {
            instance_id: self.instance_id.deep_view(),
            instance_generation: self.instance_generation.deep_view(),
        }
    }
}

impl Clone for ProxyWakeStillWakingResult {
    fn clone(&self) -> (r: Self)
        ensures
            r.deep_view() == self.deep_view(),
    {
        ProxyWakeStillWakingResult {
            instance_id: self.instance_id.clone(),
            instance_generation: self.instance_generation,
        }
    }
}

/// The instance has another generation.
#[derive(Debug, PartialEq, Eq)]
pub struct ProxyWakeGenerationConflictResult {
    pub instance_id: String,
    pub expected_generation: u64,
    pub actual_generation: u64,
}

/// What a [`ProxyWakeGenerationConflictResult`] holds.
#[verifier::ext_equal]
pub struct ProxyWakeGenerationConflictResultView {
    pub instance_id: Seq<char>,
    pub expected_generation: u64,
    pub actual_generation: u64,
}

impl DeepView for ProxyWakeGenerationConflictResult {
    type V = ProxyWakeGenerationConflictResultView;

    open spec fn deep_view(&self) -> ProxyWakeGenerationConflictResultView {
        ProxyWakeGenerationConflictResultView {
            instance_id: self.instance_id.deep_view(),
            expected_generation: self.expected_generation.deep_view(),
            actual_generation: self.actual_generation.deep_view(),
        }
    }
}

impl Clone for ProxyWakeGenerationConflictResult {
    fn clone(&self) -> (r: Self)
        ensures
            r.deep_view() == self.deep_view(),
    {
        ProxyWakeGenerationConflictResult {
            instance_id: self.instance_id.clone(),
            expected_generation: self.expected_generation,
            actual_generation: self.actual_generation,
        }
    }
}

/// Why an instance cannot be woken.
#[derive(Clone, Copy, Debug, PartialEq, Eq, Structural)]
pub enum ProxyWakeUnavailableReason {
    Unspecified,
    Deleting,
    Deleted,
    Unrecognized,
}

impl DeepView for ProxyWakeUnavailableReason {
    type V = ProxyWakeUnavailableReason;

    open spec fn deep_view(&self) -> ProxyWakeUnavailableReason {
        *self
    }
}

/// The instance cannot be woken.
#[derive(Debug, PartialEq, Eq)]
pub struct ProxyWakeUnavailableResult {
    pub instance_id: String,
    pub instance_generation: u64,
    pub reason: ProxyWakeUnavailableReason,
}

/// What a [`ProxyWakeUnavailableResult`] holds.
#[verifier::ext_equal]
pub struct ProxyWakeUnavailableResultView {
    pub instance_id: Seq<char>,
    pub instance_generation: u64,
    pub reason: ProxyWakeUnavailableReason,
}

impl DeepView for ProxyWakeUnavailableResult {
    type V = ProxyWakeUnavailableResultView;

    open spec fn deep_view(&self) -> ProxyWakeUnavailableResultView {
        ProxyWakeUnavailableResultView {
            instance_id: self.instance_id.deep_view(),
            instance_generation: self.instance_generation.deep_view(),
            reason: self.reason.deep_view(),
        }
    }
}

impl Clone for ProxyWakeUnavailableResult {
    fn clone(&self) -> (r: Self)
        ensures
            r.deep_view() == self.deep_view(),
    {
        ProxyWakeUnavailableResult {
            instance_id: self.instance_id.clone(),
            instance_generation: self.instance_generation,
            reason: self.reason,
        }
    }
}

/// What became of waking an instance.
#[derive(Debug, PartialEq, Eq)]
pub enum ProxyWakeOutcome {
    Ready(ProxyWakeReadyResult),
    StillWaking(ProxyWakeStillWakingResult),
    GenerationConflict(ProxyWakeGenerationConflictResult),
    Unavailable(ProxyWakeUnavailableResult),
}

/// What a [`ProxyWakeOutcome`] holds.
#[verifier::ext_equal]
pub enum ProxyWakeOutcomeView {
    Ready(ProxyWakeReadyResultView),
    StillWaking(ProxyWakeStillWakingResultView),
    GenerationConflict(ProxyWakeGenerationConflictResultView),
    Unavailable(ProxyWakeUnavailableResultView),
}

impl DeepView for ProxyWakeOutcome {
    type V = ProxyWakeOutcomeView;

    open spec fn deep_view(&self) -> ProxyWakeOutcomeView {
        match self {
            ProxyWakeOutcome::Ready(value) => ProxyWakeOutcomeView::Ready(value.deep_view()),
            ProxyWakeOutcome::StillWaking(value) => ProxyWakeOutcomeView::StillWaking(
                value.deep_view(),
            ),
            ProxyWakeOutcome::GenerationConflict(value) => ProxyWakeOutcomeView::GenerationConflict(
                value.deep_view(),
            ),
            ProxyWakeOutcome::Unavailable(value) => ProxyWakeOutcomeView::Unavailable(
                value.deep_view(),
            ),
        }
    }
}

impl Clone for ProxyWakeOutcome {
    fn clone(&self) -> (r: Self)
        ensures
            r.deep_view() == self.deep_view(),
    {
        match self {
            ProxyWakeOutcome::Ready(value) => ProxyWakeOutcome::Ready(value.clone()),
            ProxyWakeOutcome::StillWaking(value) => ProxyWakeOutcome::StillWaking(value.clone()),
            ProxyWakeOutcome::GenerationConflict(value) => ProxyWakeOutcome::GenerationConflict(
                value.clone(),
            ),
            ProxyWakeOutcome::Unavailable(value) => ProxyWakeOutcome::Unavailable(value.clone()),
        }
    }
}

/// What became of waking an instance.
#[derive(Debug, PartialEq, Eq)]
pub struct ProxyWakeInstanceResponse {
    pub outcome: Option<ProxyWakeOutcome>,
}

/// What a [`ProxyWakeInstanceResponse`] holds.
#[verifier::ext_equal]
pub struct ProxyWakeInstanceResponseView {
    pub outcome: Option<ProxyWakeOutcomeView>,
}

impl DeepView for ProxyWakeInstanceResponse {
    type V = ProxyWakeInstanceResponseView;

    open spec fn deep_view(&self) -> ProxyWakeInstanceResponseView {
        ProxyWakeInstanceResponseView {
            outcome: self.outcome.deep_view(),
        }
    }
}

impl Clone for ProxyWakeInstanceResponse {
    fn clone(&self) -> (r: Self)
        ensures
            r.deep_view() == self.deep_view(),
    {
        let r = ProxyWakeInstanceResponse {
            outcome: self.outcome.clone(),
        };
        assert(r.outcome.deep_view() =~= self.outcome.deep_view());
        r
    }
}

/// Asks for a route, and to be told when it changes.
#[derive(Debug, PartialEq, Eq)]
pub struct ProxySubscribeRouteRequest {
    pub request_id: String,
    pub identity: Option<RouteIdentity>,
}

/// What a [`ProxySubscribeRouteRequest`] holds.
#[verifier::ext_equal]
pub struct ProxySubscribeRouteRequestView {
    pub request_id: Seq<char>,
    pub identity: Option<RouteIdentityView>,
}

impl DeepView for ProxySubscribeRouteRequest {
    type V = ProxySubscribeRouteRequestView;

    open spec fn deep_view(&self) -> ProxySubscribeRouteRequestView {
        ProxySubscribeRouteRequestView {
            request_id: self.request_id.deep_view(),
            identity: self.identity.deep_view(),
        }
    }
}

impl Clone for ProxySubscribeRouteRequest {
    fn clone(&self) -> (r: Self)
        ensures
            r.deep_view() == self.deep_view(),
    {
        let r = ProxySubscribeRouteRequest {
            request_id: self.request_id.clone(),
            identity: self.identity.clone(),
        };
        assert(r.identity.deep_view() =~= self.identity.deep_view());
        r
    }
}

/// Asks to be told no more of a route.
#[derive(Debug, PartialEq, Eq)]
pub struct ProxyUnsubscribeRequest {
    pub subscription_id: String,
}

/// What a [`ProxyUnsubscribeRequest`] holds.
#[verifier::ext_equal]
pub struct ProxyUnsubscribeRequestView {
    pub subscription_id: Seq<char>,
}

impl DeepView for ProxyUnsubscribeRequest {
    type V = ProxyUnsubscribeRequestView;

    open spec fn deep_view(&self) -> ProxyUnsubscribeRequestView {
        ProxyUnsubscribeRequestView {
            subscription_id: self.subscription_id.deep_view(),
        }
    }
}

impl Clone for ProxyUnsubscribeRequest {
    fn clone(&self) -> (r: Self)
        ensures
            r.deep_view() == self.deep_view(),
    {
        ProxyUnsubscribeRequest {
            subscription_id: self.subscription_id.clone(),
        }
    }
}

/// What a proxy asks.
#[derive(Debug, PartialEq, Eq)]
pub enum ProxySubscribeInput {
    SubscribeRoute(ProxySubscribeRouteRequest),
    Unsubscribe(ProxyUnsubscribeRequest),
}

/// What a [`ProxySubscribeInput`] holds.
#[verifier::ext_equal]
pub enum ProxySubscribeInputView {
    SubscribeRoute(ProxySubscribeRouteRequestView),
    Unsubscribe(ProxyUnsubscribeRequestView),
}

impl DeepView for ProxySubscribeInput {
    type V = ProxySubscribeInputView;

    open spec fn deep_view(&self) -> ProxySubscribeInputView {
        match self {
            ProxySubscribeInput::SubscribeRoute(value) => ProxySubscribeInputView::SubscribeRoute(
                value.deep_view(),
            ),
            ProxySubscribeInput::Unsubscribe(value) => ProxySubscribeInputView::Unsubscribe(
                value.deep_view(),
            ),
        }
    }
}

impl Clone for ProxySubscribeInput {
    fn clone(&self) -> (r: Self)
        ensures
            r.deep_view() == self.deep_view(),
    {
        match self {
            ProxySubscribeInput::SubscribeRoute(value) => ProxySubscribeInput::SubscribeRoute(
                value.clone(),
            ),
            ProxySubscribeInput::Unsubscribe(value) => ProxySubscribeInput::Unsubscribe(
                value.clone(),
            ),
        }
    }
}

/// What a proxy asks.
#[derive(Debug, PartialEq, Eq)]
pub struct ProxySubscribeRequest {
    pub input: Option<ProxySubscribeInput>,
}

/// What a [`ProxySubscribeRequest`] holds.
#[verifier::ext_equal]
pub struct ProxySubscribeRequestView {
    pub input: Option<ProxySubscribeInputView>,
}

impl DeepView for ProxySubscribeRequest {
    type V = ProxySubscribeRequestView;

    open spec fn deep_view(&self) -> ProxySubscribeRequestView {
        ProxySubscribeRequestView {
            input: self.input.deep_view(),
        }
    }
}

impl Clone for ProxySubscribeRequest {
    fn clone(&self) -> (r: Self)
        ensures
            r.deep_view() == self.deep_view(),
    {
        let r = ProxySubscribeRequest {
            input: self.input.clone(),
        };
        assert(r.input.deep_view() =~= self.input.deep_view());
        r
    }
}

/// Where a route leads.
#[derive(Debug, PartialEq, Eq)]
pub struct ProxyRouteEntry {
    pub route_binding_id: String,
    pub instance_id: String,
    pub instance_state: InstanceState,
    pub instance_generation: u64,
    pub backend_uri: Option<String>,
    pub backend_generation: Option<u64>,
}

/// What a [`ProxyRouteEntry`] holds.
#[verifier::ext_equal]
pub struct ProxyRouteEntryView {
    pub route_binding_id: Seq<char>,
    pub instance_id: Seq<char>,
    pub instance_state: InstanceState,
    pub instance_generation: u64,
    pub backend_uri: Option<Seq<char>>,
    pub backend_generation: Option<u64>,
}

impl DeepView for ProxyRouteEntry {
    type V = ProxyRouteEntryView;

    open spec fn deep_view(&self) -> ProxyRouteEntryView {
        ProxyRouteEntryView {
            route_binding_id: self.route_binding_id.deep_view(),
            instance_id: self.instance_id.deep_view(),
            instance_state: self.instance_state.deep_view(),
            instance_generation: self.instance_generation.deep_view(),
            backend_uri: self.backend_uri.deep_view(),
            backend_generation: self.backend_generation.deep_view(),
        }
    }
}

impl Clone for ProxyRouteEntry {
    fn clone(&self) -> (r: Self)
        ensures
            r.deep_view() == self.deep_view(),
    {
        let r = ProxyRouteEntry {
            route_binding_id: self.route_binding_id.clone(),
            instance_id: self.instance_id.clone(),
            instance_state: self.instance_state,
            instance_generation: self.instance_generation,
            backend_uri: self.backend_uri.clone(),
            backend_generation: self.backend_generation,
        };
        assert(r.backend_uri.deep_view() =~= self.backend_uri.deep_view());
        r
    }
}

/// For how long an answer may be kept.
#[derive(Debug, PartialEq, Eq)]
pub struct ProxyCachePolicy {
    pub ttl_millis: u64,
}

/// What a [`ProxyCachePolicy`] holds.
#[verifier::ext_equal]
pub struct ProxyCachePolicyView {
    pub ttl_millis: u64,
}

impl DeepView for ProxyCachePolicy {
    type V = ProxyCachePolicyView;

    open spec fn deep_view(&self) -> ProxyCachePolicyView {
        ProxyCachePolicyView {
            ttl_millis: self.ttl_millis.deep_view(),
        }
    }
}

impl Clone for ProxyCachePolicy {
    fn clone(&self) -> (r: Self)
        ensures
            r.deep_view() == self.deep_view(),
    {
        ProxyCachePolicy {
            ttl_millis: self.ttl_millis,
        }
    }
}

/// A route was found.
#[derive(Debug, PartialEq, Eq)]
pub struct ProxyRouteResolvedResponse {
    pub request_id: String,
    pub subscription_id: String,
    pub matched_identity: Option<RouteIdentity>,
    pub route: Option<ProxyRouteEntry>,
    pub cache_policy: Option<ProxyCachePolicy>,
}

/// What a [`ProxyRouteResolvedResponse`] holds.
#[verifier::ext_equal]
pub struct ProxyRouteResolvedResponseView {
    pub request_id: Seq<char>,
    pub subscription_id: Seq<char>,
    pub matched_identity: Option<RouteIdentityView>,
    pub route: Option<ProxyRouteEntryView>,
    pub cache_policy: Option<ProxyCachePolicyView>,
}

impl DeepView for ProxyRouteResolvedResponse {
    type V = ProxyRouteResolvedResponseView;

    open spec fn deep_view(&self) -> ProxyRouteResolvedResponseView {
        ProxyRouteResolvedResponseView {
            request_id: self.request_id.deep_view(),
            subscription_id: self.subscription_id.deep_view(),
            matched_identity: self.matched_identity.deep_view(),
            route: self.route.deep_view(),
            cache_policy: self.cache_policy.deep_view(),
        }
    }
}

impl Clone for ProxyRouteResolvedResponse {
    fn clone(&self) -> (r: Self)
        ensures
            r.deep_view() == self.deep_view(),
    {
        let r = ProxyRouteResolvedResponse {
            request_id: self.request_id.clone(),
            subscription_id: self.subscription_id.clone(),
            matched_identity: self.matched_identity.clone(),
            route: self.route.clone(),
            cache_policy: self.cache_policy.clone(),
        };
        assert(r.matched_identity.deep_view() =~= self.matched_identity.deep_view());
        assert(r.route.deep_view() =~= self.route.deep_view());
        assert(r.cache_policy.deep_view() =~= self.cache_policy.deep_view());
        r
    }
}

/// No route was found.
#[derive(Debug, PartialEq, Eq)]
pub struct ProxyRouteMissResponse {
    pub request_id: String,
    pub request_identity: Option<RouteIdentity>,
    pub negative_cache_policy: Option<ProxyCachePolicy>,
}

/// What a [`ProxyRouteMissResponse`] holds.
#[verifier::ext_equal]
pub struct ProxyRouteMissResponseView {
    pub request_id: Seq<char>,
    pub request_identity: Option<RouteIdentityView>,
    pub negative_cache_policy: Option<ProxyCachePolicyView>,
}

impl DeepView for ProxyRouteMissResponse {
    type V = ProxyRouteMissResponseView;

    open spec fn deep_view(&self) -> ProxyRouteMissResponseView {
        ProxyRouteMissResponseView {
            request_id: self.request_id.deep_view(),
            request_identity: self.request_identity.deep_view(),
            negative_cache_policy: self.negative_cache_policy.deep_view(),
        }
    }
}

impl Clone for ProxyRouteMissResponse {
    fn clone(&self) -> (r: Self)
        ensures
            r.deep_view() == self.deep_view(),
    {
        let r = ProxyRouteMissResponse {
            request_id: self.request_id.clone(),
            request_identity: self.request_identity.clone(),
            negative_cache_policy: self.negative_cache_policy.clone(),
        };
        assert(r.request_identity.deep_view() =~= self.request_identity.deep_view());
        assert(r.negative_cache_policy.deep_view() =~= self.negative_cache_policy.deep_view());
        r
    }
}

/// Why a route may be used no more.
#[derive(Clone, Copy, Debug, PartialEq, Eq, Structural)]
pub enum ProxyRouteInvalidationReason {
    Unspecified,
    RouteRemoved,
    RouteChanged,
    Unrecognized,
}

impl DeepView for ProxyRouteInvalidationReason {
    type V = ProxyRouteInvalidationReason;

    open spec fn deep_view(&self) -> ProxyRouteInvalidationReason {
        *self
    }
}

/// A route may be used no more.
#[derive(Debug, PartialEq, Eq)]
pub struct ProxyRouteInvalidatedResponse {
    pub subscription_id: String,
    pub reason: ProxyRouteInvalidationReason,
}

/// What a [`ProxyRouteInvalidatedResponse`] holds.
#[verifier::ext_equal]
pub struct ProxyRouteInvalidatedResponseView {
    pub subscription_id: Seq<char>,
    pub reason: ProxyRouteInvalidationReason,
}

impl DeepView for ProxyRouteInvalidatedResponse {
    type V = ProxyRouteInvalidatedResponseView;

    open spec fn deep_view(&self) -> ProxyRouteInvalidatedResponseView {
        ProxyRouteInvalidatedResponseView {
            subscription_id: self.subscription_id.deep_view(),
            reason: self.reason.deep_view(),
        }
    }
}

impl Clone for ProxyRouteInvalidatedResponse {
    fn clone(&self) -> (r: Self)
        ensures
            r.deep_view() == self.deep_view(),
    {
        ProxyRouteInvalidatedResponse {
            subscription_id: self.subscription_id.clone(),
            reason: self.reason,
        }
    }
}

/// What a proxy is told.
#[derive(Debug, PartialEq, Eq)]
pub enum ProxySubscribeOutput {
    RouteResolved(ProxyRouteResolvedResponse),
    RouteMiss(ProxyRouteMissResponse),
    RouteInvalidated(ProxyRouteInvalidatedResponse),
}

/// What a [`ProxySubscribeOutput`] holds.
#[verifier::ext_equal]
pub enum ProxySubscribeOutputView {
    RouteResolved(ProxyRouteResolvedResponseView),
    RouteMiss(ProxyRouteMissResponseView),
    RouteInvalidated(ProxyRouteInvalidatedResponseView),
}

impl DeepView for ProxySubscribeOutput {
    type V = ProxySubscribeOutputView;

    open spec fn deep_view(&self) -> ProxySubscribeOutputView {
        match self {
            ProxySubscribeOutput::RouteResolved(value) => ProxySubscribeOutputView::RouteResolved(
                value.deep_view(),
            ),
            ProxySubscribeOutput::RouteMiss(value) => ProxySubscribeOutputView::RouteMiss(
                value.deep_view(),
            ),
            ProxySubscribeOutput::RouteInvalidated(value) => ProxySubscribeOutputView::RouteInvalidated(
                value.deep_view(),
            ),
        }
    }
}

impl Clone for ProxySubscribeOutput {
    fn clone(&self) -> (r: Self)
        ensures
            r.deep_view() == self.deep_view(),
    {
        match self {
            ProxySubscribeOutput::RouteResolved(value) => ProxySubscribeOutput::RouteResolved(
                value.clone(),
            ),
            ProxySubscribeOutput::RouteMiss(value) => ProxySubscribeOutput::RouteMiss(
                value.clone(),
            ),
            ProxySubscribeOutput::RouteInvalidated(value) => ProxySubscribeOutput::RouteInvalidated(
                value.clone(),
            ),
        }
    }
}

/// What a proxy is told.
#[derive(Debug, PartialEq, Eq)]
pub struct ProxySubscribeResponse {
    pub output: Option<ProxySubscribeOutput>,
}

/// What a [`ProxySubscribeResponse`] holds.
#[verifier::ext_equal]
pub struct ProxySubscribeResponseView {
    pub output: Option<ProxySubscribeOutputView>,
}

impl DeepView for ProxySubscribeResponse {
    type V = ProxySubscribeResponseView;

    open spec fn deep_view(&self) -> ProxySubscribeResponseView {
        ProxySubscribeResponseView {
            output: self.output.deep_view(),
        }
    }
}

impl Clone for ProxySubscribeResponse {
    fn clone(&self) -> (r: Self)
        ensures
            r.deep_view() == self.deep_view(),
    {
        let r = ProxySubscribeResponse {
            output: self.output.clone(),
        };
        assert(r.output.deep_view() =~= self.output.deep_view());
        r
    }
}

/// Reports that an instance is idle.
#[derive(Debug, PartialEq, Eq)]
pub struct SidecarReportIdleRequest {
    pub instance_id: String,
    pub expected_generation: u64,
    pub active_count: u64,
    pub pod_uid: String,
}

/// What a [`SidecarReportIdleRequest`] holds.
#[verifier::ext_equal]
pub struct SidecarReportIdleRequestView {
    pub instance_id: Seq<char>,
    pub expected_generation: u64,
    pub active_count: u64,
    pub pod_uid: Seq<char>,
}

impl DeepView for SidecarReportIdleRequest {
    type V = SidecarReportIdleRequestView;

    open spec fn deep_view(&self) -> SidecarReportIdleRequestView {
        SidecarReportIdleRequestView {
            instance_id: self.instance_id.deep_view(),
            expected_generation: self.expected_generation.deep_view(),
            active_count: self.active_count.deep_view(),
            pod_uid: self.pod_uid.deep_view(),
        }
    }
}

impl Clone for SidecarReportIdleRequest {
    fn clone(&self) -> (r: Self)
        ensures
            r.deep_view() == self.deep_view(),
    {
        SidecarReportIdleRequest {
            instance_id: self.instance_id.clone(),
            expected_generation: self.expected_generation,
            active_count: self.active_count,
            pod_uid: self.pod_uid.clone(),
        }
    }
}

/// The instance goes to sleep.
#[derive(Debug, PartialEq, Eq)]
pub struct SidecarReportIdleAccepted {
    pub instance_id: String,
    pub instance_generation: u64,
}

/// What a [`SidecarReportIdleAccepted`] holds.
#[verifier::ext_equal]
pub struct SidecarReportIdleAcceptedView {
    pub instance_id: Seq<char>,
    pub instance_generation: u64,
}

impl DeepView for SidecarReportIdleAccepted {
    type V = SidecarReportIdleAcceptedView;

    open spec fn deep_view(&self) -> SidecarReportIdleAcceptedView {
        SidecarReportIdleAcceptedView {
            instance_id: self.instance_id.deep_view(),
            instance_generation: self.instance_generation.deep_view(),
        }
    }
}

impl Clone for SidecarReportIdleAccepted {
    fn clone(&self) -> (r: Self)
        ensures
            r.deep_view() == self.deep_view(),
    {
        SidecarReportIdleAccepted {
            instance_id: self.instance_id.clone(),
            instance_generation: self.instance_generation,
        }
    }
}

/// The instance is going to sleep already.
#[derive(Debug, PartialEq, Eq)]
pub struct SidecarReportIdleAlreadyDraining {
    pub instance_id: String,
    pub instance_generation: u64,
}

/// What a [`SidecarReportIdleAlreadyDraining`] holds.
#[verifier::ext_equal]
pub struct SidecarReportIdleAlreadyDrainingView {
    pub instance_id: Seq<char>,
    pub instance_generation: u64,
}

impl DeepView for SidecarReportIdleAlreadyDraining {
    type V = SidecarReportIdleAlreadyDrainingView;

    open spec fn deep_view(&self) -> SidecarReportIdleAlreadyDrainingView {
        SidecarReportIdleAlreadyDrainingView {
            instance_id: self.instance_id.deep_view(),
            instance_generation: self.instance_generation.deep_view(),
        }
    }
}

impl Clone for SidecarReportIdleAlreadyDraining {
    fn clone(&self) -> (r: Self)
        ensures
            r.deep_view() == self.deep_view(),
    {
        SidecarReportIdleAlreadyDraining {
            instance_id: self.instance_id.clone(),
            instance_generation: self.instance_generation,
        }
    }
}

/// Why an instance cannot go to sleep.
#[derive(Clone, Copy, Debug, PartialEq, Eq, Structural)]
pub enum SidecarReportIdleUnavailableReason {
    Unspecified,
    Cold,
    Waking,
    Draining,
    Failed,
    Deleting,
    Deleted,
    Unrecognized,
}

impl DeepView for SidecarReportIdleUnavailableReason {
    type V = SidecarReportIdleUnavailableReason;

    open spec fn deep_view(&self) -> SidecarReportIdleUnavailableReason {
        *self
    }
}

/// The instance cannot go to sleep.
#[derive(Debug, PartialEq, Eq)]
pub struct SidecarReportIdleUnavailable {
    pub instance_id: String,
    pub instance_generation: u64,
    pub reason: SidecarReportIdleUnavailableReason,
}

/// What a [`SidecarReportIdleUnavailable`] holds.
#[verifier::ext_equal]
pub struct SidecarReportIdleUnavailableView {
    pub instance_id: Seq<char>,
    pub instance_generation: u64,
    pub reason: SidecarReportIdleUnavailableReason,
}

impl DeepView for SidecarReportIdleUnavailable {
    type V = SidecarReportIdleUnavailableView;

    open spec fn deep_view(&self) -> SidecarReportIdleUnavailableView {
        SidecarReportIdleUnavailableView {
            instance_id: self.instance_id.deep_view(),
            instance_generation: self.instance_generation.deep_view(),
            reason: self.reason.deep_view(),
        }
    }
}

impl Clone for SidecarReportIdleUnavailable {
    fn clone(&self) -> (r: Self)
        ensures
            r.deep_view() == self.deep_view(),
    {
        SidecarReportIdleUnavailable {
            instance_id: self.instance_id.clone(),
            instance_generation: self.instance_generation,
            reason: self.reason,
        }
    }
}

/// The instance has another generation.
#[derive(Debug, PartialEq, Eq)]
pub struct SidecarReportIdleGenerationConflict {
    pub instance_id: String,
    pub expected_generation: u64,
    pub actual_generation: u64,
}

/// What a [`SidecarReportIdleGenerationConflict`] holds.
#[verifier::ext_equal]
pub struct SidecarReportIdleGenerationConflictView {
    pub instance_id: Seq<char>,
    pub expected_generation: u64,
    pub actual_generation: u64,
}

impl DeepView for SidecarReportIdleGenerationConflict {
    type V = SidecarReportIdleGenerationConflictView;

    open spec fn deep_view(&self) -> SidecarReportIdleGenerationConflictView {
        SidecarReportIdleGenerationConflictView {
            instance_id: self.instance_id.deep_view(),
            expected_generation: self.expected_generation.deep_view(),
            actual_generation: self.actual_generation.deep_view(),
        }
    }
}

impl Clone for SidecarReportIdleGenerationConflict {
    fn clone(&self) -> (r: Self)
        ensures
            r.deep_view() == self.deep_view(),
    {
        SidecarReportIdleGenerationConflict {
            instance_id: self.instance_id.clone(),
            expected_generation: self.expected_generation,
            actual_generation: self.actual_generation,
        }
    }
}

/// What became of a report.
#[derive(Debug, PartialEq, Eq)]
pub enum SidecarReportIdleOutcome {
    Accepted(SidecarReportIdleAccepted),
    AlreadyDraining(SidecarReportIdleAlreadyDraining),
    Unavailable(SidecarReportIdleUnavailable),
    GenerationConflict(SidecarReportIdleGenerationConflict),
}

/// What a [`SidecarReportIdleOutcome`] holds.
#[verifier::ext_equal]
pub enum SidecarReportIdleOutcomeView {
    Accepted(SidecarReportIdleAcceptedView),
    AlreadyDraining(SidecarReportIdleAlreadyDrainingView),
    Unavailable(SidecarReportIdleUnavailableView),
    GenerationConflict(SidecarReportIdleGenerationConflictView),
}

impl DeepView for SidecarReportIdleOutcome {
    type V = SidecarReportIdleOutcomeView;

    open spec fn deep_view(&self) -> SidecarReportIdleOutcomeView {
        match self {
            SidecarReportIdleOutcome::Accepted(value) => SidecarReportIdleOutcomeView::Accepted(
                value.deep_view(),
            ),
            SidecarReportIdleOutcome::AlreadyDraining(value) => SidecarReportIdleOutcomeView::AlreadyDraining(
                value.deep_view(),
            ),
            SidecarReportIdleOutcome::Unavailable(value) => SidecarReportIdleOutcomeView::Unavailable(
                value.deep_view(),
            ),
            SidecarReportIdleOutcome::GenerationConflict(value) => SidecarReportIdleOutcomeView::GenerationConflict(
                value.deep_view(),
            ),
        }
    }
}

impl Clone for SidecarReportIdleOutcome {
    fn clone(&self) -> (r: Self)
        ensures
            r.deep_view() == self.deep_view(),
    {
        match self {
            SidecarReportIdleOutcome::Accepted(value) => SidecarReportIdleOutcome::Accepted(
                value.clone(),
            ),
            SidecarReportIdleOutcome::AlreadyDraining(value) => SidecarReportIdleOutcome::AlreadyDraining(
                value.clone(),
            ),
            SidecarReportIdleOutcome::Unavailable(value) => SidecarReportIdleOutcome::Unavailable(
                value.clone(),
            ),
            SidecarReportIdleOutcome::GenerationConflict(value) => SidecarReportIdleOutcome::GenerationConflict(
                value.clone(),
            ),
        }
    }
}

/// What became of a report.
#[derive(Debug, PartialEq, Eq)]
pub struct SidecarReportIdleResponse {
    pub outcome: Option<SidecarReportIdleOutcome>,
}

/// What a [`SidecarReportIdleResponse`] holds.
#[verifier::ext_equal]
pub struct SidecarReportIdleResponseView {
    pub outcome: Option<SidecarReportIdleOutcomeView>,
}

impl DeepView for SidecarReportIdleResponse {
    type V = SidecarReportIdleResponseView;

    open spec fn deep_view(&self) -> SidecarReportIdleResponseView {
        SidecarReportIdleResponseView {
            outcome: self.outcome.deep_view(),
        }
    }
}

impl Clone for SidecarReportIdleResponse {
    fn clone(&self) -> (r: Self)
        ensures
            r.deep_view() == self.deep_view(),
    {
        let r = SidecarReportIdleResponse {
            outcome: self.outcome.clone(),
        };
        assert(r.outcome.deep_view() =~= self.outcome.deep_view());
        r
    }
}

/// Names a challenge.
#[derive(Debug, PartialEq, Eq)]
pub struct Http01ChallengeKey {
    pub host: String,
    pub token: String,
}

/// What a [`Http01ChallengeKey`] holds.
#[verifier::ext_equal]
pub struct Http01ChallengeKeyView {
    pub host: Seq<char>,
    pub token: Seq<char>,
}

impl DeepView for Http01ChallengeKey {
    type V = Http01ChallengeKeyView;

    open spec fn deep_view(&self) -> Http01ChallengeKeyView {
        Http01ChallengeKeyView {
            host: self.host.deep_view(),
            token: self.token.deep_view(),
        }
    }
}

impl Clone for Http01ChallengeKey {
    fn clone(&self) -> (r: Self)
        ensures
            r.deep_view() == self.deep_view(),
    {
        Http01ChallengeKey {
            host: self.host.clone(),
            token: self.token.clone(),
        }
    }
}

/// A challenge and its answer.
#[derive(Debug, PartialEq, Eq)]
pub struct Http01Challenge {
    pub key: Option<Http01ChallengeKey>,
    pub key_authorization: String,
    pub expires_at_unix_millis: i64,
}

/// What a [`Http01Challenge`] holds.
#[verifier::ext_equal]
pub struct Http01ChallengeView {
    pub key: Option<Http01ChallengeKeyView>,
    pub key_authorization: Seq<char>,
    pub expires_at_unix_millis: i64,
}

impl DeepView for Http01Challenge {
    type V = Http01ChallengeView;

    open spec fn deep_view(&self) -> Http01ChallengeView {
        Http01ChallengeView {
            key: self.key.deep_view(),
            key_authorization: self.key_authorization.deep_view(),
            expires_at_unix_millis: self.expires_at_unix_millis.deep_view(),
        }
    }
}

impl Clone for Http01Challenge {
    fn clone(&self) -> (r: Self)
        ensures
            r.deep_view() == self.deep_view(),
    {
        let r = Http01Challenge {
            key: self.key.clone(),
            key_authorization: self.key_authorization.clone(),
            expires_at_unix_millis: self.expires_at_unix_millis,
        };
        assert(r.key.deep_view() =~= self.key.deep_view());
        r
    }
}

/// Puts the answer to a challenge.
#[derive(Debug, PartialEq, Eq)]
pub struct PutHttp01ChallengeRequest {
    pub key: Option<Http01ChallengeKey>,
    pub key_authorization: String,
    pub expires_at_unix_millis: i64,
}

/// What a [`PutHttp01ChallengeRequest`] holds.
#[verifier::ext_equal]
pub struct PutHttp01ChallengeRequestView {
    pub key: Option<Http01ChallengeKeyView>,
    pub key_authorization: Seq<char>,
    pub expires_at_unix_millis: i64,
}

impl DeepView for PutHttp01ChallengeRequest {
    type V = PutHttp01ChallengeRequestView;

    open spec fn deep_view(&self) -> PutHttp01ChallengeRequestView {
        PutHttp01ChallengeRequestView {
            key: self.key.deep_view(),
            key_authorization: self.key_authorization.deep_view(),
            expires_at_unix_millis: self.expires_at_unix_millis.deep_view(),
        }
    }
}

impl Clone for PutHttp01ChallengeRequest {
    fn clone(&self) -> (r: Self)
        ensures
            r.deep_view() == self.deep_view(),
    {
        let r = PutHttp01ChallengeRequest {
            key: self.key.clone(),
            key_authorization: self.key_authorization.clone(),
            expires_at_unix_millis: self.expires_at_unix_millis,
        };
        assert(r.key.deep_view() =~= self.key.deep_view());
        r
    }
}

/// Drops the answer to a challenge.
#[derive(Debug, PartialEq, Eq)]
pub struct DeleteHttp01ChallengeRequest {
    pub key: Option<Http01ChallengeKey>,
}

/// What a [`DeleteHttp01ChallengeRequest`] holds.
#[verifier::ext_equal]
pub struct DeleteHttp01ChallengeRequestView {
    pub key: Option<Http01ChallengeKeyView>,
}

impl DeepView for DeleteHttp01ChallengeRequest {
    type V = DeleteHttp01ChallengeRequestView;

    open spec fn deep_view(&self) -> DeleteHttp01ChallengeRequestView {
        DeleteHttp01ChallengeRequestView {
            key: self.key.deep_view(),
        }
    }
}

impl Clone for DeleteHttp01ChallengeRequest {
    fn clone(&self) -> (r: Self)
        ensures
            r.deep_view() == self.deep_view(),
    {
        let r = DeleteHttp01ChallengeRequest {
            key: self.key.clone(),
        };
        assert(r.key.deep_view() =~= self.key.deep_view());
        r
    }
}

/// Drops the answers that are out of date.
#[derive(Debug, PartialEq, Eq)]
pub struct ExpireHttp01ChallengesRequest {
    pub now_unix_millis: i64,
    pub limit: Option<u64>,
}

/// What an [`ExpireHttp01ChallengesRequest`] holds.
#[verifier::ext_equal]
pub struct ExpireHttp01ChallengesRequestView {
    pub now_unix_millis: i64,
    pub limit: Option<u64>,
}

impl DeepView for ExpireHttp01ChallengesRequest {
    type V = ExpireHttp01ChallengesRequestView;

    open spec fn deep_view(&self) -> ExpireHttp01ChallengesRequestView {
        ExpireHttp01ChallengesRequestView {
            now_unix_millis: self.now_unix_millis.deep_view(),
            limit: self.limit.deep_view(),
        }
    }
}

impl Clone for ExpireHttp01ChallengesRequest {
    fn clone(&self) -> (r: Self)
        ensures
            r.deep_view() == self.deep_view(),
    {
        ExpireHttp01ChallengesRequest {
            now_unix_millis: self.now_unix_millis,
            limit: self.limit,
        }
    }
}

} // verus!
