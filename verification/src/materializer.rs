//! Applying and deleting the objects of an instance: what is done in which
//! order, and how a failure is reported.
use vstd::prelude::*;

use crate::ids::Generation;
use crate::ids::InstanceId;
use crate::ids::MaterializationId;
use crate::manifest::objects::ApplyOrder;
use crate::manifest::objects::KubernetesObject;
use crate::manifest::objects::KubernetesObjectView;
use crate::manifest::objects::RenderedManifest;
use crate::manifest::objects::RenderedManifestObject;
use crate::manifest::objects::RenderedManifestObjectView;
use crate::manifest::objects::RenderedManifestView;
use crate::manifest::render;
use crate::manifest::RenderManifestRequest;
use crate::manifest::ANNOTATION_TEMPLATE_GENERATION;
use crate::manifest::LABEL_INSTANCE_GENERATION;
use crate::materialization::BackendEndpoint;
use crate::materialization::RenderedObjectRef;
use crate::materialization::RenderedObjectRefView;
use crate::outcome;
use crate::string_map::StringMap;
use crate::text;

pub mod laws;

verus! {

/// A failure that a Kubernetes client reports, and whether trying again may help.
#[derive(Debug, PartialEq, Eq)]
pub struct KubernetesClientError {
    message: String,
    retryable: bool,
}

/// What a [`KubernetesClientError`] holds.
#[verifier::ext_equal]
pub struct KubernetesClientErrorView {
    pub message: Seq<char>,
    pub retryable: bool,
}

impl View for KubernetesClientError {
    type V = KubernetesClientErrorView;

    closed spec fn view(&self) -> KubernetesClientErrorView {
        KubernetesClientErrorView { message: self.message@, retryable: self.retryable }
    }
}

impl DeepView for KubernetesClientError {
    type V = KubernetesClientErrorView;

    open spec fn deep_view(&self) -> KubernetesClientErrorView {
        self@
    }
}

impl Clone for KubernetesClientError {
    fn clone(&self) -> (r: Self)
        ensures
            r.deep_view() == self.deep_view(),
    {
        KubernetesClientError { message: self.message.clone(), retryable: self.retryable }
    }
}

/// A failure that trying again does not mend.
pub open spec fn permanent(message: Seq<char>) -> KubernetesClientErrorView {
    KubernetesClientErrorView { message, retryable: false }
}

impl KubernetesClientError {
    /// A failure that trying again does not mend.
    pub fn new(message: &str) -> (r: Self)
        ensures
            r@ == permanent(message@),
    {
        KubernetesClientError { message: message.to_owned(), retryable: false }
    }

    /// A failure that trying again may mend.
    pub fn transient(message: &str) -> (r: Self)
        ensures
            r@ == (KubernetesClientErrorView { message: message@, retryable: true }),
    {
        KubernetesClientError { message: message.to_owned(), retryable: true }
    }

    pub fn message(&self) -> (r: &str)
        ensures
            r@ == self@.message,
    {
        self.message.as_str()
    }

    pub fn is_retryable(&self) -> (r: bool)
        ensures
            r == self@.retryable,
    {
        self.retryable
    }

    /// The message.
    pub fn to_string(&self) -> (r: String)
        ensures
            r@ == self@.message,
    {
        self.message.clone()
    }
}

/// The member of an instance that reports that it is idle.
#[derive(Debug, PartialEq, Eq)]
pub struct IdleMemberIdentity {
    pub instance_id: InstanceId,
    pub instance_generation: Generation,
    pub materialization_id: MaterializationId,
    pub pod_uid: String,
}

/// What an [`IdleMemberIdentity`] holds.
#[verifier::ext_equal]
pub struct IdleMemberIdentityView {
    pub instance_id: Seq<char>,
    pub instance_generation: nat,
    pub materialization_id: Seq<char>,
    pub pod_uid: Seq<char>,
}

impl DeepView for IdleMemberIdentity {
    type V = IdleMemberIdentityView;

    open spec fn deep_view(&self) -> IdleMemberIdentityView {
        IdleMemberIdentityView {
            instance_id: self.instance_id.deep_view(),
            instance_generation: self.instance_generation.deep_view(),
            materialization_id: self.materialization_id.deep_view(),
            pod_uid: self.pod_uid.deep_view(),
        }
    }
}

/// Applies manifests to a cluster through a client.
#[derive(Debug)]
pub struct KubernetesMaterializer<C> {
    client: C,
}

impl<C> View for KubernetesMaterializer<C> {
    type V = C;

    closed spec fn view(&self) -> C {
        self.client
    }
}

impl<C> KubernetesMaterializer<C> {
    pub fn new(client: C) -> (r: Self)
        ensures
            r@ == client,
    {
        KubernetesMaterializer { client }
    }

    pub fn client(&self) -> (r: &C)
        ensures
            *r == self@,
    {
        &self.client
    }
}

impl Clone for IdleMemberIdentity {
    fn clone(&self) -> (r: Self)
        ensures
            r.deep_view() == self.deep_view(),
    {
        IdleMemberIdentity {
            instance_id: self.instance_id.clone(),
            instance_generation: self.instance_generation,
            materialization_id: self.materialization_id.clone(),
            pod_uid: self.pod_uid.clone(),
        }
    }
}

/// Objects that were applied, and where the workload is reached.
#[derive(Debug, PartialEq, Eq)]
pub struct AppliedMaterialization {
    pub rendered_objects: Vec<RenderedObjectRef>,
    pub backend: BackendEndpoint,
}

/// What an [`AppliedMaterialization`] holds.
#[verifier::ext_equal]
pub struct AppliedMaterializationView {
    pub rendered_objects: Seq<RenderedObjectRefView>,
    pub backend: Seq<char>,
}

impl DeepView for AppliedMaterialization {
    type V = AppliedMaterializationView;

    open spec fn deep_view(&self) -> AppliedMaterializationView {
        AppliedMaterializationView {
            rendered_objects: self.rendered_objects.deep_view(),
            backend: self.backend.deep_view(),
        }
    }
}

impl Clone for AppliedMaterialization {
    fn clone(&self) -> (r: Self)
        ensures
            r.deep_view() == self.deep_view(),
    {
        let r = AppliedMaterialization {
            rendered_objects: self.rendered_objects.clone(),
            backend: self.backend.clone(),
        };
        assert(r.rendered_objects.deep_view() =~= self.rendered_objects.deep_view());
        r
    }
}

/// Why objects were not applied or deleted.
#[derive(Debug, PartialEq, Eq)]
pub enum MaterializerError {
    InvalidManifest { message: String },
    Apply { object: RenderedObjectRef, source: KubernetesClientError },
    Delete { object: RenderedObjectRef, source: KubernetesClientError },
    PvcBoundWait { namespace: String, name: String, source: KubernetesClientError },
    ReadinessWait { rendered_objects: Vec<RenderedObjectRef>, source: KubernetesClientError },
}

/// What a [`MaterializerError`] holds.
#[verifier::ext_equal]
pub enum MaterializerErrorView {
    InvalidManifest { message: Seq<char> },
    Apply { object: RenderedObjectRefView, source: KubernetesClientErrorView },
    Delete { object: RenderedObjectRefView, source: KubernetesClientErrorView },
    PvcBoundWait { namespace: Seq<char>, name: Seq<char>, source: KubernetesClientErrorView },
    ReadinessWait {
        rendered_objects: Seq<RenderedObjectRefView>,
        source: KubernetesClientErrorView,
    },
}

impl DeepView for MaterializerError {
    type V = MaterializerErrorView;

    open spec fn deep_view(&self) -> MaterializerErrorView {
        match self {
            MaterializerError::InvalidManifest {
                message,
            } => MaterializerErrorView::InvalidManifest {
                message: message.deep_view(),
            },
            MaterializerError::Apply { object, source } => MaterializerErrorView::Apply {
                object: object.deep_view(),
                source: source.deep_view(),
            },
            MaterializerError::Delete { object, source } => MaterializerErrorView::Delete {
                object: object.deep_view(),
                source: source.deep_view(),
            },
            MaterializerError::PvcBoundWait {
                namespace,
                name,
                source,
            } => MaterializerErrorView::PvcBoundWait {
                namespace: namespace.deep_view(),
                name: name.deep_view(),
                source: source.deep_view(),
            },
            MaterializerError::ReadinessWait {
                rendered_objects,
                source,
            } => MaterializerErrorView::ReadinessWait {
                rendered_objects: rendered_objects.deep_view(),
                source: source.deep_view(),
            },
        }
    }
}

impl Clone for MaterializerError {
    fn clone(&self) -> (r: Self)
        ensures
            r.deep_view() == self.deep_view(),
    {
        match self {
            MaterializerError::InvalidManifest { message } => MaterializerError::InvalidManifest {
                message: message.clone(),
            },
            MaterializerError::Apply { object, source } => MaterializerError::Apply {
                object: object.clone(),
                source: source.clone(),
            },
            MaterializerError::Delete { object, source } => MaterializerError::Delete {
                object: object.clone(),
                source: source.clone(),
            },
            MaterializerError::PvcBoundWait {
                namespace,
                name,
                source,
            } => MaterializerError::PvcBoundWait {
                namespace: namespace.clone(),
                name: name.clone(),
                source: source.clone(),
            },
            MaterializerError::ReadinessWait { rendered_objects, source } => {
                let rendered_objects_copy = rendered_objects.clone();
                assert(rendered_objects_copy.deep_view() =~= rendered_objects.deep_view());
                MaterializerError::ReadinessWait {
                    rendered_objects: rendered_objects_copy,
                    source: source.clone(),
                }
            },
        }
    }
}

/// What an error says.
pub open spec fn materializer_message(error: MaterializerErrorView) -> Seq<char> {
    match error {
        MaterializerErrorView::InvalidManifest { message } => "invalid rendered manifest: "@
            + message,
        MaterializerErrorView::Apply { object, source } => "failed to apply "@ + object.kind
            + " "@ + object.namespace + "/"@ + object.name + ": "@ + source.message,
        MaterializerErrorView::Delete { object, source } => "failed to delete "@ + object.kind
            + " "@ + object.namespace + "/"@ + object.name + ": "@ + source.message,
        MaterializerErrorView::PvcBoundWait { namespace, name, source } => {
            "failed waiting for PersistentVolumeClaim "@ + namespace + "/"@ + name
                + " to become Bound: "@ + source.message
        },
        MaterializerErrorView::ReadinessWait { rendered_objects, source } => {
            "failed waiting for readiness across "@ + text::decimal(rendered_objects.len())
                + " rendered Kubernetes objects: "@ + source.message
        },
    }
}

impl MaterializerError {
    /// What the error says.
    pub fn to_string(&self) -> (r: String)
        ensures
            r@ == materializer_message(self.deep_view()),
    {
        match self {
            MaterializerError::InvalidManifest { message } => text::join2(
                "invalid rendered manifest: ",
                message.as_str(),
            ),
            MaterializerError::Apply { object, source } => {
                let r = text::join5(
                    "failed to apply ",
                    object.kind.as_str(),
                    " ",
                    object.namespace.as_str(),
                    "/",
                );
                let r = text::appended(r, object.name.as_str());
                let r = text::appended(r, ": ");
                text::appended(r, source.message())
            },
            MaterializerError::Delete { object, source } => {
                let r = text::join5(
                    "failed to delete ",
                    object.kind.as_str(),
                    " ",
                    object.namespace.as_str(),
                    "/",
                );
                let r = text::appended(r, object.name.as_str());
                let r = text::appended(r, ": ");
                text::appended(r, source.message())
            },
            MaterializerError::PvcBoundWait { namespace, name, source } => {
                let r = text::join5(
                    "failed waiting for PersistentVolumeClaim ",
                    namespace.as_str(),
                    "/",
                    name.as_str(),
                    " to become Bound: ",
                );
                text::appended(r, source.message())
            },
            MaterializerError::ReadinessWait { rendered_objects, source } => {
                let count = text::number(rendered_objects.len() as u64);
                text::join4(
                    "failed waiting for readiness across ",
                    count.as_str(),
                    " rendered Kubernetes objects: ",
                    source.message(),
                )
            },
        }
    }

    /// The failure of the client behind the error, where there is one.
    pub fn source(&self) -> (r: Option<&KubernetesClientError>)
        ensures
            r.deep_view() == (match self.deep_view() {
                MaterializerErrorView::InvalidManifest { .. } => None,
                MaterializerErrorView::Apply { source, .. } => Some(source),
                MaterializerErrorView::Delete { source, .. } => Some(source),
                MaterializerErrorView::PvcBoundWait { source, .. } => Some(source),
                MaterializerErrorView::ReadinessWait { source, .. } => Some(source),
            }),
    {
        match self {
            MaterializerError::InvalidManifest { .. } => None,
            MaterializerError::Apply { source, .. } => Some(source),
            MaterializerError::Delete { source, .. } => Some(source),
            MaterializerError::PvcBoundWait { source, .. } => Some(source),
            MaterializerError::ReadinessWait { source, .. } => Some(source),
        }
    }
}

/// How an object is named once it is applied. An object outside any namespace
/// has an empty one.
pub open spec fn object_ref(object: KubernetesObjectView) -> RenderedObjectRefView {
    RenderedObjectRefView {
        api_version: object.api_version(),
        kind: object.kind(),
        namespace: match object.metadata().namespace {
            Some(namespace) => namespace,
            None => Seq::empty(),
        },
        name: object.metadata().name,
    }
}

/// How the object is named once it is applied.
pub fn rendered_object_ref(object: &KubernetesObject) -> (r: RenderedObjectRef)
    ensures
        r.deep_view() == object_ref(object.deep_view()),
{
    let namespace = match &object.metadata().namespace {
        Some(namespace) => namespace.clone(),
        None => {
            proof {
                reveal_strlit("");
                assert(""@ =~= Seq::empty());
            }
            "".to_owned()
        },
    };
    RenderedObjectRef {
        api_version: object.api_version().to_owned(),
        kind: object.kind().to_owned(),
        namespace,
        name: object.name().to_owned(),
    }
}

/// How a missing or present text is shown.
pub open spec fn shown_option(value: Option<Seq<char>>) -> Seq<char> {
    match value {
        Some(value) => "Some("@ + text::debug_text(value) + ")"@,
        None => "None"@,
    }
}

/// The value of a key, where there is one.
pub open spec fn value_of(map: Map<Seq<char>, Seq<char>>, key: Seq<char>) -> Option<Seq<char>> {
    if map.contains_key(key) {
        Some(map[key])
    } else {
        None
    }
}

/// What is wrong with a generation that an object carries.
pub open spec fn generation_problem(
    object: KubernetesObjectView,
    context: Seq<char>,
    key: Seq<char>,
    actual: Option<Seq<char>>,
    expected: Seq<char>,
) -> Option<MaterializerErrorView> {
    if actual == Some(expected) {
        None
    } else {
        Some(
            MaterializerErrorView::InvalidManifest {
                message: object_ref(object).kind + " "@ + object_ref(object).namespace + "/"@
                    + object_ref(object).name + " "@ + context + " "@ + key + " must be "@
                    + text::debug_text(expected) + ", got "@ + shown_option(actual),
            },
        )
    }
}

/// What is wrong with the generations that metadata carries: the instance
/// generation as a label, and the template generation as an annotation where
/// the manifest has one.
pub open spec fn metadata_problem(
    object: KubernetesObjectView,
    labels: Map<Seq<char>, Seq<char>>,
    annotations: Map<Seq<char>, Seq<char>>,
    instance_generation: nat,
    template_generation: Option<nat>,
    context: Seq<char>,
) -> Option<MaterializerErrorView> {
    outcome::first_of(
        generation_problem(
            object,
            context,
            LABEL_INSTANCE_GENERATION@,
            value_of(labels, LABEL_INSTANCE_GENERATION@),
            text::decimal(instance_generation),
        ),
        match template_generation {
            Some(generation) => generation_problem(
                object,
                context,
                ANNOTATION_TEMPLATE_GENERATION@,
                value_of(annotations, ANNOTATION_TEMPLATE_GENERATION@),
                text::decimal(generation),
            ),
            None => None,
        },
    )
}

/// What is wrong with the generations of an object and of its pods.
pub open spec fn object_problem(
    object: KubernetesObjectView,
    instance_generation: nat,
    template_generation: Option<nat>,
) -> Option<MaterializerErrorView> {
    outcome::first_of(
        metadata_problem(
            object,
            object.metadata().labels,
            object.metadata().annotations,
            instance_generation,
            template_generation,
            "metadata"@,
        ),
        match object.pod_metadata() {
            Some(metadata) => metadata_problem(
                object,
                metadata.labels,
                metadata.annotations,
                instance_generation,
                template_generation,
                "pod template metadata"@,
            ),
            None => None,
        },
    )
}

/// The problem of each object of a manifest.
pub open spec fn object_problems(manifest: RenderedManifestView) -> Seq<
    Option<MaterializerErrorView>,
> {
    manifest.objects.map_values(
        |rendered: RenderedManifestObjectView|
            object_problem(
                rendered.object,
                manifest.instance_generation,
                manifest.template_generation,
            ),
    )
}

/// What is wrong with the generations in a manifest: the first problem in the
/// order of its objects.
pub open spec fn manifest_problem(manifest: RenderedManifestView) -> Option<
    MaterializerErrorView,
> {
    outcome::first_problem(object_problems(manifest), 0)
}

fn validate_generation_value(
    object: &KubernetesObject,
    context: &'static str,
    key: &'static str,
    actual: Option<&String>,
    expected: &str,
) -> (r: Result<(), MaterializerError>)
    ensures
        outcome::problem(r) == generation_problem(
            object.deep_view(),
            context@,
            key@,
            actual.deep_view(),
            expected@,
        ),
{
    let shown = match actual {
        Some(actual) => {
            if text::same(actual.as_str(), expected) {
                return Ok(());
            }
            let quoted = text::quoted(actual.as_str());
            text::join3("Some(", quoted.as_str(), ")")
        },
        None => "None".to_owned(),
    };
    let object_ref = rendered_object_ref(object);
    let message = text::join5(
        object_ref.kind.as_str(),
        " ",
        object_ref.namespace.as_str(),
        "/",
        object_ref.name.as_str(),
    );
    let message = text::appended(message, " ");
    let message = text::appended(message, context);
    let message = text::appended(message, " ");
    let message = text::appended(message, key);
    let message = text::appended(message, " must be ");
    let quoted = text::quoted(expected);
    let message = text::appended(message, quoted.as_str());
    let message = text::appended(message, ", got ");
    let message = text::appended(message, shown.as_str());
    Err(MaterializerError::InvalidManifest { message })
}

fn validate_metadata_generation(
    object: &KubernetesObject,
    labels: &StringMap<String>,
    annotations: &StringMap<String>,
    expected_instance_generation: &str,
    expected_template_generation: &Option<String>,
    context: &'static str,
    Ghost(instance_generation): Ghost<nat>,
    Ghost(template_generation): Ghost<Option<nat>>,
) -> (r: Result<(), MaterializerError>)
    requires
        expected_instance_generation@ == text::decimal(instance_generation),
        expected_template_generation.deep_view() == (match template_generation {
            Some(generation) => Some(text::decimal(generation)),
            None => None,
        }),
    ensures
        outcome::problem(r) == metadata_problem(
            object.deep_view(),
            labels.deep_view(),
            annotations.deep_view(),
            instance_generation,
            template_generation,
            context@,
        ),
{
    let actual = labels.get(LABEL_INSTANCE_GENERATION);
    assert(actual.deep_view() == value_of(labels.deep_view(), LABEL_INSTANCE_GENERATION@));
    if let Err(error) = validate_generation_value(
        object,
        context,
        LABEL_INSTANCE_GENERATION,
        actual,
        expected_instance_generation,
    ) {
        return Err(error);
    }
    match expected_template_generation {
        Some(expected) => {
            let actual = annotations.get(ANNOTATION_TEMPLATE_GENERATION);
            assert(actual.deep_view() == value_of(
                annotations.deep_view(),
                ANNOTATION_TEMPLATE_GENERATION@,
            ));
            validate_generation_value(
                object,
                context,
                ANNOTATION_TEMPLATE_GENERATION,
                actual,
                expected.as_str(),
            )
        },
        None => Ok(()),
    }
}

fn validate_manifest_generations(manifest: &RenderedManifest) -> (r: Result<(), MaterializerError>)
    ensures
        outcome::problem(r) == manifest_problem(manifest.deep_view()),
{
    let instance = manifest.instance_generation.to_string();
    let template = match manifest.template_generation {
        Some(generation) => Some(generation.to_string()),
        None => None,
    };
    let ghost view = manifest.deep_view();
    let ghost problems = object_problems(view);
    let mut i: usize = 0;
    while i < manifest.objects.len()
        invariant
            0 <= i <= manifest.objects.len(),
            view == manifest.deep_view(),
            problems == object_problems(view),
            outcome::first_problem(problems, 0) == outcome::first_problem(problems, i as int),
            instance@ == text::decimal(view.instance_generation),
            template.deep_view() == (match view.template_generation {
                Some(generation) => Some(text::decimal(generation)),
                None => None,
            }),
        decreases manifest.objects.len() - i,
    {
        let object = &manifest.objects[i].object;
        assert(problems[i as int] == object_problem(
            object.deep_view(),
            view.instance_generation,
            view.template_generation,
        ));
        let metadata = object.metadata();
        if let Err(error) = validate_metadata_generation(
            object,
            &metadata.labels,
            &metadata.annotations,
            instance.as_str(),
            &template,
            "metadata",
            Ghost(view.instance_generation),
            Ghost(view.template_generation),
        ) {
            return Err(error);
        }
        let pods = match object {
            KubernetesObject::Deployment(object) => Some(&object.spec.template.metadata),
            KubernetesObject::StatefulSet(object) => Some(&object.spec.template.metadata),
            KubernetesObject::Service(_)
            | KubernetesObject::PersistentVolume(_)
            | KubernetesObject::PersistentVolumeClaim(_) => None,
        };
        if let Some(pods) = pods {
            if let Err(error) = validate_metadata_generation(
                object,
                &pods.labels,
                &pods.annotations,
                instance.as_str(),
                &template,
                "pod template metadata",
                Ghost(view.instance_generation),
                Ghost(view.template_generation),
            ) {
                return Err(error);
            }
        }
        i = i + 1;
    }
    Ok(())
}

/// One step of applying a manifest.
#[derive(Debug, PartialEq, Eq)]
pub enum ApplyStep {
    Apply { object: KubernetesObject, object_ref: RenderedObjectRef },
    WaitForPvcBound { namespace: String, name: String },
}

/// What an [`ApplyStep`] holds.
#[verifier::ext_equal]
pub enum ApplyStepView {
    Apply { object: KubernetesObjectView, object_ref: RenderedObjectRefView },
    WaitForPvcBound { namespace: Seq<char>, name: Seq<char> },
}

impl DeepView for ApplyStep {
    type V = ApplyStepView;

    open spec fn deep_view(&self) -> ApplyStepView {
        match self {
            ApplyStep::Apply { object, object_ref } => ApplyStepView::Apply {
                object: object.deep_view(),
                object_ref: object_ref.deep_view(),
            },
            ApplyStep::WaitForPvcBound { namespace, name } => ApplyStepView::WaitForPvcBound {
                namespace: namespace.deep_view(),
                name: name.deep_view(),
            },
        }
    }
}

impl Clone for ApplyStep {
    fn clone(&self) -> (r: Self)
        ensures
            r.deep_view() == self.deep_view(),
    {
        match self {
            ApplyStep::Apply { object, object_ref } => ApplyStep::Apply {
                object: object.clone(),
                object_ref: object_ref.clone(),
            },
            ApplyStep::WaitForPvcBound { namespace, name } => ApplyStep::WaitForPvcBound {
                namespace: namespace.clone(),
                name: name.clone(),
            },
        }
    }
}

/// The objects of a manifest with a place in the order, as they stand in it.
pub open spec fn objects_at(
    objects: Seq<RenderedManifestObjectView>,
    order: ApplyOrder,
) -> Seq<KubernetesObjectView> {
    objects.filter(
        |rendered: RenderedManifestObjectView| rendered.apply_order == order,
    ).map_values(|rendered: RenderedManifestObjectView| rendered.object)
}

/// The step that applies an object.
pub open spec fn apply_step(object: KubernetesObjectView) -> ApplyStepView {
    ApplyStepView::Apply { object, object_ref: object_ref(object) }
}

/// The step that waits for a claim to be bound.
pub open spec fn wait_step(object: KubernetesObjectView) -> ApplyStepView {
    ApplyStepView::WaitForPvcBound {
        namespace: object_ref(object).namespace,
        name: object_ref(object).name,
    }
}

/// The steps that apply objects.
pub open spec fn apply_steps_for(objects: Seq<KubernetesObjectView>) -> Seq<ApplyStepView> {
    objects.map_values(|object: KubernetesObjectView| apply_step(object))
}

/// The steps that wait for claims.
pub open spec fn wait_steps_for(objects: Seq<KubernetesObjectView>) -> Seq<ApplyStepView> {
    objects.map_values(|object: KubernetesObjectView| wait_step(object))
}

/// The steps of applying a manifest: the volumes; the claims; a wait until each
/// claim is bound; then the services, and last the workloads.
pub open spec fn apply_steps(manifest: RenderedManifestView) -> Seq<ApplyStepView> {
    apply_steps_for(objects_at(manifest.objects, ApplyOrder::PersistentVolume))
        + apply_steps_for(objects_at(manifest.objects, ApplyOrder::PersistentVolumeClaim))
        + wait_steps_for(objects_at(manifest.objects, ApplyOrder::PersistentVolumeClaim))
        + apply_steps_for(objects_at(manifest.objects, ApplyOrder::Service))
        + apply_steps_for(objects_at(manifest.objects, ApplyOrder::Workload))
}

/// The objects that steps apply, by their names.
pub open spec fn applied_refs(steps: Seq<ApplyStepView>) -> Seq<RenderedObjectRefView>
    decreases steps.len(),
{
    if steps.len() == 0 {
        Seq::empty()
    } else {
        let before = applied_refs(steps.drop_last());
        match steps.last() {
            ApplyStepView::Apply { object_ref, .. } => before.push(object_ref),
            ApplyStepView::WaitForPvcBound { .. } => before,
        }
    }
}

proof fn lemma_objects_at_next(
    objects: Seq<RenderedManifestObjectView>,
    order: ApplyOrder,
    i: int,
)
    requires
        0 <= i < objects.len(),
    ensures
        objects_at(objects.take(i + 1), order) == if objects[i].apply_order == order {
            objects_at(objects.take(i), order).push(objects[i].object)
        } else {
            objects_at(objects.take(i), order)
        },
{
    let keep = |rendered: RenderedManifestObjectView| rendered.apply_order == order;
    let next = objects.take(i + 1);
    assert(next.drop_last() =~= objects.take(i));
    reveal(Seq::filter);
    assert(next.filter(keep) == if keep(objects[i]) {
        objects.take(i).filter(keep).push(objects[i])
    } else {
        objects.take(i).filter(keep)
    });
    if objects[i].apply_order == order {
        assert(objects_at(next, order) =~= objects_at(objects.take(i), order).push(
            objects[i].object,
        ));
    }
}

/// Adds the steps for the objects with a place in the order: those that apply
/// them, or those that wait for them.
fn push_steps(
    steps: &mut Vec<ApplyStep>,
    objects: &Vec<RenderedManifestObject>,
    order: ApplyOrder,
    wait: bool,
)
    ensures
        final(steps).deep_view() == old(steps).deep_view() + (if wait {
            wait_steps_for(objects_at(objects.deep_view(), order))
        } else {
            apply_steps_for(objects_at(objects.deep_view(), order))
        }),
{
    let ghost all = objects.deep_view();
    let ghost before = steps.deep_view();
    let mut i: usize = 0;
    proof {
        assert(all.take(0) =~= Seq::empty());
        reveal(Seq::filter);
        assert(objects_at(all.take(0), order) =~= Seq::empty());
        assert(steps.deep_view() =~= before + (if wait {
            wait_steps_for(objects_at(all.take(0), order))
        } else {
            apply_steps_for(objects_at(all.take(0), order))
        }));
    }
    while i < objects.len()
        invariant
            0 <= i <= objects.len(),
            all == objects.deep_view(),
            steps.deep_view() == before + (if wait {
                wait_steps_for(objects_at(all.take(i as int), order))
            } else {
                apply_steps_for(objects_at(all.take(i as int), order))
            }),
        decreases objects.len() - i,
    {
        let rendered = &objects[i];
        let ghost steps_before = steps.deep_view();
        let ghost objects_before = objects_at(all.take(i as int), order);
        proof {
            lemma_objects_at_next(all, order, i as int);
            assert(all[i as int] == rendered.deep_view());
        }
        if rendered.apply_order == order {
            let object_ref = rendered_object_ref(&rendered.object);
            let step = if wait {
                ApplyStep::WaitForPvcBound {
                    namespace: object_ref.namespace,
                    name: object_ref.name,
                }
            } else {
                ApplyStep::Apply { object: rendered.object.clone(), object_ref }
            };
            steps.push(step);
            proof {
                assert(steps.deep_view() =~= steps_before.push(step.deep_view()));
                let objects_now = objects_before.push(rendered.object.deep_view());
                if wait {
                    assert(wait_steps_for(objects_now) =~= wait_steps_for(objects_before).push(
                        step.deep_view(),
                    ));
                } else {
                    assert(apply_steps_for(objects_now) =~= apply_steps_for(objects_before).push(
                        step.deep_view(),
                    ));
                }
            }
        }
        i = i + 1;
    }
    assert(all.take(i as int) =~= all);
}

/// The steps of applying a manifest. A manifest in which an object carries
/// another generation than the manifest is refused before any step.
pub fn plan_apply(manifest: &RenderedManifest) -> (r: Result<Vec<ApplyStep>, MaterializerError>)
    ensures
        outcome::of(r) == match manifest_problem(manifest.deep_view()) {
            Some(error) => Err(error),
            None => Ok(apply_steps(manifest.deep_view())),
        },
{
    if let Err(error) = validate_manifest_generations(manifest) {
        return Err(error);
    }
    let mut steps: Vec<ApplyStep> = Vec::new();
    push_steps(&mut steps, &manifest.objects, ApplyOrder::PersistentVolume, false);
    push_steps(&mut steps, &manifest.objects, ApplyOrder::PersistentVolumeClaim, false);
    push_steps(&mut steps, &manifest.objects, ApplyOrder::PersistentVolumeClaim, true);
    push_steps(&mut steps, &manifest.objects, ApplyOrder::Service, false);
    push_steps(&mut steps, &manifest.objects, ApplyOrder::Workload, false);
    assert(steps.deep_view() =~= apply_steps(manifest.deep_view()));
    Ok(steps)
}

/// A manifest that is being applied, step by step.
#[derive(Debug, PartialEq, Eq)]
pub struct ApplyRun {
    pub steps: Vec<ApplyStep>,
    pub done: usize,
    pub applied: Vec<RenderedObjectRef>,
}

/// What an [`ApplyRun`] holds.
#[verifier::ext_equal]
pub struct ApplyRunView {
    pub steps: Seq<ApplyStepView>,
    pub done: usize,
    pub applied: Seq<RenderedObjectRefView>,
}

impl DeepView for ApplyRun {
    type V = ApplyRunView;

    open spec fn deep_view(&self) -> ApplyRunView {
        ApplyRunView {
            steps: self.steps.deep_view(),
            done: self.done.deep_view(),
            applied: self.applied.deep_view(),
        }
    }
}

impl Clone for ApplyRun {
    fn clone(&self) -> (r: Self)
        ensures
            r.deep_view() == self.deep_view(),
    {
        let r = ApplyRun {
            steps: self.steps.clone(),
            done: self.done,
            applied: self.applied.clone(),
        };
        assert(r.steps.deep_view() =~= self.steps.deep_view());
        assert(r.applied.deep_view() =~= self.applied.deep_view());
        r
    }
}

impl ApplyRunView {
    /// The steps that were done come first, and the applied objects are theirs.
    pub open spec fn well_formed(self) -> bool {
        &&& self.done <= self.steps.len()
        &&& self.applied == applied_refs(self.steps.take(self.done as int))
    }

    /// The step to do next: none once all are done.
    pub open spec fn next(self) -> Option<ApplyStepView> {
        if self.done < self.steps.len() {
            Some(self.steps[self.done as int])
        } else {
            None
        }
    }

    /// The run behind the next step, or behind its failure.
    pub open spec fn after(self, answer: Result<(), KubernetesClientErrorView>) -> ApplyRunView {
        match answer {
            Ok(_) => ApplyRunView {
                steps: self.steps,
                done: (self.done + 1) as usize,
                applied: match self.steps[self.done as int] {
                    ApplyStepView::Apply { object_ref, .. } => self.applied.push(object_ref),
                    ApplyStepView::WaitForPvcBound { .. } => self.applied,
                },
            },
            Err(_) => self,
        }
    }

    /// How the failure of the next step is reported.
    pub open spec fn failure(self, answer: Result<(), KubernetesClientErrorView>) -> Option<
        MaterializerErrorView,
    > {
        match answer {
            Ok(_) => None,
            Err(source) => Some(step_failure(self.steps[self.done as int], source)),
        }
    }
}

/// A run that has done nothing yet, if the manifest is accepted.
pub open spec fn apply_start(manifest: RenderedManifestView) -> Result<
    ApplyRunView,
    MaterializerErrorView,
> {
    match manifest_problem(manifest) {
        Some(error) => Err(error),
        None => Ok(
            ApplyRunView { steps: apply_steps(manifest), done: 0, applied: Seq::empty() },
        ),
    }
}

/// How the failure of a step is reported.
pub open spec fn step_failure(
    step: ApplyStepView,
    source: KubernetesClientErrorView,
) -> MaterializerErrorView {
    match step {
        ApplyStepView::Apply { object_ref, .. } => MaterializerErrorView::Apply {
            object: object_ref,
            source,
        },
        ApplyStepView::WaitForPvcBound { namespace, name } => {
            MaterializerErrorView::PvcBoundWait { namespace, name, source }
        },
    }
}

impl ApplyRun {
    /// A run that has done nothing yet.
    pub fn start(manifest: &RenderedManifest) -> (r: Result<ApplyRun, MaterializerError>)
        ensures
            outcome::of(r) == apply_start(manifest.deep_view()),
            r matches Ok(run) ==> run.deep_view().well_formed(),
    {
        match plan_apply(manifest) {
            Err(error) => Err(error),
            Ok(steps) => {
                let run = ApplyRun { steps, done: 0, applied: Vec::new() };
                assert(run.applied.deep_view() =~= Seq::empty());
                assert(run.deep_view().steps.take(0) =~= Seq::empty());
                Ok(run)
            },
        }
    }

    /// The step to do next; none once all are done.
    pub fn next_step(&self) -> (r: Option<&ApplyStep>)
        ensures
            r.deep_view() == self.deep_view().next(),
    {
        if self.done < self.steps.len() {
            Some(&self.steps[self.done])
        } else {
            None
        }
    }

    /// Takes in how the next step went. A failure ends the run: nothing after it
    /// is done.
    pub fn step_done(&mut self, result: Result<(), KubernetesClientError>) -> (r: Result<
        (),
        MaterializerError,
    >)
        requires
            old(self).deep_view().well_formed(),
            old(self).done < old(self).steps.len(),
        ensures
            final(self).deep_view().well_formed(),
            final(self).deep_view().steps == old(self).deep_view().steps,
            outcome::problem(r) == old(self).deep_view().failure(answer_of(result)),
            final(self).deep_view() == old(self).deep_view().after(answer_of(result)),
    {
        let ghost before = self.deep_view();
        assert(before.steps[self.done as int] == self.steps@[self.done as int].deep_view());
        match result {
            Err(source) => {
                let error = match &self.steps[self.done] {
                    ApplyStep::Apply { object_ref, .. } => MaterializerError::Apply {
                        object: object_ref.clone(),
                        source,
                    },
                    ApplyStep::WaitForPvcBound { namespace, name } => {
                        MaterializerError::PvcBoundWait {
                            namespace: namespace.clone(),
                            name: name.clone(),
                            source,
                        }
                    },
                };
                Err(error)
            },
            Ok(()) => {
                let applied = match &self.steps[self.done] {
                    ApplyStep::Apply { object_ref, .. } => Some(object_ref.clone()),
                    ApplyStep::WaitForPvcBound { .. } => None,
                };
                proof {
                    assert(before.steps.take(self.done + 1).drop_last() =~= before.steps.take(
                        self.done as int,
                    ));
                }
                if let Some(object_ref) = applied {
                    self.applied.push(object_ref);
                    assert(self.applied.deep_view() =~= before.applied.push(
                        object_ref.deep_view(),
                    ));
                }
                self.done = self.done + 1;
                Ok(())
            },
        }
    }

    /// Ends a run whose steps are all done: the applied objects, in the order in
    /// which they were applied.
    pub fn finish(self) -> (r: Vec<RenderedObjectRef>)
        requires
            self.deep_view().well_formed(),
            self.done == self.steps.len(),
        ensures
            r.deep_view() == applied_refs(self.deep_view().steps),
    {
        assert(self.deep_view().steps.take(self.done as int) =~= self.deep_view().steps);
        self.applied
    }
}

/// What comes of a manifest whose objects were applied, once the wait for
/// readiness is over.
pub open spec fn after_readiness(
    rendered_objects: Seq<RenderedObjectRefView>,
    readiness: Result<Seq<char>, KubernetesClientErrorView>,
) -> Result<AppliedMaterializationView, MaterializerErrorView> {
    match readiness {
        Ok(backend) => Ok(AppliedMaterializationView { rendered_objects, backend }),
        Err(source) => Err(MaterializerErrorView::ReadinessWait { rendered_objects, source }),
    }
}

/// What comes of a manifest whose objects were applied, once the wait for
/// readiness is over.
pub fn readiness_outcome(
    rendered_objects: Vec<RenderedObjectRef>,
    readiness: Result<BackendEndpoint, KubernetesClientError>,
) -> (r: Result<AppliedMaterialization, MaterializerError>)
    ensures
        outcome::of(r) == after_readiness(rendered_objects.deep_view(), outcome::of(readiness)),
{
    match readiness {
        Ok(backend) => Ok(AppliedMaterialization { rendered_objects, backend }),
        Err(source) => Err(MaterializerError::ReadinessWait { rendered_objects, source }),
    }
}

/// The order in which applied objects are deleted: the last applied first.
pub fn delete_order(objects: &Vec<RenderedObjectRef>) -> (r: Vec<RenderedObjectRef>)
    ensures
        r.deep_view() == objects.deep_view().reverse(),
{
    let mut order: Vec<RenderedObjectRef> = Vec::new();
    let mut i: usize = objects.len();
    while i > 0
        invariant
            0 <= i <= objects.len(),
            order.len() == objects.len() - i,
            forall|j: int|
                0 <= j < order.len() ==> (#[trigger] order@[j]).deep_view()
                    == objects@[objects.len() - 1 - j].deep_view(),
        decreases i,
    {
        i = i - 1;
        order.push(objects[i].clone());
    }
    assert(order.deep_view() =~= objects.deep_view().reverse());
    order
}

/// How the failure to delete an object is reported; a success reports nothing.
pub fn delete_outcome(
    object: &RenderedObjectRef,
    result: Result<(), KubernetesClientError>,
) -> (r: Result<(), MaterializerError>)
    ensures
        outcome::problem(r) == (match result {
            Ok(()) => None,
            Err(source) => Some(
                MaterializerErrorView::Delete { object: object.deep_view(), source: source@ },
            ),
        }),
{
    match result {
        Ok(()) => Ok(()),
        Err(source) => Err(MaterializerError::Delete { object: object.clone(), source }),
    }
}

/// Objects that are being deleted, one by one, the last applied first.
#[derive(Debug, PartialEq, Eq)]
pub struct DeleteRun {
    order: Vec<RenderedObjectRef>,
    done: usize,
    stopped: bool,
}

/// What a [`DeleteRun`] holds: the objects in the order of their deletion, how many
/// were deleted, and whether one of them was not.
#[verifier::ext_equal]
pub struct DeleteRunView {
    pub order: Seq<RenderedObjectRefView>,
    pub done: nat,
    pub stopped: bool,
}

impl View for DeleteRun {
    type V = DeleteRunView;

    closed spec fn view(&self) -> DeleteRunView {
        DeleteRunView {
            order: self.order.deep_view(),
            done: self.done as nat,
            stopped: self.stopped,
        }
    }
}

impl DeleteRunView {
    /// The object to delete next: none once all are deleted, or one was not.
    pub open spec fn next(self) -> Option<RenderedObjectRefView> {
        if !self.stopped && self.done < self.order.len() {
            Some(self.order[self.done as int])
        } else {
            None
        }
    }

    /// The run behind the deletion of the next object, or behind its failure.
    pub open spec fn after(self, answer: Result<(), KubernetesClientErrorView>) -> DeleteRunView {
        match answer {
            Ok(_) => DeleteRunView { done: self.done + 1, ..self },
            Err(_) => DeleteRunView { stopped: true, ..self },
        }
    }

    /// How the failure to delete the next object is reported.
    pub open spec fn failure(self, answer: Result<(), KubernetesClientErrorView>) -> Option<
        MaterializerErrorView,
    > {
        match answer {
            Ok(_) => None,
            Err(source) => Some(
                MaterializerErrorView::Delete { object: self.order[self.done as int], source },
            ),
        }
    }
}

/// A run that has deleted nothing yet.
pub open spec fn delete_start(objects: Seq<RenderedObjectRefView>) -> DeleteRunView {
    DeleteRunView { order: objects.reverse(), done: 0, stopped: false }
}

/// What a client answered.
pub open spec fn answer_of(result: Result<(), KubernetesClientError>) -> Result<
    (),
    KubernetesClientErrorView,
> {
    match result {
        Ok(_) => Ok(()),
        Err(error) => Err(error@),
    }
}

impl DeleteRun {
    #[verifier::type_invariant]
    spec fn in_bounds(&self) -> bool {
        self.done <= self.order@.len()
    }

    /// A run that has deleted nothing yet.
    pub fn start(objects: &Vec<RenderedObjectRef>) -> (r: DeleteRun)
        ensures
            r@ == delete_start(objects.deep_view()),
    {
        DeleteRun { order: delete_order(objects), done: 0, stopped: false }
    }

    /// The object to delete next: none once all are deleted, or one was not.
    pub fn next_object(&self) -> (r: Option<&RenderedObjectRef>)
        ensures
            r.deep_view() == self@.next(),
    {
        assert(self.order.deep_view().len() == self.order@.len());
        if !self.stopped && self.done < self.order.len() {
            Some(&self.order[self.done])
        } else {
            None
        }
    }

    /// Takes in how the deletion of the next object went. A failure ends the run:
    /// nothing after it is deleted.
    pub fn step_done(&mut self, result: Result<(), KubernetesClientError>) -> (r: Result<
        (),
        MaterializerError,
    >)
        requires
            old(self)@.next() is Some,
        ensures
            outcome::problem(r) == old(self)@.failure(answer_of(result)),
            final(self)@ == old(self)@.after(answer_of(result)),
    {
        proof {
            use_type_invariant(&*self);
            assert(self.order.deep_view().len() == self.order@.len());
            assert(self.order.deep_view()[self.done as int]
                == self.order@[self.done as int].deep_view());
        }
        let total: usize = self.order.len();
        let outcome = delete_outcome(&self.order[self.done], result);
        if outcome.is_ok() {
            assert(self.done < total);
            self.done = self.done + 1;
        } else {
            self.stopped = true;
        }
        outcome
    }

    /// Whether every object was deleted.
    pub fn is_complete(&self) -> (r: bool)
        ensures
            r == (self@.done == self@.order.len()),
    {
        assert(self.order.deep_view().len() == self.order@.len());
        self.done == self.order.len()
    }
}

/// The objects that a client is asked to delete, if it answers so.
pub open spec fn delete_calls(
    run: DeleteRunView,
    answers: Seq<Result<(), KubernetesClientErrorView>>,
) -> Seq<RenderedObjectRefView>
    decreases answers.len(),
{
    if answers.len() == 0 || run.next() is None {
        Seq::empty()
    } else {
        seq![run.next()->0] + delete_calls(run.after(answers[0]), answers.skip(1))
    }
}

/// What comes of a deletion, if a client answers so.
pub open spec fn delete_result(
    run: DeleteRunView,
    answers: Seq<Result<(), KubernetesClientErrorView>>,
) -> Result<(), MaterializerErrorView>
    decreases answers.len(),
{
    if answers.len() == 0 || run.next() is None {
        Ok(())
    } else {
        match run.failure(answers[0]) {
            Some(error) => Err(error),
            None => delete_result(run.after(answers[0]), answers.skip(1)),
        }
    }
}

proof fn lemma_deletion_from(
    run: DeleteRunView,
    answers: Seq<Result<(), KubernetesClientErrorView>>,
    good: int,
)
    requires
        !run.stopped,
        run.done + answers.len() == run.order.len(),
        0 <= good <= answers.len(),
        forall|i: int| 0 <= i < good ==> (#[trigger] answers[i]) is Ok,
        good < answers.len() ==> answers[good] is Err,
    ensures
        delete_calls(run, answers) == run.order.subrange(
            run.done as int,
            if good < answers.len() {
                run.done + good + 1
            } else {
                run.order.len() as int
            },
        ),
        delete_result(run, answers) == if good < answers.len() {
            Err(
                MaterializerErrorView::Delete {
                    object: run.order[run.done + good],
                    source: answers[good]->Err_0,
                },
            )
        } else {
            Ok(())
        },
    decreases answers.len(),
{
    if answers.len() > 0 {
        let rest = answers.skip(1);
        let after = run.after(answers[0]);
        if good > 0 {
            assert(answers[0] is Ok);
            assert forall|i: int| 0 <= i < good - 1 implies (#[trigger] rest[i]) is Ok by {
                assert(rest[i] == answers[i + 1]);
            }
            if good < answers.len() {
                assert(rest[good - 1] == answers[good]);
            }
            lemma_deletion_from(after, rest, good - 1);
        } else {
            assert(after.next() is None);
            assert(delete_calls(after, rest) =~= Seq::empty());
        }
    }
    assert(delete_calls(run, answers) =~= run.order.subrange(
        run.done as int,
        if good < answers.len() {
            run.done + good + 1
        } else {
            run.order.len() as int
        },
    ));
}

/// Objects are deleted in reverse, each once, up to the first that is not, and none
/// after it; that one is reported. A deletion succeeds only if every object was
/// deleted.
pub proof fn lemma_deletion_stops_at_the_first_failure(
    objects: Seq<RenderedObjectRefView>,
    answers: Seq<Result<(), KubernetesClientErrorView>>,
    good: int,
)
    requires
        answers.len() == objects.len(),
        0 <= good <= answers.len(),
        forall|i: int| 0 <= i < good ==> (#[trigger] answers[i]) is Ok,
        good < answers.len() ==> answers[good] is Err,
    ensures
        delete_calls(delete_start(objects), answers) == if good < answers.len() {
            objects.reverse().take(good + 1)
        } else {
            objects.reverse()
        },
        delete_result(delete_start(objects), answers) == if good < answers.len() {
            Err(
                MaterializerErrorView::Delete {
                    object: objects.reverse()[good],
                    source: answers[good]->Err_0,
                },
            )
        } else {
            Ok(())
        },
{
    lemma_deletion_from(delete_start(objects), answers, good);
    assert(objects.reverse().subrange(0, objects.len() as int) =~= objects.reverse());
    if good < answers.len() {
        assert(objects.reverse().subrange(0, good + 1) =~= objects.reverse().take(good + 1));
    }
}

/// A service or workload is applied only after every wait for a claim.
pub proof fn lemma_claims_bound_before_service_and_workload(
    manifest: RenderedManifestView,
    waits: int,
    applies: int,
)
    requires
        0 <= waits < apply_steps(manifest).len(),
        0 <= applies < apply_steps(manifest).len(),
        apply_steps(manifest)[waits] is WaitForPvcBound,
        apply_steps(manifest)[applies] matches ApplyStepView::Apply { object, .. } && !objects_at(
            manifest.objects,
            ApplyOrder::PersistentVolume,
        ).contains(object) && !objects_at(
            manifest.objects,
            ApplyOrder::PersistentVolumeClaim,
        ).contains(object),
    ensures
        waits < applies,
{
    let volumes = objects_at(manifest.objects, ApplyOrder::PersistentVolume);
    let claims = objects_at(manifest.objects, ApplyOrder::PersistentVolumeClaim);
    let steps = apply_steps(manifest);
    if applies < volumes.len() {
        assert(steps[applies] == apply_step(volumes[applies]));
        assert(volumes.contains(volumes[applies]));
    } else if applies < volumes.len() + claims.len() {
        let at = applies - volumes.len();
        assert(steps[applies] == apply_step(claims[at]));
        assert(claims.contains(claims[at]));
    }
    if waits >= volumes.len() + 2 * claims.len() {
        let services = objects_at(manifest.objects, ApplyOrder::Service);
        let workloads = objects_at(manifest.objects, ApplyOrder::Workload);
        let at = waits - volumes.len() - 2 * claims.len();
        if at < services.len() {
            assert(steps[waits] == apply_step(services[at]));
        } else {
            assert(steps[waits] == apply_step(workloads[at - services.len()]));
        }
    }
}

/// What was rendered for an instance carries the generations of its manifest, so
/// it is never refused.
#[verifier::spinoff_prover]
#[verifier::rlimit(40)]
pub proof fn lemma_rendered_manifest_is_applied(request: RenderManifestRequest<'_>)
    requires
        render::rendered_manifest(request) is Ok,
    ensures
        manifest_problem(render::rendered_manifest(request)->Ok_0) is None,
{
    let manifest = render::rendered_manifest(request)->Ok_0;
    let problems = object_problems(manifest);
    let labels = render::metadata_label_map(*request.instance, render::workload_name(request));
    reveal_strlit("sleepypods.io/instance-generation");
    reveal_strlit("sleepypods.io/workload-class-id");
    reveal_strlit("sleepypods.io/workload-class-version");
    reveal_strlit("sleepypods.io/workload-name");
    assert(labels.contains_key(LABEL_INSTANCE_GENERATION@));
    assert(labels[LABEL_INSTANCE_GENERATION@] == text::decimal(request.instance.generation@));
    assert forall|i: int| 0 <= i < problems.len() implies (#[trigger] problems[i]) is None by {
        let object = manifest.objects[i].object;
        assert(object.metadata().labels == labels);
        assert(object.metadata().annotations == render::annotation_map(
            request.template_generation,
        ));
    }
    outcome::lemma_first_problem(problems, 0, problems.len() as int);
}

} // verus!
