//! What the Kubernetes client is told, and what is read from live objects.
use std::time::Duration;

use vstd::prelude::*;

use crate::materialization::BackendEndpoint;
use crate::materialization::RenderedObjectRef;
use crate::materialization::RenderedObjectRefView;
use crate::materializer;
use crate::materializer::KubernetesClientError;
use crate::materializer::KubernetesClientErrorView;
use crate::outcome;
use crate::string_map::StringMap;
use crate::text;
use crate::time;

pub mod idle_membership;
pub mod laws;

verus! {

pub const DEFAULT_FIELD_MANAGER: &'static str = "sleepypods-control-plane";

pub const SERVICE_NAME_LABEL: &'static str = "kubernetes.io/service-name";

pub const BACKEND_SCHEME_ANNOTATION: &'static str = "sleepypods.io/backend-scheme";

/// How the client works.
#[derive(Debug, PartialEq, Eq)]
pub struct KubeMaterializerClientConfig {
    pub field_manager: String,
    pub backend_scheme: String,
    pub delete_timeout: Duration,
    pub pvc_bound_timeout: Duration,
    pub readiness_timeout: Duration,
    pub poll_interval: Duration,
}

/// What a [`KubeMaterializerClientConfig`] holds.
#[verifier::ext_equal]
pub struct KubeMaterializerClientConfigView {
    pub field_manager: Seq<char>,
    pub backend_scheme: Seq<char>,
    pub delete_timeout: u128,
    pub pvc_bound_timeout: u128,
    pub readiness_timeout: u128,
    pub poll_interval: u128,
}

impl DeepView for KubeMaterializerClientConfig {
    type V = KubeMaterializerClientConfigView;

    open spec fn deep_view(&self) -> KubeMaterializerClientConfigView {
        KubeMaterializerClientConfigView {
            field_manager: self.field_manager.deep_view(),
            backend_scheme: self.backend_scheme.deep_view(),
            delete_timeout: time::nanos(self.delete_timeout),
            pvc_bound_timeout: time::nanos(self.pvc_bound_timeout),
            readiness_timeout: time::nanos(self.readiness_timeout),
            poll_interval: time::nanos(self.poll_interval),
        }
    }
}

impl Clone for KubeMaterializerClientConfig {
    fn clone(&self) -> (r: Self)
        ensures
            r.deep_view() == self.deep_view(),
    {
        KubeMaterializerClientConfig {
            field_manager: self.field_manager.clone(),
            backend_scheme: self.backend_scheme.clone(),
            delete_timeout: self.delete_timeout,
            pvc_bound_timeout: self.pvc_bound_timeout,
            readiness_timeout: self.readiness_timeout,
            poll_interval: self.poll_interval,
        }
    }
}

/// A setting of the client that is not accepted.
#[derive(Debug, PartialEq, Eq)]
pub struct InvalidKubeMaterializerClientConfig {
    field: &'static str,
}

impl View for InvalidKubeMaterializerClientConfig {
    type V = Seq<char>;

    closed spec fn view(&self) -> Seq<char> {
        self.field@
    }
}

impl DeepView for InvalidKubeMaterializerClientConfig {
    type V = Seq<char>;

    open spec fn deep_view(&self) -> Seq<char> {
        self@
    }
}

impl Clone for InvalidKubeMaterializerClientConfig {
    fn clone(&self) -> (r: Self)
        ensures
            r@ == self@,
    {
        InvalidKubeMaterializerClientConfig { field: self.field }
    }
}

impl InvalidKubeMaterializerClientConfig {
    pub fn field(&self) -> (r: &'static str)
        ensures
            r@ == self@,
    {
        self.field
    }

    /// What the error says.
    pub fn to_string(&self) -> (r: String)
        ensures
            r@ == "Kubernetes materializer config "@ + self@ + " is invalid"@,
    {
        text::join3("Kubernetes materializer config ", self.field, " is invalid")
    }
}

/// An ASCII letter.
pub open spec fn is_letter(c: char) -> bool {
    ('a' <= c <= 'z') || ('A' <= c <= 'Z')
}

/// Whether a text is the scheme of a URI: a letter, then letters, digits, `+`, `-`
/// and dots.
pub open spec fn is_scheme(scheme: Seq<char>) -> bool {
    &&& scheme.len() > 0
    &&& is_letter(scheme[0])
    &&& forall|i: int|
        1 <= i < scheme.len() ==> is_letter(#[trigger] scheme[i]) || text::is_digit(scheme[i])
            || scheme[i] == '+' || scheme[i] == '-' || scheme[i] == '.'
}

/// Whether a text is the scheme of a URI.
pub fn is_valid_uri_scheme(scheme: &str) -> (r: bool)
    ensures
        r == is_scheme(scheme@),
{
    let chars = text::chars_of(scheme);
    if chars.len() == 0 {
        return false;
    }
    let first = chars[0];
    if !(('a' <= first && first <= 'z') || ('A' <= first && first <= 'Z')) {
        return false;
    }
    let mut i: usize = 1;
    while i < chars.len()
        invariant
            1 <= i <= chars.len(),
            chars@ == scheme@,
            is_letter(scheme@[0]),
            forall|j: int|
                1 <= j < i ==> is_letter(#[trigger] scheme@[j]) || text::is_digit(scheme@[j])
                    || scheme@[j] == '+' || scheme@[j] == '-' || scheme@[j] == '.',
        decreases chars.len() - i,
    {
        let c = chars[i];
        if !(('a' <= c && c <= 'z') || ('A' <= c && c <= 'Z') || ('0' <= c && c <= '9') || c == '+'
            || c == '-' || c == '.') {
            assert(!(is_letter(scheme@[i as int]) || text::is_digit(scheme@[i as int])));
            return false;
        }
        i = i + 1;
    }
    true
}

/// The first setting that is not accepted.
pub open spec fn config_problem(config: KubeMaterializerClientConfigView) -> Option<Seq<char>> {
    if text::is_blank(config.field_manager) {
        Some("field_manager"@)
    } else if !is_scheme(config.backend_scheme) {
        Some("backend_scheme"@)
    } else if config.delete_timeout == 0 {
        Some("delete_timeout"@)
    } else if config.pvc_bound_timeout == 0 {
        Some("pvc_bound_timeout"@)
    } else if config.readiness_timeout == 0 {
        Some("readiness_timeout"@)
    } else if config.poll_interval == 0 {
        Some("poll_interval"@)
    } else {
        None
    }
}

/// The settings that hold unless others are given.
pub open spec fn default_config() -> KubeMaterializerClientConfigView {
    KubeMaterializerClientConfigView {
        field_manager: "sleepypods-control-plane"@,
        backend_scheme: "http"@,
        delete_timeout: 10_000_000_000,
        pvc_bound_timeout: 120_000_000_000,
        readiness_timeout: 120_000_000_000,
        poll_interval: 2_000_000_000,
    }
}

impl Default for KubeMaterializerClientConfig {
    fn default() -> (r: Self)
        ensures
            r.deep_view() == default_config(),
    {
        KubeMaterializerClientConfig {
            field_manager: DEFAULT_FIELD_MANAGER.to_owned(),
            backend_scheme: "http".to_owned(),
            delete_timeout: Duration::from_secs(10),
            pvc_bound_timeout: Duration::from_secs(120),
            readiness_timeout: Duration::from_secs(120),
            poll_interval: Duration::from_secs(2),
        }
    }
}

impl KubeMaterializerClientConfig {
    pub fn validate(&self) -> (r: Result<(), InvalidKubeMaterializerClientConfig>)
        ensures
            outcome::problem(r) == config_problem(self.deep_view()),
    {
        if text::blank(self.field_manager.as_str()) {
            return Err(InvalidKubeMaterializerClientConfig { field: "field_manager" });
        }
        if !is_valid_uri_scheme(self.backend_scheme.as_str()) {
            return Err(InvalidKubeMaterializerClientConfig { field: "backend_scheme" });
        }
        if self.delete_timeout.as_nanos() == 0 {
            return Err(InvalidKubeMaterializerClientConfig { field: "delete_timeout" });
        }
        if self.pvc_bound_timeout.as_nanos() == 0 {
            return Err(InvalidKubeMaterializerClientConfig { field: "pvc_bound_timeout" });
        }
        if self.readiness_timeout.as_nanos() == 0 {
            return Err(InvalidKubeMaterializerClientConfig { field: "readiness_timeout" });
        }
        if self.poll_interval.as_nanos() == 0 {
            return Err(InvalidKubeMaterializerClientConfig { field: "poll_interval" });
        }
        Ok(())
    }
}

/// The settings that hold unless others are given are accepted.
pub proof fn lemma_default_config_is_valid()
    ensures
        config_problem(default_config()) is None,
{
    reveal_strlit("sleepypods-control-plane");
    reveal_strlit("http");
    assert(!text::is_white_space("sleepypods-control-plane"@[0]));
    text::lemma_trimmed_blank("sleepypods-control-plane"@);
}

/// What tells a kind of object to the API of Kubernetes.
#[derive(Debug, PartialEq, Eq)]
pub struct ApiResourceName {
    pub group: String,
    pub version: String,
    pub api_version: String,
    pub kind: String,
    pub plural: String,
}

/// What an [`ApiResourceName`] holds.
#[verifier::ext_equal]
pub struct ApiResourceNameView {
    pub group: Seq<char>,
    pub version: Seq<char>,
    pub api_version: Seq<char>,
    pub kind: Seq<char>,
    pub plural: Seq<char>,
}

impl DeepView for ApiResourceName {
    type V = ApiResourceNameView;

    open spec fn deep_view(&self) -> ApiResourceNameView {
        ApiResourceNameView {
            group: self.group.deep_view(),
            version: self.version.deep_view(),
            api_version: self.api_version.deep_view(),
            kind: self.kind.deep_view(),
            plural: self.plural.deep_view(),
        }
    }
}

impl Clone for ApiResourceName {
    fn clone(&self) -> (r: Self)
        ensures
            r.deep_view() == self.deep_view(),
    {
        ApiResourceName {
            group: self.group.clone(),
            version: self.version.clone(),
            api_version: self.api_version.clone(),
            kind: self.kind.clone(),
            plural: self.plural.clone(),
        }
    }
}

/// The group and the version in an API version: what is before and behind its
/// last slash.
pub open spec fn split_version(api_version: Seq<char>) -> (Seq<char>, Seq<char>)
    decreases api_version.len(),
{
    if api_version.len() == 0 {
        (Seq::empty(), Seq::empty())
    } else if api_version.last() == '/' {
        (api_version.drop_last(), Seq::empty())
    } else {
        let (group, version) = split_version(api_version.drop_last());
        (group, version.push(api_version.last()))
    }
}

/// The name of a kind of object in the paths of the API, if such objects are
/// rendered.
pub open spec fn plural_of(object: RenderedObjectRefView) -> Option<Seq<char>> {
    let namespaced = object.namespace.len() > 0;
    if object.api_version == "apps/v1"@ && object.kind == "Deployment"@ && namespaced {
        Some("deployments"@)
    } else if object.api_version == "apps/v1"@ && object.kind == "StatefulSet"@ && namespaced {
        Some("statefulsets"@)
    } else if object.api_version == "v1"@ && object.kind == "Service"@ && namespaced {
        Some("services"@)
    } else if object.api_version == "v1"@ && object.kind == "PersistentVolume"@ && !namespaced {
        Some("persistentvolumes"@)
    } else if object.api_version == "v1"@ && object.kind == "PersistentVolumeClaim"@
        && namespaced {
        Some("persistentvolumeclaims"@)
    } else {
        None
    }
}

/// The kind of an object, as the API of Kubernetes knows it.
pub open spec fn api_resource_of(object: RenderedObjectRefView) -> Result<
    ApiResourceNameView,
    KubernetesClientErrorView,
> {
    match plural_of(object) {
        Some(plural) => Ok(
            ApiResourceNameView {
                group: split_version(object.api_version).0,
                version: split_version(object.api_version).1,
                api_version: object.api_version,
                kind: object.kind,
                plural,
            },
        ),
        None => Err(
            materializer::permanent(
                "unsupported rendered Kubernetes object "@ + object.api_version + " "@
                    + object.kind + " "@ + object.namespace + "/"@ + object.name,
            ),
        ),
    }
}

fn split_api_version(api_version: &str) -> (r: (String, String))
    ensures
        (r.0@, r.1@) == split_version(api_version@),
{
    let chars = text::chars_of(api_version);
    let ghost view = api_version@;
    let mut i: usize = chars.len();
    assert(view.take(view.len() as int) =~= view);
    assert(view.skip(view.len() as int) =~= Seq::empty());
    assert(split_version(view).1 + Seq::<char>::empty() =~= split_version(view).1);
    while i > 0
        invariant
            0 <= i <= chars.len(),
            chars@ == api_version@,
            view == api_version@,
            split_version(view) == (
                split_version(view.take(i as int)).0,
                split_version(view.take(i as int)).1 + view.skip(i as int),
            ),
        decreases i,
    {
        proof {
            assert(view.take(i as int).drop_last() =~= view.take(i - 1));
            assert(view.take(i as int).last() == view[i - 1]);
        }
        if chars[i - 1] == '/' {
            let group = api_version.substring_char(0, i - 1);
            let version = api_version.substring_char(i, chars.len());
            proof {
                assert(group@ =~= view.take(i - 1));
                assert(version@ =~= view.skip(i as int));
                assert(Seq::<char>::empty() + view.skip(i as int) =~= view.skip(i as int));
            }
            return (group.to_owned(), version.to_owned());
        }
        proof {
            let before = split_version(view.take(i - 1));
            assert(before.1.push(view[i - 1]) + view.skip(i as int) =~= before.1 + view.skip(
                i - 1,
            ));
        }
        i = i - 1;
    }
    proof {
        assert(view.take(0) =~= Seq::empty());
        assert(view.skip(0) =~= view);
        assert(Seq::<char>::empty() + view =~= view);
    }
    let group = String::new();
    (group, api_version.to_owned())
}

/// The kind of an object, as the API of Kubernetes knows it.
pub fn api_resource_for_ref(object: &RenderedObjectRef) -> (r: Result<
    ApiResourceName,
    KubernetesClientError,
>)
    ensures
        outcome::of(r) == api_resource_of(object.deep_view()),
{
    let (group, version) = split_api_version(object.api_version.as_str());
    let namespaced = !object.namespace.as_str().is_empty();
    let apps = text::same(object.api_version.as_str(), "apps/v1");
    let core = text::same(object.api_version.as_str(), "v1");
    let kind = object.kind.as_str();
    let plural = if apps && text::same(kind, "Deployment") && namespaced {
        "deployments"
    } else if apps && text::same(kind, "StatefulSet") && namespaced {
        "statefulsets"
    } else if core && text::same(kind, "Service") && namespaced {
        "services"
    } else if core && text::same(kind, "PersistentVolume") && !namespaced {
        "persistentvolumes"
    } else if core && text::same(kind, "PersistentVolumeClaim") && namespaced {
        "persistentvolumeclaims"
    } else {
        let message = text::join4(
            "unsupported rendered Kubernetes object ",
            object.api_version.as_str(),
            " ",
            kind,
        );
        let message = text::appended(message, " ");
        let message = text::appended(message, object.namespace.as_str());
        let message = text::appended(message, "/");
        let message = text::appended(message, object.name.as_str());
        return Err(KubernetesClientError::new(message.as_str()));
    };
    Ok(
        ApiResourceName {
            group,
            version,
            api_version: object.api_version.clone(),
            kind: object.kind.clone(),
            plural: plural.to_owned(),
        },
    )
}

/// What is read from a live service. It may have no specification of ports.
#[derive(Debug, PartialEq, Eq)]
pub struct LiveService {
    pub name: Option<String>,
    pub namespace: Option<String>,
    pub annotations: Option<StringMap<String>>,
    pub ports: Option<Vec<i32>>,
}

/// What a [`LiveService`] holds.
#[verifier::ext_equal]
pub struct LiveServiceView {
    pub name: Option<Seq<char>>,
    pub namespace: Option<Seq<char>>,
    pub annotations: Option<Map<Seq<char>, Seq<char>>>,
    pub ports: Option<Seq<i32>>,
}

impl DeepView for LiveService {
    type V = LiveServiceView;

    open spec fn deep_view(&self) -> LiveServiceView {
        LiveServiceView {
            name: self.name.deep_view(),
            namespace: self.namespace.deep_view(),
            annotations: self.annotations.deep_view(),
            ports: self.ports.deep_view(),
        }
    }
}

/// The scheme that a service is reached by: its annotation, or else the setting.
pub open spec fn scheme_of(
    annotations: Option<Map<Seq<char>, Seq<char>>>,
    config: KubeMaterializerClientConfigView,
) -> Result<Seq<char>, KubernetesClientErrorView> {
    let key = "sleepypods.io/backend-scheme"@;
    if annotations matches Some(annotations) && annotations.contains_key(key) {
        let scheme = annotations->0[key];
        if is_scheme(scheme) {
            Ok(scheme)
        } else {
            Err(
                materializer::permanent(
                    "Service backend scheme annotation sleepypods.io/backend-scheme is invalid"@,
                ),
            )
        }
    } else if is_scheme(config.backend_scheme) {
        Ok(config.backend_scheme)
    } else {
        Err(materializer::permanent("Kubernetes materializer backend scheme is invalid"@))
    }
}

/// The first port of a service.
pub open spec fn port_of(ports: Option<Seq<i32>>) -> Result<i32, KubernetesClientErrorView> {
    match ports {
        None => Err(materializer::permanent("live Service has no spec.ports"@)),
        Some(ports) => if ports.len() == 0 {
            Err(materializer::permanent("live Service has no ports"@))
        } else if ports[0] <= 0 {
            Err(
                materializer::permanent(
                    "live Service port "@ + text::signed_decimal(ports[0] as int)
                        + " is not positive"@,
                ),
            )
        } else {
            Ok(ports[0])
        },
    }
}

/// Where a service is reached inside the cluster.
pub open spec fn backend_uri(
    scheme: Seq<char>,
    name: Seq<char>,
    namespace: Seq<char>,
    port: int,
) -> Seq<char> {
    scheme + "://"@ + name + "."@ + namespace + ".svc.cluster.local:"@ + text::signed_decimal(port)
}

/// Where a live service is reached.
pub open spec fn backend_of(
    service: LiveServiceView,
    config: KubeMaterializerClientConfigView,
) -> Result<Seq<char>, KubernetesClientErrorView> {
    match scheme_of(service.annotations, config) {
        Err(error) => Err(error),
        Ok(scheme) => match service.name {
            None => Err(materializer::permanent("live Service is missing metadata.name"@)),
            Some(name) => match service.namespace {
                None => Err(
                    materializer::permanent("live Service is missing metadata.namespace"@),
                ),
                Some(namespace) => match port_of(service.ports) {
                    Err(error) => Err(error),
                    Ok(port) => Ok(backend_uri(scheme, name, namespace, port as int)),
                },
            },
        },
    }
}

fn backend_scheme_for_service<'a>(
    annotations: &'a Option<StringMap<String>>,
    config: &'a KubeMaterializerClientConfig,
) -> (r: Result<&'a str, KubernetesClientError>)
    ensures
        outcome::of(r) == scheme_of(annotations.deep_view(), config.deep_view()),
{
    if let Some(annotations) = annotations {
        if let Some(annotation) = annotations.get(BACKEND_SCHEME_ANNOTATION) {
            if !is_valid_uri_scheme(annotation.as_str()) {
                return Err(
                    KubernetesClientError::new(
                        "Service backend scheme annotation sleepypods.io/backend-scheme is invalid",
                    ),
                );
            }
            return Ok(annotation.as_str());
        }
    }
    if !is_valid_uri_scheme(config.backend_scheme.as_str()) {
        return Err(
            KubernetesClientError::new("Kubernetes materializer backend scheme is invalid"),
        );
    }
    Ok(config.backend_scheme.as_str())
}

fn service_port(ports: &Option<Vec<i32>>) -> (r: Result<i32, KubernetesClientError>)
    ensures
        outcome::of(r) == port_of(ports.deep_view()),
{
    match ports {
        None => Err(KubernetesClientError::new("live Service has no spec.ports")),
        Some(ports) => {
            assert(ports.deep_view() =~= ports@);
            if ports.len() == 0 {
                return Err(KubernetesClientError::new("live Service has no ports"));
            }
            let port: i32 = ports[0];
            if port <= 0 {
                let shown = text::signed_number(port as i64);
                let message = text::join3("live Service port ", shown.as_str(), " is not positive");
                return Err(KubernetesClientError::new(message.as_str()));
            }
            Ok(port)
        },
    }
}

/// Where a live service is reached.
pub fn backend_endpoint_for_service(
    service: &LiveService,
    config: &KubeMaterializerClientConfig,
) -> (r: Result<BackendEndpoint, KubernetesClientError>)
    ensures
        outcome::of(r) == backend_of(service.deep_view(), config.deep_view()),
{
    let scheme = match backend_scheme_for_service(&service.annotations, config) {
        Ok(scheme) => scheme,
        Err(error) => return Err(error),
    };
    let name = match &service.name {
        Some(name) => name,
        None => return Err(KubernetesClientError::new("live Service is missing metadata.name")),
    };
    let namespace = match &service.namespace {
        Some(namespace) => namespace,
        None => {
            return Err(KubernetesClientError::new("live Service is missing metadata.namespace"));
        },
    };
    let port: i32 = match service_port(&service.ports) {
        Ok(port) => port,
        Err(error) => return Err(error),
    };
    let uri = text::join5(scheme, "://", name.as_str(), ".", namespace.as_str());
    let uri = text::appended(uri, ".svc.cluster.local:");
    let uri = text::appended(uri, text::signed_number(port as i64).as_str());
    proof {
        lemma_uri_is_not_blank(scheme@, uri@);
    }
    match BackendEndpoint::new(uri.as_str()) {
        Ok(endpoint) => Ok(endpoint),
        Err(error) => Err(KubernetesClientError::new(error.to_string().as_str())),
    }
}

proof fn lemma_uri_is_not_blank(scheme: Seq<char>, uri: Seq<char>)
    requires
        is_scheme(scheme),
        uri.len() >= scheme.len(),
        uri[0] == scheme[0],
    ensures
        !text::is_blank(uri),
{
    assert(!text::is_white_space(uri[0]));
    text::lemma_trimmed_blank(uri);
}

/// Whether an endpoint is ready: one that does not say counts as ready.
pub open spec fn is_ready(endpoint: Option<bool>) -> bool {
    match endpoint {
        Some(ready) => ready,
        None => true,
    }
}

/// Whether one of the endpoints of a slice is ready.
pub open spec fn has_ready(endpoints: Seq<Option<bool>>) -> bool {
    exists|i: int| 0 <= i < endpoints.len() && is_ready(#[trigger] endpoints[i])
}

/// Whether one of the endpoints of a slice is ready.
pub fn endpoint_slice_has_ready_endpoint(endpoints: &Vec<Option<bool>>) -> (r: bool)
    ensures
        r == has_ready(endpoints@),
{
    let mut i: usize = 0;
    while i < endpoints.len()
        invariant
            0 <= i <= endpoints.len(),
            forall|j: int| 0 <= j < i ==> !is_ready(#[trigger] endpoints@[j]),
        decreases endpoints.len() - i,
    {
        let ready = match endpoints[i] {
            Some(ready) => ready,
            None => true,
        };
        if ready {
            assert(is_ready(endpoints@[i as int]));
            return true;
        }
        i = i + 1;
    }
    false
}

/// Whether a reference is to a service.
pub open spec fn is_service(object: RenderedObjectRefView) -> bool {
    object.api_version == "v1"@ && object.kind == "Service"@
}

/// The service among rendered objects, whose endpoints are waited for.
pub fn rendered_service_ref(objects: &Vec<RenderedObjectRef>) -> (r: Result<
    &RenderedObjectRef,
    KubernetesClientError,
>)
    ensures
        match r {
            Ok(found) => exists|i: int|
                0 <= i < objects@.len() && (#[trigger] objects@[i]) == *found && is_service(
                    found.deep_view(),
                ) && forall|j: int|
                    0 <= j < i ==> !is_service((#[trigger] objects@[j]).deep_view()),
            Err(error) => error.deep_view() == materializer::permanent(
                "rendered Kubernetes objects do not include a Service for readiness"@,
            ) && forall|j: int|
                0 <= j < objects@.len() ==> !is_service((#[trigger] objects@[j]).deep_view()),
        },
{
    let mut i: usize = 0;
    while i < objects.len()
        invariant
            0 <= i <= objects.len(),
            forall|j: int| 0 <= j < i ==> !is_service((#[trigger] objects@[j]).deep_view()),
        decreases objects.len() - i,
    {
        let object = &objects[i];
        if text::same(object.api_version.as_str(), "v1") && text::same(
            object.kind.as_str(),
            "Service",
        ) {
            return Ok(object);
        }
        i = i + 1;
    }
    Err(
        KubernetesClientError::new(
            "rendered Kubernetes objects do not include a Service for readiness",
        ),
    )
}

/// The selector for the endpoint slices of a service.
pub fn endpoint_slice_selector(service: &RenderedObjectRef) -> (r: String)
    ensures
        r@ == "kubernetes.io/service-name="@ + service.deep_view().name,
{
    text::join2("kubernetes.io/service-name=", service.name.as_str())
}

/// Whether a claim is bound.
pub fn pvc_phase_is_bound(phase: &Option<String>) -> (r: bool)
    ensures
        r == (phase.deep_view() == Some("Bound"@)),
{
    match phase {
        Some(phase) => text::same(phase.as_str(), "Bound"),
        None => false,
    }
}

/// What is said of a claim that does not become bound in time.
pub fn pvc_timeout_message(namespace: &str, name: &str) -> (r: String)
    ensures
        r@ == "timed out waiting for PersistentVolumeClaim "@ + namespace@ + "/"@ + name@
            + " to become Bound"@,
{
    text::join5(
        "timed out waiting for PersistentVolumeClaim ",
        namespace,
        "/",
        name,
        " to become Bound",
    )
}

/// What is said of a service whose endpoints do not become ready in time.
pub fn readiness_timeout_message(service: &RenderedObjectRef) -> (r: String)
    ensures
        r@ == "timed out waiting for ready EndpointSlice endpoints for Service "@
            + service.deep_view().namespace + "/"@ + service.deep_view().name,
{
    text::join4(
        "timed out waiting for ready EndpointSlice endpoints for Service ",
        service.namespace.as_str(),
        "/",
        service.name.as_str(),
    )
}

/// What is said of an object that is not deleted in time.
pub fn delete_timeout_error(object: &RenderedObjectRef) -> (r: KubernetesClientError)
    ensures
        r@ == (KubernetesClientErrorView {
            message: "timed out deleting Kubernetes object "@ + object.deep_view().api_version
                + " "@ + object.deep_view().kind + " "@ + object.deep_view().namespace + "/"@
                + object.deep_view().name,
            retryable: true,
        }),
{
    let message = text::join5(
        "timed out deleting Kubernetes object ",
        object.api_version.as_str(),
        " ",
        object.kind.as_str(),
        " ",
    );
    let message = text::appended(message, object.namespace.as_str());
    let message = text::appended(message, "/");
    let message = text::appended(message, object.name.as_str());
    KubernetesClientError::transient(message.as_str())
}

/// How long to wait before looking again, if there is time left.
pub open spec fn poll_delay(left: Option<u128>, poll_interval: u128) -> Option<u128> {
    match left {
        None => None,
        Some(left) => if left == 0 {
            None
        } else if poll_interval <= left {
            Some(poll_interval)
        } else {
            Some(left)
        },
    }
}

/// How long to wait before looking again, if there is time left.
pub fn next_poll_delay(
    left: Option<Duration>,
    poll_interval: Duration,
    timeout_message: &str,
) -> (r: Result<Duration, KubernetesClientError>)
    ensures
        match poll_delay(
            match left {
                Some(left) => Some(time::nanos(left)),
                None => None,
            },
            time::nanos(poll_interval),
        ) {
            None => r matches Err(error) && error@ == materializer::permanent(timeout_message@),
            Some(delay) => r matches Ok(found) && time::nanos(found) == delay,
        },
{
    match left {
        None => Err(KubernetesClientError::new(timeout_message)),
        Some(left) => {
            if left.as_nanos() == 0 {
                return Err(KubernetesClientError::new(timeout_message));
            }
            if poll_interval.as_nanos() <= left.as_nanos() {
                Ok(poll_interval)
            } else {
                Ok(left)
            }
        },
    }
}

/// An error of the Kubernetes client.
#[verifier::external_type_specification]
#[verifier::external_body]
pub struct ExKubeError(kube::Error);

/// What kind of failure an error is: an answer of the API, a failure of hyper, of the service
/// below the client, or of reading events, or any other.
#[derive(Debug, PartialEq, Eq)]
pub enum KubeFailureKind {
    Api { code: u16, not_found: bool, conflict: bool },
    Hyper,
    Service,
    ReadEvents,
    Other,
}

/// What a [`KubeFailureKind`] holds.
#[verifier::ext_equal]
pub enum KubeFailureKindView {
    Api { code: u16, not_found: bool, conflict: bool },
    Hyper,
    Service,
    ReadEvents,
    Other,
}

impl DeepView for KubeFailureKind {
    type V = KubeFailureKindView;

    open spec fn deep_view(&self) -> KubeFailureKindView {
        match self {
            KubeFailureKind::Api { code, not_found, conflict } => KubeFailureKindView::Api {
                code: code.deep_view(),
                not_found: not_found.deep_view(),
                conflict: conflict.deep_view(),
            },
            KubeFailureKind::Hyper => KubeFailureKindView::Hyper,
            KubeFailureKind::Service => KubeFailureKindView::Service,
            KubeFailureKind::ReadEvents => KubeFailureKindView::ReadEvents,
            KubeFailureKind::Other => KubeFailureKindView::Other,
        }
    }
}

impl Clone for KubeFailureKind {
    fn clone(&self) -> (r: Self)
        ensures
            r.deep_view() == self.deep_view(),
    {
        match self {
            KubeFailureKind::Api { code, not_found, conflict } => KubeFailureKind::Api {
                code: *code,
                not_found: *not_found,
                conflict: *conflict,
            },
            KubeFailureKind::Hyper => KubeFailureKind::Hyper,
            KubeFailureKind::Service => KubeFailureKind::Service,
            KubeFailureKind::ReadEvents => KubeFailureKind::ReadEvents,
            KubeFailureKind::Other => KubeFailureKind::Other,
        }
    }
}

/// What an error of the Kubernetes client says.
#[derive(Debug, PartialEq, Eq)]
pub struct KubeFailure {
    pub message: String,
    pub kind: KubeFailureKind,
}

/// What a [`KubeFailure`] holds.
#[verifier::ext_equal]
pub struct KubeFailureView {
    pub message: Seq<char>,
    pub kind: KubeFailureKindView,
}

impl DeepView for KubeFailure {
    type V = KubeFailureView;

    open spec fn deep_view(&self) -> KubeFailureView {
        KubeFailureView {
            message: self.message.deep_view(),
            kind: self.kind.deep_view(),
        }
    }
}

impl Clone for KubeFailure {
    fn clone(&self) -> (r: Self)
        ensures
            r.deep_view() == self.deep_view(),
    {
        KubeFailure {
            message: self.message.clone(),
            kind: self.kind.clone(),
        }
    }
}

/// What an error of the Kubernetes client says.
pub uninterp spec fn failure_of(error: kube::Error) -> KubeFailureView;

/// `kube::Error`: the text that it is shown as, the code of a status that the API
/// answered with, `Status::is_not_found` and `Status::is_conflict` of it, and
/// whether it is one of the variants `HyperError`, `Service` and `ReadEvents`, each
/// of which has a kind of its own.
#[verifier::external_body]
fn read_failure(error: &kube::Error) -> (r: KubeFailure)
    ensures
        r.deep_view() == failure_of(*error),
{
    let kind = match error {
        kube::Error::Api(status) => KubeFailureKind::Api {
            code: status.code,
            not_found: status.is_not_found(),
            conflict: status.is_conflict(),
        },
        kube::Error::HyperError(_) => KubeFailureKind::Hyper,
        kube::Error::Service(_) => KubeFailureKind::Service,
        kube::Error::ReadEvents(_) => KubeFailureKind::ReadEvents,
        _ => KubeFailureKind::Other,
    };
    KubeFailure { message: format!("{error}"), kind }
}

/// Whether trying again may mend a failure: a conflict, too many requests, an error
/// of the server, or a failure of hyper, of the service below the client, or of
/// reading events. No other failure is tried again.
pub open spec fn is_transient(kind: KubeFailureKindView) -> bool {
    match kind {
        KubeFailureKindView::Api { code, not_found, conflict } => conflict || code == 429 || 500
            <= code <= 599,
        KubeFailureKindView::Hyper => true,
        KubeFailureKindView::Service => true,
        KubeFailureKindView::ReadEvents => true,
        KubeFailureKindView::Other => false,
    }
}

/// How a failure of the Kubernetes client is reported.
pub open spec fn reported(failure: KubeFailureView) -> KubernetesClientErrorView {
    KubernetesClientErrorView {
        message: failure.message,
        retryable: is_transient(failure.kind),
    }
}

/// How a failure of the Kubernetes client is reported.
pub fn client_error(failure: &KubeFailure) -> (r: KubernetesClientError)
    ensures
        r@ == reported(failure.deep_view()),
{
    let retryable = match &failure.kind {
        KubeFailureKind::Api { code, not_found, conflict } => *conflict || *code == 429 || (500
            <= *code && *code <= 599),
        KubeFailureKind::Hyper => true,
        KubeFailureKind::Service => true,
        KubeFailureKind::ReadEvents => true,
        KubeFailureKind::Other => false,
    };
    if retryable {
        KubernetesClientError::transient(failure.message.as_str())
    } else {
        KubernetesClientError::new(failure.message.as_str())
    }
}

/// How an error of the Kubernetes client is reported.
pub fn kube_error(error: kube::Error) -> (r: KubernetesClientError)
    ensures
        r@ == reported(failure_of(error)),
{
    client_error(&read_failure(&error))
}

/// Whether a failure says that there is no such object.
pub open spec fn says_not_found(kind: KubeFailureKindView) -> bool {
    kind matches KubeFailureKindView::Api { not_found, .. } && not_found
}

/// Whether an error says that there is no such object.
pub fn is_not_found(error: &kube::Error) -> (r: bool)
    ensures
        r == says_not_found(failure_of(*error).kind),
{
    match read_failure(error).kind {
        KubeFailureKind::Api { not_found, .. } => not_found,
        _ => false,
    }
}

} // verus!
