//! Routes: hosts, path prefixes and which route matches a request best.
use std::time::Duration;

use vstd::prelude::*;
use vstd::string::*;

use crate::ids::BackendGeneration;
use crate::ids::Generation;
use crate::ids::IdempotencyKey;
use crate::ids::InstanceId;
use crate::ids::RouteBindingId;
use crate::instance::InstanceState;
use crate::materialization::BackendEndpoint;
use crate::outcome;
use crate::text;
use crate::time;

verus! {

/// Whether a host is meant itself or as a suffix.
#[derive(Clone, Copy, Debug, PartialEq, Eq, Structural)]
pub enum RouteHostKind {
    Exact,
    WildcardSuffix,
}

impl DeepView for RouteHostKind {
    type V = RouteHostKind;

    open spec fn deep_view(&self) -> RouteHostKind {
        *self
    }
}

/// The protocol that a route carries.
#[derive(Clone, Copy, Debug, PartialEq, Eq, Structural)]
pub enum ProtocolRoute {
    Http,
    TlsSni,
}

impl DeepView for ProtocolRoute {
    type V = ProtocolRoute;

    open spec fn deep_view(&self) -> ProtocolRoute {
        *self
    }
}

/// A host name in its normal form.
#[derive(Debug, PartialEq, Eq)]
pub struct RouteHost {
    kind: RouteHostKind,
    host: String,
}

/// What a [`RouteHost`] holds.
#[verifier::ext_equal]
pub struct RouteHostView {
    pub kind: RouteHostKind,
    pub host: Seq<char>,
}

impl DeepView for RouteHost {
    type V = RouteHostView;

    closed spec fn deep_view(&self) -> RouteHostView {
        RouteHostView { kind: self.kind, host: self.host@ }
    }
}

impl Clone for RouteHost {
    fn clone(&self) -> (r: Self)
        ensures
            r.deep_view() == self.deep_view(),
    {
        RouteHost { kind: self.kind, host: self.host.clone() }
    }
}

/// The beginning of a path.
#[derive(Debug, PartialEq, Eq)]
pub struct PathPrefix {
    path: String,
}

impl View for PathPrefix {
    type V = Seq<char>;

    closed spec fn view(&self) -> Seq<char> {
        self.path@
    }
}

impl DeepView for PathPrefix {
    type V = Seq<char>;

    open spec fn deep_view(&self) -> Seq<char> {
        self@
    }
}

impl Clone for PathPrefix {
    fn clone(&self) -> (r: Self)
        ensures
            r@ == self@,
    {
        PathPrefix { path: self.path.clone() }
    }
}

/// Why a host or a path is not accepted.
#[derive(Clone, Copy, Debug, PartialEq, Eq, Structural)]
pub enum InvalidRoute {
    EmptyHost,
    RelativePath,
}

impl DeepView for InvalidRoute {
    type V = InvalidRoute;

    open spec fn deep_view(&self) -> InvalidRoute {
        *self
    }
}

/// What a request must carry for a route to match it.
#[derive(Debug, PartialEq, Eq)]
pub enum RouteIdentity {
    Http { host: RouteHost, path: Option<PathPrefix> },
    Sni { host: RouteHost },
}

/// What a [`RouteIdentity`] holds.
#[verifier::ext_equal]
pub enum RouteIdentityView {
    Http { host: RouteHostView, path: Option<Seq<char>> },
    Sni { host: RouteHostView },
}

impl DeepView for RouteIdentity {
    type V = RouteIdentityView;

    open spec fn deep_view(&self) -> RouteIdentityView {
        match self {
            RouteIdentity::Http { host, path } => RouteIdentityView::Http {
                host: host.deep_view(),
                path: path.deep_view(),
            },
            RouteIdentity::Sni { host } => RouteIdentityView::Sni { host: host.deep_view() },
        }
    }
}

impl Clone for RouteIdentity {
    fn clone(&self) -> (r: Self)
        ensures
            r.deep_view() == self.deep_view(),
    {
        match self {
            RouteIdentity::Http { host, path } => {
                let path_copy = path.clone();
                assert(path_copy.deep_view() =~= path.deep_view());
                RouteIdentity::Http { host: host.clone(), path: path_copy }
            },
            RouteIdentity::Sni { host } => RouteIdentity::Sni { host: host.clone() },
        }
    }
}

/// A route to be bound to an instance.
#[derive(Debug, PartialEq, Eq)]
pub struct RouteBindingSpec {
    pub identity: RouteIdentity,
    pub protocol: ProtocolRoute,
}

/// What a [`RouteBindingSpec`] holds.
#[verifier::ext_equal]
pub struct RouteBindingSpecView {
    pub identity: RouteIdentityView,
    pub protocol: ProtocolRoute,
}

impl DeepView for RouteBindingSpec {
    type V = RouteBindingSpecView;

    open spec fn deep_view(&self) -> RouteBindingSpecView {
        RouteBindingSpecView {
            identity: self.identity.deep_view(),
            protocol: self.protocol.deep_view(),
        }
    }
}

impl Clone for RouteBindingSpec {
    fn clone(&self) -> (r: Self)
        ensures
            r.deep_view() == self.deep_view(),
    {
        RouteBindingSpec {
            identity: self.identity.clone(),
            protocol: self.protocol,
        }
    }
}

/// A route that is bound to an instance.
#[derive(Debug, PartialEq, Eq)]
pub struct RouteBindingRecord {
    pub id: RouteBindingId,
    pub instance_id: InstanceId,
    pub identity: RouteIdentity,
    pub protocol: ProtocolRoute,
}

/// What a [`RouteBindingRecord`] holds.
#[verifier::ext_equal]
pub struct RouteBindingRecordView {
    pub id: Seq<char>,
    pub instance_id: Seq<char>,
    pub identity: RouteIdentityView,
    pub protocol: ProtocolRoute,
}

impl DeepView for RouteBindingRecord {
    type V = RouteBindingRecordView;

    open spec fn deep_view(&self) -> RouteBindingRecordView {
        RouteBindingRecordView {
            id: self.id.deep_view(),
            instance_id: self.instance_id.deep_view(),
            identity: self.identity.deep_view(),
            protocol: self.protocol.deep_view(),
        }
    }
}

impl Clone for RouteBindingRecord {
    fn clone(&self) -> (r: Self)
        ensures
            r.deep_view() == self.deep_view(),
    {
        RouteBindingRecord {
            id: self.id.clone(),
            instance_id: self.instance_id.clone(),
            identity: self.identity.clone(),
            protocol: self.protocol,
        }
    }
}

/// Asks for a route to be bound.
#[derive(Debug, PartialEq, Eq)]
pub struct CreateRouteBindingRequest {
    pub idempotency_key: IdempotencyKey,
    pub route_binding_id: RouteBindingId,
    pub instance_id: InstanceId,
    pub identity: RouteIdentity,
    pub protocol: ProtocolRoute,
}

/// What a [`CreateRouteBindingRequest`] holds.
#[verifier::ext_equal]
pub struct CreateRouteBindingRequestView {
    pub idempotency_key: Seq<char>,
    pub route_binding_id: Seq<char>,
    pub instance_id: Seq<char>,
    pub identity: RouteIdentityView,
    pub protocol: ProtocolRoute,
}

impl DeepView for CreateRouteBindingRequest {
    type V = CreateRouteBindingRequestView;

    open spec fn deep_view(&self) -> CreateRouteBindingRequestView {
        CreateRouteBindingRequestView {
            idempotency_key: self.idempotency_key.deep_view(),
            route_binding_id: self.route_binding_id.deep_view(),
            instance_id: self.instance_id.deep_view(),
            identity: self.identity.deep_view(),
            protocol: self.protocol.deep_view(),
        }
    }
}

impl Clone for CreateRouteBindingRequest {
    fn clone(&self) -> (r: Self)
        ensures
            r.deep_view() == self.deep_view(),
    {
        CreateRouteBindingRequest {
            idempotency_key: self.idempotency_key.clone(),
            route_binding_id: self.route_binding_id.clone(),
            instance_id: self.instance_id.clone(),
            identity: self.identity.clone(),
            protocol: self.protocol,
        }
    }
}

/// Where a matched route leads.
#[derive(Debug, PartialEq, Eq)]
pub struct RouteEntry {
    pub route_binding_id: RouteBindingId,
    pub instance_id: InstanceId,
    pub instance_state: InstanceState,
    pub instance_generation: Generation,
    pub backend: Option<BackendEndpoint>,
    pub backend_generation: Option<BackendGeneration>,
}

/// What a [`RouteEntry`] holds.
#[verifier::ext_equal]
pub struct RouteEntryView {
    pub route_binding_id: Seq<char>,
    pub instance_id: Seq<char>,
    pub instance_state: InstanceState,
    pub instance_generation: nat,
    pub backend: Option<Seq<char>>,
    pub backend_generation: Option<nat>,
}

impl DeepView for RouteEntry {
    type V = RouteEntryView;

    open spec fn deep_view(&self) -> RouteEntryView {
        RouteEntryView {
            route_binding_id: self.route_binding_id.deep_view(),
            instance_id: self.instance_id.deep_view(),
            instance_state: self.instance_state.deep_view(),
            instance_generation: self.instance_generation.deep_view(),
            backend: self.backend.deep_view(),
            backend_generation: self.backend_generation.deep_view(),
        }
    }
}

impl Clone for RouteEntry {
    fn clone(&self) -> (r: Self)
        ensures
            r.deep_view() == self.deep_view(),
    {
        let r = RouteEntry {
            route_binding_id: self.route_binding_id.clone(),
            instance_id: self.instance_id.clone(),
            instance_state: self.instance_state,
            instance_generation: self.instance_generation,
            backend: self.backend.clone(),
            backend_generation: self.backend_generation,
        };
        assert(r.backend.deep_view() =~= self.backend.deep_view());
        r
    }
}

/// A host without one dot at its end, in lower case.
pub open spec fn normal_host(host: Seq<char>) -> Seq<char> {
    let lower = text::ascii_lower(host);
    if lower.len() > 0 && lower.last() == '.' {
        lower.drop_last()
    } else {
        lower
    }
}

/// A suffix without the leading `*.` of a wildcard.
pub open spec fn without_wildcard(host: Seq<char>) -> Seq<char> {
    if text::has_prefix(host, "*."@) {
        host.skip(2)
    } else {
        host
    }
}

/// A host in its normal form.
pub open spec fn normal(host: RouteHostView) -> bool {
    &&& !text::is_blank(host.host)
    &&& normal_host(host.host) == host.host
    &&& host.kind is WildcardSuffix ==> without_wildcard(host.host) == host.host
}

/// An identity whose host and path are in their normal form.
pub open spec fn normal_identity(identity: RouteIdentityView) -> bool {
    match identity {
        RouteIdentityView::Http { host, path } => normal(host) && (path matches Some(prefix)
            ==> text::has_prefix(prefix, "/"@)),
        RouteIdentityView::Sni { host } => normal(host),
    }
}

/// Hosts that are accepted are in their normal form, unless more than one dot ends
/// them or more than one wildcard begins them.
pub proof fn lemma_hosts_are_normal(host: Seq<char>)
    requires
        normal_host(host).len() > 0 ==> normal_host(host).last() != '.',
    ensures
        !text::is_blank(normal_host(host)) ==> normal(
            RouteHostView { kind: RouteHostKind::Exact, host: normal_host(host) },
        ),
        ({
            let suffix = without_wildcard(normal_host(host));
            !text::is_blank(suffix) && !text::has_prefix(suffix, "*."@) ==> normal(
                RouteHostView { kind: RouteHostKind::WildcardSuffix, host: suffix },
            )
        }),
{
    let lower = text::ascii_lower(host);
    let name = normal_host(host);
    let suffix = without_wildcard(name);
    text::lemma_ascii_lower_idempotent(host);
    assert(text::ascii_lower(name) =~= name) by {
        assert forall|i: int| 0 <= i < name.len() implies text::ascii_lower_char(#[trigger] name[i])
            == name[i] by {
            assert(name[i] == lower[i]);
            assert(text::ascii_lower(lower)[i] == lower[i]);
        }
    }
    assert(text::ascii_lower(suffix) =~= suffix) by {
        reveal_strlit("*.");
        assert forall|i: int| 0 <= i < suffix.len() implies text::ascii_lower_char(
            #[trigger] suffix[i],
        ) == suffix[i] by {
            if text::has_prefix(name, "*."@) {
                assert(suffix[i] == name[i + 2]);
                assert(text::ascii_lower(name)[i + 2] == name[i + 2]);
            } else {
                assert(text::ascii_lower(name)[i] == name[i]);
            }
        }
    }
    if suffix.len() > 0 {
        reveal_strlit("*.");
        assert(suffix.last() == name.last());
    }
}

/// The host name in its normal form.
fn normalize(host: &str) -> (r: String)
    ensures
        r@ == normal_host(host@),
{
    let lower = host.to_ascii_lowercase();
    let chars = text::chars_of(lower.as_str());
    if chars.len() > 0 && chars[chars.len() - 1] == '.' {
        let kept = lower.as_str().substring_char(0, chars.len() - 1);
        assert(lower@.subrange(0, chars.len() - 1) =~= lower@.drop_last());
        kept.to_owned()
    } else {
        lower
    }
}

impl RouteHost {
    /// A host that is meant itself.
    pub fn exact(host: &str) -> (r: Result<Self, InvalidRoute>)
        ensures
            outcome::of(r) == (if text::is_blank(normal_host(host@)) {
                Err(InvalidRoute::EmptyHost)
            } else {
                Ok(RouteHostView { kind: RouteHostKind::Exact, host: normal_host(host@) })
            }),
    {
        let host = normalize(host);
        if text::blank(host.as_str()) {
            return Err(InvalidRoute::EmptyHost);
        }
        Ok(RouteHost { kind: RouteHostKind::Exact, host })
    }

    /// A host whose subdomains are meant; a leading `*.` is dropped.
    pub fn wildcard_suffix(host: &str) -> (r: Result<Self, InvalidRoute>)
        ensures
            outcome::of(r) == {
                let suffix = without_wildcard(normal_host(host@));
                if text::is_blank(suffix) {
                    Err(InvalidRoute::EmptyHost)
                } else {
                    Ok(RouteHostView { kind: RouteHostKind::WildcardSuffix, host: suffix })
                }
            },
    {
        let host = normalize(host);
        let suffix = if text::starts_with(host.as_str(), "*.") {
            proof {
                reveal_strlit("*.");
            }
            let chars = text::chars_of(host.as_str());
            let rest = host.as_str().substring_char(2, chars.len());
            assert(host@.subrange(2, chars.len() as int) =~= host@.skip(2));
            rest.to_owned()
        } else {
            host
        };
        if text::blank(suffix.as_str()) {
            return Err(InvalidRoute::EmptyHost);
        }
        Ok(RouteHost { kind: RouteHostKind::WildcardSuffix, host: suffix })
    }

    pub fn kind(&self) -> (r: RouteHostKind)
        ensures
            r == self.deep_view().kind,
    {
        self.kind
    }

    pub fn as_str(&self) -> (r: &str)
        ensures
            r@ == self.deep_view().host,
    {
        self.host.as_str()
    }
}

impl PathPrefix {
    /// A prefix that begins with a slash.
    pub fn new(path: &str) -> (r: Result<Self, InvalidRoute>)
        ensures
            r is Ok <==> text::has_prefix(path@, "/"@),
            r matches Ok(prefix) ==> prefix@ == path@,
            r matches Err(error) ==> error == InvalidRoute::RelativePath,
    {
        if !text::starts_with(path, "/") {
            return Err(InvalidRoute::RelativePath);
        }
        Ok(PathPrefix { path: path.to_owned() })
    }

    pub fn as_str(&self) -> (r: &str)
        ensures
            r@ == self@,
    {
        self.path.as_str()
    }
}

/// What is shown for a host or a path that is not accepted.
pub open spec fn invalid_route_message(error: InvalidRoute) -> Seq<char> {
    match error {
        InvalidRoute::EmptyHost => "route host must not be empty"@,
        InvalidRoute::RelativePath => "path prefix must start with '/'"@,
    }
}

impl InvalidRoute {
    pub fn to_string(&self) -> (r: String)
        ensures
            r@ == invalid_route_message(*self),
    {
        match self {
            InvalidRoute::EmptyHost => "route host must not be empty".to_owned(),
            InvalidRoute::RelativePath => "path prefix must start with '/'".to_owned(),
        }
    }
}

impl RouteBindingSpec {
    pub fn new(identity: RouteIdentity, protocol: ProtocolRoute) -> (r: Self)
        ensures
            r.identity == identity,
            r.protocol == protocol,
    {
        RouteBindingSpec { identity, protocol }
    }
}

impl CreateRouteBindingRequest {
    pub fn new(
        idempotency_key: IdempotencyKey,
        route_binding_id: RouteBindingId,
        instance_id: InstanceId,
        identity: RouteIdentity,
        protocol: ProtocolRoute,
    ) -> (r: Self)
        ensures
            r.idempotency_key == idempotency_key,
            r.route_binding_id == route_binding_id,
            r.instance_id == instance_id,
            r.identity == identity,
            r.protocol == protocol,
    {
        CreateRouteBindingRequest {
            idempotency_key,
            route_binding_id,
            instance_id,
            identity,
            protocol,
        }
    }

    /// The route that is asked for.
    pub fn spec(&self) -> (r: RouteBindingSpec)
        ensures
            r.deep_view() == (RouteBindingSpecView {
                identity: self.deep_view().identity,
                protocol: self.protocol,
            }),
    {
        RouteBindingSpec { identity: self.identity.clone(), protocol: self.protocol }
    }
}

/// How long an answer about a route may be kept.
#[derive(Clone, Copy, Debug, PartialEq, Eq)]
pub struct CachePolicy {
    pub ttl: Duration,
}

impl DeepView for CachePolicy {
    type V = u128;

    open spec fn deep_view(&self) -> u128 {
        time::nanos(self.ttl)
    }
}

impl CachePolicy {
    pub fn new(ttl: Duration) -> (r: Self)
        ensures
            r.ttl == ttl,
    {
        CachePolicy { ttl }
    }

    pub fn ttl(&self) -> (r: Duration)
        ensures
            r == self.ttl,
    {
        self.ttl
    }
}

/// What a request's route resolves to.
#[derive(Debug)]
pub enum RouteResolution {
    Resolved { matched_identity: RouteIdentity, entry: RouteEntry },
    Miss { negative_cache: CachePolicy },
}

/// What a [`RouteResolution`] holds.
#[verifier::ext_equal]
pub enum RouteResolutionView {
    Resolved { matched_identity: RouteIdentityView, entry: RouteEntryView },
    Miss { negative_cache: u128 },
}

impl DeepView for RouteResolution {
    type V = RouteResolutionView;

    open spec fn deep_view(&self) -> RouteResolutionView {
        match self {
            RouteResolution::Resolved { matched_identity, entry } => RouteResolutionView::Resolved {
                matched_identity: matched_identity.deep_view(),
                entry: entry.deep_view(),
            },
            RouteResolution::Miss { negative_cache } => RouteResolutionView::Miss {
                negative_cache: negative_cache.deep_view(),
            },
        }
    }
}

/// How specific a match is: first by its host, then by its path.
#[derive(Clone, Copy, Debug, PartialEq, Eq, PartialOrd, Ord, Structural)]
pub struct RouteMatchScore {
    pub host: usize,
    pub path: usize,
}

impl DeepView for RouteMatchScore {
    type V = RouteMatchScore;

    open spec fn deep_view(&self) -> RouteMatchScore {
        *self
    }
}

impl RouteMatchScore {
    /// Whether this match is more specific than the other.
    pub open spec fn beats(self, other: RouteMatchScore) -> bool {
        self.host > other.host || (self.host == other.host && self.path > other.path)
    }

    /// Whether this match is more specific than the other.
    pub fn is_more_specific(&self, other: &RouteMatchScore) -> (r: bool)
        ensures
            r == self.beats(*other),
    {
        self.host > other.host || (self.host == other.host && self.path > other.path)
    }
}

/// Whether a host is a subdomain of a suffix.
pub open spec fn is_subdomain(host: Seq<char>, suffix: Seq<char>) -> bool {
    &&& text::has_suffix(host, suffix)
    &&& host.len() > suffix.len()
    &&& host[host.len() - suffix.len() - 1] == '.'
}

/// How specific the host of a route is for the host of a request. An exact host
/// is the most specific; a suffix is as specific as it is long.
pub open spec fn host_score(binding: RouteHostView, lookup: RouteHostView) -> Option<usize> {
    match binding.kind {
        RouteHostKind::Exact => if binding.host == lookup.host {
            Some(usize::MAX)
        } else {
            None
        },
        RouteHostKind::WildcardSuffix => if is_subdomain(lookup.host, binding.host) {
            Some(byte_len(binding.host))
        } else {
            None
        },
    }
}

/// How specific the path of a route is for the path of a request. A route
/// without a path takes every path.
pub open spec fn path_score(binding: Option<Seq<char>>, lookup: Option<Seq<char>>) -> Option<
    usize,
> {
    match (binding, lookup) {
        (None, _) => Some(0usize),
        (Some(_), None) => None,
        (Some(prefix), Some(path)) => if text::has_prefix(path, prefix) {
            Some(byte_len(prefix))
        } else {
            None
        },
    }
}

/// The length of a text in bytes.
pub open spec fn byte_len(s: Seq<char>) -> usize {
    vstd::utf8::encode_utf8(s).len() as usize
}

/// How specifically a route matches a request, where it does.
pub open spec fn match_score(binding: RouteIdentityView, lookup: RouteIdentityView) -> Option<
    RouteMatchScore,
> {
    match (binding, lookup) {
        (
            RouteIdentityView::Http { host: binding_host, path: binding_path },
            RouteIdentityView::Http { host: lookup_host, path: lookup_path },
        ) => match (host_score(binding_host, lookup_host), path_score(binding_path, lookup_path)) {
            (Some(host), Some(path)) => Some(RouteMatchScore { host, path }),
            _ => None,
        },
        (
            RouteIdentityView::Sni { host: binding_host },
            RouteIdentityView::Sni { host: lookup_host },
        ) => match host_score(binding_host, lookup_host) {
            Some(host) => Some(RouteMatchScore { host, path: 0usize }),
            None => None,
        },
        _ => None,
    }
}

fn score_host(binding: &RouteHost, lookup: &RouteHost) -> (r: Option<usize>)
    ensures
        r == host_score(binding.deep_view(), lookup.deep_view()),
{
    match binding.kind {
        RouteHostKind::Exact => {
            if text::same(binding.host.as_str(), lookup.host.as_str()) {
                Some(usize::MAX)
            } else {
                None
            }
        },
        RouteHostKind::WildcardSuffix => {
            let host = text::chars_of(lookup.host.as_str());
            let suffix = text::chars_of(binding.host.as_str());
            if host.len() > suffix.len() && text::ends_with(
                lookup.host.as_str(),
                binding.host.as_str(),
            ) && host[host.len() - suffix.len() - 1] == '.' {
                Some(binding.host.as_str().len())
            } else {
                None
            }
        },
    }
}

fn score_path(binding: &Option<PathPrefix>, lookup: &Option<PathPrefix>) -> (r: Option<usize>)
    ensures
        r == path_score(binding.deep_view(), lookup.deep_view()),
{
    match binding {
        None => Some(0),
        Some(prefix) => match lookup {
            None => None,
            Some(path) => {
                if text::starts_with(path.as_str(), prefix.as_str()) {
                    Some(prefix.as_str().len())
                } else {
                    None
                }
            },
        },
    }
}

/// How specifically a route matches a request, where it does.
pub fn route_match_score(binding: &RouteIdentity, lookup: &RouteIdentity) -> (r: Option<
    RouteMatchScore,
>)
    ensures
        r == match_score(binding.deep_view(), lookup.deep_view()),
{
    match binding {
        RouteIdentity::Http { host: binding_host, path: binding_path } => match lookup {
            RouteIdentity::Http { host: lookup_host, path: lookup_path } => {
                match score_host(binding_host, lookup_host) {
                    Some(host) => match score_path(binding_path, lookup_path) {
                        Some(path) => Some(RouteMatchScore { host, path }),
                        None => None,
                    },
                    None => None,
                }
            },
            RouteIdentity::Sni { .. } => None,
        },
        RouteIdentity::Sni { host: binding_host } => match lookup {
            RouteIdentity::Sni { host: lookup_host } => {
                match score_host(binding_host, lookup_host) {
                    Some(host) => Some(RouteMatchScore { host, path: 0 }),
                    None => None,
                }
            },
            RouteIdentity::Http { .. } => None,
        },
    }
}

/// An exact host beats every suffix that also matches, whatever the paths. The
/// host looked up is a text that memory can hold.
pub proof fn lemma_exact_host_beats_wildcard(
    exact: RouteIdentityView,
    wildcard: RouteIdentityView,
    lookup: RouteIdentityView,
)
    requires
        match_score(exact, lookup) is Some,
        match_score(wildcard, lookup) is Some,
        identity_host(exact).kind == RouteHostKind::Exact,
        identity_host(wildcard).kind == RouteHostKind::WildcardSuffix,
        vstd::utf8::encode_utf8(identity_host(lookup).host).len() <= usize::MAX,
    ensures
        match_score(exact, lookup)->0.beats(match_score(wildcard, lookup)->0),
{
    text::lemma_suffix_has_fewer_bytes(identity_host(lookup).host, identity_host(wildcard).host);
}

/// Of two suffixes that match, the longer wins, whatever the paths. The host
/// looked up is a text that memory can hold.
pub proof fn lemma_longer_suffix_wins(
    longer: RouteIdentityView,
    shorter: RouteIdentityView,
    lookup: RouteIdentityView,
)
    requires
        match_score(longer, lookup) is Some,
        match_score(shorter, lookup) is Some,
        identity_host(longer).kind == RouteHostKind::WildcardSuffix,
        identity_host(shorter).kind == RouteHostKind::WildcardSuffix,
        identity_host(longer).host.len() > identity_host(shorter).host.len(),
        vstd::utf8::encode_utf8(identity_host(lookup).host).len() <= usize::MAX,
    ensures
        match_score(longer, lookup)->0.beats(match_score(shorter, lookup)->0),
{
    let host = identity_host(lookup).host;
    let long = identity_host(longer).host;
    let short = identity_host(shorter).host;
    assert(text::has_suffix(long, short)) by {
        assert(long.skip(long.len() - short.len()) =~= host.skip(host.len() - short.len()));
    }
    text::lemma_suffix_has_fewer_bytes(host, long);
    text::lemma_suffix_has_fewer_bytes(long, short);
}

/// Of two routes for one host, the one with the longer matching path wins.
pub proof fn lemma_longer_path_wins(
    longer: RouteIdentityView,
    shorter: RouteIdentityView,
    lookup: RouteIdentityView,
)
    requires
        match_score(longer, lookup) is Some,
        match_score(shorter, lookup) is Some,
        identity_host(longer) == identity_host(shorter),
        path_bytes(longer) > path_bytes(shorter),
    ensures
        match_score(longer, lookup)->0.beats(match_score(shorter, lookup)->0),
{
}

/// The host that an identity names.
pub open spec fn identity_host(identity: RouteIdentityView) -> RouteHostView {
    match identity {
        RouteIdentityView::Http { host, .. } => host,
        RouteIdentityView::Sni { host } => host,
    }
}

/// The length in bytes of the path that an identity names.
pub open spec fn path_bytes(identity: RouteIdentityView) -> usize {
    match identity {
        RouteIdentityView::Http { path: Some(path), .. } => byte_len(path),
        _ => 0usize,
    }
}

/// Whether a route for a host takes requests for another: an exact one for the same
/// host, and a suffix for every host that ends in a dot and the suffix.
pub open spec fn takes_host(binding: RouteHostView, lookup: RouteHostView) -> bool {
    match binding.kind {
        RouteHostKind::Exact => lookup.host == binding.host,
        RouteHostKind::WildcardSuffix => exists|labels: Seq<char>|
            lookup.host == #[trigger] labels.push('.') + binding.host,
    }
}

/// Whether a route for a path takes requests for another: one without a path takes all,
/// and one with a path those that begin with it.
pub open spec fn takes_path(binding: Option<Seq<char>>, lookup: Option<Seq<char>>) -> bool {
    binding is Some ==> lookup is Some && exists|rest: Seq<char>|
        lookup->0 == #[trigger] (binding->0 + rest)
}

proof fn lemma_takes_host(binding: RouteHostView, lookup: RouteHostView)
    ensures
        takes_host(binding, lookup) <==> host_score(binding, lookup) is Some,
{
    let host = lookup.host;
    let suffix = binding.host;
    if binding.kind is WildcardSuffix {
        if is_subdomain(host, suffix) {
            let labels = host.take(host.len() - suffix.len() - 1);
            assert(host =~= labels.push('.') + suffix) by {
                assert(host.skip(host.len() - suffix.len()) == suffix);
                assert forall|i: int|
                    host.len() - suffix.len() <= i < host.len() implies host[i] == suffix[i - (
                host.len() - suffix.len())] by {
                    assert(host.skip(host.len() - suffix.len())[i - (host.len() - suffix.len())]
                        == host[i]);
                }
            }
        }
        if takes_host(binding, lookup) {
            let labels = choose|labels: Seq<char>|
                lookup.host == #[trigger] labels.push('.') + binding.host;
            assert(host.skip(host.len() - suffix.len()) =~= suffix);
            assert(host[labels.len() as int] == '.');
        }
    }
}

proof fn lemma_takes_path(binding: Option<Seq<char>>, lookup: Option<Seq<char>>)
    ensures
        takes_path(binding, lookup) <==> path_score(binding, lookup) is Some,
{
    if binding is Some && lookup is Some {
        let prefix = binding->0;
        let path = lookup->0;
        if text::has_prefix(path, prefix) {
            let rest = path.skip(prefix.len() as int);
            assert(path =~= prefix + rest) by {
                assert(path =~= path.take(prefix.len() as int) + rest);
            }
        }
        if takes_path(binding, lookup) {
            let rest = choose|rest: Seq<char>|
                lookup->0 == #[trigger] (binding->0 + rest);
            assert(path.take(prefix.len() as int) =~= prefix);
        }
    }
}

/// A route matches a request if and only if both are for HTTP, and its host and its path
/// take those of the request, or both are for TLS, and its host takes that of the request.
pub proof fn lemma_route_takes_what_it_names(
    binding: RouteIdentityView,
    lookup: RouteIdentityView,
)
    ensures
        match_score(binding, lookup) is Some <==> match (binding, lookup) {
            (
                RouteIdentityView::Http { host: bound, path: prefix },
                RouteIdentityView::Http { host, path },
            ) => takes_host(bound, host) && takes_path(prefix, path),
            (
                RouteIdentityView::Sni { host: bound },
                RouteIdentityView::Sni { host },
            ) => takes_host(bound, host),
            _ => false,
        },
{
    match (binding, lookup) {
        (
            RouteIdentityView::Http { host: bound, path: prefix },
            RouteIdentityView::Http { host, path },
        ) => {
            lemma_takes_host(bound, host);
            lemma_takes_path(prefix, path);
        },
        (RouteIdentityView::Sni { host: bound }, RouteIdentityView::Sni { host }) => {
            lemma_takes_host(bound, host);
        },
        _ => {},
    }
}

/// A host is the same in any case, and with the dot of the root or without it.
pub proof fn lemma_host_is_the_same_in_any_case(host: Seq<char>)
    ensures
        normal_host(text::ascii_lower(host)) == normal_host(host),
        host.len() > 0 && host.last() != '.' ==> normal_host(host) == text::ascii_lower(host)
            && normal_host(host.push('.')) == text::ascii_lower(host),
{
    text::lemma_ascii_lower_idempotent(host);
    let lower = text::ascii_lower(host);
    if host.len() > 0 && host.last() != '.' {
        assert(lower.last() == text::ascii_lower_char(host.last()));
        let dotted = text::ascii_lower(host.push('.'));
        assert(dotted =~= lower.push('.'));
        assert(dotted.drop_last() =~= lower);
    }
}

} // verus!
