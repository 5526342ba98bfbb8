//! Watches over the bindings of hosts. Each watch keeps a cursor of its own and
//! tells of nothing but names and revisions.
use vstd::prelude::*;

use super::certificates;
use super::pb;
use super::status;
use super::status::ApiStatus;
use super::status::ApiStatusView;
use super::status::StatusCode;
use crate::certificate;
use crate::certificate::CertificateRevision;
use crate::certificate::TlsBinding;
use crate::certificate::TlsBindingSnapshot;
use crate::certificate::TlsBindingSnapshotView;
use crate::certificate::TlsBindingView;
use crate::certificate::TlsCertificateChange;
use crate::certificate::TlsCertificateChangeKind;
use crate::certificate::TlsCertificateChangePage;
use crate::certificate::TlsCertificateChangePageView;
use crate::certificate::TlsCertificateChangeView;
use crate::certificate::TlsHostname;
use crate::certificate::MAX_CERTIFICATE_BINDINGS;
use crate::outcome;
use crate::store::StoreError;
use crate::store::StoreErrorView;
use crate::text;

verus! {

/// How many responses wait to be read.
pub const RESPONSE_QUEUE: usize = 2;

/// How many changes are read at once.
pub const PAGE: u32 = 256;

/// How many milliseconds are between two queries of a watch.
pub const POLL_MILLIS: u64 = 250;

/// How many seconds a watch lasts.
pub const LIFETIME_SECONDS: u64 = 60;

/// How many seconds a query, and the first registration, may take.
pub const LOOKUP_SECONDS: u64 = 3;

/// How many seconds a response may wait to be taken.
pub const DELIVERY_SECONDS: u64 = 1;

/// After how many milliseconds the first query of a watch is made: watches are
/// spread over sixteen phases.
pub fn phase_millis(number: u64) -> (r: u64)
    ensures
        r == (number % 16) * 15,
{
    (number % 16) * 15
}

/// Whether hosts may be watched: each is named as it is bound, and none twice.
pub open spec fn are_interests(values: Seq<Seq<char>>) -> bool {
    &&& values.no_duplicates()
    &&& forall|i: int|
        0 <= i < values.len() ==> certificate::names_host(#[trigger] values[i])
            && certificate::canonical_name(values[i]) == values[i]
}

/// The hosts that a registration names.
pub open spec fn interests_of(values: Seq<Seq<char>>) -> Result<Seq<Seq<char>>, ApiStatusView> {
    if values.len() > 1024 {
        Err(
            status::failure(
                StatusCode::ResourceExhausted,
                "certificate interests exceed 1024 hosts"@,
            ),
        )
    } else if !are_interests(values) {
        Err(status::invalid_argument("invalid certificate interest"@))
    } else {
        Ok(values)
    }
}

fn contains_host(hosts: &Vec<TlsHostname>, host: &TlsHostname) -> (r: bool)
    ensures
        r == hosts.deep_view().contains(host@),
{
    let ghost view = hosts.deep_view();
    let mut i: usize = 0;
    while i < hosts.len()
        invariant
            0 <= i <= hosts.len(),
            view == hosts.deep_view(),
            forall|j: int| 0 <= j < i ==> view[j] != host@,
        decreases hosts.len() - i,
    {
        assert(view[i as int] == hosts@[i as int]@);
        if text::same(hosts[i].as_str(), host.as_str()) {
            assert(view.contains(host@));
            return true;
        }
        i = i + 1;
    }
    false
}

/// The hosts that a registration names.
pub fn interests(values: &Vec<String>) -> (r: Result<Vec<TlsHostname>, ApiStatus>)
    ensures
        outcome::of(r) == interests_of(values.deep_view()),
{
    if values.len() > MAX_CERTIFICATE_BINDINGS {
        return Err(
            ApiStatus::new(
                StatusCode::ResourceExhausted,
                "certificate interests exceed 1024 hosts",
            ),
        );
    }
    let ghost view = values.deep_view();
    let mut names: Vec<TlsHostname> = Vec::new();
    let mut i: usize = 0;
    assert(names.deep_view() =~= view.take(0));
    while i < values.len()
        invariant
            0 <= i <= values.len(),
            values@.len() <= 1024,
            view == values.deep_view(),
            names.deep_view() == view.take(i as int),
            are_interests(view.take(i as int)),
        decreases values.len() - i,
    {
        let ghost before = names.deep_view();
        let ghost named = view[i as int];
        assert(named == values@[i as int]@);
        let name = match TlsHostname::new(values[i].as_str()) {
            Ok(name) => name,
            Err(_) => {
                assert(!are_interests(view)) by {
                    assert(!certificate::names_host(view[i as int]));
                }
                return Err(ApiStatus::invalid_argument("invalid certificate interest"));
            },
        };
        if !text::same(name.as_str(), values[i].as_str()) {
            assert(!are_interests(view)) by {
                assert(certificate::canonical_name(view[i as int]) != view[i as int]);
            }
            return Err(ApiStatus::invalid_argument("invalid certificate interest"));
        }
        if contains_host(&names, &name) {
            proof {
                let j = choose|j: int| 0 <= j < before.len() && before[j] == named;
                assert(view[j] == view[i as int]);
                assert(!view.no_duplicates());
            }
            return Err(ApiStatus::invalid_argument("invalid certificate interest"));
        }
        names.push(name);
        proof {
            assert(names.deep_view() =~= before.push(named));
            assert(view.take(i + 1) =~= view.take(i as int).push(named));
            let taken = view.take(i + 1);
            assert forall|a: int, b: int|
                0 <= a < taken.len() && 0 <= b < taken.len() && a != b implies taken[a]
                != taken[b] by {
                if a == i {
                    assert(before[b] == taken[b]);
                } else if b == i {
                    assert(before[a] == taken[a]);
                } else {
                    assert(view.take(i as int)[a] == taken[a]);
                    assert(view.take(i as int)[b] == taken[b]);
                }
            }
            assert forall|k: int| 0 <= k < taken.len() implies certificate::names_host(
                #[trigger] taken[k],
            ) && certificate::canonical_name(taken[k]) == taken[k] by {
                if k < i {
                    assert(view.take(i as int)[k] == taken[k]);
                }
            }
        }
        i = i + 1;
    }
    assert(view.take(i as int) =~= view);
    Ok(names)
}

/// What a watch knows: the hosts that it tells of, how far it has read, the number
/// of the last registration, and the hosts of one that is not answered yet.
pub struct WatchState {
    hosts: Vec<TlsHostname>,
    cursor: Option<CertificateRevision>,
    registration: u64,
    pending: Option<Vec<TlsHostname>>,
}

/// What a [`WatchState`] holds.
#[verifier::ext_equal]
pub struct WatchStateView {
    pub hosts: Seq<Seq<char>>,
    pub cursor: Option<nat>,
    pub registration: u64,
    pub pending: Option<Seq<Seq<char>>>,
}

impl View for WatchState {
    type V = WatchStateView;

    closed spec fn view(&self) -> WatchStateView {
        WatchStateView {
            hosts: self.hosts.deep_view(),
            cursor: self.cursor.deep_view(),
            registration: self.registration,
            pending: self.pending.deep_view(),
        }
    }
}

/// What a watch has to read next.
#[derive(Debug, PartialEq, Eq)]
pub enum WatchQuery {
    Snapshot(Vec<TlsHostname>),
    Nothing,
    Changes { after: CertificateRevision, limit: u32 },
}

/// What a [`WatchQuery`] holds.
#[verifier::ext_equal]
pub enum WatchQueryView {
    Snapshot(Seq<Seq<char>>),
    Nothing,
    Changes { after: nat, limit: u32 },
}

impl DeepView for WatchQuery {
    type V = WatchQueryView;

    open spec fn deep_view(&self) -> WatchQueryView {
        match self {
            WatchQuery::Snapshot(value) => WatchQueryView::Snapshot(value.deep_view()),
            WatchQuery::Nothing => WatchQueryView::Nothing,
            WatchQuery::Changes { after, limit } => WatchQueryView::Changes {
                after: after.deep_view(),
                limit: limit.deep_view(),
            },
        }
    }
}

impl Clone for WatchQuery {
    fn clone(&self) -> (r: Self)
        ensures
            r.deep_view() == self.deep_view(),
    {
        match self {
            WatchQuery::Snapshot(value) => {
                let copy = value.clone();
                assert(copy.deep_view() =~= value.deep_view());
                WatchQuery::Snapshot(copy)
            },
            WatchQuery::Nothing => WatchQuery::Nothing,
            WatchQuery::Changes { after, limit } => WatchQuery::Changes {
                after: *after,
                limit: *limit,
            },
        }
    }
}

/// What a watch has to read next: the bindings of a new registration, or else the
/// changes behind the cursor, if it has hosts to tell of.
pub open spec fn next_query_of(state: WatchStateView) -> WatchQueryView {
    match state.pending {
        Some(hosts) => WatchQueryView::Snapshot(hosts),
        None => if state.hosts.len() == 0 {
            WatchQueryView::Nothing
        } else {
            WatchQueryView::Changes { after: state.cursor->0, limit: 256 }
        },
    }
}

/// A watch behind a registration, or why it is refused.
pub open spec fn registered(
    state: WatchStateView,
    request: pb::WatchTlsCertificatesRequestView,
) -> Result<WatchStateView, ApiStatusView> {
    if request.registration <= state.registration {
        Err(status::invalid_argument("certificate registration must increase"@))
    } else {
        match interests_of(request.hostnames) {
            Err(error) => Err(error),
            Ok(hosts) => Ok(
                WatchStateView {
                    registration: request.registration,
                    pending: Some(hosts),
                    ..state
                },
            ),
        }
    }
}

/// The messages of bindings.
pub open spec fn binding_messages(bindings: Seq<TlsBindingView>) -> Seq<pb::TlsBindingView> {
    Seq::new(bindings.len(), |i: int| certificates::binding_message(bindings[i]))
}

/// A response of a watch.
pub open spec fn told(
    value: pb::WatchTlsCertificatesValueView,
) -> pb::WatchTlsCertificatesResponseView {
    pb::WatchTlsCertificatesResponseView { value: Some(value) }
}

/// A watch behind the bindings of a registration, and what it tells. If the store
/// is busy it tells nothing and stays as it is.
pub open spec fn snapshot_step(
    state: WatchStateView,
    result: Result<TlsBindingSnapshotView, StoreErrorView>,
) -> (WatchStateView, Result<Option<pb::WatchTlsCertificatesResponseView>, ApiStatusView>) {
    match result {
        Err(StoreErrorView::Unavailable { message }) => (state, Ok(None)),
        Err(_) => (
            state,
            Err(
                status::failure(
                    StatusCode::Unavailable,
                    "certificate synchronization unavailable"@,
                ),
            ),
        ),
        Ok(snapshot) => (
            WatchStateView {
                hosts: state.pending->0,
                cursor: Some(snapshot.revision),
                registration: state.registration,
                pending: None,
            },
            Ok(
                Some(
                    told(
                        pb::WatchTlsCertificatesValueView::Snapshot(
                            pb::TlsCertificateSnapshotView {
                                registration: state.registration,
                                cursor: snapshot.revision as u64,
                                bindings: binding_messages(snapshot.bindings),
                            },
                        ),
                    ),
                ),
            ),
        ),
    }
}

/// The message of a change to a host.
pub open spec fn event_message(
    hostname: Seq<char>,
    change: TlsCertificateChangeView,
) -> pb::TlsCertificateEventView {
    pb::TlsCertificateEventView {
        hostname,
        view_revision: change.revision as u64,
        certificate_id: change.certificate_id,
        invalidate: change.kind != TlsCertificateChangeKind::Published,
    }
}

/// The messages of the changes to hosts that are watched, in their order.
pub open spec fn watched_events(
    hosts: Seq<Seq<char>>,
    changes: Seq<TlsCertificateChangeView>,
) -> Seq<pb::TlsCertificateEventView>
    decreases changes.len(),
{
    if changes.len() == 0 {
        Seq::empty()
    } else {
        let before = watched_events(hosts, changes.drop_last());
        match changes.last().hostname {
            Some(hostname) => if hosts.contains(hostname) {
                before.push(event_message(hostname, changes.last()))
            } else {
                before
            },
            None => before,
        }
    }
}

/// A watch behind changes, and what it tells. If the store is busy it tells nothing
/// and reads from the same place later.
pub open spec fn changes_step(
    state: WatchStateView,
    result: Result<TlsCertificateChangePageView, StoreErrorView>,
) -> (WatchStateView, Result<Option<pb::WatchTlsCertificatesResponseView>, ApiStatusView>) {
    match result {
        Err(StoreErrorView::Unavailable { message }) => (state, Ok(None)),
        Err(_) => (
            state,
            Err(status::failure(StatusCode::Unavailable, "certificate history unavailable"@)),
        ),
        Ok(page) => {
            let read = WatchStateView { cursor: Some(page.cursor), ..state };
            let events = watched_events(state.hosts, page.events);
            if page.reset {
                (
                    read,
                    Ok(
                        Some(
                            told(
                                pb::WatchTlsCertificatesValueView::Reset(
                                    pb::TlsCertificateResetView { cursor: page.cursor as u64 },
                                ),
                            ),
                        ),
                    ),
                )
            } else if events.len() == 0 {
                (read, Ok(None))
            } else {
                (
                    read,
                    Ok(
                        Some(
                            told(
                                pb::WatchTlsCertificatesValueView::Changes(
                                    pb::TlsCertificateChangesView {
                                        cursor: page.cursor as u64,
                                        events,
                                    },
                                ),
                            ),
                        ),
                    ),
                )
            }
        },
    }
}

fn read_events(hosts: &Vec<TlsHostname>, changes: &Vec<TlsCertificateChange>) -> (r: Vec<
    pb::TlsCertificateEvent,
>)
    ensures
        r.deep_view() == watched_events(hosts.deep_view(), changes.deep_view()),
{
    let ghost view = changes.deep_view();
    let mut events: Vec<pb::TlsCertificateEvent> = Vec::new();
    let mut i: usize = 0;
    assert(view.take(0) =~= Seq::empty());
    assert(events.deep_view() =~= Seq::<pb::TlsCertificateEventView>::empty());
    while i < changes.len()
        invariant
            0 <= i <= changes.len(),
            view == changes.deep_view(),
            events.deep_view() == watched_events(hosts.deep_view(), view.take(i as int)),
        decreases changes.len() - i,
    {
        let ghost before = events.deep_view();
        let change = &changes[i];
        proof {
            assert(view.take(i + 1).drop_last() =~= view.take(i as int));
            assert(view.take(i + 1).last() == view[i as int]);
            assert(view[i as int] == change.deep_view());
        }
        if let Some(hostname) = &change.hostname {
            if contains_host(hosts, hostname) {
                let event = pb::TlsCertificateEvent {
                    hostname: hostname.to_string(),
                    view_revision: change.revision.get(),
                    certificate_id: match &change.certificate_id {
                        Some(id) => Some(id.to_string()),
                        None => None,
                    },
                    invalidate: change.kind != TlsCertificateChangeKind::Published,
                };
                assert(event.deep_view() == event_message(hostname@, change.deep_view()));
                events.push(event);
                assert(events.deep_view() =~= before.push(event.deep_view()));
            }
        }
        i = i + 1;
    }
    assert(view.take(i as int) =~= view);
    events
}

fn read_bindings(bindings: &Vec<TlsBinding>) -> (r: Vec<pb::TlsBinding>)
    ensures
        r.deep_view() == binding_messages(bindings.deep_view()),
{
    let ghost all = binding_messages(bindings.deep_view());
    let mut messages: Vec<pb::TlsBinding> = Vec::new();
    let mut i: usize = 0;
    assert(messages.deep_view() =~= all.take(0));
    while i < bindings.len()
        invariant
            0 <= i <= bindings.len(),
            all == binding_messages(bindings.deep_view()),
            messages.deep_view() == all.take(i as int),
        decreases bindings.len() - i,
    {
        let ghost before = messages.deep_view();
        let message = certificates::binding(&bindings[i]);
        proof {
            assert(bindings.deep_view()[i as int] == bindings@[i as int].deep_view());
            assert(all[i as int] == message.deep_view());
        }
        messages.push(message);
        proof {
            assert(messages.deep_view() =~= before.push(message.deep_view()));
            assert(all.take(i + 1) =~= all.take(i as int).push(all[i as int]));
        }
        i = i + 1;
    }
    assert(all.take(i as int) =~= all);
    messages
}

impl WatchState {
    #[verifier::type_invariant]
    spec fn has_cursor(&self) -> bool {
        self.hosts@.len() > 0 ==> self.cursor is Some
    }

    /// A watch without a registration.
    pub fn new() -> (r: Self)
        ensures
            r@ == (WatchStateView {
                hosts: Seq::empty(),
                cursor: None,
                registration: 0,
                pending: None,
            }),
    {
        let hosts: Vec<TlsHostname> = Vec::new();
        assert(hosts.deep_view() =~= Seq::<Seq<char>>::empty());
        WatchState { hosts, cursor: None, registration: 0, pending: None }
    }

    /// Whether the watch takes another registration: the last one was answered.
    pub fn takes_requests(&self) -> (r: bool)
        ensures
            r == (self@.pending is None),
    {
        self.pending.is_none()
    }

    /// Whether the watch has anything to ask the store.
    pub fn polls(&self) -> (r: bool)
        ensures
            r == (self@.pending is Some || self@.cursor is Some),
    {
        self.pending.is_some() || self.cursor.is_some()
    }

    /// Whether the first registration was not answered yet.
    pub fn awaits_setup(&self) -> (r: bool)
        ensures
            r == (self@.cursor is None),
    {
        self.cursor.is_none()
    }

    /// Takes a registration.
    pub fn register(&mut self, request: &pb::WatchTlsCertificatesRequest) -> (r: Result<
        (),
        ApiStatus,
    >)
        ensures
            match registered(old(self)@, request.deep_view()) {
                Ok(state) => r is Ok && final(self)@ == state,
                Err(error) => outcome::problem(r) == Some(error) && final(self)@ == old(self)@,
            },
    {
        if request.registration <= self.registration {
            return Err(ApiStatus::invalid_argument("certificate registration must increase"));
        }
        let hosts = match interests(&request.hostnames) {
            Ok(hosts) => hosts,
            Err(error) => return Err(error),
        };
        proof {
            use_type_invariant(&*self);
        }
        self.registration = request.registration;
        self.pending = Some(hosts);
        Ok(())
    }

    /// What the watch has to read next.
    pub fn next_query(&self) -> (r: WatchQuery)
        ensures
            r.deep_view() == next_query_of(self@),
    {
        proof {
            use_type_invariant(self);
        }
        match &self.pending {
            Some(hosts) => {
                let hosts_copy = hosts.clone();
                assert(hosts_copy.deep_view() =~= hosts.deep_view());
                WatchQuery::Snapshot(hosts_copy)
            },
            None => match self.cursor {
                None => WatchQuery::Nothing,
                Some(after) => if self.hosts.len() == 0 {
                    WatchQuery::Nothing
                } else {
                    WatchQuery::Changes { after, limit: PAGE }
                },
            },
        }
    }

    /// Takes the bindings of the hosts of a registration, or why the store has none.
    pub fn snapshot_loaded(&mut self, result: &Result<TlsBindingSnapshot, StoreError>) -> (r:
        Result<Option<pb::WatchTlsCertificatesResponse>, ApiStatus>)
        requires
            old(self)@.pending is Some,
        ensures
            (final(self)@, outcome::of(r)) == snapshot_step(old(self)@, outcome::of(*result)),
    {
        let snapshot = match result {
            Ok(snapshot) => snapshot,
            Err(StoreError::Unavailable { .. }) => return Ok(None),
            Err(_) => {
                return Err(
                    ApiStatus::new(
                        StatusCode::Unavailable,
                        "certificate synchronization unavailable",
                    ),
                );
            },
        };
        let bindings = read_bindings(&snapshot.bindings);
        proof {
            use_type_invariant(&*self);
        }
        let mut pending: Option<Vec<TlsHostname>> = None;
        std::mem::swap(&mut pending, &mut self.pending);
        if let Some(names) = pending {
            self.cursor = Some(snapshot.revision);
            self.hosts = names;
        }
        Ok(
            Some(
                pb::WatchTlsCertificatesResponse {
                    value: Some(
                        pb::WatchTlsCertificatesValue::Snapshot(
                            pb::TlsCertificateSnapshot {
                                registration: self.registration,
                                cursor: snapshot.revision.get(),
                                bindings,
                            },
                        ),
                    ),
                },
            ),
        )
    }

    /// Takes the changes behind the cursor, or why the store has none.
    pub fn changes_loaded(&mut self, result: &Result<TlsCertificateChangePage, StoreError>) -> (r:
        Result<Option<pb::WatchTlsCertificatesResponse>, ApiStatus>)
        ensures
            (final(self)@, outcome::of(r)) == changes_step(old(self)@, outcome::of(*result)),
    {
        let page = match result {
            Ok(page) => page,
            Err(StoreError::Unavailable { .. }) => return Ok(None),
            Err(_) => {
                return Err(
                    ApiStatus::new(StatusCode::Unavailable, "certificate history unavailable"),
                );
            },
        };
        self.cursor = Some(page.cursor);
        if page.reset {
            return Ok(
                Some(
                    pb::WatchTlsCertificatesResponse {
                        value: Some(
                            pb::WatchTlsCertificatesValue::Reset(
                                pb::TlsCertificateReset { cursor: page.cursor.get() },
                            ),
                        ),
                    },
                ),
            );
        }
        let events = read_events(&self.hosts, &page.events);
        assert(events.deep_view().len() == events@.len());
        if events.len() == 0 {
            return Ok(None);
        }
        Ok(
            Some(
                pb::WatchTlsCertificatesResponse {
                    value: Some(
                        pb::WatchTlsCertificatesValue::Changes(
                            pb::TlsCertificateChanges { cursor: page.cursor.get(), events },
                        ),
                    ),
                },
            ),
        )
    }
}

/// What a watch sends after a query, and whether it ends with that.
pub struct WatchDelivery {
    pub response: Result<pb::WatchTlsCertificatesResponse, ApiStatus>,
    pub terminal: bool,
}

/// Whether a response tells that changes were lost.
pub open spec fn is_reset(response: pb::WatchTlsCertificatesResponseView) -> bool {
    response.value matches Some(pb::WatchTlsCertificatesValueView::Reset(_))
}

/// What is sent after a query that may have taken too long: nothing, or a response
/// that ends the watch if it is an error or a reset.
pub open spec fn delivery_of(
    result: Option<Result<Option<pb::WatchTlsCertificatesResponseView>, ApiStatusView>>,
) -> Option<(Result<pb::WatchTlsCertificatesResponseView, ApiStatusView>, bool)> {
    match result {
        None => Some(
            (
                Err(
                    status::failure(
                        StatusCode::DeadlineExceeded,
                        "certificate watch query deadline elapsed"@,
                    ),
                ),
                true,
            ),
        ),
        Some(Err(error)) => Some((Err(error), true)),
        Some(Ok(None)) => None,
        Some(Ok(Some(response))) => Some((Ok(response), is_reset(response))),
    }
}

/// What a query gave, where it gave anything in time.
pub open spec fn polled(
    result: Option<Result<Option<pb::WatchTlsCertificatesResponse>, ApiStatus>>,
) -> Option<Result<Option<pb::WatchTlsCertificatesResponseView>, ApiStatusView>> {
    match result {
        Some(result) => Some(outcome::of(result)),
        None => None,
    }
}

/// What is sent after a query; none stands for one that took too long.
pub fn delivery(
    result: Option<Result<Option<pb::WatchTlsCertificatesResponse>, ApiStatus>>,
) -> (r: Option<WatchDelivery>)
    ensures
        match r {
            Some(delivery) => delivery_of(polled(result)) == Some(
                (outcome::of(delivery.response), delivery.terminal),
            ),
            None => delivery_of(polled(result)) is None,
        },
{
    match result {
        None => Some(
            WatchDelivery {
                response: Err(
                    ApiStatus::new(
                        StatusCode::DeadlineExceeded,
                        "certificate watch query deadline elapsed",
                    ),
                ),
                terminal: true,
            },
        ),
        Some(Err(error)) => Some(WatchDelivery { response: Err(error), terminal: true }),
        Some(Ok(None)) => None,
        Some(Ok(Some(response))) => {
            let terminal = match &response.value {
                Some(pb::WatchTlsCertificatesValue::Reset(_)) => true,
                _ => false,
            };
            Some(WatchDelivery { response: Ok(response), terminal })
        },
    }
}

/// A watch tells of no host that it was not asked for.
pub proof fn lemma_events_are_watched(
    hosts: Seq<Seq<char>>,
    changes: Seq<TlsCertificateChangeView>,
    i: int,
)
    requires
        0 <= i < watched_events(hosts, changes).len(),
    ensures
        hosts.contains(watched_events(hosts, changes)[i].hostname),
    decreases changes.len(),
{
    if changes.len() > 0 {
        let before = watched_events(hosts, changes.drop_last());
        if i < before.len() {
            lemma_events_are_watched(hosts, changes.drop_last(), i);
            assert(watched_events(hosts, changes)[i] == before[i]);
        }
    }
}

/// Every change to a host that is watched is told.
pub proof fn lemma_watched_changes_are_told(
    hosts: Seq<Seq<char>>,
    changes: Seq<TlsCertificateChangeView>,
    i: int,
)
    requires
        0 <= i < changes.len(),
        changes[i].hostname is Some,
        hosts.contains(changes[i].hostname->0),
    ensures
        watched_events(hosts, changes).contains(
            event_message(changes[i].hostname->0, changes[i]),
        ),
    decreases changes.len(),
{
    let event = event_message(changes[i].hostname->0, changes[i]);
    let before = watched_events(hosts, changes.drop_last());
    let events = watched_events(hosts, changes);
    if i < changes.len() - 1 {
        lemma_watched_changes_are_told(hosts, changes.drop_last(), i);
        let j = choose|j: int| 0 <= j < before.len() && before[j] == event;
        assert(events[j] == event);
    } else {
        assert(events[events.len() - 1] == event);
    }
}

/// A registration is taken only with a higher number than the last.
pub proof fn lemma_registrations_increase(
    state: WatchStateView,
    request: pb::WatchTlsCertificatesRequestView,
)
    ensures
        registered(state, request) matches Ok(after) ==> after.registration > state.registration
            && after.pending == Some(request.hostnames),
{
}

} // verus!
