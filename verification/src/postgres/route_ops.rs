//! What is decided over stored routes.
use vstd::prelude::*;

use super::mapping;
use super::mapping::RouteRow;
use super::mapping::RouteRowView;
use crate::ids::BackendGeneration;
use crate::ids::InstanceId;
use crate::ids::RouteBindingId;
use crate::instance::InstanceRecord;
use crate::instance::InstanceRecordView;
use crate::materialization::MaterializationRecord;
use crate::materialization::MaterializationRecordView;
use crate::outcome;
use crate::route;
use crate::route::RouteBindingRecord;
use crate::route::RouteBindingRecordView;
use crate::route::RouteIdentity;
use crate::route::RouteIdentityView;
use crate::route::RouteMatchScore;
use crate::route::RouteResolution;
use crate::route::RouteResolutionView;
use crate::store::StoreError;
use crate::store::StoreErrorView;

verus! {

/// The name that the kind of an identity is stored by.
pub open spec fn identity_kind_name(identity: RouteIdentityView) -> Seq<char> {
    match identity {
        RouteIdentityView::Http { .. } => "http"@,
        RouteIdentityView::Sni { .. } => "sni"@,
    }
}

/// The name that the kind of an identity is stored by: routes of other kinds need
/// not be looked at.
pub fn identity_kind(identity: &RouteIdentity) -> (r: &'static str)
    ensures
        r@ == identity_kind_name(identity.deep_view()),
{
    match identity {
        RouteIdentity::Http { .. } => "http",
        RouteIdentity::Sni { .. } => "sni",
    }
}

/// The route that matches a request most closely: the first of those that no other
/// beats.
pub open spec fn best_of(rows: Seq<RouteRowView>, lookup: RouteIdentityView) -> Result<
    Option<(RouteMatchScore, RouteBindingRecordView)>,
    StoreErrorView,
>
    decreases rows.len(),
{
    if rows.len() == 0 {
        Ok(None)
    } else {
        match best_of(rows.drop_last(), lookup) {
            Err(error) => Err(error),
            Ok(best) => match mapping::route_of(rows.last()) {
                Err(error) => Err(error),
                Ok(route) => match route::match_score(route.identity, lookup) {
                    None => Ok(best),
                    Some(score) => match best {
                        Some((best_score, found)) => if score.beats(best_score) {
                            Ok(Some((score, route)))
                        } else {
                            Ok(best)
                        },
                        None => Ok(Some((score, route))),
                    },
                },
            },
        }
    }
}

/// The route that matches a request most closely, where one does.
pub open spec fn found_route(rows: Seq<RouteRowView>, lookup: RouteIdentityView) -> Result<
    Option<RouteBindingRecordView>,
    StoreErrorView,
> {
    match best_of(rows, lookup) {
        Err(error) => Err(error),
        Ok(None) => Ok(None),
        Ok(Some((_, route))) => Ok(Some(route)),
    }
}

/// The route that matches a request most closely.
pub fn best_route(rows: &Vec<RouteRow>, lookup: &RouteIdentity) -> (r: Result<
    Option<RouteBindingRecord>,
    StoreError,
>)
    ensures
        outcome::of(r) == found_route(rows.deep_view(), lookup.deep_view()),
{
    let ghost view = rows.deep_view();
    let ghost looked_up = lookup.deep_view();
    let mut best: Option<(RouteMatchScore, RouteBindingRecord)> = None;
    let mut i: usize = 0;
    assert(view.take(0) =~= Seq::empty());
    while i < rows.len()
        invariant
            0 <= i <= rows.len(),
            view == rows.deep_view(),
            looked_up == lookup.deep_view(),
            best_of(view.take(i as int), looked_up) == Ok::<
                Option<(RouteMatchScore, RouteBindingRecordView)>,
                StoreErrorView,
            >(match best {
                Some((score, route)) => Some((score, route.deep_view())),
                None => None,
            }),
        decreases rows.len() - i,
    {
        proof {
            assert(view.take(i + 1).drop_last() =~= view.take(i as int));
            assert(view.take(i + 1).last() == view[i as int]);
            assert(view[i as int] == rows@[i as int].deep_view());
        }
        let route = match mapping::route_binding_from_row(&rows[i]) {
            Ok(route) => route,
            Err(error) => {
                proof {
                    lemma_best_error(view, looked_up, i + 1);
                }
                return Err(error);
            },
        };
        if let Some(score) = route::route_match_score(&route.identity, lookup) {
            let better = match &best {
                Some((best_score, _)) => score.is_more_specific(best_score),
                None => true,
            };
            if better {
                best = Some((score, route));
            }
        }
        i = i + 1;
    }
    assert(view.take(i as int) =~= view);
    match best {
        Some((_, route)) => Ok(Some(route)),
        None => Ok(None),
    }
}

proof fn lemma_best_error(rows: Seq<RouteRowView>, lookup: RouteIdentityView, at: int)
    requires
        0 <= at <= rows.len(),
        best_of(rows.take(at), lookup) is Err,
    ensures
        best_of(rows, lookup) == best_of(rows.take(at), lookup),
    decreases rows.len() - at,
{
    if at < rows.len() {
        assert(rows.take(at + 1).drop_last() =~= rows.take(at));
        lemma_best_error(rows, lookup, at + 1);
    } else {
        assert(rows.take(at) =~= rows);
    }
}

/// What a request for a route gives, from the route that was found, its instance
/// and the materialization that is ready.
pub open spec fn resolution_of(
    route: Option<RouteBindingRecordView>,
    instance: Option<InstanceRecordView>,
    materialization: Option<MaterializationRecordView>,
) -> Result<RouteResolutionView, StoreErrorView> {
    match route {
        None => Ok(RouteResolutionView::Miss { negative_cache: 5_000_000_000 }),
        Some(route) => match instance {
            None => Err(StoreErrorView::NotFound { resource: "instance"@ }),
            Some(instance) => Ok(
                RouteResolutionView::Resolved {
                    matched_identity: route.identity,
                    entry: mapping::entry_of(route, instance, materialization),
                },
            ),
        },
    }
}

/// What a request for a route gives.
pub fn resolve_route(
    route: Option<RouteBindingRecord>,
    instance: Option<InstanceRecord>,
    materialization: Option<MaterializationRecord>,
) -> (r: Result<RouteResolution, StoreError>)
    ensures
        outcome::of(r) == resolution_of(
            route.deep_view(),
            instance.deep_view(),
            materialization.deep_view(),
        ),
{
    let route = match route {
        Some(route) => route,
        None => {
            return Ok(
                RouteResolution::Miss { negative_cache: mapping::default_negative_cache_policy() },
            );
        },
    };
    let instance = match instance {
        Some(instance) => instance,
        None => return Err(StoreError::NotFound { resource: "instance" }),
    };
    let entry = mapping::route_entry_from_rows(&route, instance, materialization);
    Ok(RouteResolution::Resolved { matched_identity: route.identity, entry })
}

/// What a route depends on.
#[derive(Debug, PartialEq, Eq)]
pub struct RouteDependencySet {
    pub route_binding_id: RouteBindingId,
    pub instance_id: InstanceId,
    pub materialization_generation: Option<BackendGeneration>,
}

/// What a [`RouteDependencySet`] holds.
#[verifier::ext_equal]
pub struct RouteDependencySetView {
    pub route_binding_id: Seq<char>,
    pub instance_id: Seq<char>,
    pub materialization_generation: Option<nat>,
}

impl DeepView for RouteDependencySet {
    type V = RouteDependencySetView;

    open spec fn deep_view(&self) -> RouteDependencySetView {
        RouteDependencySetView {
            route_binding_id: self.route_binding_id.deep_view(),
            instance_id: self.instance_id.deep_view(),
            materialization_generation: self.materialization_generation.deep_view(),
        }
    }
}

impl Clone for RouteDependencySet {
    fn clone(&self) -> (r: Self)
        ensures
            r.deep_view() == self.deep_view(),
    {
        RouteDependencySet {
            route_binding_id: self.route_binding_id.clone(),
            instance_id: self.instance_id.clone(),
            materialization_generation: self.materialization_generation,
        }
    }
}

/// What a route depends on, by its instance and the materialization that is ready.
pub open spec fn dependencies_of(
    route: Option<RouteBindingRecordView>,
    instance: Option<InstanceRecordView>,
    materialization: Option<MaterializationRecordView>,
) -> Result<Option<RouteDependencySetView>, StoreErrorView> {
    match route {
        None => Ok(None),
        Some(route) => match instance {
            None => Err(StoreErrorView::NotFound { resource: "instance"@ }),
            Some(instance) => Ok(
                Some(
                    RouteDependencySetView {
                        route_binding_id: route.id,
                        instance_id: instance.id,
                        materialization_generation: match materialization {
                            Some(record) => Some(record.backend_generation),
                            None => None,
                        },
                    },
                ),
            ),
        },
    }
}

/// What a route depends on.
pub fn route_dependencies(
    route: Option<RouteBindingRecord>,
    instance: Option<InstanceRecord>,
    materialization: Option<MaterializationRecord>,
) -> (r: Result<Option<RouteDependencySet>, StoreError>)
    ensures
        outcome::of(r) == dependencies_of(
            route.deep_view(),
            instance.deep_view(),
            materialization.deep_view(),
        ),
{
    let route = match route {
        Some(route) => route,
        None => return Ok(None),
    };
    let instance = match instance {
        Some(instance) => instance,
        None => return Err(StoreError::NotFound { resource: "instance" }),
    };
    let materialization_generation = match materialization {
        Some(record) => Some(record.backend_generation),
        None => None,
    };
    Ok(
        Some(
            RouteDependencySet {
                route_binding_id: route.id,
                instance_id: instance.id,
                materialization_generation,
            },
        ),
    )
}

/// The route that a repeated request asked for before.
pub open spec fn replayed(row: Option<RouteRowView>) -> Result<
    RouteBindingRecordView,
    StoreErrorView,
> {
    match row {
        None => Err(StoreErrorView::NotFound { resource: "route binding"@ }),
        Some(row) => mapping::route_of(row),
    }
}

/// The route that a repeated request asked for before.
pub fn replayed_route(row: &Option<RouteRow>) -> (r: Result<RouteBindingRecord, StoreError>)
    ensures
        outcome::of(r) == replayed(row.deep_view()),
{
    match row {
        None => Err(StoreError::NotFound { resource: "route binding" }),
        Some(row) => mapping::route_binding_from_row(row),
    }
}

/// No stored route beats the one that is found.
pub proof fn lemma_best_route_is_unbeaten(
    rows: Seq<RouteRowView>,
    lookup: RouteIdentityView,
    i: int,
)
    requires
        best_of(rows, lookup) is Ok,
        0 <= i < rows.len(),
    ensures
        mapping::route_of(rows[i]) is Ok,
        route::match_score(mapping::route_of(rows[i])->Ok_0.identity, lookup) matches Some(score)
            ==> (best_of(rows, lookup)->Ok_0 matches Some((best, _)) && !score.beats(best)),
    decreases rows.len(),
{
    let before = rows.drop_last();
    if i < rows.len() - 1 {
        assert(before[i] == rows[i]);
        lemma_best_route_is_unbeaten(before, lookup, i);
    }
}

/// The route that is found is stored, and matches.
pub proof fn lemma_best_route_matches(rows: Seq<RouteRowView>, lookup: RouteIdentityView)
    ensures
        best_of(rows, lookup) matches Ok(Some((score, found))) ==> route::match_score(
            found.identity,
            lookup,
        ) == Some(score) && exists|i: int|
            0 <= i < rows.len() && mapping::route_of(#[trigger] rows[i]) == Ok::<
                RouteBindingRecordView,
                StoreErrorView,
            >(found),
    decreases rows.len(),
{
    if rows.len() > 0 {
        let before = rows.drop_last();
        lemma_best_route_matches(before, lookup);
        if let Ok(Some((score, found))) = best_of(rows, lookup) {
            if best_of(before, lookup) == best_of(rows, lookup) {
                let i = choose|i: int|
                    0 <= i < before.len() && mapping::route_of(#[trigger] before[i]) == Ok::<
                        RouteBindingRecordView,
                        StoreErrorView,
                    >(found);
                assert(rows[i] == before[i]);
            } else {
                assert(mapping::route_of(rows[rows.len() - 1]) == Ok::<
                    RouteBindingRecordView,
                    StoreErrorView,
                >(found));
            }
        }
    }
}

} // verus!
