//! What holds of applying objects, whatever they are.
use vstd::prelude::*;

use crate::manifest::objects::ApplyOrder;
use crate::manifest::objects::KubernetesObjectView;
use crate::manifest::objects::ObjectMetaView;
use crate::manifest::objects::RenderedManifestObjectView;
use crate::manifest::objects::RenderedManifestView;
use crate::materialization::RenderedObjectRefView;
use crate::materializer;
use crate::materializer::ApplyRunView;
use crate::materializer::ApplyStepView;
use crate::materializer::KubernetesClientErrorView;
use crate::materializer::MaterializerErrorView;
use crate::outcome;
use crate::text;

verus! {

/// Whether a reference names the object that has this metadata.
pub open spec fn names(object: RenderedObjectRefView, metadata: ObjectMetaView) -> bool {
    &&& object.name == metadata.name
    &&& metadata.namespace matches Some(namespace) ==> object.namespace == namespace
    &&& metadata.namespace is None ==> object.namespace.len() == 0
}

/// An object is named by its own metadata, and by the kind that it is.
pub proof fn lemma_object_is_named_by_its_metadata(object: KubernetesObjectView)
    ensures
        object matches KubernetesObjectView::Deployment(inner) ==> names(
            materializer::object_ref(object),
            inner.metadata,
        ) && materializer::object_ref(object).kind == "Deployment"@,
        object matches KubernetesObjectView::StatefulSet(inner) ==> names(
            materializer::object_ref(object),
            inner.metadata,
        ) && materializer::object_ref(object).kind == "StatefulSet"@,
        object matches KubernetesObjectView::Service(inner) ==> names(
            materializer::object_ref(object),
            inner.metadata,
        ) && materializer::object_ref(object).kind == "Service"@,
        object matches KubernetesObjectView::PersistentVolume(inner) ==> names(
            materializer::object_ref(object),
            inner.metadata,
        ) && materializer::object_ref(object).kind == "PersistentVolume"@,
        object matches KubernetesObjectView::PersistentVolumeClaim(inner) ==> names(
            materializer::object_ref(object),
            inner.metadata,
        ) && materializer::object_ref(object).kind == "PersistentVolumeClaim"@,
        (materializer::object_ref(object).api_version == "apps/v1"@) == (object is Deployment
            || object is StatefulSet),
        (materializer::object_ref(object).api_version == "v1"@) == (object is Service
            || object is PersistentVolume || object is PersistentVolumeClaim),
{
    reveal_strlit("apps/v1");
    reveal_strlit("v1");
    assert("apps/v1"@.len() != "v1"@.len());
}

/// Whether metadata carries the generations of a manifest.
pub open spec fn carries(
    labels: Map<Seq<char>, Seq<char>>,
    annotations: Map<Seq<char>, Seq<char>>,
    manifest: RenderedManifestView,
) -> bool {
    &&& labels.contains_pair(
        "sleepypods.io/instance-generation"@,
        text::decimal(manifest.instance_generation),
    )
    &&& manifest.template_generation matches Some(generation) ==> annotations.contains_pair(
        "sleepypods.io/template-generation"@,
        text::decimal(generation),
    )
}

/// Whether an object, and its pods where it has any, carry the generations of a
/// manifest.
pub open spec fn object_carries(
    object: KubernetesObjectView,
    manifest: RenderedManifestView,
) -> bool {
    match object {
        KubernetesObjectView::Deployment(inner) => carries(
            inner.metadata.labels,
            inner.metadata.annotations,
            manifest,
        ) && carries(
            inner.spec.template.metadata.labels,
            inner.spec.template.metadata.annotations,
            manifest,
        ),
        KubernetesObjectView::StatefulSet(inner) => carries(
            inner.metadata.labels,
            inner.metadata.annotations,
            manifest,
        ) && carries(
            inner.spec.template.metadata.labels,
            inner.spec.template.metadata.annotations,
            manifest,
        ),
        KubernetesObjectView::Service(inner) => carries(
            inner.metadata.labels,
            inner.metadata.annotations,
            manifest,
        ),
        KubernetesObjectView::PersistentVolume(inner) => carries(
            inner.metadata.labels,
            inner.metadata.annotations,
            manifest,
        ),
        KubernetesObjectView::PersistentVolumeClaim(inner) => carries(
            inner.metadata.labels,
            inner.metadata.annotations,
            manifest,
        ),
    }
}

/// A run starts if and only if every object of the manifest carries the generations
/// of the manifest, and so do the pods of its workloads.
pub proof fn lemma_run_starts_where_generations_agree(manifest: RenderedManifestView)
    ensures
        materializer::apply_start(manifest) is Ok <==> forall|i: int|
            0 <= i < manifest.objects.len() ==> object_carries(
                (#[trigger] manifest.objects[i]).object,
                manifest,
            ),
{
    let problems = materializer::object_problems(manifest);
    outcome::lemma_no_first_problem(problems, 0);
    assert forall|i: int| 0 <= i < problems.len() implies (#[trigger] problems[i]) is None
        == object_carries(manifest.objects[i].object, manifest) by {
        assert(problems[i] == materializer::object_problem(
            manifest.objects[i].object,
            manifest.instance_generation,
            manifest.template_generation,
        ));
    }
    if materializer::apply_start(manifest) is Ok {
        assert forall|i: int| 0 <= i < manifest.objects.len() implies object_carries(
            (#[trigger] manifest.objects[i]).object,
            manifest,
        ) by {
            assert(problems[i] is None);
        }
    } else {
        let i = choose|i: int| 0 <= i < problems.len() && (#[trigger] problems[i]) is Some;
        assert(!object_carries(manifest.objects[i].object, manifest));
    }
}

/// Where a kind of objects comes among the others.
pub open spec fn place(order: ApplyOrder) -> int {
    match order {
        ApplyOrder::PersistentVolume => 0,
        ApplyOrder::PersistentVolumeClaim => 1,
        ApplyOrder::Service => 2,
        ApplyOrder::Workload => 3,
    }
}

/// Whether a step applies an object.
pub open spec fn applies(step: ApplyStepView, object: KubernetesObjectView) -> bool {
    step matches ApplyStepView::Apply { object: applied, .. } && applied == object
}

/// Whether a step waits for an object.
pub open spec fn waits_for(step: ApplyStepView, metadata: ObjectMetaView) -> bool {
    &&& step is WaitForPvcBound
    &&& step->WaitForPvcBound_name == metadata.name
    &&& metadata.namespace matches Some(namespace) ==> step->WaitForPvcBound_namespace
        == namespace
}

proof fn lemma_found_at(
    objects: Seq<RenderedManifestObjectView>,
    order: ApplyOrder,
    i: int,
) -> (k: int)
    requires
        0 <= i < objects.len(),
        objects[i].apply_order == order,
    ensures
        0 <= k < materializer::objects_at(objects, order).len(),
        materializer::objects_at(objects, order)[k] == objects[i].object,
{
    let keep = |rendered: RenderedManifestObjectView| rendered.apply_order == order;
    objects.lemma_filter_contains(keep, i);
    let kept = objects.filter(keep);
    let k = choose|k: int| 0 <= k < kept.len() && kept[k] == objects[i];
    assert(materializer::objects_at(objects, order)[k] == objects[i].object);
    k
}

proof fn lemma_comes_from(
    objects: Seq<RenderedManifestObjectView>,
    order: ApplyOrder,
    k: int,
) -> (i: int)
    requires
        0 <= k < materializer::objects_at(objects, order).len(),
    ensures
        0 <= i < objects.len(),
        objects[i].apply_order == order,
        objects[i].object == materializer::objects_at(objects, order)[k],
    decreases objects.len(),
{
    let last = objects.len() - 1;
    if objects.len() == 0 {
        reveal(Seq::filter);
        assert(false);
        0
    } else {
        materializer::lemma_objects_at_next(objects, order, last);
        assert(objects.take(last + 1) =~= objects);
        let before = objects.take(last);
        if k < materializer::objects_at(before, order).len() {
            lemma_comes_from(before, order, k)
        } else {
            last
        }
    }
}

proof fn lemma_all_have_a_place(objects: Seq<RenderedManifestObjectView>)
    ensures
        materializer::objects_at(objects, ApplyOrder::PersistentVolume).len()
            + materializer::objects_at(objects, ApplyOrder::PersistentVolumeClaim).len()
            + materializer::objects_at(objects, ApplyOrder::Service).len()
            + materializer::objects_at(objects, ApplyOrder::Workload).len() == objects.len(),
    decreases objects.len(),
{
    if objects.len() == 0 {
        reveal(Seq::filter);
    } else {
        let last = objects.len() - 1;
        assert(objects.take(last + 1) =~= objects);
        materializer::lemma_objects_at_next(objects, ApplyOrder::PersistentVolume, last);
        materializer::lemma_objects_at_next(objects, ApplyOrder::PersistentVolumeClaim, last);
        materializer::lemma_objects_at_next(objects, ApplyOrder::Service, last);
        materializer::lemma_objects_at_next(objects, ApplyOrder::Workload, last);
        lemma_all_have_a_place(objects.take(last));
    }
}

/// Where the step that applies an object lies, and for which object of the manifest.
proof fn lemma_step_lies_in_place(manifest: RenderedManifestView, k: int) -> (i: int)
    requires
        0 <= k < materializer::apply_steps(manifest).len(),
        materializer::apply_steps(manifest)[k] is Apply,
    ensures
        0 <= i < manifest.objects.len(),
        materializer::apply_steps(manifest)[k] == materializer::apply_step(
            manifest.objects[i].object,
        ),
        ({
            let volumes = materializer::objects_at(
                manifest.objects,
                ApplyOrder::PersistentVolume,
            ).len();
            let claims = materializer::objects_at(
                manifest.objects,
                ApplyOrder::PersistentVolumeClaim,
            ).len();
            let services = materializer::objects_at(manifest.objects, ApplyOrder::Service).len();
            match manifest.objects[i].apply_order {
                ApplyOrder::PersistentVolume => k < volumes,
                ApplyOrder::PersistentVolumeClaim => volumes <= k < volumes + claims,
                ApplyOrder::Service => volumes + 2 * claims <= k < volumes + 2 * claims
                    + services,
                ApplyOrder::Workload => volumes + 2 * claims + services <= k,
            }
        }),
{
    let objects = manifest.objects;
    let volumes = materializer::objects_at(objects, ApplyOrder::PersistentVolume);
    let claims = materializer::objects_at(objects, ApplyOrder::PersistentVolumeClaim);
    let services = materializer::objects_at(objects, ApplyOrder::Service);
    let workloads = materializer::objects_at(objects, ApplyOrder::Workload);
    let steps = materializer::apply_steps(manifest);
    let after_claims = volumes.len() + claims.len();
    let after_waits = after_claims + claims.len();
    let after_services = after_waits + services.len();
    if k < volumes.len() {
        assert(steps[k] == materializer::apply_step(volumes[k]));
        lemma_comes_from(objects, ApplyOrder::PersistentVolume, k)
    } else if k < after_claims {
        assert(steps[k] == materializer::apply_step(claims[k - volumes.len()]));
        lemma_comes_from(objects, ApplyOrder::PersistentVolumeClaim, k - volumes.len())
    } else if k < after_waits {
        assert(steps[k] == materializer::wait_step(claims[k - after_claims]));
        0
    } else if k < after_services {
        assert(steps[k] == materializer::apply_step(services[k - after_waits]));
        lemma_comes_from(objects, ApplyOrder::Service, k - after_waits)
    } else {
        assert(steps[k] == materializer::apply_step(workloads[k - after_services]));
        lemma_comes_from(objects, ApplyOrder::Workload, k - after_services)
    }
}

/// Every object of a manifest is applied, as it is and under its name.
pub proof fn lemma_every_object_is_applied(manifest: RenderedManifestView, i: int)
    requires
        0 <= i < manifest.objects.len(),
    ensures
        exists|k: int|
            0 <= k < materializer::apply_steps(manifest).len() && applies(
                #[trigger] materializer::apply_steps(manifest)[k],
                manifest.objects[i].object,
            ) && materializer::apply_steps(manifest)[k]->Apply_object_ref
                == materializer::object_ref(manifest.objects[i].object),
{
    let objects = manifest.objects;
    let volumes = materializer::objects_at(objects, ApplyOrder::PersistentVolume);
    let claims = materializer::objects_at(objects, ApplyOrder::PersistentVolumeClaim);
    let services = materializer::objects_at(objects, ApplyOrder::Service);
    let k = lemma_found_at(objects, objects[i].apply_order, i);
    let at = match objects[i].apply_order {
        ApplyOrder::PersistentVolume => k,
        ApplyOrder::PersistentVolumeClaim => volumes.len() + k,
        ApplyOrder::Service => volumes.len() + 2 * claims.len() + k,
        ApplyOrder::Workload => volumes.len() + 2 * claims.len() + services.len() + k,
    };
    assert(materializer::apply_steps(manifest)[at] == materializer::apply_step(
        objects[i].object,
    ));
}

/// Nothing is applied that is not an object of the manifest, and there are as many
/// steps as objects, and one more for each claim.
pub proof fn lemma_only_objects_are_applied(manifest: RenderedManifestView, k: int)
    requires
        0 <= k < materializer::apply_steps(manifest).len(),
    ensures
        materializer::apply_steps(manifest)[k] is Apply ==> exists|i: int|
            0 <= i < manifest.objects.len() && applies(
                materializer::apply_steps(manifest)[k],
                (#[trigger] manifest.objects[i]).object,
            ),
        materializer::apply_steps(manifest).len() == manifest.objects.len()
            + manifest.objects.filter(
            |rendered: RenderedManifestObjectView|
                rendered.apply_order == ApplyOrder::PersistentVolumeClaim,
        ).len(),
{
    lemma_all_have_a_place(manifest.objects);
    if materializer::apply_steps(manifest)[k] is Apply {
        let i = lemma_step_lies_in_place(manifest, k);
        assert(applies(materializer::apply_steps(manifest)[k], manifest.objects[i].object));
    }
}

/// Whether every object like one of a manifest has the same place in the order.
pub open spec fn has_one_place(manifest: RenderedManifestView, a: int) -> bool {
    forall|p: int|
        0 <= p < manifest.objects.len() && (#[trigger] manifest.objects[p]).object
            == manifest.objects[a].object ==> manifest.objects[p].apply_order
            == manifest.objects[a].apply_order
}

/// Volumes are applied before claims, claims before services, and services before
/// workloads.
pub proof fn lemma_objects_are_applied_in_order(
    manifest: RenderedManifestView,
    a: int,
    b: int,
    k: int,
    l: int,
)
    requires
        0 <= a < manifest.objects.len(),
        0 <= b < manifest.objects.len(),
        has_one_place(manifest, a),
        has_one_place(manifest, b),
        place(manifest.objects[a].apply_order) < place(manifest.objects[b].apply_order),
        0 <= k < materializer::apply_steps(manifest).len(),
        0 <= l < materializer::apply_steps(manifest).len(),
        applies(materializer::apply_steps(manifest)[k], manifest.objects[a].object),
        applies(materializer::apply_steps(manifest)[l], manifest.objects[b].object),
    ensures
        k < l,
{
    let p = lemma_step_lies_in_place(manifest, k);
    let q = lemma_step_lies_in_place(manifest, l);
    assert(manifest.objects[p].object == manifest.objects[a].object);
    assert(manifest.objects[q].object == manifest.objects[b].object);
}

/// Every claim is waited for, after it is applied.
pub proof fn lemma_every_claim_is_waited_for(manifest: RenderedManifestView, i: int)
    requires
        0 <= i < manifest.objects.len(),
        manifest.objects[i].apply_order == ApplyOrder::PersistentVolumeClaim,
        manifest.objects[i].object is PersistentVolumeClaim,
    ensures
        exists|k: int, l: int|
            0 <= k < l < materializer::apply_steps(manifest).len() && applies(
                #[trigger] materializer::apply_steps(manifest)[k],
                manifest.objects[i].object,
            ) && waits_for(
                #[trigger] materializer::apply_steps(manifest)[l],
                manifest.objects[i].object->PersistentVolumeClaim_0.metadata,
            ),
{
    let objects = manifest.objects;
    let volumes = materializer::objects_at(objects, ApplyOrder::PersistentVolume);
    let claims = materializer::objects_at(objects, ApplyOrder::PersistentVolumeClaim);
    let at = lemma_found_at(objects, ApplyOrder::PersistentVolumeClaim, i);
    let k = volumes.len() + at;
    let l = volumes.len() + claims.len() + at;
    let steps = materializer::apply_steps(manifest);
    assert(steps[k] == materializer::apply_step(objects[i].object));
    assert(steps[l] == materializer::wait_step(objects[i].object));
    assert(applies(steps[k], objects[i].object));
    assert(waits_for(steps[l], objects[i].object->PersistentVolumeClaim_0.metadata));
}

/// The steps that a client is asked to do, if it answers so.
pub open spec fn apply_calls(
    run: ApplyRunView,
    answers: Seq<Result<(), KubernetesClientErrorView>>,
) -> Seq<ApplyStepView>
    decreases answers.len(),
{
    if answers.len() == 0 || run.next() is None {
        Seq::empty()
    } else if run.failure(answers[0]) is Some {
        seq![run.next()->0]
    } else {
        seq![run.next()->0] + apply_calls(run.after(answers[0]), answers.skip(1))
    }
}

/// What comes of a run, if a client answers so: the objects that were applied.
pub open spec fn apply_result(
    run: ApplyRunView,
    answers: Seq<Result<(), KubernetesClientErrorView>>,
) -> Result<Seq<RenderedObjectRefView>, MaterializerErrorView>
    decreases answers.len(),
{
    if answers.len() == 0 || run.next() is None {
        Ok(run.applied)
    } else {
        match run.failure(answers[0]) {
            Some(error) => Err(error),
            None => apply_result(run.after(answers[0]), answers.skip(1)),
        }
    }
}

/// Whether an error is about a step, and says what the client said.
pub open spec fn is_about(
    error: MaterializerErrorView,
    step: ApplyStepView,
    source: KubernetesClientErrorView,
) -> bool {
    match step {
        ApplyStepView::Apply { object, object_ref } => error is Apply && error->Apply_object
            == object_ref && error->Apply_source == source,
        ApplyStepView::WaitForPvcBound { namespace, name } => error is PvcBoundWait
            && error->PvcBoundWait_namespace == namespace && error->PvcBoundWait_name == name
            && error->PvcBoundWait_source == source,
    }
}

proof fn lemma_application_from(
    run: ApplyRunView,
    answers: Seq<Result<(), KubernetesClientErrorView>>,
    good: int,
)
    requires
        run.done + answers.len() == run.steps.len(),
        run.steps.len() <= usize::MAX,
        0 <= good <= answers.len(),
        forall|i: int| 0 <= i < good ==> (#[trigger] answers[i]) is Ok,
        good < answers.len() ==> answers[good] is Err,
    ensures
        apply_calls(run, answers) == run.steps.subrange(
            run.done as int,
            if good < answers.len() {
                run.done + good + 1
            } else {
                run.steps.len() as int
            },
        ),
        good < answers.len() ==> apply_result(run, answers) is Err && is_about(
            apply_result(run, answers)->Err_0,
            run.steps[run.done + good],
            answers[good]->Err_0,
        ),
        good == answers.len() ==> apply_result(run, answers) is Ok,
    decreases answers.len(),
{
    if answers.len() > 0 {
        let rest = answers.skip(1);
        let after = run.after(answers[0]);
        if good > 0 {
            assert(answers[0] is Ok);
            assert forall|i: int| 0 <= i < good - 1 implies (#[trigger] rest[i]) is Ok by {
                assert(rest[i] == answers[i + 1]);
            }
            if good < answers.len() {
                assert(rest[good - 1] == answers[good]);
            }
            lemma_application_from(after, rest, good - 1);
        }
    }
    assert(apply_calls(run, answers) =~= run.steps.subrange(
        run.done as int,
        if good < answers.len() {
            run.done + good + 1
        } else {
            run.steps.len() as int
        },
    ));
}

/// The steps of a manifest are done in their order, each once, up to the first that
/// fails, and none after it; that one is reported, with what the client said.
pub proof fn lemma_application_stops_at_the_first_failure(
    manifest: RenderedManifestView,
    answers: Seq<Result<(), KubernetesClientErrorView>>,
    good: int,
)
    requires
        materializer::apply_start(manifest) is Ok,
        materializer::apply_steps(manifest).len() <= usize::MAX,
        answers.len() == materializer::apply_steps(manifest).len(),
        0 <= good <= answers.len(),
        forall|i: int| 0 <= i < good ==> (#[trigger] answers[i]) is Ok,
        good < answers.len() ==> answers[good] is Err,
    ensures
        apply_calls(materializer::apply_start(manifest)->Ok_0, answers) == if good
            < answers.len() {
            materializer::apply_steps(manifest).take(good + 1)
        } else {
            materializer::apply_steps(manifest)
        },
        apply_result(materializer::apply_start(manifest)->Ok_0, answers) is Ok <==> good
            == answers.len(),
        good < answers.len() ==> is_about(
            apply_result(materializer::apply_start(manifest)->Ok_0, answers)->Err_0,
            materializer::apply_steps(manifest)[good],
            answers[good]->Err_0,
        ),
{
    let steps = materializer::apply_steps(manifest);
    lemma_application_from(materializer::apply_start(manifest)->Ok_0, answers, good);
    assert(steps.subrange(0, steps.len() as int) =~= steps);
    if good < answers.len() {
        assert(steps.subrange(0, good + 1) =~= steps.take(good + 1));
    }
}

proof fn lemma_applied_refs_of_both(a: Seq<ApplyStepView>, b: Seq<ApplyStepView>)
    ensures
        materializer::applied_refs(a + b) == materializer::applied_refs(a)
            + materializer::applied_refs(b),
    decreases b.len(),
{
    if b.len() == 0 {
        assert(a + b =~= a);
        assert(materializer::applied_refs(a) + materializer::applied_refs(b)
            =~= materializer::applied_refs(a));
    } else {
        assert((a + b).drop_last() =~= a + b.drop_last());
        lemma_applied_refs_of_both(a, b.drop_last());
        assert(materializer::applied_refs(a + b) =~= materializer::applied_refs(a)
            + materializer::applied_refs(b));
    }
}

proof fn lemma_applied_refs_of_steps(objects: Seq<KubernetesObjectView>)
    ensures
        materializer::applied_refs(materializer::apply_steps_for(objects)) == objects.map_values(
            |object: KubernetesObjectView| materializer::object_ref(object),
        ),
        materializer::applied_refs(materializer::wait_steps_for(objects)) == Seq::<
            RenderedObjectRefView,
        >::empty(),
    decreases objects.len(),
{
    let refs = objects.map_values(
        |object: KubernetesObjectView| materializer::object_ref(object),
    );
    if objects.len() > 0 {
        let before = objects.drop_last();
        lemma_applied_refs_of_steps(before);
        assert(materializer::apply_steps_for(objects).drop_last()
            =~= materializer::apply_steps_for(before));
        assert(materializer::wait_steps_for(objects).drop_last()
            =~= materializer::wait_steps_for(before));
    }
    assert(materializer::applied_refs(materializer::apply_steps_for(objects)) =~= refs);
}

/// Once all steps are done, every object of the manifest is recorded as applied
/// under its name, and nothing else is.
pub proof fn lemma_every_object_is_recorded(manifest: RenderedManifestView, i: int)
    requires
        0 <= i < manifest.objects.len(),
    ensures
        materializer::applied_refs(materializer::apply_steps(manifest)).contains(
            materializer::object_ref(manifest.objects[i].object),
        ),
        materializer::applied_refs(materializer::apply_steps(manifest)).len()
            == manifest.objects.len(),
{
    let objects = manifest.objects;
    let volumes = materializer::objects_at(objects, ApplyOrder::PersistentVolume);
    let claims = materializer::objects_at(objects, ApplyOrder::PersistentVolumeClaim);
    let services = materializer::objects_at(objects, ApplyOrder::Service);
    let workloads = materializer::objects_at(objects, ApplyOrder::Workload);
    let a = materializer::apply_steps_for(volumes);
    let b = materializer::apply_steps_for(claims);
    let c = materializer::wait_steps_for(claims);
    let d = materializer::apply_steps_for(services);
    let e = materializer::apply_steps_for(workloads);
    lemma_applied_refs_of_steps(volumes);
    lemma_applied_refs_of_steps(claims);
    lemma_applied_refs_of_steps(services);
    lemma_applied_refs_of_steps(workloads);
    lemma_applied_refs_of_both(a, b);
    lemma_applied_refs_of_both(a + b, c);
    lemma_applied_refs_of_both(a + b + c, d);
    lemma_applied_refs_of_both(a + b + c + d, e);
    lemma_all_have_a_place(objects);
    let k = lemma_found_at(objects, objects[i].apply_order, i);
    let at = match objects[i].apply_order {
        ApplyOrder::PersistentVolume => k,
        ApplyOrder::PersistentVolumeClaim => volumes.len() + k,
        ApplyOrder::Service => volumes.len() + claims.len() + k,
        ApplyOrder::Workload => volumes.len() + claims.len() + services.len() + k,
    };
    let refs = materializer::applied_refs(materializer::apply_steps(manifest));
    assert(refs[at] == materializer::object_ref(objects[i].object));
}

/// Objects that were applied are reported with the backend that became ready; if
/// none did, they are reported with what the client said.
pub proof fn lemma_applied_objects_are_reported(
    rendered_objects: Seq<RenderedObjectRefView>,
    readiness: Result<Seq<char>, KubernetesClientErrorView>,
)
    ensures
        materializer::after_readiness(rendered_objects, readiness) is Ok <==> readiness is Ok,
        readiness is Ok ==> materializer::after_readiness(rendered_objects, readiness)->Ok_0.backend
            == readiness->Ok_0 && materializer::after_readiness(
            rendered_objects,
            readiness,
        )->Ok_0.rendered_objects == rendered_objects,
        readiness is Err ==> materializer::after_readiness(
            rendered_objects,
            readiness,
        )->Err_0 is ReadinessWait && materializer::after_readiness(
            rendered_objects,
            readiness,
        )->Err_0->ReadinessWait_source == readiness->Err_0 && materializer::after_readiness(
            rendered_objects,
            readiness,
        )->Err_0->ReadinessWait_rendered_objects == rendered_objects,
{
}

} // verus!
