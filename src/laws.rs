use vstd::prelude::*;
use crate::permission::{first_denied, Permission};
use crate::provision::{
    awaiting_invalidation, run, start, trace, transition, CommandModel, EventModel,
    OrganizationProvisionResponse, Phase, ProvState, ProvisionError,
};
use crate::record::{admin_model, domain_model, tenant_model};
use crate::request::{first_missing, RequestModel};

verus! {

/// No command in `cmds` submits a principal to the directory store.
pub open spec fn no_store_call<E>(cmds: Seq<CommandModel<E>>) -> bool {
    forall|i: int| 0 <= i < cmds.len() ==> !(#[trigger] cmds[i] is Create)
}

/// A request with an empty required field never reaches the directory store,
/// whatever the store and the cache would report; once the route and the
/// caller's capabilities check out, the run fails naming the first such field.
pub proof fn lemma_missing_field_makes_no_store_call<E>(
    route_ok: bool,
    granted: Seq<Permission>,
    scope: Option<u32>,
    req: RequestModel,
    evs: Seq<EventModel<E>>,
)
    requires
        first_missing(req) is Some,
    ensures
        no_store_call(run(route_ok, granted, scope, Some(req), evs)),
        route_ok && first_denied(granted) is None ==> run(route_ok, granted, scope, Some(req), evs)
            == seq![CommandModel::<E>::Fail(ProvisionError::MissingField(first_missing(req)->0))],
{
    let cmds = run(route_ok, granted, scope, Some(req), evs);
    assert(start::<E>(route_ok, granted, scope, Some(req)) is Err);
    assert(cmds.len() == 1);
    assert(!(cmds[0] is Create));
}

/// A caller lacking one of the three capabilities never reaches the directory
/// store, whatever its request says: the run fails naming the first
/// capability it lacks.
pub proof fn lemma_denied_caller_makes_no_store_call<E>(
    granted: Seq<Permission>,
    scope: Option<u32>,
    parsed: Option<RequestModel>,
    evs: Seq<EventModel<E>>,
)
    requires
        first_denied(granted) is Some,
    ensures
        run(true, granted, scope, parsed, evs) == seq![
            CommandModel::<E>::Fail(ProvisionError::PermissionDenied(first_denied(granted)->0)),
        ],
        no_store_call(run(true, granted, scope, parsed, evs)),
{
    let cmds = run(true, granted, scope, parsed, evs);
    assert(cmds.len() == 1);
    assert(!(cmds[0] is Create));
}

/// The events of a run in which every creation succeeds.
pub open spec fn all_created<E>(
    tenant_id: u32,
    tenant_changed: Seq<u32>,
    domain_id: u32,
    domain_changed: Seq<u32>,
    admin_id: u32,
    admin_changed: Seq<u32>,
) -> Seq<EventModel<E>> {
    seq![
        EventModel::Created { id: tenant_id, changed: tenant_changed },
        EventModel::Invalidated,
        EventModel::Created { id: domain_id, changed: domain_changed },
        EventModel::Invalidated,
        EventModel::Created { id: admin_id, changed: admin_changed },
        EventModel::Invalidated,
    ]
}

/// With a valid request and every capability, a run submits exactly three
/// principals, tenant then domain then administrator, the last two bound to
/// the new tenant; evicts each creation's stale views before the next step;
/// and answers with the three identifiers the store assigned, each in its
/// own field.
pub proof fn lemma_full_run<E>(
    granted: Seq<Permission>,
    scope: Option<u32>,
    req: RequestModel,
    tenant_id: u32,
    tenant_changed: Seq<u32>,
    domain_id: u32,
    domain_changed: Seq<u32>,
    admin_id: u32,
    admin_changed: Seq<u32>,
)
    requires
        first_denied(granted) is None,
        first_missing(req) is None,
    ensures
        run(
            true,
            granted,
            scope,
            Some(req),
            all_created::<E>(tenant_id, tenant_changed, domain_id, domain_changed, admin_id, admin_changed),
        ) == seq![
            CommandModel::<E>::Create { record: tenant_model(req), parent: scope },
            CommandModel::Invalidate(tenant_changed),
            CommandModel::Create { record: domain_model(req), parent: Some(tenant_id) },
            CommandModel::Invalidate(domain_changed),
            CommandModel::Create { record: admin_model(req), parent: Some(tenant_id) },
            CommandModel::Invalidate(admin_changed),
            CommandModel::Respond(OrganizationProvisionResponse { tenant_id, domain_id, admin_id }),
        ],
{
    let evs = all_created::<E>(tenant_id, tenant_changed, domain_id, domain_changed, admin_id, admin_changed);
    let s0 = start::<E>(true, granted, scope, Some(req))->Ok_0.0;
    reveal_with_fuel(trace, 7);
    assert(evs.drop_first() =~= evs.subrange(1, 6));
    assert(evs.subrange(1, 6).drop_first() =~= evs.subrange(2, 6));
    assert(evs.subrange(2, 6).drop_first() =~= evs.subrange(3, 6));
    assert(evs.subrange(3, 6).drop_first() =~= evs.subrange(4, 6));
    assert(evs.subrange(4, 6).drop_first() =~= evs.subrange(5, 6));
    assert(evs.subrange(5, 6).drop_first() =~= Seq::<EventModel<E>>::empty());
    assert(run(true, granted, scope, Some(req), evs) =~= seq![
        CommandModel::<E>::Create { record: tenant_model(req), parent: scope },
        CommandModel::Invalidate(tenant_changed),
        CommandModel::Create { record: domain_model(req), parent: Some(tenant_id) },
        CommandModel::Invalidate(domain_changed),
        CommandModel::Create { record: admin_model(req), parent: Some(tenant_id) },
        CommandModel::Invalidate(admin_changed),
        CommandModel::Respond(OrganizationProvisionResponse { tenant_id, domain_id, admin_id }),
    ]);
}

proof fn lemma_trace_steps<E>(s: ProvState, evs: Seq<EventModel<E>>)
    ensures
        trace(s, evs).len() <= evs.len(),
        forall|i: int| #![trigger trace(s, evs)[i]]
            0 <= i < trace(s, evs).len() ==> {
                &&& evs[i] is Created ==> trace(s, evs)[i] == CommandModel::<E>::Invalidate(evs[i]->changed)
                &&& trace(s, evs)[i] is Invalidate ==> evs[i] is Created
                &&& trace(s, evs)[i] is Create ==> evs[i] is Invalidated
            },
        trace(s, evs).len() > 0 && trace(s, evs)[0] is Create ==> awaiting_invalidation(s.phase),
        forall|i: int|
            0 < i < trace(s, evs).len() && (#[trigger] trace(s, evs)[i]) is Create ==> trace(
                s,
                evs,
            )[i - 1] is Invalidate,
    decreases evs.len(),
{
    if evs.len() > 0 {
        match transition(s, evs[0]) {
            Some((next, c)) => {
                let rest = evs.drop_first();
                lemma_trace_steps(next, rest);
                let t = trace(s, evs);
                let tr = trace(next, rest);
                assert(t == seq![c] + tr);
                assert forall|i: int| 0 < i < t.len() implies t[i] == tr[i - 1] && evs[i] == rest[
                    i - 1
                ] by {}
                assert(awaiting_invalidation(next.phase) ==> c is Invalidate);
                assert forall|i: int| #![trigger t[i]]
                    0 <= i < t.len() implies {
                    &&& evs[i] is Created ==> t[i] == CommandModel::<E>::Invalidate(evs[i]->changed)
                    &&& t[i] is Invalidate ==> evs[i] is Created
                    &&& t[i] is Create ==> evs[i] is Invalidated
                } by {
                    if i > 0 {
                        assert(t[i] == tr[i - 1]);
                        assert(evs[i] == rest[i - 1]);
                    }
                }
                assert forall|i: int| 0 < i < t.len() && (#[trigger] t[i]) is Create implies t[i
                    - 1] is Invalidate by {
                    assert(t[i] == tr[i - 1]);
                    if i > 1 {
                        assert(t[i - 1] == tr[i - 2]);
                    }
                }
            },
            None => {},
        }
    }
}

/// Each creation the store reports is followed by one eviction of exactly the
/// principals it reported as changed; evictions happen for nothing else; and
/// no principal is submitted before the eviction that answers the previous
/// creation has finished.
pub proof fn lemma_invalidation_follows_creation<E>(
    route_ok: bool,
    granted: Seq<Permission>,
    scope: Option<u32>,
    parsed: Option<RequestModel>,
    evs: Seq<EventModel<E>>,
)
    ensures
        forall|i: int| #![trigger evs[i]]
            0 <= i < evs.len() && i + 1 < run(route_ok, granted, scope, parsed, evs).len() ==> {
                let cmds = run(route_ok, granted, scope, parsed, evs);
                &&& evs[i] is Created ==> cmds[i + 1] == CommandModel::<E>::Invalidate(evs[i]->changed)
                &&& cmds[i + 1] is Invalidate ==> evs[i] is Created
                &&& cmds[i + 1] is Create ==> evs[i] is Invalidated && cmds[i] is Invalidate
            },
{
    match start::<E>(route_ok, granted, scope, parsed) {
        Ok((s, c)) => {
            lemma_trace_steps(s, evs);
            let cmds = run(route_ok, granted, scope, parsed, evs);
            let t = trace(s, evs);
            assert(cmds == seq![c] + t);
            assert(!awaiting_invalidation(s.phase));
            assert forall|i: int| #![trigger evs[i]]
                0 <= i < evs.len() && i + 1 < cmds.len() implies {
                &&& evs[i] is Created ==> cmds[i + 1] == CommandModel::<E>::Invalidate(evs[i]->changed)
                &&& cmds[i + 1] is Invalidate ==> evs[i] is Created
                &&& cmds[i + 1] is Create ==> evs[i] is Invalidated && cmds[i] is Invalidate
            } by {
                assert(cmds[i + 1] == t[i]);
                if i > 0 {
                    assert(cmds[i] == t[i - 1]);
                }
            }
        },
        Err(e) => {},
    }
}

/// If the store refuses the domain, the run ends there with the store's own
/// error: the tenant stays created, nothing undoes it, and no administrator is
/// submitted, whatever is reported afterwards.
pub proof fn lemma_domain_failure_keeps_tenant<E>(
    granted: Seq<Permission>,
    scope: Option<u32>,
    req: RequestModel,
    tenant_id: u32,
    tenant_changed: Seq<u32>,
    err: E,
    later: Seq<EventModel<E>>,
)
    requires
        first_denied(granted) is None,
        first_missing(req) is None,
    ensures
        run(
            true,
            granted,
            scope,
            Some(req),
            seq![
                EventModel::Created { id: tenant_id, changed: tenant_changed },
                EventModel::Invalidated,
                EventModel::Failed(err),
            ] + later,
        ) == seq![
            CommandModel::<E>::Create { record: tenant_model(req), parent: scope },
            CommandModel::Invalidate(tenant_changed),
            CommandModel::Create { record: domain_model(req), parent: Some(tenant_id) },
            CommandModel::Fail(ProvisionError::Store(err)),
        ],
{
    let evs = seq![
        EventModel::Created { id: tenant_id, changed: tenant_changed },
        EventModel::Invalidated,
        EventModel::Failed(err),
    ] + later;
    let done = ProvState { request: req, phase: Phase::Finished };
    let tail = evs.subrange(3, evs.len() as int);
    assert(trace(done, tail) =~= Seq::<CommandModel<E>>::empty()) by {
        if tail.len() > 0 {
            assert(transition(done, tail[0]) is None);
        }
    }
    assert(evs.drop_first() =~= evs.subrange(1, evs.len() as int));
    assert(evs.subrange(1, evs.len() as int).drop_first() =~= evs.subrange(2, evs.len() as int));
    assert(evs.subrange(2, evs.len() as int).drop_first() =~= tail);
    reveal_with_fuel(trace, 4);
    assert(run(true, granted, scope, Some(req), evs) =~= seq![
        CommandModel::<E>::Create { record: tenant_model(req), parent: scope },
        CommandModel::Invalidate(tenant_changed),
        CommandModel::Create { record: domain_model(req), parent: Some(tenant_id) },
        CommandModel::Fail(ProvisionError::Store(err)),
    ]);
}

/// Where a trace from phase `phase` answers with `r` at index `k`: how many
/// steps that takes and which identifiers the answer carries.
spec fn answer_shape<E>(phase: Phase, evs: Seq<EventModel<E>>, k: int, r: OrganizationProvisionResponse) -> bool {
    match phase {
        Phase::InvalidateAdmin { tenant_id, domain_id, admin_id } => k == 0
            && r == OrganizationProvisionResponse { tenant_id, domain_id, admin_id },
        Phase::AwaitAdmin { tenant_id, domain_id } => k == 1 && evs[0] is Created
            && r == OrganizationProvisionResponse { tenant_id, domain_id, admin_id: evs[0]->id },
        Phase::InvalidateDomain { tenant_id, domain_id } => k == 2 && evs[1] is Created
            && r == OrganizationProvisionResponse { tenant_id, domain_id, admin_id: evs[1]->id },
        Phase::AwaitDomain { tenant_id } => k == 3 && evs[0] is Created && evs[2] is Created
            && r == OrganizationProvisionResponse {
            tenant_id,
            domain_id: evs[0]->id,
            admin_id: evs[2]->id,
        },
        Phase::InvalidateTenant { tenant_id } => k == 4 && evs[1] is Created && evs[3] is Created
            && r == OrganizationProvisionResponse {
            tenant_id,
            domain_id: evs[1]->id,
            admin_id: evs[3]->id,
        },
        Phase::AwaitTenant => k == 5 && evs[0] is Created && evs[2] is Created && evs[4] is Created
            && r == OrganizationProvisionResponse {
            tenant_id: evs[0]->id,
            domain_id: evs[2]->id,
            admin_id: evs[4]->id,
        },
        Phase::Finished => false,
    }
}

proof fn lemma_answer_shape<E>(s: ProvState, evs: Seq<EventModel<E>>, k: int, r: OrganizationProvisionResponse)
    requires
        0 <= k < trace(s, evs).len(),
        trace(s, evs)[k] == CommandModel::<E>::Respond(r),
    ensures
        answer_shape(s.phase, evs, k, r),
    decreases evs.len(),
{
    match transition(s, evs[0]) {
        Some((next, c)) => {
            let rest = evs.drop_first();
            assert(trace(s, evs) == seq![c] + trace(next, rest));
            if k > 0 {
                assert(trace(next, rest)[k - 1] == trace(s, evs)[k]);
                lemma_trace_steps(next, rest);
                lemma_answer_shape(next, rest, k - 1, r);
                assert(k - 1 < rest.len());
                assert forall|j: int| 0 <= j < rest.len() implies #[trigger] rest[j] == evs[j + 1] by {}
                if k - 1 >= 1 {
                    assert(rest[0] == evs[1]);
                }
                if k - 1 >= 2 {
                    assert(rest[1] == evs[2]);
                }
                if k - 1 >= 3 {
                    assert(rest[2] == evs[3]);
                }
                if k - 1 >= 4 {
                    assert(rest[3] == evs[4]);
                }
                assert(transition(s, evs[0]) == Some((next, c)));
                match s.phase {
                    Phase::AwaitTenant => {
                        assert(evs[0] is Created);
                    },
                    Phase::AwaitDomain { .. } => {
                        assert(evs[0] is Created);
                    },
                    Phase::AwaitAdmin { .. } => {
                        assert(evs[0] is Created);
                    },
                    _ => {},
                }
            }
        },
        None => {},
    }
}

/// A run that answers does so after exactly six reported events, and its
/// answer carries the identifiers of the first, second and third reported
/// creations as the tenant, domain and administrator identifiers.
pub proof fn lemma_answer_carries_created_ids<E>(
    route_ok: bool,
    granted: Seq<Permission>,
    scope: Option<u32>,
    parsed: Option<RequestModel>,
    evs: Seq<EventModel<E>>,
    k: int,
    r: OrganizationProvisionResponse,
)
    requires
        0 <= k < run(route_ok, granted, scope, parsed, evs).len(),
        run(route_ok, granted, scope, parsed, evs)[k] == CommandModel::<E>::Respond(r),
    ensures
        k == 6,
        evs[0] is Created,
        evs[0]->id == r.tenant_id,
        evs[2] is Created,
        evs[2]->id == r.domain_id,
        evs[4] is Created,
        evs[4]->id == r.admin_id,
{
    match start::<E>(route_ok, granted, scope, parsed) {
        Ok((s, c)) => {
            let cmds = run(route_ok, granted, scope, parsed, evs);
            assert(cmds == seq![c] + trace(s, evs));
            assert(k > 0);
            assert(trace(s, evs)[k - 1] == cmds[k]);
            lemma_answer_shape(s, evs, k - 1, r);
        },
        Err(e) => {},
    }
}

} // verus!
