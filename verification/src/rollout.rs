//! Which services are redeployed for a secret, and how a service is made
//! ready for it.

use crate::matcher::{affected, is_affected};
use crate::service::{RevisionTemplate, RevisionTemplateView, ServiceSpec, ServiceSpecView};
use crate::views::views;
use vstd::prelude::*;
use vstd::string::StringExecFns;

verus! {

/// What stands between the revision name that a service had and the fresh
/// value that makes its next one.
pub const REVISION_MARK: &'static str = "-";

/// The revision name that follows on one: the name as it was, the mark, and
/// a fresh value. It is longer than the name it follows on, and so never
/// that name, whatever the fresh value is.
pub open spec fn next_revision(revision: Seq<char>, fresh: Seq<char>) -> Seq<char> {
    revision + REVISION_MARK@ + fresh
}

/// A service made ready for a redeploy: its template goes under the
/// revision name that follows on the one it had, and nothing else is
/// changed. A service without a template has nothing to deploy, and stays
/// as it is.
pub open spec fn redeployed(service: ServiceSpecView, fresh: Seq<char>) -> ServiceSpecView {
    ServiceSpecView {
        name: service.name,
        template: match service.template {
            Some(t) => Some(
                RevisionTemplateView {
                    revision: next_revision(t.revision, fresh),
                    containers: t.containers,
                    volumes: t.volumes,
                },
            ),
            None => None,
        },
    }
}

/// A revision name is never followed by itself, and different fresh values
/// make different names follow on one.
pub proof fn lemma_next_revision_is_new(revision: Seq<char>, fresh: Seq<char>, other: Seq<char>)
    ensures
        next_revision(revision, fresh).len() > revision.len(),
        next_revision(revision, fresh) != revision,
        fresh != other ==> next_revision(revision, fresh) != next_revision(revision, other),
{
    reveal_strlit("-");
    let stem = revision + REVISION_MARK@;
    if next_revision(revision, fresh) == next_revision(revision, other) {
        assert((stem + fresh).skip(stem.len() as int) =~= fresh);
        assert((stem + other).skip(stem.len() as int) =~= other);
    }
}

/// Making a service ready is never a no-op: what comes out is not the
/// service as it was, whatever its revision name and whatever the fresh
/// value. This holds of every service that has a template.
pub proof fn lemma_redeploy_changes(service: ServiceSpecView, fresh: Seq<char>)
    requires
        service.template is Some,
    ensures
        redeployed(service, fresh) != service,
{
    lemma_next_revision_is_new(service.template->0.revision, fresh, fresh);
}

/// Making the same service ready twice, with two different fresh values,
/// gives two different services, each of them different from the service
/// as it was.
pub proof fn lemma_redeploy_twice_differs(
    service: ServiceSpecView,
    first: Seq<char>,
    second: Seq<char>,
)
    requires
        service.template is Some,
        first != second,
    ensures
        redeployed(service, first) != redeployed(service, second),
        redeployed(service, first) != service,
        redeployed(service, second) != service,
{
    let revision = service.template->0.revision;
    lemma_next_revision_is_new(revision, first, second);
    lemma_next_revision_is_new(revision, second, first);
}

/// Making a service ready does not settle: a service that was made ready
/// is changed again when it is made ready again, with whatever value.
pub proof fn lemma_redeploy_never_settles(
    service: ServiceSpecView,
    first: Seq<char>,
    second: Seq<char>,
)
    requires
        service.template is Some,
    ensures
        redeployed(redeployed(service, first), second) != redeployed(service, first),
{
    lemma_redeploy_changes(redeployed(service, first), second);
}

/// Making a service ready leaves its name, its containers and its volumes
/// as they are, and so whatever secret it follows.
pub proof fn lemma_redeploy_keeps_configuration(
    service: ServiceSpecView,
    fresh: Seq<char>,
    secret: Seq<char>,
)
    ensures
        redeployed(service, fresh).name == service.name,
        redeployed(service, fresh).template is Some <==> service.template is Some,
        service.template matches Some(t) ==> redeployed(service, fresh).template->0.containers
            == t.containers && redeployed(service, fresh).template->0.volumes == t.volumes,
        affected(redeployed(service, fresh), secret) == affected(service, secret),
{
}

/// Makes the service's next update deploy a new revision. The fresh value
/// is the caller's to draw: one that was not drawn before makes a revision
/// name that was not used before.
pub fn force_redeploy(service: &mut ServiceSpec, fresh: &str)
    ensures
        final(service)@ == redeployed(old(service)@, fresh@),
        old(service)@.template is Some ==> final(service)@ != old(service)@,
{
    proof {
        if old(service)@.template is Some {
            lemma_redeploy_changes(old(service)@, fresh@);
        }
    }
    match service.template.take() {
        Some(template) => {
            service.template = Some(
                RevisionTemplate {
                    revision: template.revision.concat(REVISION_MARK).concat(fresh),
                    containers: template.containers,
                    volumes: template.volumes,
                },
            );
        },
        None => {},
    }
}

/// The services that a secret affects, in the order of discovery.
pub open spec fn affected_among(services: Seq<ServiceSpecView>, secret: Seq<char>) -> Seq<
    ServiceSpecView,
> {
    services.filter(|s: ServiceSpecView| affected(s, secret))
}

/// The services to update for a secret: those of the discovered ones that
/// it affects, in the order of discovery, each made ready for a redeploy
/// with the fresh value of this request.
pub open spec fn rollout(services: Seq<ServiceSpecView>, secret: Seq<char>, fresh: Seq<char>) -> Seq<
    ServiceSpecView,
> {
    affected_among(services, secret).map_values(|s: ServiceSpecView| redeployed(s, fresh))
}

/// Whether a service is one of the affected ones, made ready.
pub open spec fn is_affected_made_ready(
    services: Seq<ServiceSpecView>,
    secret: Seq<char>,
    fresh: Seq<char>,
    ready: ServiceSpecView,
) -> bool {
    exists|j: int|
        0 <= j < services.len() && affected(#[trigger] services[j], secret) && ready == redeployed(
            services[j],
            fresh,
        )
}

/// The rollout holds the affected services and no others: each of its
/// services is an affected one made ready, and each affected service is in
/// it, made ready.
pub proof fn lemma_rollout_is_the_affected(
    services: Seq<ServiceSpecView>,
    secret: Seq<char>,
    fresh: Seq<char>,
)
    ensures
        rollout(services, secret, fresh).len() <= services.len(),
        forall|i: int|
            0 <= i < rollout(services, secret, fresh).len() ==> is_affected_made_ready(
                services,
                secret,
                fresh,
                #[trigger] rollout(services, secret, fresh)[i],
            ),
        forall|j: int|
            0 <= j < services.len() && affected(#[trigger] services[j], secret) ==> rollout(
                services,
                secret,
                fresh,
            ).contains(redeployed(services[j], fresh)),
{
    let wanted = |s: ServiceSpecView| affected(s, secret);
    let kept = services.filter(wanted);
    let ready = |s: ServiceSpecView| redeployed(s, fresh);
    services.lemma_filter_len(wanted);
    assert forall|i: int|
        0 <= i < rollout(services, secret, fresh).len() implies is_affected_made_ready(
        services,
        secret,
        fresh,
        #[trigger] rollout(services, secret, fresh)[i],
    ) by {
        services.lemma_filter_pred(wanted, i);
        services.lemma_filter_contains_rev(wanted, kept[i]);
    }
    assert forall|j: int|
        0 <= j < services.len() && affected(#[trigger] services[j], secret) implies rollout(
        services,
        secret,
        fresh,
    ).contains(redeployed(services[j], fresh)) by {
        services.lemma_filter_contains(wanted, j);
        let i = choose|i: int| 0 <= i < kept.len() && kept[i] == services[j];
        assert(kept.map_values(ready)[i] == redeployed(services[j], fresh));
    }
}

/// Every service of a rollout is changed: none is dispatched as it was
/// discovered. And two rollouts for the same discovery, with two different
/// fresh values, dispatch the same services in the same order, but none of
/// them with the same value.
pub proof fn lemma_rollouts_differ(
    services: Seq<ServiceSpecView>,
    secret: Seq<char>,
    first: Seq<char>,
    second: Seq<char>,
)
    ensures
        rollout(services, secret, first).len() == affected_among(services, secret).len(),
        rollout(services, secret, second).len() == affected_among(services, secret).len(),
        forall|i: int|
            0 <= i < affected_among(services, secret).len() ==> #[trigger] rollout(
                services,
                secret,
                first,
            )[i] != affected_among(services, secret)[i],
        first != second ==> forall|i: int|
            0 <= i < affected_among(services, secret).len() ==> #[trigger] rollout(
                services,
                secret,
                first,
            )[i] != rollout(services, secret, second)[i],
{
    let wanted = |s: ServiceSpecView| affected(s, secret);
    let kept = affected_among(services, secret);
    assert forall|i: int| 0 <= i < kept.len() implies (#[trigger] kept[i]).template is Some by {
        services.lemma_filter_pred(wanted, i);
    }
    assert forall|i: int| 0 <= i < kept.len() implies #[trigger] rollout(
        services,
        secret,
        first,
    )[i] != kept[i] by {
        lemma_redeploy_changes(kept[i], first);
    }
    if first != second {
        assert forall|i: int| 0 <= i < kept.len() implies #[trigger] rollout(
            services,
            secret,
            first,
        )[i] != rollout(services, secret, second)[i] by {
            lemma_redeploy_twice_differs(kept[i], first, second);
        }
    }
}

/// Picks the services that the secret affects and makes each ready for a
/// redeploy. The others are dropped untouched.
pub fn plan_rollout(services: Vec<ServiceSpec>, secret_id: &str, fresh: &str) -> (plan: Vec<
    ServiceSpec,
>)
    ensures
        views(plan@) == rollout(views(services@), secret_id@, fresh@),
{
    broadcast use vstd::std_specs::vec::axiom_spec_into_iter;
    let ghost all = views(services@);
    let mut plan: Vec<ServiceSpec> = Vec::new();
    proof {
        reveal(Seq::filter);
    }
    for service in it: services
        invariant
            views(it.seq()) == all,
            views(plan@) == rollout(all.take(it.index()), secret_id@, fresh@),
    {
        let ghost at = it.index();
        let ghost before = views(plan@);
        let mut service = service;
        proof {
            reveal(Seq::filter);
            assert(all.take(at + 1).drop_last() =~= all.take(at));
        }
        if is_affected(&service, secret_id) {
            force_redeploy(&mut service, fresh);
            plan.push(service);
            assert(views(plan@) =~= before.push(service@));
        }
    }
    assert(all.take(all.len() as int) =~= all);
    plan
}

} // verus!
