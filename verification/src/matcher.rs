//! Which services follow a secret: those that name it at its latest
//! version, in the environment of a container or in a volume.

use crate::service::{
    Container, ContainerView, EnvSecretRefView, EnvVar, EnvVarView, RevisionTemplate,
    RevisionTemplateView, ServiceSpec, ServiceSpecView, Volume, VolumeItem, VolumeItemView,
    VolumeView,
};
use crate::text::{
    lemma_segments_joined, lemma_segments_nonempty, lemma_segments_plain, same_text, segments,
    split, SEPARATOR,
};
use crate::views::views;
use vstd::prelude::*;

verus! {

/// The version alias that is resolved anew for every revision. Any other
/// version is pinned: a revision that names it never needs a reload.
pub const LATEST: &'static str = "latest";

/// A secret volume without items mounts every path at the latest version.
pub const DEFAULT_MOUNT_FOLLOWS_LATEST: bool = true;

/// Whether an environment entry takes its value from the latest version of
/// the secret. The secret's name must match exactly.
pub open spec fn env_var_follows(entry: EnvVarView, secret: Seq<char>) -> bool {
    entry.secret_ref matches Some(r) && r.secret == secret && r.version == LATEST@
}

/// Whether some environment entry of the container follows the secret.
pub open spec fn container_follows(container: ContainerView, secret: Seq<char>) -> bool {
    exists|j: int|
        0 <= j < container.env.len() && env_var_follows(#[trigger] container.env[j], secret)
}

/// Whether some container of the template follows the secret.
pub open spec fn containers_follow(template: RevisionTemplateView, secret: Seq<char>) -> bool {
    exists|i: int|
        0 <= i < template.containers.len() && container_follows(
            #[trigger] template.containers[i],
            secret,
        )
}

/// Whether the service follows the secret through its environment. A
/// service without a template follows nothing.
pub open spec fn env_follows(service: ServiceSpecView, secret: Seq<char>) -> bool {
    match service.template {
        Some(template) => containers_follow(template, secret),
        None => false,
    }
}

/// Whether a volume's secret is the given one: written out exactly, or as
/// a path whose last segment is the secret's name.
pub open spec fn names_secret(written: Seq<char>, secret: Seq<char>) -> bool {
    written == secret || segments(written).last() == secret
}

/// Whether some path of a secret volume shows the latest version.
pub open spec fn items_follow_latest(items: Seq<VolumeItemView>) -> bool {
    if items.len() == 0 {
        DEFAULT_MOUNT_FOLLOWS_LATEST
    } else {
        exists|k: int| 0 <= k < items.len() && (#[trigger] items[k]).version == LATEST@
    }
}

/// Whether a volume shows the latest version of the secret.
pub open spec fn volume_follows(volume: VolumeView, secret: Seq<char>) -> bool {
    volume.secret matches Some(s) && names_secret(s.secret, secret) && items_follow_latest(
        s.items,
    )
}

/// Whether some volume of the template follows the secret.
pub open spec fn some_volume_follows(template: RevisionTemplateView, secret: Seq<char>) -> bool {
    exists|i: int|
        0 <= i < template.volumes.len() && volume_follows(#[trigger] template.volumes[i], secret)
}

/// Whether the service follows the secret through a volume. A service
/// without a template follows nothing.
pub open spec fn volumes_follow(service: ServiceSpecView, secret: Seq<char>) -> bool {
    match service.template {
        Some(template) => some_volume_follows(template, secret),
        None => false,
    }
}

/// Whether a new version of the secret reaches the service only through a
/// new revision: whether it follows the secret by environment or by volume.
pub open spec fn affected(service: ServiceSpecView, secret: Seq<char>) -> bool {
    env_follows(service, secret) || volumes_follow(service, secret)
}

/// Whether some environment entry of some container of the template
/// follows the secret.
pub open spec fn holds_env_reference(template: RevisionTemplateView, secret: Seq<char>) -> bool {
    exists|i: int, j: int|
        0 <= i < template.containers.len() && 0 <= j < template.containers[i].env.len()
            && env_var_follows(#[trigger] template.containers[i].env[j], secret)
}

/// A service is affected exactly if its template holds a reference that
/// follows the secret: an environment entry of some container, or a volume.
pub proof fn lemma_affected_by_reference(service: ServiceSpecView, secret: Seq<char>)
    ensures
        affected(service, secret) <==> (service.template matches Some(t) && (holds_env_reference(
            t,
            secret,
        ) || some_volume_follows(t, secret))),
{
    if let Some(t) = service.template {
        if containers_follow(t, secret) {
            let i = choose|i: int|
                0 <= i < t.containers.len() && container_follows(
                    #[trigger] t.containers[i],
                    secret,
                );
            let j = choose|j: int|
                0 <= j < t.containers[i].env.len() && env_var_follows(
                    #[trigger] t.containers[i].env[j],
                    secret,
                );
            assert(env_var_follows(t.containers[i].env[j], secret));
        }
        if holds_env_reference(t, secret) {
            let (i, j) = choose|i: int, j: int|
                0 <= i < t.containers.len() && 0 <= j < t.containers[i].env.len()
                    && env_var_follows(#[trigger] t.containers[i].env[j], secret);
            assert(container_follows(t.containers[i], secret));
        }
    }
}

/// A service without a template is affected by no secret.
pub proof fn lemma_no_template_unaffected(service: ServiceSpecView, secret: Seq<char>)
    requires
        service.template is None,
    ensures
        !affected(service, secret),
{
}

/// A service without containers and without volumes is affected by no
/// secret; so is one whose containers have no environment and whose volumes
/// are not backed by a secret.
pub proof fn lemma_no_reference_unaffected(service: ServiceSpecView, secret: Seq<char>)
    requires
        service.template matches Some(t) ==> {
            &&& forall|i: int|
                0 <= i < t.containers.len() ==> (#[trigger] t.containers[i]).env.len() == 0
            &&& forall|i: int|
                0 <= i < t.volumes.len() ==> (#[trigger] t.volumes[i]).secret is None
        },
    ensures
        !affected(service, secret),
{
}

/// A pinned reference is never followed: an entry or an item whose version
/// is not the latest does not make its service affected.
pub proof fn lemma_pinned_is_not_followed(
    entry: EnvVarView,
    volume: VolumeView,
    secret: Seq<char>,
)
    requires
        entry.secret_ref matches Some(r) ==> r.version != LATEST@,
        volume.secret matches Some(s) ==> s.items.len() > 0 && forall|k: int|
            0 <= k < s.items.len() ==> (#[trigger] s.items[k]).version != LATEST@,
    ensures
        !env_var_follows(entry, secret),
        !volume_follows(volume, secret),
{
}

/// A volume names a secret by the secret's bare name.
pub proof fn lemma_volume_accepts_bare_name(secret: Seq<char>)
    ensures
        names_secret(secret, secret),
{
}

/// A volume names a secret by any path that ends in the secret's name.
pub proof fn lemma_volume_accepts_path(parent: Seq<char>, secret: Seq<char>)
    requires
        !secret.contains(SEPARATOR),
    ensures
        names_secret(parent + seq![SEPARATOR] + secret, secret),
{
    lemma_segments_joined(parent, secret);
    lemma_segments_plain(secret);
    lemma_segments_nonempty(parent);
}

/// An environment entry names a secret by the very same text only.
pub proof fn lemma_env_requires_exact_name(entry: EnvVarView, secret: Seq<char>)
    ensures
        env_var_follows(entry, secret) <==> entry.secret_ref == Some(
            EnvSecretRefView { secret, version: LATEST@ },
        ),
{
}

/// An environment entry that writes the secret as a path does not follow
/// the secret, though a volume that writes it so does.
pub proof fn lemma_env_rejects_path(entry: EnvVarView, parent: Seq<char>, secret: Seq<char>)
    requires
        entry.secret_ref matches Some(r) && r.secret == parent + seq![SEPARATOR] + secret,
    ensures
        !env_var_follows(entry, secret),
{
}

fn env_var_matches(entry: &EnvVar, secret_id: &str) -> (found: bool)
    ensures
        found == env_var_follows(entry@, secret_id@),
{
    match &entry.secret_ref {
        Some(r) => same_text(r.secret.as_str(), secret_id) && same_text(
            r.version.as_str(),
            LATEST,
        ),
        None => false,
    }
}

fn container_matches(container: &Container, secret_id: &str) -> (found: bool)
    ensures
        found == container_follows(container@, secret_id@),
{
    let mut j: usize = 0;
    while j < container.env.len()
        invariant
            j <= container.env.len(),
            forall|k: int|
                0 <= k < j ==> !env_var_follows(#[trigger] container@.env[k], secret_id@),
        decreases container.env.len() - j,
    {
        assert(container@.env[j as int] == container.env@[j as int]@);
        if env_var_matches(&container.env[j], secret_id) {
            return true;
        }
        j = j + 1;
    }
    false
}

fn containers_match(template: &RevisionTemplate, secret_id: &str) -> (found: bool)
    ensures
        found == containers_follow(template@, secret_id@),
{
    let mut i: usize = 0;
    while i < template.containers.len()
        invariant
            i <= template.containers.len(),
            forall|k: int|
                0 <= k < i ==> !container_follows(#[trigger] template@.containers[k], secret_id@),
        decreases template.containers.len() - i,
    {
        assert(template@.containers[i as int] == template.containers@[i as int]@);
        if container_matches(&template.containers[i], secret_id) {
            return true;
        }
        i = i + 1;
    }
    false
}

/// Whether the service's environment follows the secret: whether some
/// entry of some container takes its value from the latest version of
/// exactly this secret.
pub fn environment(service: &ServiceSpec, secret_id: &str) -> (found: bool)
    ensures
        found == env_follows(service@, secret_id@),
{
    match &service.template {
        Some(template) => containers_match(template, secret_id),
        None => false,
    }
}

fn names_the_secret(written: &str, secret_id: &str) -> (found: bool)
    ensures
        found == names_secret(written@, secret_id@),
{
    if same_text(written, secret_id) {
        return true;
    }
    let parts = split(written);
    proof {
        lemma_segments_nonempty(written@);
    }
    same_text(parts[parts.len() - 1], secret_id)
}

fn items_match(items: &Vec<VolumeItem>) -> (found: bool)
    ensures
        found == items_follow_latest(views(items@)),
{
    if items.len() == 0 {
        return DEFAULT_MOUNT_FOLLOWS_LATEST;
    }
    let mut k: usize = 0;
    while k < items.len()
        invariant
            k <= items.len(),
            forall|n: int| 0 <= n < k ==> (#[trigger] views(items@)[n]).version != LATEST@,
        decreases items.len() - k,
    {
        assert(views(items@)[k as int] == items@[k as int]@);
        if same_text(items[k].version.as_str(), LATEST) {
            return true;
        }
        k = k + 1;
    }
    false
}

fn volume_matches(volume: &Volume, secret_id: &str) -> (found: bool)
    ensures
        found == volume_follows(volume@, secret_id@),
{
    match &volume.secret {
        Some(source) => names_the_secret(source.secret.as_str(), secret_id) && items_match(
            &source.items,
        ),
        None => false,
    }
}

fn volumes_match(template: &RevisionTemplate, secret_id: &str) -> (found: bool)
    ensures
        found == some_volume_follows(template@, secret_id@),
{
    let mut i: usize = 0;
    while i < template.volumes.len()
        invariant
            i <= template.volumes.len(),
            forall|k: int|
                0 <= k < i ==> !volume_follows(#[trigger] template@.volumes[k], secret_id@),
        decreases template.volumes.len() - i,
    {
        assert(template@.volumes[i as int] == template.volumes@[i as int]@);
        if volume_matches(&template.volumes[i], secret_id) {
            return true;
        }
        i = i + 1;
    }
    false
}

/// Whether a volume of the service follows the secret: whether some
/// secret volume names this secret, by its bare name or by a path that ends
/// in it, and shows the latest version on some path.
pub fn volume(service: &ServiceSpec, secret_id: &str) -> (found: bool)
    ensures
        found == volumes_follow(service@, secret_id@),
{
    match &service.template {
        Some(template) => volumes_match(template, secret_id),
        None => false,
    }
}

/// Whether the service has to be redeployed for a new version of the
/// secret to reach it.
pub fn is_affected(service: &ServiceSpec, secret_id: &str) -> (found: bool)
    ensures
        found == affected(service@, secret_id@),
{
    environment(service, secret_id) || volume(service, secret_id)
}

} // verus!
