//! The course of a request, as a state machine that does nothing itself:
//! each step names the next thing to do outside and waits for what came of
//! it.

use crate::entry::{carried, Entry, EntryView};
use crate::error::{failure_response, DecodeError, Error};
use crate::outcome::{
    paired, record_outcomes, recorded, UpdateOutcome, UpdateOutcomeView, UpdateStatus,
    UpdateStatusView,
};
use crate::resource::{identified, SecretIdentifier, SecretIdentifierView};
use crate::response::{bare, Response, ResponseView, BAD_REQUEST, INTERNAL_SERVER_ERROR, OK};
use crate::rollout::{affected_among, lemma_rollouts_differ, plan_rollout, rollout};
use crate::service::{ServiceSpec, ServiceSpecView};
use crate::views::views;
use vstd::prelude::*;
use vstd::string::StringExecFns;

verus! {

/// Where a request stands. The first three phases wait for something from
/// outside; the last three are final.
#[derive(Clone, Debug, PartialEq, Eq)]
pub enum Phase {
    /// The request came in; its event is not decoded yet.
    Received,
    /// The event is decoded; the services are being listed.
    Decoded { secret: SecretIdentifier },
    /// The updates of the named services are under way.
    Dispatched { services: Vec<String> },
    /// Every update has ended, well or not.
    Completed,
    /// The event could not be decoded.
    DecodeFailed { error: DecodeError },
    /// The services could not be listed.
    DiscoveryFailed,
}

/// What a [`Phase`] holds.
pub enum PhaseView {
    Received,
    Decoded { secret: SecretIdentifierView },
    Dispatched { services: Seq<Seq<char>> },
    Completed,
    DecodeFailed { error: DecodeError },
    DiscoveryFailed,
}

impl View for Phase {
    type V = PhaseView;

    open spec fn view(&self) -> PhaseView {
        match self {
            Phase::Received => PhaseView::Received,
            Phase::Decoded { secret } => PhaseView::Decoded { secret: secret@ },
            Phase::Dispatched { services } => PhaseView::Dispatched { services: views(services@) },
            Phase::Completed => PhaseView::Completed,
            Phase::DecodeFailed { error } => PhaseView::DecodeFailed { error: *error },
            Phase::DiscoveryFailed => PhaseView::DiscoveryFailed,
        }
    }
}

/// What came in from outside.
#[derive(Debug)]
pub enum Input {
    /// What was sent could not be read as an event.
    Unreadable,
    /// The event that was sent.
    Arrived { event: cloudevents::Event },
    /// The services that were found, and a value that the caller has drawn
    /// for this request and for no other: it makes the revision names of
    /// this request's updates.
    Listed { services: Vec<ServiceSpec>, fresh: String },
    /// The listing failed, for the given cause.
    ListingFailed { message: String },
    /// How each update ended, in the order of dispatch.
    Updated { statuses: Vec<UpdateStatus> },
}

/// What an [`Input`] holds.
pub enum InputView {
    Unreadable,
    Arrived { event: cloudevents::Event },
    Listed { services: Seq<ServiceSpecView>, fresh: Seq<char> },
    ListingFailed { message: Seq<char> },
    Updated { statuses: Seq<UpdateStatusView> },
}

impl View for Input {
    type V = InputView;

    open spec fn view(&self) -> InputView {
        match self {
            Input::Unreadable => InputView::Unreadable,
            Input::Arrived { event } => InputView::Arrived { event: *event },
            Input::Listed { services, fresh } => InputView::Listed {
                services: views(services@),
                fresh: fresh@,
            },
            Input::ListingFailed { message } => InputView::ListingFailed { message: message@ },
            Input::Updated { statuses } => InputView::Updated { statuses: views(statuses@) },
        }
    }
}

/// What is to be done outside next.
#[derive(Clone, Debug, PartialEq, Eq)]
pub enum Action {
    /// List the services under the parent. The entry is the event that
    /// asks for it.
    Discover { entry: Entry, parent: String },
    /// Submit each service, without waiting for one before another, and
    /// wait for all.
    Dispatch { services: Vec<ServiceSpec> },
    /// Answer the sender. The outcomes are not for the sender: they are the
    /// record of the fan-out.
    Respond { response: Response, outcomes: Vec<UpdateOutcome> },
    /// Nothing: the input was not the one awaited.
    Ignore,
}

/// What an [`Action`] holds.
pub enum ActionView {
    Discover { entry: EntryView, parent: Seq<char> },
    Dispatch { services: Seq<ServiceSpecView> },
    Respond { response: ResponseView, outcomes: Seq<UpdateOutcomeView> },
    Ignore,
}

impl View for Action {
    type V = ActionView;

    open spec fn view(&self) -> ActionView {
        match self {
            Action::Discover { entry, parent } => ActionView::Discover {
                entry: entry@,
                parent: parent@,
            },
            Action::Dispatch { services } => ActionView::Dispatch { services: views(services@) },
            Action::Respond { response, outcomes } => ActionView::Respond {
                response: response@,
                outcomes: views(outcomes@),
            },
            Action::Ignore => ActionView::Ignore,
        }
    }
}

/// What stands before the project in the parent of a listing.
pub const PARENT_PREFIX: &'static str = "projects/";

/// What stands between the project and the location.
pub const PARENT_INFIX: &'static str = "/locations/";

/// The location that stands for all regions.
pub const ALL_REGIONS: &'static str = "-";

/// The parent under which the services of a project are listed, in all
/// regions.
pub open spec fn discovery_parent(project: Seq<char>) -> Seq<char> {
    PARENT_PREFIX@ + project + PARENT_INFIX@ + ALL_REGIONS@
}

/// Writes the parent under which the services of a project are listed.
pub fn parent_of(project: &str) -> (parent: String)
    ensures
        parent@ == discovery_parent(project@),
{
    PARENT_PREFIX.to_owned().concat(project).concat(PARENT_INFIX).concat(ALL_REGIONS)
}

/// The names of services, in order.
pub open spec fn names(services: Seq<ServiceSpecView>) -> Seq<Seq<char>> {
    services.map_values(|s: ServiceSpecView| s.name)
}

/// The end of a request whose event could not be decoded: the sender is
/// told so, and nothing else is done.
pub open spec fn refusal(error: DecodeError) -> (PhaseView, ActionView) {
    (
        PhaseView::DecodeFailed { error },
        ActionView::Respond { response: bare(BAD_REQUEST), outcomes: Seq::empty() },
    )
}

/// The step after decoding: a decoded entry has the services of its project
/// listed, and a failure is answered at once.
pub open spec fn after_decoding(entry: Result<EntryView, DecodeError>) -> (PhaseView, ActionView) {
    match entry {
        Ok(e) => match identified(e.proto_payload.resource_name) {
            Ok(secret) => (
                PhaseView::Decoded { secret },
                ActionView::Discover { entry: e, parent: discovery_parent(secret.project) },
            ),
            Err(error) => refusal(error),
        },
        Err(error) => refusal(error),
    }
}

/// The step after a listing: the affected services are picked, made ready
/// with the fresh value and dispatched at once, and no others.
pub open spec fn after_listing(
    secret: SecretIdentifierView,
    services: Seq<ServiceSpecView>,
    fresh: Seq<char>,
) -> (PhaseView, ActionView) {
    let plan = rollout(services, secret.secret_name, fresh);
    (PhaseView::Dispatched { services: names(plan) }, ActionView::Dispatch { services: plan })
}

/// The step after a failed listing: the failure is answered, and nothing
/// else is done.
pub open spec fn after_failed_listing(message: Seq<char>) -> (PhaseView, ActionView) {
    (
        PhaseView::DiscoveryFailed,
        ActionView::Respond { response: failure_response(message), outcomes: Seq::empty() },
    )
}

/// The step after the updates: the request has succeeded, however the
/// updates ended. A report on another number of updates than were
/// dispatched changes nothing.
pub open spec fn after_updates(services: Seq<Seq<char>>, statuses: Seq<UpdateStatusView>) -> (
    PhaseView,
    ActionView,
) {
    match recorded(services, statuses) {
        Some(outcomes) => (
            PhaseView::Completed,
            ActionView::Respond { response: bare(OK), outcomes },
        ),
        None => (PhaseView::Dispatched { services }, ActionView::Ignore),
    }
}

/// The next phase and the next action. An input that the phase does not
/// wait for changes nothing.
pub open spec fn transition(phase: PhaseView, input: InputView) -> (PhaseView, ActionView) {
    match (phase, input) {
        (PhaseView::Received, InputView::Unreadable) => refusal(DecodeError::UnreadableEnvelope),
        (PhaseView::Received, InputView::Arrived { event }) => after_decoding(carried(event)),
        (PhaseView::Decoded { secret }, InputView::Listed { services, fresh }) => after_listing(
            secret,
            services,
            fresh,
        ),
        (PhaseView::Decoded { secret }, InputView::ListingFailed { message }) => {
            after_failed_listing(message)
        },
        (PhaseView::Dispatched { services }, InputView::Updated { statuses }) => after_updates(
            services,
            statuses,
        ),
        _ => (phase, ActionView::Ignore),
    }
}

/// A request that has ended stays as it is, whatever comes.
pub proof fn lemma_final_phases_stay(phase: PhaseView, input: InputView)
    requires
        phase is Completed || phase is DecodeFailed || phase is DiscoveryFailed,
    ensures
        transition(phase, input) == (phase, ActionView::Ignore),
{
}

/// An event that cannot be decoded, and a listing that fails, are answered
/// at once, with the status of the sender's fault and of the server's:
/// nothing is dispatched, and no update is on record.
pub proof fn lemma_failures_end_the_request(
    event: cloudevents::Event,
    secret: SecretIdentifierView,
    message: Seq<char>,
)
    ensures
        transition(PhaseView::Received, InputView::Unreadable) == refusal(
            DecodeError::UnreadableEnvelope,
        ),
        carried(event) matches Err(error) ==> transition(
            PhaseView::Received,
            InputView::Arrived { event },
        ) == refusal(error),
        forall|error: DecodeError|
            (#[trigger] refusal(error)).1 == (ActionView::Respond {
                response: bare(BAD_REQUEST),
                outcomes: Seq::empty(),
            }),
        transition(PhaseView::Decoded { secret }, InputView::ListingFailed { message }) == (
            PhaseView::DiscoveryFailed,
            ActionView::Respond { response: failure_response(message), outcomes: Seq::empty() },
        ),
        failure_response(message).status == INTERNAL_SERVER_ERROR,
{
}

/// Once the services are listed, the request succeeds: the affected
/// services are dispatched, and when their updates have ended the sender is
/// told of success, whether or not any update failed. The outcomes hold one
/// record for each dispatched service.
pub proof fn lemma_listed_requests_complete(
    secret: SecretIdentifierView,
    services: Seq<ServiceSpecView>,
    fresh: Seq<char>,
    statuses: Seq<UpdateStatusView>,
)
    requires
        statuses.len() == rollout(services, secret.secret_name, fresh).len(),
    ensures
        ({
            let plan = rollout(services, secret.secret_name, fresh);
            let first = transition(
                PhaseView::Decoded { secret },
                InputView::Listed { services, fresh },
            );
            let second = transition(first.0, InputView::Updated { statuses });
            &&& first == (
                PhaseView::Dispatched { services: names(plan) },
                ActionView::Dispatch { services: plan },
            )
            &&& second == (
                PhaseView::Completed,
                ActionView::Respond {
                    response: bare(OK),
                    outcomes: paired(names(plan), statuses),
                },
            )
            &&& paired(names(plan), statuses).len() == plan.len()
        }),
{
}

/// Two requests for the same secret that find the same services, each with
/// a fresh value of its own, dispatch the same services under the same
/// names, but none of them with the same value; and neither dispatches a
/// service as it was found.
pub proof fn lemma_requests_dispatch_anew(
    secret: SecretIdentifierView,
    services: Seq<ServiceSpecView>,
    first: Seq<char>,
    second: Seq<char>,
)
    requires
        first != second,
    ensures
        ({
            let found = affected_among(services, secret.secret_name);
            let one = after_listing(secret, services, first);
            let other = after_listing(secret, services, second);
            &&& one.0 == other.0
            &&& one.1 matches ActionView::Dispatch { services: sent }
            &&& other.1 matches ActionView::Dispatch { services: sent_again }
            &&& sent.len() == found.len()
            &&& sent_again.len() == found.len()
            &&& forall|i: int|
                0 <= i < found.len() ==> {
                    &&& #[trigger] sent[i] != sent_again[i]
                    &&& sent[i] != found[i]
                    &&& sent_again[i] != found[i]
                }
        }),
{
    let name = secret.secret_name;
    lemma_rollouts_differ(services, name, first, second);
    lemma_rollouts_differ(services, name, second, first);
    assert(names(rollout(services, name, first)) =~= names(rollout(services, name, second)));
}

/// Whether a step is the expected one.
pub open spec fn steps_to(step: (Phase, Action), expected: (PhaseView, ActionView)) -> bool {
    step.0@ == expected.0 && step.1@ == expected.1
}

fn no_outcomes() -> (outcomes: Vec<UpdateOutcome>)
    ensures
        views(outcomes@) == Seq::<UpdateOutcomeView>::empty(),
{
    Vec::new()
}

/// Ends a request whose event could not be decoded.
pub fn refuse(error: DecodeError) -> (step: (Phase, Action))
    ensures
        steps_to(step, refusal(error)),
{
    (
        Phase::DecodeFailed { error },
        Action::Respond { response: error.into_response(), outcomes: no_outcomes() },
    )
}

/// Takes the first step of a request once its event is decoded.
pub fn on_decoded(entry: Result<Entry, DecodeError>) -> (step: (Phase, Action))
    ensures
        steps_to(
            step,
            after_decoding(
                match entry {
                    Ok(e) => Ok(e@),
                    Err(error) => Err(error),
                },
            ),
        ),
{
    match entry {
        Ok(entry) => match entry.secret() {
            Ok(secret) => {
                let parent = parent_of(secret.project.as_str());
                (Phase::Decoded { secret }, Action::Discover { entry, parent })
            },
            Err(error) => refuse(error),
        },
        Err(error) => refuse(error),
    }
}

fn names_of(services: &Vec<ServiceSpec>) -> (found: Vec<String>)
    ensures
        views(found@) == names(views(services@)),
{
    let ghost all = names(views(services@));
    let mut found: Vec<String> = Vec::new();
    let mut i: usize = 0;
    while i < services.len()
        invariant
            i <= services.len(),
            all == names(views(services@)),
            views(found@) == all.take(i as int),
        decreases services.len() - i,
    {
        let ghost before = views(found@);
        found.push(services[i].name.clone());
        assert(views(found@) =~= before.push(services@[i as int].name@));
        i = i + 1;
    }
    found
}

/// Takes the step after the services were listed. The fresh value is one
/// that the caller has drawn for this request and for no other.
pub fn on_listed(secret: &SecretIdentifier, services: Vec<ServiceSpec>, fresh: &str) -> (step: (
    Phase,
    Action,
))
    ensures
        steps_to(step, after_listing(secret@, views(services@), fresh@)),
{
    let plan = plan_rollout(services, secret.secret_name.as_str(), fresh);
    let dispatched = names_of(&plan);
    (Phase::Dispatched { services: dispatched }, Action::Dispatch { services: plan })
}

/// Takes the step after the listing failed.
pub fn on_listing_failed(message: String) -> (step: (Phase, Action))
    ensures
        steps_to(step, after_failed_listing(message@)),
{
    (
        Phase::DiscoveryFailed,
        Action::Respond {
            response: Error::new(message).into_response(),
            outcomes: no_outcomes(),
        },
    )
}

/// Takes the step after every update has ended.
pub fn on_updated(services: Vec<String>, statuses: Vec<UpdateStatus>) -> (step: (Phase, Action))
    ensures
        steps_to(step, after_updates(views(services@), views(statuses@))),
{
    match record_outcomes(&services, statuses) {
        Some(outcomes) => (
            Phase::Completed,
            Action::Respond { response: Response::empty(OK), outcomes },
        ),
        None => (Phase::Dispatched { services }, Action::Ignore),
    }
}

/// Moves a request on by one input.
pub fn step(phase: Phase, input: Input) -> (step: (Phase, Action))
    ensures
        steps_to(step, transition(phase@, input@)),
{
    match (phase, input) {
        (Phase::Received, Input::Unreadable) => refuse(DecodeError::UnreadableEnvelope),
        (Phase::Received, Input::Arrived { event }) => on_decoded(Entry::from_event(&event)),
        (Phase::Decoded { secret }, Input::Listed { services, fresh }) => on_listed(
            &secret,
            services,
            fresh.as_str(),
        ),
        (Phase::Decoded { .. }, Input::ListingFailed { message }) => on_listing_failed(message),
        (Phase::Dispatched { services }, Input::Updated { statuses }) => on_updated(
            services,
            statuses,
        ),
        (phase, _) => (phase, Action::Ignore),
    }
}

} // verus!
