//! The record of a fan-out: how the update of each dispatched service
//! ended.

use crate::views::{view_of, views};
use vstd::prelude::*;

verus! {

/// How the update of one service ended.
#[derive(Clone, Debug, PartialEq, Eq)]
pub enum UpdateStatus {
    Success,
    /// The update was refused or lost, for the given reason.
    Failure { reason: String },
}

/// What an [`UpdateStatus`] holds.
pub enum UpdateStatusView {
    Success,
    Failure { reason: Seq<char> },
}

impl View for UpdateStatus {
    type V = UpdateStatusView;

    open spec fn view(&self) -> UpdateStatusView {
        match self {
            UpdateStatus::Success => UpdateStatusView::Success,
            UpdateStatus::Failure { reason } => UpdateStatusView::Failure { reason: reason@ },
        }
    }
}

/// The status of an update that failed: the reason is the status message
/// of the service, or, where it sent none, what is known of the failure.
pub open spec fn failure_of(message: Option<Seq<char>>, description: Seq<char>) -> UpdateStatusView {
    UpdateStatusView::Failure {
        reason: match message {
            Some(m) => m,
            None => description,
        },
    }
}

impl UpdateStatus {
    /// Makes the status of an update that failed.
    pub fn from_error(message: Option<String>, description: String) -> (status: UpdateStatus)
        ensures
            status@ == failure_of(view_of(message), description@),
    {
        match message {
            Some(reason) => UpdateStatus::Failure { reason },
            None => UpdateStatus::Failure { reason: description },
        }
    }
}

/// The record of one dispatched update. It is made once and read only.
#[derive(Clone, Debug, PartialEq, Eq)]
pub struct UpdateOutcome {
    service_name: String,
    status: UpdateStatus,
}

/// What an [`UpdateOutcome`] holds.
pub struct UpdateOutcomeView {
    pub service_name: Seq<char>,
    pub status: UpdateStatusView,
}

impl View for UpdateOutcome {
    type V = UpdateOutcomeView;

    closed spec fn view(&self) -> UpdateOutcomeView {
        UpdateOutcomeView { service_name: self.service_name@, status: self.status@ }
    }
}

impl UpdateOutcome {
    /// Records how the update of the named service ended.
    pub fn new(service_name: String, status: UpdateStatus) -> (outcome: UpdateOutcome)
        ensures
            outcome@ == (UpdateOutcomeView { service_name: service_name@, status: status@ }),
    {
        UpdateOutcome { service_name, status }
    }

    /// The name of the service that was updated.
    pub fn service_name(&self) -> (name: &str)
        ensures
            name@ == self@.service_name,
    {
        self.service_name.as_str()
    }

    /// How the update ended.
    pub fn status(&self) -> (status: &UpdateStatus)
        ensures
            status@ == self@.status,
    {
        &self.status
    }

    /// Whether the update failed.
    pub fn is_failure(&self) -> (failed: bool)
        ensures
            failed == (self@.status is Failure),
    {
        match &self.status {
            UpdateStatus::Success => false,
            UpdateStatus::Failure { .. } => true,
        }
    }
}

/// The records of as many updates as services: one for each service, in
/// order, each under the name of its service.
pub open spec fn paired(names: Seq<Seq<char>>, statuses: Seq<UpdateStatusView>) -> Seq<
    UpdateOutcomeView,
>
    recommends
        names.len() == statuses.len(),
{
    Seq::new(
        names.len(),
        |i: int| UpdateOutcomeView { service_name: names[i], status: statuses[i] },
    )
}

/// The records of a fan-out, if there is one status for each dispatched
/// service. A report on another number of updates is a report on another
/// fan-out: it gives no records.
pub open spec fn recorded(names: Seq<Seq<char>>, statuses: Seq<UpdateStatusView>) -> Option<
    Seq<UpdateOutcomeView>,
> {
    if names.len() == statuses.len() {
        Some(paired(names, statuses))
    } else {
        None
    }
}

/// Joins the results of a fan-out with the names of the services that were
/// dispatched, in the order of dispatch.
pub fn record_outcomes(names: &Vec<String>, statuses: Vec<UpdateStatus>) -> (outcomes: Option<
    Vec<UpdateOutcome>,
>)
    ensures
        match outcomes {
            Some(records) => recorded(views(names@), views(statuses@)) == Some(views(records@)),
            None => recorded(views(names@), views(statuses@)) is None,
        },
{
    broadcast use vstd::std_specs::vec::axiom_spec_into_iter;
    if names.len() != statuses.len() {
        return None;
    }
    let ghost all = paired(views(names@), views(statuses@));
    let ghost given = statuses@;
    let mut records: Vec<UpdateOutcome> = Vec::new();
    let mut at: usize = 0;
    for status in it: statuses
        invariant
            it.seq() == given,
            names.len() == given.len(),
            all == paired(views(names@), views(given)),
            at == it.index(),
            views(records@) == all.take(at as int),
    {
        let ghost before = views(records@);
        records.push(UpdateOutcome::new(names[at].clone(), status));
        assert(views(records@) =~= before.push(records@.last()@));
        at = at + 1;
    }
    Some(records)
}

/// The records of the updates that failed, in order.
pub open spec fn failed(outcomes: Seq<UpdateOutcomeView>) -> Seq<UpdateOutcomeView> {
    outcomes.filter(|o: UpdateOutcomeView| o.status is Failure)
}

/// Every dispatched service has one record, under its own name and with
/// its own status; as many records tell of a failure as updates failed, and
/// each failure is on record under the name of its service.
pub proof fn lemma_failures_are_recorded(names: Seq<Seq<char>>, statuses: Seq<UpdateStatusView>)
    requires
        names.len() == statuses.len(),
    ensures
        recorded(names, statuses) == Some(paired(names, statuses)),
        paired(names, statuses).len() == names.len(),
        forall|i: int|
            0 <= i < names.len() ==> #[trigger] paired(names, statuses)[i] == (UpdateOutcomeView {
                service_name: names[i],
                status: statuses[i],
            }),
        failed(paired(names, statuses)).len() == statuses.filter(
            |s: UpdateStatusView| s is Failure,
        ).len(),
        forall|i: int|
            0 <= i < names.len() && (#[trigger] statuses[i]) is Failure ==> failed(
                paired(names, statuses),
            ).contains(UpdateOutcomeView { service_name: names[i], status: statuses[i] }),
    decreases names.len(),
{
    let all = paired(names, statuses);
    let failing = |o: UpdateOutcomeView| o.status is Failure;
    reveal(Seq::filter);
    if names.len() > 0 {
        lemma_failures_are_recorded(names.drop_last(), statuses.drop_last());
        assert(all.drop_last() =~= paired(names.drop_last(), statuses.drop_last()));
    }
    assert forall|i: int| 0 <= i < names.len() && (#[trigger] statuses[i]) is Failure implies failed(
        all,
    ).contains(UpdateOutcomeView { service_name: names[i], status: statuses[i] }) by {
        all.lemma_filter_contains(failing, i);
    }
}

/// Picks the records of the updates that failed.
pub fn failures(outcomes: &Vec<UpdateOutcome>) -> (found: Vec<&UpdateOutcome>)
    ensures
        views(found@) == failed(views(outcomes@)),
{
    let ghost all = views(outcomes@);
    let mut found: Vec<&UpdateOutcome> = Vec::new();
    let mut i: usize = 0;
    proof {
        reveal(Seq::filter);
    }
    while i < outcomes.len()
        invariant
            i <= outcomes.len(),
            all == views(outcomes@),
            views(found@) == failed(all.take(i as int)),
        decreases outcomes.len() - i,
    {
        proof {
            reveal(Seq::filter);
            assert(all.take(i + 1).drop_last() =~= all.take(i as int));
        }
        if outcomes[i].is_failure() {
            found.push(&outcomes[i]);
        }
        i = i + 1;
    }
    assert(all.take(all.len() as int) =~= all);
    found
}

} // verus!
