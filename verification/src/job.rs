//! The job model: a unit of work with a lifecycle culminating in success or
//! failure, carrying an output payload.

use vstd::prelude::*;

verus! {

/// The raw result payload attached to a terminal job status. Produced once
/// by the job-execution subsystem and immutable thereafter.
#[derive(Clone, Debug)]
pub struct Output {
    /// The raw content, if any; absence renders as empty.
    pub html: Option<String>,
}

/// The lifecycle status of a job. An output is present only in the two
/// terminal variants.
#[derive(Clone, Debug)]
pub enum Status {
    /// The job has not started yet.
    Pending,
    /// The job is in progress.
    Running,
    /// The job finished successfully.
    Succeeded(Output),
    /// The job finished with a failure.
    Failed(Output),
}

/// A unit of work. The job is owned by the model layer; the view reads it
/// for the duration of one render.
#[derive(Clone, Debug)]
pub struct Job {
    /// Where the job stands in its lifecycle.
    pub status: Status,
}

/// The mathematical value of a status: which lifecycle stage the job is
/// in, and for the terminal stages the content of the output. Two jobs
/// with equal views render identically.
#[verifier::ext_equal]
pub enum StatusView {
    /// The job has not started yet.
    Pending,
    /// The job is in progress.
    Running,
    /// The job finished successfully, with the given raw content.
    Succeeded(Option<Seq<char>>),
    /// The job finished with a failure, with the given raw content.
    Failed(Option<Seq<char>>),
}

/// A status is terminal when the job has finished, one way or the other.
/// Only terminal jobs ever reach the job-result view.
pub open spec fn spec_is_terminal(s: StatusView) -> bool {
    s is Succeeded || s is Failed
}

/// The raw payload a terminal status carries, as the staging area shows
/// it: the output's content, or empty when the content is absent.
pub open spec fn spec_payload(s: StatusView) -> Seq<char>
    recommends
        spec_is_terminal(s),
{
    match s {
        StatusView::Succeeded(Some(h)) => h,
        StatusView::Failed(Some(h)) => h,
        _ => Seq::<char>::empty(),
    }
}

impl View for Output {
    type V = Option<Seq<char>>;

    open spec fn view(&self) -> Option<Seq<char>> {
        match self.html {
            Some(h) => Some(h@),
            None => None,
        }
    }
}

impl View for Status {
    type V = StatusView;

    open spec fn view(&self) -> StatusView {
        match *self {
            Status::Pending => StatusView::Pending,
            Status::Running => StatusView::Running,
            Status::Succeeded(o) => StatusView::Succeeded(o@),
            Status::Failed(o) => StatusView::Failed(o@),
        }
    }
}

impl View for Job {
    type V = StatusView;

    open spec fn view(&self) -> StatusView {
        self.status@
    }
}

} // verus!
