//! The start of a sandbox's worker thread: network isolation first, then the
//! listener. The thread reports once, after its last operation or at the
//! first one that fails.

use vstd::prelude::*;
use crate::error::{prefixed, Error, ErrorView};
use crate::netns::{network_plan, NetworkAction, NetworkPlan};
use crate::runtime_spec::RuntimeSpec;

verus! {

/// One operation of the worker thread on the operating system.
#[derive(Debug, Clone, PartialEq, Eq)]
pub enum SetupOp {
    /// Open the network namespace at this path.
    OpenNamespace(String),
    /// Join the calling thread to the namespace just opened.
    JoinNamespace,
    /// Give the calling thread a new network namespace of its own.
    CreateNamespace,
    /// Accept connections on the sandbox's server.
    StartListener,
}

/// A [`SetupOp`] with its path as a sequence of characters.
pub enum SetupOpView {
    OpenNamespace(Seq<char>),
    JoinNamespace,
    CreateNamespace,
    StartListener,
}

impl View for SetupOp {
    type V = SetupOpView;

    open spec fn view(&self) -> SetupOpView {
        match self {
            SetupOp::OpenNamespace(path) => SetupOpView::OpenNamespace(path@),
            SetupOp::JoinNamespace => SetupOpView::JoinNamespace,
            SetupOp::CreateNamespace => SetupOpView::CreateNamespace,
            SetupOp::StartListener => SetupOpView::StartListener,
        }
    }
}

/// What the worker thread does next.
#[derive(Debug, PartialEq, Eq)]
pub enum WorkerStep {
    /// Carry this operation out and come back with its outcome.
    Perform(SetupOp),
    /// Hand this result to the thread that waits, and do nothing more.
    Report(Result<(), Error>),
}

/// A [`WorkerStep`] over views.
pub enum WorkerStepView {
    Perform(SetupOpView),
    Report(Result<(), ErrorView>),
}

impl View for WorkerStep {
    type V = WorkerStepView;

    open spec fn view(&self) -> WorkerStepView {
        match self {
            WorkerStep::Perform(op) => WorkerStepView::Perform(op@),
            WorkerStep::Report(Ok(())) => WorkerStepView::Report(Ok(())),
            WorkerStep::Report(Err(e)) => WorkerStepView::Report(Err(e@)),
        }
    }
}

/// The outcome of an operation: done, or failed for the cause given.
pub open spec fn outcome_of(outcome: Result<(), String>) -> Result<(), Seq<char>> {
    match outcome {
        Ok(()) => Ok(()),
        Err(cause) => Err(cause@),
    }
}

/// The first operation of a worker thread whose network plan is `plan`.
pub open spec fn first_op_of(plan: NetworkPlan) -> SetupOpView {
    match plan {
        NetworkPlan::Join(path) => SetupOpView::OpenNamespace(path),
        NetworkPlan::Unshare => SetupOpView::CreateNamespace,
        NetworkPlan::Inherit => SetupOpView::StartListener,
    }
}

/// What went wrong when `op` fails, before the cause.
pub open spec fn failure_context(op: SetupOpView) -> Seq<char> {
    match op {
        SetupOpView::OpenNamespace(_) => "could not open network namespace: "@,
        SetupOpView::JoinNamespace => "error setting network namespace: "@,
        SetupOpView::CreateNamespace => "error unsharing network namespace: "@,
        SetupOpView::StartListener => "could not start listener: "@,
    }
}

/// The step that follows `op` once its outcome is known.
pub open spec fn step_after(op: SetupOpView, outcome: Result<(), Seq<char>>) -> WorkerStepView {
    match outcome {
        Err(cause) => WorkerStepView::Report(Err(ErrorView::Others(failure_context(op) + cause))),
        Ok(()) => match op {
            SetupOpView::OpenNamespace(_) => WorkerStepView::Perform(SetupOpView::JoinNamespace),
            SetupOpView::JoinNamespace => WorkerStepView::Perform(SetupOpView::StartListener),
            SetupOpView::CreateNamespace => WorkerStepView::Perform(SetupOpView::StartListener),
            SetupOpView::StartListener => WorkerStepView::Report(Ok(())),
        },
    }
}

/// How many operations a worker thread that is about to perform `op` has
/// still before it, at most.
pub open spec fn ops_left(op: SetupOpView) -> nat {
    match op {
        SetupOpView::OpenNamespace(_) => 3,
        SetupOpView::JoinNamespace => 2,
        SetupOpView::CreateNamespace => 2,
        SetupOpView::StartListener => 1,
    }
}

/// The report of a worker thread that is about to perform `op` and meets
/// `outcomes` in turn, or `None` while it has not reported.
pub open spec fn report_after(op: SetupOpView, outcomes: Seq<Result<(), Seq<char>>>) -> Option<Result<(), ErrorView>>
    decreases outcomes.len(),
{
    if outcomes.len() == 0 {
        None
    } else {
        match step_after(op, outcomes[0]) {
            WorkerStepView::Report(report) => Some(report),
            WorkerStepView::Perform(next) => report_after(next, outcomes.drop_first()),
        }
    }
}

/// The first operation of the worker thread of a sandbox with this
/// descriptor. It changes the state of the thread that performs it: that
/// thread must be the sandbox's own.
pub fn start_sandbox(spec: &RuntimeSpec) -> (op: SetupOp)
    ensures
        op@ == first_op_of(network_plan(spec.declared_namespaces())),
{
    match spec.network_action() {
        NetworkAction::Join(path) => SetupOp::OpenNamespace(path),
        NetworkAction::Unshare => SetupOp::CreateNamespace,
        NetworkAction::Inherit => SetupOp::StartListener,
    }
}

impl SetupOp {
    fn context(&self) -> (text: &'static str)
        ensures
            text@ == failure_context(self@),
    {
        match self {
            SetupOp::OpenNamespace(_) => "could not open network namespace: ",
            SetupOp::JoinNamespace => "error setting network namespace: ",
            SetupOp::CreateNamespace => "error unsharing network namespace: ",
            SetupOp::StartListener => "could not start listener: ",
        }
    }

    /// The step that follows this operation, given its outcome: the next
    /// operation, or the report of the thread.
    pub fn resume(self, outcome: Result<(), String>) -> (step: WorkerStep)
        ensures
            step@ == step_after(self@, outcome_of(outcome)),
    {
        match outcome {
            Err(cause) => WorkerStep::Report(
                Err(Error::Others(prefixed(self.context(), cause.as_str()))),
            ),
            Ok(()) => match self {
                SetupOp::OpenNamespace(_) => WorkerStep::Perform(SetupOp::JoinNamespace),
                SetupOp::JoinNamespace => WorkerStep::Perform(SetupOp::StartListener),
                SetupOp::CreateNamespace => WorkerStep::Perform(SetupOp::StartListener),
                SetupOp::StartListener => WorkerStep::Report(Ok(())),
            },
        }
    }
}

/// Every worker thread reports: each step either is the report or leaves
/// fewer operations to perform, and a thread has three at most.
pub proof fn lemma_worker_reports(op: SetupOpView, outcome: Result<(), Seq<char>>)
    ensures
        1 <= ops_left(op) <= 3,
        step_after(op, outcome) matches WorkerStepView::Perform(next) ==> ops_left(next) < ops_left(
            op,
        ),
        ops_left(op) == 1 ==> step_after(op, outcome) is Report,
{
}

/// A worker thread has reported once its operations have had their outcomes,
/// three at most, and it reports success exactly when all of them succeeded.
pub proof fn lemma_worker_reports_in_time(op: SetupOpView, outcomes: Seq<Result<(), Seq<char>>>)
    requires
        outcomes.len() >= ops_left(op),
    ensures
        report_after(op, outcomes) is Some,
        report_after(op, outcomes) == Some(Ok::<(), ErrorView>(())) <==> forall|i: int|
            0 <= i < ops_left(op) ==> (#[trigger] outcomes[i]) is Ok,
    decreases outcomes.len(),
{
    let rest = outcomes.drop_first();
    match step_after(op, outcomes[0]) {
        WorkerStepView::Report(report) => {
            if report is Ok {
                assert(ops_left(op) == 1);
            } else {
                assert(outcomes[0] is Err);
            }
        },
        WorkerStepView::Perform(next) => {
            lemma_worker_reports_in_time(next, rest);
            assert(ops_left(op) == ops_left(next) + 1);
            assert(outcomes[0] is Ok);
            assert forall|i: int| 0 <= i < ops_left(next) implies #[trigger] rest[i] == outcomes[i
                + 1] by {}
            if forall|i: int| 0 <= i < ops_left(op) ==> (#[trigger] outcomes[i]) is Ok {
                assert forall|i: int| 0 <= i < ops_left(next) implies (#[trigger] rest[i])
                    is Ok by {
                    assert(outcomes[i + 1] is Ok);
                }
            }
            if forall|i: int| 0 <= i < ops_left(next) ==> (#[trigger] rest[i]) is Ok {
                assert forall|i: int| 0 <= i < ops_left(op) implies (#[trigger] outcomes[i])
                    is Ok by {
                    if i > 0 {
                        assert(rest[i - 1] is Ok);
                    }
                }
            }
        },
    }
}

/// A failed operation ends the thread with an `Others` error; success is
/// reported only once the listener has started.
pub proof fn lemma_worker_report(op: SetupOpView, outcome: Result<(), Seq<char>>)
    ensures
        outcome is Err ==> (step_after(op, outcome) matches WorkerStepView::Report(Err(e)) && e
            is Others),
        step_after(op, outcome) == WorkerStepView::Report(Ok(())) <==> (op is StartListener
            && outcome is Ok),
{
}

/// A thread that joins an existing namespace creates none, and a thread
/// creates one only where the plan is to unshare.
pub proof fn lemma_join_creates_no_namespace(plan: NetworkPlan, op: SetupOpView, outcome: Result<(), Seq<char>>)
    ensures
        first_op_of(plan) is CreateNamespace <==> plan is Unshare,
        plan matches NetworkPlan::Join(path) ==> first_op_of(plan) == SetupOpView::OpenNamespace(
            path,
        ),
        !(step_after(op, outcome) matches WorkerStepView::Perform(next) && next is CreateNamespace),
{
}

/// A thread joins a namespace only straight after it has opened one: no
/// thread starts with the join, and the join follows nothing but an open that
/// succeeded.
pub proof fn lemma_join_follows_open(plan: NetworkPlan, op: SetupOpView, outcome: Result<(), Seq<char>>)
    ensures
        !(first_op_of(plan) is JoinNamespace),
        step_after(op, outcome) == WorkerStepView::Perform(SetupOpView::JoinNamespace) <==> (op
            is OpenNamespace && outcome is Ok),
{
}

} // verus!
