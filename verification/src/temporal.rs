//! The decisions of the Temporal-backed control plane: the job workflow's
//! loop (run one attempt, sleep when requeued, finish when completed), the
//! activity bridge's heartbeat and cancel forwarding, how workflows are
//! started, stopped and resumed, and the operator view of a workflow
//! description.

use vstd::prelude::*;
use vstd::string::*;
use crate::error::ServerError;
use crate::job::{JobStatus, UnixTimestamp, unix_now};
use crate::text::{is_blank, str_is_blank};

verus! {

/// Milliseconds from `now` until `retry_at`, or 0 once it has passed.
pub open spec fn spec_retry_after_ms(retry_at: i64, now: i64) -> int {
    if retry_at <= now { 0 } else { retry_at - now }
}

/// Milliseconds from `now` until `retry_at`, or 0 once it has passed.
pub fn retry_after_ms(retry_at: UnixTimestamp, now: UnixTimestamp) -> (r: u64)
    ensures
        r == spec_retry_after_ms(retry_at.0, now.0),
{
    if retry_at.0 <= now.0 {
        0
    } else {
        (retry_at.0 as i128 - now.0 as i128) as u64
    }
}

/// Milliseconds from the current time until `retry_at`: the delay of
/// [`retry_after_ms`] against the clock's reading, which is never before the
/// epoch. Whatever the clock reads, the delay is 0 for a deadline at or
/// before the epoch and never longer than the deadline itself.
pub fn retry_after_ms_from_retry_at(retry_at: UnixTimestamp) -> (r: u64)
    ensures
        exists|now: i64| now >= 0 && r == #[trigger] spec_retry_after_ms(retry_at.0, now),
        retry_at.0 <= 0 ==> r == 0,
        retry_at.0 > 0 ==> r <= retry_at.0,
{
    let now = unix_now();
    retry_after_ms(retry_at, now)
}

/// `Some(value)` unless the value is empty or only whitespace.
pub fn non_empty_string(value: &str) -> (r: Option<String>)
    ensures
        is_blank(value@) ==> r is None,
        !is_blank(value@) ==> (r matches Some(s) && s@ == value@),
{
    if str_is_blank(value) {
        None
    } else {
        Some(String::from_str(value))
    }
}

/// Execution status of a Temporal workflow, as the service reports it.
#[derive(Clone, Copy, Debug, PartialEq, Eq, Structural)]
pub enum TemporalWorkflowStatus {
    Unspecified,
    Running,
    Completed,
    Failed,
    Canceled,
    Terminated,
    ContinuedAsNew,
    TimedOut,
    Paused,
}

pub open spec fn spec_status_name(status: TemporalWorkflowStatus) -> Seq<char> {
    match status {
        TemporalWorkflowStatus::Running => "running"@,
        TemporalWorkflowStatus::Completed => "completed"@,
        TemporalWorkflowStatus::Failed => "failed"@,
        TemporalWorkflowStatus::Canceled => "cancelled"@,
        TemporalWorkflowStatus::Terminated => "terminated"@,
        TemporalWorkflowStatus::ContinuedAsNew => "continued-as-new"@,
        TemporalWorkflowStatus::TimedOut => "timed-out"@,
        TemporalWorkflowStatus::Paused => "paused"@,
        TemporalWorkflowStatus::Unspecified => "unspecified"@,
    }
}

/// The normalised lower-case name of a workflow status.
pub fn temporal_workflow_status_name(status: TemporalWorkflowStatus) -> (r: &'static str)
    ensures
        r@ == spec_status_name(status),
{
    match status {
        TemporalWorkflowStatus::Running => "running",
        TemporalWorkflowStatus::Completed => "completed",
        TemporalWorkflowStatus::Failed => "failed",
        TemporalWorkflowStatus::Canceled => "cancelled",
        TemporalWorkflowStatus::Terminated => "terminated",
        TemporalWorkflowStatus::ContinuedAsNew => "continued-as-new",
        TemporalWorkflowStatus::TimedOut => "timed-out",
        TemporalWorkflowStatus::Paused => "paused",
        TemporalWorkflowStatus::Unspecified => "unspecified",
    }
}

/// A workflow is active while it runs or is paused.
pub fn temporal_workflow_status_is_active(status: TemporalWorkflowStatus) -> (r: bool)
    ensures
        r == (status == TemporalWorkflowStatus::Running || status == TemporalWorkflowStatus::Paused),
{
    match status {
        TemporalWorkflowStatus::Running | TemporalWorkflowStatus::Paused => true,
        _ => false,
    }
}

/// Two distinct statuses never share a name.
pub proof fn lemma_status_names_distinct(a: TemporalWorkflowStatus, b: TemporalWorkflowStatus)
    requires
        a != b,
    ensures
        spec_status_name(a) != spec_status_name(b),
{
    reveal_strlit("running");
    reveal_strlit("completed");
    reveal_strlit("failed");
    reveal_strlit("cancelled");
    reveal_strlit("terminated");
    reveal_strlit("continued-as-new");
    reveal_strlit("timed-out");
    reveal_strlit("paused");
    reveal_strlit("unspecified");
    let na = spec_status_name(a);
    let nb = spec_status_name(b);
    if na.len() == nb.len() {
        assert(na[0] != nb[0] || na[1] != nb[1] || na[2] != nb[2]);
    }
}

/// Temporal workflow input for one job.
#[derive(Clone, Debug, PartialEq, Eq)]
pub struct TemporalJobWorkflowInput {
    pub job_id: String,
    pub activity_timeout_s: u64,
    pub heartbeat_timeout_s: u64,
}

/// Temporal activity input for one job attempt.
#[derive(Clone, Debug, PartialEq, Eq)]
pub struct TemporalJobActivityInput {
    pub job_id: String,
}

/// What an activity attempt reports back to its workflow.
#[derive(Clone, Copy, Debug, PartialEq, Eq, Structural)]
pub enum TemporalJobActivityOutcome {
    /// The job attempt finished.
    Completed,
    /// The engine asked the workflow to sleep before trying again.
    Requeued { retry_after_ms: u64 },
}

/// The state a job workflow keeps between its steps.
#[derive(Clone, Debug, PartialEq, Eq)]
pub struct BatchalignJobWorkflow {
    pub job_id: String,
    pub activity_timeout_s: u64,
    pub heartbeat_timeout_s: u64,
}

/// What the workflow host does next.
#[derive(Clone, Debug, PartialEq, Eq)]
pub enum WorkflowAction {
    /// Start one activity attempt with these timeouts.
    StartActivity {
        input: TemporalJobActivityInput,
        start_to_close_timeout_s: u64,
        heartbeat_timeout_s: u64,
    },
    /// Sleep on a workflow timer, then start the next attempt.
    Sleep { ms: u64 },
    /// The workflow completes successfully.
    Finish,
}

/// What the workflow host reports back.
#[derive(Clone, Copy, Debug, PartialEq, Eq, Structural)]
pub enum WorkflowEvent {
    /// The workflow has just started.
    Started,
    /// The activity attempt returned this outcome.
    ActivityFinished(TemporalJobActivityOutcome),
    /// The requeue timer fired.
    TimerFired,
}

pub open spec fn at_least_one(v: u64) -> u64 {
    if v < 1 { 1 } else { v }
}

/// The workflow's reaction to one event: every start and every timer leads
/// to one more attempt, a completed attempt finishes the workflow, and a
/// requeued one sleeps for the requested delay (at least 1 ms).
pub open spec fn spec_next_action(w: BatchalignJobWorkflow, event: WorkflowEvent) -> WorkflowAction {
    match event {
        WorkflowEvent::ActivityFinished(TemporalJobActivityOutcome::Completed) => WorkflowAction::Finish,
        WorkflowEvent::ActivityFinished(TemporalJobActivityOutcome::Requeued { retry_after_ms }) =>
            WorkflowAction::Sleep { ms: at_least_one(retry_after_ms) },
        _ => WorkflowAction::StartActivity {
            input: TemporalJobActivityInput { job_id: w.job_id },
            start_to_close_timeout_s: at_least_one(w.activity_timeout_s),
            heartbeat_timeout_s: at_least_one(w.heartbeat_timeout_s),
        },
    }
}

impl BatchalignJobWorkflow {
    /// The workflow state for one input.
    pub fn new(input: TemporalJobWorkflowInput) -> (r: Self)
        ensures
            r.job_id == input.job_id,
            r.activity_timeout_s == input.activity_timeout_s,
            r.heartbeat_timeout_s == input.heartbeat_timeout_s,
    {
        BatchalignJobWorkflow {
            job_id: input.job_id,
            activity_timeout_s: input.activity_timeout_s,
            heartbeat_timeout_s: input.heartbeat_timeout_s,
        }
    }

    /// The next step of the workflow's loop.
    pub fn next_action(&self, event: WorkflowEvent) -> (r: WorkflowAction)
        ensures
            r == spec_next_action(*self, event),
    {
        match event {
            WorkflowEvent::ActivityFinished(TemporalJobActivityOutcome::Completed) => WorkflowAction::Finish,
            WorkflowEvent::ActivityFinished(TemporalJobActivityOutcome::Requeued { retry_after_ms }) => {
                WorkflowAction::Sleep { ms: if retry_after_ms < 1 { 1 } else { retry_after_ms } }
            },
            _ => {
                let activity = if self.activity_timeout_s < 1 { 1 } else { self.activity_timeout_s };
                let heartbeat = if self.heartbeat_timeout_s < 1 { 1 } else { self.heartbeat_timeout_s };
                WorkflowAction::StartActivity {
                    input: TemporalJobActivityInput { job_id: self.job_id.clone() },
                    start_to_close_timeout_s: activity,
                    heartbeat_timeout_s: heartbeat,
                }
            },
        }
    }
}

/// The workflow ends exactly when an attempt completes, and it never waits
/// on a zero-length timer or starts an attempt with a zero timeout.
pub proof fn lemma_workflow_finishes_only_on_completion(w: BatchalignJobWorkflow, event: WorkflowEvent)
    ensures
        (spec_next_action(w, event) == WorkflowAction::Finish)
            == (event == WorkflowEvent::ActivityFinished(TemporalJobActivityOutcome::Completed)),
        spec_next_action(w, event) matches WorkflowAction::Sleep { ms } ==> ms >= 1,
        spec_next_action(w, event) matches WorkflowAction::StartActivity { input, start_to_close_timeout_s, heartbeat_timeout_s }
            ==> input.job_id == w.job_id && start_to_close_timeout_s >= 1 && heartbeat_timeout_s >= 1,
{
}

/// Outcome of one hosted job attempt, as the execution engine reports it.
#[derive(Clone, Copy, Debug, PartialEq, Eq, Structural)]
pub enum HostedJobRunOutcome {
    Completed,
    Requeued { retry_at: UnixTimestamp },
}

/// What the activity does on a heartbeat tick.
#[derive(Clone, Copy, Debug, PartialEq, Eq, Structural)]
pub enum HeartbeatAction {
    /// Record a heartbeat.
    Record,
    /// Record a heartbeat and forward the cancel request to the job store.
    RecordAndForwardCancel,
}

/// The activity bridge from Temporal into the execution engine: the
/// decisions taken while one job attempt runs.
#[derive(Clone, Copy, Debug, PartialEq, Eq, Structural)]
pub struct BatchalignTemporalActivities {
    /// Whether a cancel request has already been forwarded to the store.
    pub forwarded_cancel: bool,
}

/// The heartbeat period: half the heartbeat timeout but at least one
/// second, or five seconds when no timeout is set.
pub open spec fn spec_heartbeat_interval_ms(timeout_ms: Option<u64>) -> u64 {
    match timeout_ms {
        Some(t) => if t / 2 < 1000 { 1000 } else { t / 2 },
        None => 5000,
    }
}

impl BatchalignTemporalActivities {
    /// State at the start of an attempt: nothing forwarded yet.
    pub fn new() -> (r: Self)
        ensures
            !r.forwarded_cancel,
    {
        BatchalignTemporalActivities { forwarded_cancel: false }
    }

    /// The heartbeat period of an attempt.
    pub fn heartbeat_interval_ms(heartbeat_timeout_ms: Option<u64>) -> (r: u64)
        ensures
            r == spec_heartbeat_interval_ms(heartbeat_timeout_ms),
    {
        match heartbeat_timeout_ms {
            Some(t) => if t / 2 < 1000 { 1000 } else { t / 2 },
            None => 5000,
        }
    }

    /// One heartbeat tick: always record; forward a cancel request the first
    /// time the activity is seen cancelled, and never again.
    pub fn on_heartbeat(&mut self, is_cancelled: bool) -> (r: HeartbeatAction)
        ensures
            (final(self).forwarded_cancel, r) == heartbeat_step(old(self).forwarded_cancel, is_cancelled),
    {
        if is_cancelled && !self.forwarded_cancel {
            self.forwarded_cancel = true;
            HeartbeatAction::RecordAndForwardCancel
        } else {
            HeartbeatAction::Record
        }
    }

    /// The activity's result for a finished attempt, given the time at which
    /// it finished: a completed attempt completes, a requeued one asks for
    /// the delay until its retry time, and an engine error is passed on.
    pub fn attempt_outcome(
        outcome: Result<HostedJobRunOutcome, ServerError>,
        now: UnixTimestamp,
    ) -> (r: Result<TemporalJobActivityOutcome, ServerError>)
        ensures
            match outcome {
                Ok(HostedJobRunOutcome::Completed) => r == Ok::<TemporalJobActivityOutcome, ServerError>(TemporalJobActivityOutcome::Completed),
                Ok(HostedJobRunOutcome::Requeued { retry_at }) =>
                    r matches Ok(TemporalJobActivityOutcome::Requeued { retry_after_ms })
                        && retry_after_ms == spec_retry_after_ms(retry_at.0, now.0),
                Err(e) => r == Err::<TemporalJobActivityOutcome, ServerError>(e),
            },
    {
        match outcome {
            Ok(HostedJobRunOutcome::Completed) => Ok(TemporalJobActivityOutcome::Completed),
            Ok(HostedJobRunOutcome::Requeued { retry_at }) => Ok(TemporalJobActivityOutcome::Requeued {
                retry_after_ms: retry_after_ms(retry_at, now),
            }),
            Err(e) => Err(e),
        }
    }
}

/// One heartbeat tick from the forwarded flag `forwarded`: the new flag and
/// the action taken.
pub open spec fn heartbeat_step(forwarded: bool, is_cancelled: bool) -> (bool, HeartbeatAction) {
    if is_cancelled && !forwarded {
        (true, HeartbeatAction::RecordAndForwardCancel)
    } else {
        (forwarded, HeartbeatAction::Record)
    }
}

/// A cancel request is forwarded at most once: once a tick has forwarded
/// it, the flag stays set and no later tick forwards again.
pub proof fn lemma_cancel_forwarded_once(forwarded: bool, first_cancelled: bool, later_cancelled: bool)
    ensures
        heartbeat_step(forwarded, first_cancelled).1 == HeartbeatAction::RecordAndForwardCancel ==> {
            let after = heartbeat_step(forwarded, first_cancelled).0;
            &&& after
            &&& heartbeat_step(after, later_cancelled).1 == HeartbeatAction::Record
            &&& heartbeat_step(after, later_cancelled).0
        },
        forwarded ==> heartbeat_step(forwarded, later_cancelled) == (true, HeartbeatAction::Record),
{
}

/// The execution a workflow description names, as plain values.
#[derive(Clone, Debug, PartialEq, Eq)]
pub struct DescribedExecution {
    pub workflow_id: String,
    pub run_id: String,
}

/// The part of a workflow description the control plane reads.
#[derive(Clone, Debug, PartialEq, Eq)]
pub struct DescribedWorkflow {
    pub execution: Option<DescribedExecution>,
    pub status: TemporalWorkflowStatus,
    pub task_queue: String,
    pub history_length: i64,
}

/// What describing a job's workflow gave back.
#[derive(Clone, Debug, PartialEq, Eq)]
pub enum WorkflowDescribeOutcome {
    /// A description, with its execution info when the service sent one.
    Described(Option<DescribedWorkflow>),
    /// No workflow has the job's id.
    NotFound,
    /// Describing failed with this message.
    Failed(String),
}

/// How a job's workflow looks to operators.
#[derive(Clone, Debug, PartialEq, Eq)]
pub struct TemporalWorkflowExecutionInfo {
    pub workflow_id: String,
    pub run_id: Option<String>,
    pub status: Option<String>,
    pub task_queue: Option<String>,
    pub history_length: Option<i64>,
    pub describe_error: Option<String>,
}

/// A blank value reads as absent.
pub open spec fn non_blank(v: Seq<char>) -> Option<Seq<char>> {
    if is_blank(v) { None } else { Some(v) }
}

pub open spec fn opt_view(o: Option<String>) -> Option<Seq<char>> {
    match o {
        Some(s) => Some(s@),
        None => None,
    }
}

/// The operator view of a description: the workflow id it names (the job id
/// when it names none), its run id, status name, task queue and history
/// length; a missing workflow reads as `not-found`, and a failed describe
/// keeps the error.
pub fn workflow_execution_info(job_id: &str, outcome: WorkflowDescribeOutcome) -> (r: TemporalWorkflowExecutionInfo)
    ensures
        match outcome {
            WorkflowDescribeOutcome::Described(info) => {
                &&& r.workflow_id@ == match info {
                    Some(d) => match d.execution {
                        Some(e) => match non_blank(e.workflow_id@) { Some(w) => w, None => job_id@ },
                        None => job_id@,
                    },
                    None => job_id@,
                }
                &&& opt_view(r.run_id) == match info {
                    Some(d) => match d.execution { Some(e) => non_blank(e.run_id@), None => None },
                    None => None,
                }
                &&& opt_view(r.status) == match info { Some(d) => Some(spec_status_name(d.status)), None => None }
                &&& opt_view(r.task_queue) == match info { Some(d) => non_blank(d.task_queue@), None => None }
                &&& r.history_length == match info { Some(d) => Some(d.history_length), None => None }
                &&& r.describe_error is None
            },
            WorkflowDescribeOutcome::NotFound => {
                &&& r.workflow_id@ == job_id@
                &&& r.run_id is None
                &&& opt_view(r.status) == Some("not-found"@)
                &&& r.task_queue is None
                &&& r.history_length is None
                &&& opt_view(r.describe_error) == Some("Workflow not found"@)
            },
            WorkflowDescribeOutcome::Failed(msg) => {
                &&& r.workflow_id@ == job_id@
                &&& r.run_id is None
                &&& r.status is None
                &&& r.task_queue is None
                &&& r.history_length is None
                &&& r.describe_error == Some(msg)
            },
        },
{
    match outcome {
        WorkflowDescribeOutcome::Described(info) => match info {
            Some(d) => {
                let (workflow_id, run_id) = match &d.execution {
                    Some(e) => {
                        let w = match non_empty_string(e.workflow_id.as_str()) {
                            Some(w) => w,
                            None => String::from_str(job_id),
                        };
                        (w, non_empty_string(e.run_id.as_str()))
                    },
                    None => (String::from_str(job_id), None),
                };
                TemporalWorkflowExecutionInfo {
                    workflow_id,
                    run_id,
                    status: Some(String::from_str(temporal_workflow_status_name(d.status))),
                    task_queue: non_empty_string(d.task_queue.as_str()),
                    history_length: Some(d.history_length),
                    describe_error: None,
                }
            },
            None => TemporalWorkflowExecutionInfo {
                workflow_id: String::from_str(job_id),
                run_id: None,
                status: None,
                task_queue: None,
                history_length: None,
                describe_error: None,
            },
        },
        WorkflowDescribeOutcome::NotFound => TemporalWorkflowExecutionInfo {
            workflow_id: String::from_str(job_id),
            run_id: None,
            status: Some(String::from_str("not-found")),
            task_queue: None,
            history_length: None,
            describe_error: Some(String::from_str("Workflow not found")),
        },
        WorkflowDescribeOutcome::Failed(msg) => TemporalWorkflowExecutionInfo {
            workflow_id: String::from_str(job_id),
            run_id: None,
            status: None,
            task_queue: None,
            history_length: None,
            describe_error: Some(msg),
        },
    }
}

/// How a job's workflow is started.
#[derive(Clone, Copy, Debug, PartialEq, Eq, Structural)]
pub enum TemporalWorkflowStartMode {
    /// Resume: keep a workflow already running under the job id.
    ResumeOrUseExisting,
    /// Restart: terminate a workflow already running under the job id.
    ReplaceExisting,
}

/// What to do with a workflow already running under the same id.
#[derive(Clone, Copy, Debug, PartialEq, Eq, Structural)]
pub enum WorkflowIdConflictPolicy {
    UseExisting,
    TerminateExisting,
}

/// Both modes allow reusing a finished workflow's id; they differ on a
/// running one.
pub fn workflow_conflict_policy(mode: TemporalWorkflowStartMode) -> (r: WorkflowIdConflictPolicy)
    ensures
        r == match mode {
            TemporalWorkflowStartMode::ResumeOrUseExisting => WorkflowIdConflictPolicy::UseExisting,
            TemporalWorkflowStartMode::ReplaceExisting => WorkflowIdConflictPolicy::TerminateExisting,
        },
{
    match mode {
        TemporalWorkflowStartMode::ResumeOrUseExisting => WorkflowIdConflictPolicy::UseExisting,
        TemporalWorkflowStartMode::ReplaceExisting => WorkflowIdConflictPolicy::TerminateExisting,
    }
}

/// What starting a workflow gave back.
#[derive(Clone, Debug, PartialEq, Eq)]
pub enum WorkflowStartOutcome {
    Started,
    AlreadyStarted,
    Failed(String),
}

/// A workflow that started, or was already running, is fine; any other
/// failure is a persistence error naming the job.
pub fn workflow_start_result(job_id: &str, outcome: WorkflowStartOutcome) -> (r: Result<(), ServerError>)
    ensures
        match outcome {
            WorkflowStartOutcome::Started => r is Ok,
            WorkflowStartOutcome::AlreadyStarted => r is Ok,
            WorkflowStartOutcome::Failed(e) => r matches Err(ServerError::Persistence(m))
                && m@ == "failed to start Temporal workflow for job "@ + job_id@ + ": "@ + e@,
        },
{
    match outcome {
        WorkflowStartOutcome::Started => Ok(()),
        WorkflowStartOutcome::AlreadyStarted => Ok(()),
        WorkflowStartOutcome::Failed(e) => {
            let mut m = String::from_str("failed to start Temporal workflow for job ");
            m.append(job_id);
            m.append(": ");
            m.append(e.as_str());
            Err(ServerError::Persistence(m))
        },
    }
}

/// The two ways the control plane stops a job's workflow.
#[derive(Clone, Copy, Debug, PartialEq, Eq, Structural)]
pub enum WorkflowInteraction {
    Cancel,
    Terminate,
}

pub open spec fn interaction_verb(i: WorkflowInteraction) -> Seq<char> {
    match i {
        WorkflowInteraction::Cancel => "cancel"@,
        WorkflowInteraction::Terminate => "terminate"@,
    }
}

/// What cancelling or terminating a workflow gave back.
#[derive(Clone, Debug, PartialEq, Eq)]
pub enum WorkflowInteractionOutcome {
    Done,
    NotFound,
    Failed(String),
}

/// A workflow that is gone is as good as stopped; any other failure is a
/// persistence error naming the job.
pub fn workflow_interaction_result(
    interaction: WorkflowInteraction,
    job_id: &str,
    outcome: WorkflowInteractionOutcome,
) -> (r: Result<(), ServerError>)
    ensures
        match outcome {
            WorkflowInteractionOutcome::Failed(e) => r matches Err(ServerError::Persistence(m))
                && m@ == "failed to "@ + interaction_verb(interaction) + " Temporal workflow for job "@ + job_id@ + ": "@ + e@,
            _ => r is Ok,
        },
{
    match outcome {
        WorkflowInteractionOutcome::Done => Ok(()),
        WorkflowInteractionOutcome::NotFound => Ok(()),
        WorkflowInteractionOutcome::Failed(e) => {
            let mut m = String::from_str("failed to ");
            match interaction {
                WorkflowInteraction::Cancel => m.append("cancel"),
                WorkflowInteraction::Terminate => m.append("terminate"),
            }
            m.append(" Temporal workflow for job ");
            m.append(job_id);
            m.append(": ");
            m.append(e.as_str());
            Err(ServerError::Persistence(m))
        },
    }
}

/// The reason recorded when a job's workflow is cancelled.
pub fn cancel_reason(job_id: &str) -> (r: String)
    ensures
        r@ == "batchalign job "@ + job_id@ + " cancelled"@,
{
    let mut m = String::from_str("batchalign job ");
    m.append(job_id);
    m.append(" cancelled");
    m
}

/// The ids of the active jobs, in order.
pub open spec fn active_ids(jobs: Seq<(String, JobStatus)>) -> Seq<String>
    decreases jobs.len(),
{
    if jobs.len() == 0 {
        Seq::empty()
    } else {
        let prev = active_ids(jobs.drop_last());
        if jobs.last().1.spec_is_active() { prev.push(jobs.last().0) } else { prev }
    }
}

/// The jobs whose workflows are resumed at startup: the queued and running
/// ones.
pub fn jobs_to_resume(jobs: &Vec<(String, JobStatus)>) -> (r: Vec<String>)
    ensures
        r@ == active_ids(jobs@),
{
    let mut out: Vec<String> = Vec::new();
    let mut i: usize = 0;
    while i < jobs.len()
        invariant
            i <= jobs@.len(),
            out@ == active_ids(jobs@.take(i as int)),
        decreases jobs@.len() - i,
    {
        assert(jobs@.take(i + 1).drop_last() =~= jobs@.take(i as int));
        if jobs[i].1.is_active() {
            out.push(jobs[i].0.clone());
        }
        i = i + 1;
    }
    assert(jobs@.take(jobs@.len() as int) =~= jobs@);
    out
}

} // verus!
