//! The job manager of the client: its processing state, the loop that asks the server
//! for work, and the run of one job from request to completion or failure.
//!
//! The work itself (HTTP calls, files, the encoder, events to the user interface) is
//! done by the caller; the decisions are made here: the caller reports what happened
//! and is told what to do next.
use vstd::prelude::*;
use crate::text::{concat, owned};

verus! {

/// The job manager's state as shown to the user interface.
#[derive(Debug)]
pub struct JobManagerState {
    pub is_processing: bool,
    pub is_paused: bool,
    pub current_job_id: Option<String>,
}

impl Clone for JobManagerState {
    fn clone(&self) -> (res: Self)
        ensures
            res == *self,
    {
        JobManagerState {
            is_processing: self.is_processing,
            is_paused: self.is_paused,
            current_job_id: match &self.current_job_id {
                Some(id) => Some(id.clone()),
                None => None,
            },
        }
    }
}

/// The state of a job manager that is not processing: not paused, no current job.
pub open spec fn is_idle(s: JobManagerState) -> bool {
    !s.is_processing && !s.is_paused && s.current_job_id is None
}

/// The state after starting: `None` (refused) when processing already runs; else
/// processing, unpaused, with the current job kept.
pub open spec fn started(s: JobManagerState) -> Option<JobManagerState> {
    if s.is_processing {
        None
    } else {
        Some(JobManagerState { is_processing: true, is_paused: false, current_job_id: s.current_job_id })
    }
}

/// The state after stopping: not processing, not paused, no current job.
pub open spec fn stopped(s: JobManagerState) -> JobManagerState {
    JobManagerState { is_processing: false, is_paused: false, current_job_id: None }
}

/// The state after pausing: paused, the rest kept.
pub open spec fn paused(s: JobManagerState) -> JobManagerState {
    JobManagerState { is_processing: s.is_processing, is_paused: true, current_job_id: s.current_job_id }
}

/// The state after resuming: not paused, the rest kept.
pub open spec fn resumed(s: JobManagerState) -> JobManagerState {
    JobManagerState { is_processing: s.is_processing, is_paused: false, current_job_id: s.current_job_id }
}

impl JobManagerState {
    /// A job manager that is not processing.
    pub fn new() -> (res: Self)
        ensures
            is_idle(res),
    {
        JobManagerState { is_processing: false, is_paused: false, current_job_id: None }
    }

    /// Starts processing (see [`started`]): refused, with the state unchanged and the
    /// error `Job processing is already running`, when processing already runs.
    pub fn start(&mut self) -> (res: Result<(), String>)
        ensures
            match started(*old(self)) {
                None => (res matches Err(e) && e@ == "Job processing is already running"@)
                    && *final(self) == *old(self),
                Some(s) => res is Ok && *final(self) == s,
            },
    {
        if self.is_processing {
            return Err(owned("Job processing is already running"));
        }
        self.is_processing = true;
        self.is_paused = false;
        Ok(())
    }

    /// Stops processing (see [`stopped`]).
    pub fn stop(&mut self)
        ensures
            *final(self) == stopped(*old(self)),
    {
        self.is_processing = false;
        self.is_paused = false;
        self.current_job_id = None;
    }

    /// Pauses processing (see [`paused`]).
    pub fn pause(&mut self)
        ensures
            *final(self) == paused(*old(self)),
    {
        self.is_paused = true;
    }

    /// Resumes processing (see [`resumed`]).
    pub fn resume(&mut self)
        ensures
            *final(self) == resumed(*old(self)),
    {
        self.is_paused = false;
    }
}

/// Starting is refused exactly when processing already runs; so starting twice in a
/// row is refused the second time.
pub proof fn start_refused_while_processing(s: JobManagerState)
    ensures
        started(s) is None <==> s.is_processing,
        started(s) matches Some(t) ==> started(t) is None,
{
}

/// After a stop, the manager is idle and may be started again, with no current job.
pub proof fn stop_then_start(s: JobManagerState)
    ensures
        is_idle(stopped(s)),
        stopped(stopped(s)) == stopped(s),
        started(stopped(s)) matches Some(t) && t.is_processing && !t.is_paused && t.current_job_id is None,
{
}

/// Resuming after a pause gives back an unpaused state, and neither touches whether
/// processing runs or the current job.
pub proof fn pause_then_resume(s: JobManagerState)
    ensures
        resumed(paused(s)) == resumed(s),
        !s.is_paused ==> resumed(paused(s)) == s,
        paused(s).is_processing == s.is_processing && paused(s).current_job_id == s.current_job_id,
{
}

/// What the processing loop does next.
#[derive(Debug, Clone, Copy, PartialEq, Eq, Structural)]
pub enum LoopStep {
    /// Processing was stopped: leave the loop.
    Stop,
    /// Processing is paused: wait this many seconds and look again.
    Wait(u64),
    /// Process the next job.
    ProcessNextJob,
}

/// The seconds the loop waits while paused, and when no job was available.
pub const IDLE_WAIT_SECONDS: u64 = 5;

/// The seconds the loop waits after a job run failed.
pub const ERROR_WAIT_SECONDS: u64 = 10;

/// The next step of the processing loop in a given state: stop when processing is
/// off; wait while paused; else process the next job.
pub fn loop_step(state: &JobManagerState) -> (res: LoopStep)
    ensures
        !state.is_processing ==> res == LoopStep::Stop,
        state.is_processing && state.is_paused ==> res == LoopStep::Wait(IDLE_WAIT_SECONDS),
        state.is_processing && !state.is_paused ==> res == LoopStep::ProcessNextJob,
{
    if !state.is_processing {
        LoopStep::Stop
    } else if state.is_paused {
        LoopStep::Wait(IDLE_WAIT_SECONDS)
    } else {
        LoopStep::ProcessNextJob
    }
}

/// An error of a job run, in its two written forms: the plain one (`{}`) and the one
/// with all its causes (`{:#}`).
#[derive(Debug)]
pub struct JobError {
    pub brief: String,
    pub full: String,
}

impl Clone for JobError {
    fn clone(&self) -> (res: Self)
        ensures
            res == *self,
    {
        JobError { brief: self.brief.clone(), full: self.full.clone() }
    }
}

/// An error whose two written forms are the same message.
pub fn job_error(message: &str) -> (res: JobError)
    ensures
        res.brief@ == message@,
        res.full@ == message@,
{
    JobError { brief: owned(message), full: owned(message) }
}

/// What the processing loop does after a job run: carry on at once after a completed
/// job; wait after finding no job; after an error, send the user interface a
/// `job-error` event with `Error: ` and the error, then wait longer.
pub struct AfterRun {
    pub wait_seconds: u64,
    pub error_event: Option<String>,
}

/// What the processing loop does after a run that ended with `outcome`.
pub fn after_run(outcome: &Result<bool, JobError>) -> (res: AfterRun)
    ensures
        outcome matches Ok(true) ==> res.wait_seconds == 0 && res.error_event is None,
        outcome matches Ok(false) ==> res.wait_seconds == IDLE_WAIT_SECONDS && res.error_event
            is None,
        outcome matches Err(e) ==> res.wait_seconds == ERROR_WAIT_SECONDS && (res.error_event
            matches Some(m) && m@ == "Error: "@ + e.brief@),
{
    match outcome {
        Ok(true) => AfterRun { wait_seconds: 0, error_event: None },
        Ok(false) => AfterRun { wait_seconds: IDLE_WAIT_SECONDS, error_event: None },
        Err(e) => AfterRun {
            wait_seconds: ERROR_WAIT_SECONDS,
            error_event: Some(concat("Error: ", e.brief.as_str())),
        },
    }
}

/// Where the run of one job stands.
#[derive(Debug)]
pub enum RunPhase {
    /// A job was asked for.
    Requesting,
    /// The job was offered and its start is being reported to the server.
    Starting { job_id: String },
    /// The input file is being downloaded.
    Downloading { job_id: String },
    /// A frame is being extracted for the user interface's background.
    ExtractingFrame { job_id: String },
    /// The video is being encoded.
    Encoding { job_id: String },
    /// The output file is being uploaded.
    Uploading { job_id: String, output_size: i64, output_bitrate: i64 },
    /// The temporary files are being removed.
    CleaningUp { job_id: String, output_size: i64, output_bitrate: i64 },
    /// The job's completion is being reported to the server.
    Completing { job_id: String },
    /// The job's failure is being reported to the server.
    ReportingFailure { job_id: String, error: JobError },
    /// The run is over.
    Done,
}

/// What the caller reports to the run.
#[derive(Debug)]
pub enum RunEvent {
    /// The server answered the request for a job: the offered job's id, or none.
    JobOffered { job_id: Option<String> },
    /// The step asked for succeeded.
    Succeeded,
    /// The video was encoded, giving an output of this size and bitrate.
    Encoded { output_size: i64, output_bitrate: i64 },
    /// The step asked for failed.
    Failed { error: JobError },
    /// The failure report was sent (whether or not the server took it).
    FailureReported,
}

/// How a run ended.
#[derive(Debug)]
pub enum RunOutcome {
    /// No job was available.
    NoJob,
    /// The job was completed: clear the current job and send the user interface a
    /// `job-completed` event with the job's id.
    Completed { job_id: String },
    /// The run failed with `error`. With an event, clear the current job and send the
    /// user interface a `job-error` event with that text; without one, leave the current
    /// job as it is.
    Failed { error: JobError, event: Option<String> },
}

/// What the caller does next.
#[derive(Debug)]
pub enum RunAction {
    /// Ask the server for a job with this token.
    RequestJob { auth_token: String },
    /// Make the job the current one, send the user interface a `job-started` event with
    /// it, and report its start to the server.
    StartJob { job_id: String },
    /// Download the job's input file.
    DownloadInput { job_id: String },
    /// Extract a frame of the input for the user interface.
    ExtractFrame { job_id: String },
    /// Send the user interface a `frame-extracted` event with the frame, then encode.
    EncodeVideo { job_id: String },
    /// Upload the output file.
    UploadOutput { job_id: String },
    /// Remove the job's input and output files (failures are only logged).
    RemoveTempFiles { job_id: String },
    /// Report the job's completion, with its output's size and bitrate.
    CompleteJob { job_id: String, output_size: i64, output_bitrate: i64 },
    /// Report the job's failure with this message.
    ReportFailure { job_id: String, message: String },
    /// The run is over.
    Finish { outcome: RunOutcome },
}

/// The run of one job.
pub struct JobRun {
    phase: RunPhase,
}

/// The phase after `phase` once `event` is reported; `None` when the event has no place
/// in that phase.
pub open spec fn next_phase(phase: RunPhase, event: RunEvent) -> Option<RunPhase> {
    match (phase, event) {
        (RunPhase::Requesting, RunEvent::JobOffered { job_id: None }) => Some(RunPhase::Done),
        (RunPhase::Requesting, RunEvent::JobOffered { job_id: Some(id) }) => Some(
            RunPhase::Starting { job_id: id },
        ),
        (RunPhase::Requesting, RunEvent::Failed { .. }) => Some(RunPhase::Done),
        (RunPhase::Starting { job_id }, RunEvent::Succeeded) => Some(
            RunPhase::Downloading { job_id },
        ),
        (RunPhase::Starting { .. }, RunEvent::Failed { .. }) => Some(RunPhase::Done),
        (RunPhase::Downloading { job_id }, RunEvent::Succeeded) => Some(
            RunPhase::ExtractingFrame { job_id },
        ),
        (RunPhase::ExtractingFrame { job_id }, RunEvent::Succeeded) => Some(
            RunPhase::Encoding { job_id },
        ),
        (RunPhase::Encoding { job_id }, RunEvent::Encoded { output_size, output_bitrate }) => Some(
            RunPhase::Uploading { job_id, output_size, output_bitrate },
        ),
        (RunPhase::Uploading { job_id, output_size, output_bitrate }, RunEvent::Succeeded) => Some(
            RunPhase::CleaningUp { job_id, output_size, output_bitrate },
        ),
        (RunPhase::CleaningUp { job_id, .. }, RunEvent::Succeeded) => Some(
            RunPhase::Completing { job_id },
        ),
        (RunPhase::Completing { .. }, RunEvent::Succeeded) => Some(RunPhase::Done),
        (RunPhase::Completing { .. }, RunEvent::Failed { .. }) => Some(RunPhase::Done),
        (RunPhase::Downloading { job_id }, RunEvent::Failed { error }) => Some(
            RunPhase::ReportingFailure { job_id, error },
        ),
        (RunPhase::ExtractingFrame { job_id }, RunEvent::Failed { error }) => Some(
            RunPhase::ReportingFailure { job_id, error },
        ),
        (RunPhase::Encoding { job_id }, RunEvent::Failed { error }) => Some(
            RunPhase::ReportingFailure { job_id, error },
        ),
        (RunPhase::Uploading { job_id, .. }, RunEvent::Failed { error }) => Some(
            RunPhase::ReportingFailure { job_id, error },
        ),
        (RunPhase::ReportingFailure { .. }, RunEvent::FailureReported) => Some(RunPhase::Done),
        _ => None,
    }
}

/// The action the run asks for when `event` takes it from `phase` to the next phase.
pub open spec fn action_for(phase: RunPhase, event: RunEvent, action: RunAction) -> bool {
    match (phase, event) {
        (RunPhase::Requesting, RunEvent::JobOffered { job_id: None }) => action
            matches RunAction::Finish { outcome: RunOutcome::NoJob },
        (RunPhase::Requesting, RunEvent::JobOffered { job_id: Some(id) }) => action
            == RunAction::StartJob { job_id: id },
        (RunPhase::Requesting, RunEvent::Failed { error }) => action == RunAction::Finish {
            outcome: RunOutcome::Failed { error, event: None },
        },
        (RunPhase::Starting { job_id }, RunEvent::Succeeded) => action
            == RunAction::DownloadInput { job_id },
        (RunPhase::Starting { .. }, RunEvent::Failed { error }) => action == RunAction::Finish {
            outcome: RunOutcome::Failed { error, event: None },
        },
        (RunPhase::Downloading { job_id }, RunEvent::Succeeded) => action
            == RunAction::ExtractFrame { job_id },
        (RunPhase::ExtractingFrame { job_id }, RunEvent::Succeeded) => action
            == RunAction::EncodeVideo { job_id },
        (RunPhase::Encoding { job_id }, RunEvent::Encoded { .. }) => action
            == RunAction::UploadOutput { job_id },
        (RunPhase::Uploading { job_id, .. }, RunEvent::Succeeded) => action
            == RunAction::RemoveTempFiles { job_id },
        (RunPhase::CleaningUp { job_id, output_size, output_bitrate }, RunEvent::Succeeded) => action
            == RunAction::CompleteJob { job_id, output_size, output_bitrate },
        (RunPhase::Completing { job_id }, RunEvent::Succeeded) => action == RunAction::Finish {
            outcome: RunOutcome::Completed { job_id },
        },
        (RunPhase::Completing { .. }, RunEvent::Failed { error }) => action == RunAction::Finish {
            outcome: RunOutcome::Failed { error, event: None },
        },
        (RunPhase::Downloading { job_id }, RunEvent::Failed { error }) => action
            == RunAction::ReportFailure { job_id, message: error.full },
        (RunPhase::ExtractingFrame { job_id }, RunEvent::Failed { error }) => action
            == RunAction::ReportFailure { job_id, message: error.full },
        (RunPhase::Encoding { job_id }, RunEvent::Failed { error }) => action
            == RunAction::ReportFailure { job_id, message: error.full },
        (RunPhase::Uploading { job_id, .. }, RunEvent::Failed { error }) => action
            == RunAction::ReportFailure { job_id, message: error.full },
        (RunPhase::ReportingFailure { error, .. }, RunEvent::FailureReported) => action matches RunAction::Finish {
            outcome: RunOutcome::Failed { error: e, event: Some(m) },
        } && e == error && m@ == "Job failed: "@ + error.full@,
        _ => false,
    }
}

/// The action ends the run, failed with `message` as the error's two forms and no
/// event for the user interface.
pub open spec fn fails_with(action: RunAction, message: Seq<char>) -> bool {
    &&& action matches RunAction::Finish { outcome: RunOutcome::Failed { error: e, event: None } }
    &&& e.brief@ == message
    &&& e.full@ == message
}

impl JobRun {
    /// The phase the run is in.
    pub closed spec fn phase(&self) -> RunPhase {
        self.phase
    }

    /// Begins a run: a configuration, GPU information and an auth token are needed
    /// (checked in that order; a missing one ends the run with the error
    /// `No configuration set`, `No GPU information set` or `No auth token`); then a job
    /// is asked for with the token.
    pub fn begin(has_config: bool, has_gpu_info: bool, auth_token: Option<String>) -> (res: (
        JobRun,
        RunAction,
    ))
        ensures
            !has_config ==> res.0.phase() is Done && fails_with(res.1, "No configuration set"@),
            has_config && !has_gpu_info ==> res.0.phase() is Done && fails_with(
                res.1,
                "No GPU information set"@,
            ),
            has_config && has_gpu_info && auth_token is None ==> res.0.phase() is Done
                && fails_with(res.1, "No auth token"@),
            has_config && has_gpu_info && auth_token is Some ==> res.0.phase() is Requesting
                && res.1 == (RunAction::RequestJob { auth_token: auth_token->Some_0 }),
    {
        if !has_config {
            return (
                JobRun { phase: RunPhase::Done },
                RunAction::Finish {
                    outcome: RunOutcome::Failed { error: job_error("No configuration set"), event: None },
                },
            );
        }
        if !has_gpu_info {
            return (
                JobRun { phase: RunPhase::Done },
                RunAction::Finish {
                    outcome: RunOutcome::Failed { error: job_error("No GPU information set"), event: None },
                },
            );
        }
        match auth_token {
            None => (
                JobRun { phase: RunPhase::Done },
                RunAction::Finish {
                    outcome: RunOutcome::Failed { error: job_error("No auth token"), event: None },
                },
            ),
            Some(t) => (JobRun { phase: RunPhase::Requesting }, RunAction::RequestJob { auth_token: t }),
        }
    }

    /// Takes in what happened and says what to do next. An event that has no place in
    /// the current phase is refused (`None`) and the run stays as it was.
    pub fn step(self, event: RunEvent) -> (res: (JobRun, Option<RunAction>))
        ensures
            match next_phase(self.phase(), event) {
                Some(p) => res.0.phase() == p && (res.1 matches Some(a) && action_for(
                    self.phase(),
                    event,
                    a,
                )),
                None => res.0.phase() == self.phase() && res.1 is None,
            },
    {
        let phase = self.phase;
        match (phase, event) {
            (RunPhase::Requesting, RunEvent::JobOffered { job_id: None }) => (
                JobRun { phase: RunPhase::Done },
                Some(RunAction::Finish { outcome: RunOutcome::NoJob }),
            ),
            (RunPhase::Requesting, RunEvent::JobOffered { job_id: Some(id) }) => {
                let a = RunAction::StartJob { job_id: id.clone() };
                (JobRun { phase: RunPhase::Starting { job_id: id } }, Some(a))
            },
            (RunPhase::Requesting, RunEvent::Failed { error }) => (
                JobRun { phase: RunPhase::Done },
                Some(RunAction::Finish { outcome: RunOutcome::Failed { error, event: None } }),
            ),
            (RunPhase::Starting { job_id }, RunEvent::Succeeded) => {
                let a = RunAction::DownloadInput { job_id: job_id.clone() };
                (JobRun { phase: RunPhase::Downloading { job_id } }, Some(a))
            },
            (RunPhase::Starting { job_id }, RunEvent::Failed { error }) => (
                JobRun { phase: RunPhase::Done },
                Some(RunAction::Finish { outcome: RunOutcome::Failed { error, event: None } }),
            ),
            (RunPhase::Downloading { job_id }, RunEvent::Succeeded) => {
                let a = RunAction::ExtractFrame { job_id: job_id.clone() };
                (JobRun { phase: RunPhase::ExtractingFrame { job_id } }, Some(a))
            },
            (RunPhase::ExtractingFrame { job_id }, RunEvent::Succeeded) => {
                let a = RunAction::EncodeVideo { job_id: job_id.clone() };
                (JobRun { phase: RunPhase::Encoding { job_id } }, Some(a))
            },
            (RunPhase::Encoding { job_id }, RunEvent::Encoded { output_size, output_bitrate }) => {
                let a = RunAction::UploadOutput { job_id: job_id.clone() };
                (JobRun { phase: RunPhase::Uploading { job_id, output_size, output_bitrate } }, Some(a))
            },
            (
                RunPhase::Uploading { job_id, output_size, output_bitrate },
                RunEvent::Succeeded,
            ) => {
                let a = RunAction::RemoveTempFiles { job_id: job_id.clone() };
                (
                    JobRun { phase: RunPhase::CleaningUp { job_id, output_size, output_bitrate } },
                    Some(a),
                )
            },
            (
                RunPhase::CleaningUp { job_id, output_size, output_bitrate },
                RunEvent::Succeeded,
            ) => {
                let a = RunAction::CompleteJob { job_id: job_id.clone(), output_size, output_bitrate };
                (JobRun { phase: RunPhase::Completing { job_id } }, Some(a))
            },
            (RunPhase::Completing { job_id }, RunEvent::Succeeded) => (
                JobRun { phase: RunPhase::Done },
                Some(RunAction::Finish { outcome: RunOutcome::Completed { job_id } }),
            ),
            (RunPhase::Completing { job_id }, RunEvent::Failed { error }) => (
                JobRun { phase: RunPhase::Done },
                Some(RunAction::Finish { outcome: RunOutcome::Failed { error, event: None } }),
            ),
            (RunPhase::Downloading { job_id }, RunEvent::Failed { error }) => {
                let a = RunAction::ReportFailure { job_id: job_id.clone(), message: error.full.clone() };
                (JobRun { phase: RunPhase::ReportingFailure { job_id, error } }, Some(a))
            },
            (RunPhase::ExtractingFrame { job_id }, RunEvent::Failed { error }) => {
                let a = RunAction::ReportFailure { job_id: job_id.clone(), message: error.full.clone() };
                (JobRun { phase: RunPhase::ReportingFailure { job_id, error } }, Some(a))
            },
            (RunPhase::Encoding { job_id }, RunEvent::Failed { error }) => {
                let a = RunAction::ReportFailure { job_id: job_id.clone(), message: error.full.clone() };
                (JobRun { phase: RunPhase::ReportingFailure { job_id, error } }, Some(a))
            },
            (RunPhase::Uploading { job_id, .. }, RunEvent::Failed { error }) => {
                let a = RunAction::ReportFailure { job_id: job_id.clone(), message: error.full.clone() };
                (JobRun { phase: RunPhase::ReportingFailure { job_id, error } }, Some(a))
            },
            (RunPhase::ReportingFailure { job_id, error }, RunEvent::FailureReported) => {
                let m = concat("Job failed: ", error.full.as_str());
                (
                    JobRun { phase: RunPhase::Done },
                    Some(RunAction::Finish { outcome: RunOutcome::Failed { error, event: Some(m) } }),
                )
            },
            (p, _) => (JobRun { phase: p }, None),
        }
    }
}

/// A run reports success with a completed job only when the server took the job's
/// completion, which it is asked for only after the output was uploaded and the
/// temporary files removed.
pub proof fn completion_only_after_upload(phase: RunPhase, event: RunEvent, action: RunAction)
    requires
        next_phase(phase, event) is Some,
        action_for(phase, event, action),
    ensures
        action matches RunAction::Finish { outcome: RunOutcome::Completed { .. } } ==> phase is Completing
            && event is Succeeded,
        action is CompleteJob ==> phase is CleaningUp && event is Succeeded,
        action is RemoveTempFiles ==> phase is Uploading && event is Succeeded,
{
}

/// The action ends the run failed with `error`, clearing the current job and telling
/// the user `Job failed: ` and the error's full text.
pub open spec fn announces_failure(action: RunAction, error: JobError) -> bool {
    &&& action matches RunAction::Finish { outcome: RunOutcome::Failed { error: e, event: Some(m) } }
    &&& e == error
    &&& m@ == "Job failed: "@ + error.full@
}

/// Once a job has been started, a failure while working on it is reported to the server
/// with the error's full text before the run ends; and the run then ends failed, with
/// the current job cleared and the user told `Job failed: ` and the error.
pub proof fn failures_are_reported(phase: RunPhase, error: JobError, action: RunAction)
    requires
        phase is Downloading || phase is ExtractingFrame || phase is Encoding || phase is Uploading,
        action_for(phase, RunEvent::Failed { error }, action),
    ensures
        action matches RunAction::ReportFailure { message, .. } && message == error.full,
        next_phase(phase, RunEvent::Failed { error }) == Some(
            RunPhase::ReportingFailure { job_id: phase_job(phase), error },
        ),
        forall|done: RunAction|
            action_for(
                (RunPhase::ReportingFailure { job_id: phase_job(phase), error }),
                RunEvent::FailureReported,
                done,
            ) ==> #[trigger] announces_failure(done, error),
{
}

/// The job a phase is working on (the empty text where there is none).
pub open spec fn phase_job(phase: RunPhase) -> String {
    match phase {
        RunPhase::Starting { job_id } => job_id,
        RunPhase::Downloading { job_id } => job_id,
        RunPhase::ExtractingFrame { job_id } => job_id,
        RunPhase::Encoding { job_id } => job_id,
        RunPhase::Uploading { job_id, .. } => job_id,
        RunPhase::CleaningUp { job_id, .. } => job_id,
        RunPhase::Completing { job_id } => job_id,
        RunPhase::ReportingFailure { job_id, .. } => job_id,
        _ => arbitrary(),
    }
}

} // verus!
