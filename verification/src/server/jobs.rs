//! Encoding jobs: their status names and the rules by which jobs are picked,
//! started and found stale.
use vstd::prelude::*;
use crate::server::clients::Client;
use crate::text::{str_eq, owned};

verus! {

/// Job status.
#[derive(Debug, Clone, Copy, PartialEq, Eq, Structural)]
pub enum JobStatus {
    Pending,
    Assigned,
    InProgress,
    Completed,
    Failed,
}

impl JobStatus {
    /// The name under which a status is stored.
    pub open spec fn text(self) -> Seq<char> {
        match self {
            JobStatus::Pending => "pending"@,
            JobStatus::Assigned => "assigned"@,
            JobStatus::InProgress => "in_progress"@,
            JobStatus::Completed => "completed"@,
            JobStatus::Failed => "failed"@,
        }
    }

    /// The status stored under a name, if any.
    pub open spec fn named(t: Seq<char>) -> Option<JobStatus> {
        if t == "pending"@ {
            Some(JobStatus::Pending)
        } else if t == "assigned"@ {
            Some(JobStatus::Assigned)
        } else if t == "in_progress"@ {
            Some(JobStatus::InProgress)
        } else if t == "completed"@ {
            Some(JobStatus::Completed)
        } else if t == "failed"@ {
            Some(JobStatus::Failed)
        } else {
            None
        }
    }

    /// A job in this status is held by a client: assigned or in progress.
    pub open spec fn active(self) -> bool {
        self == JobStatus::Assigned || self == JobStatus::InProgress
    }

    /// The name under which this status is stored.
    pub fn as_str(&self) -> (res: &'static str)
        ensures
            res@ == self.text(),
    {
        match self {
            JobStatus::Pending => "pending",
            JobStatus::Assigned => "assigned",
            JobStatus::InProgress => "in_progress",
            JobStatus::Completed => "completed",
            JobStatus::Failed => "failed",
        }
    }

    /// The status stored under the name `s`; `None` for any other text.
    pub fn from_str(s: &str) -> (res: Option<Self>)
        ensures
            res == JobStatus::named(s@),
    {
        if str_eq(s, "pending") {
            Some(JobStatus::Pending)
        } else if str_eq(s, "assigned") {
            Some(JobStatus::Assigned)
        } else if str_eq(s, "in_progress") {
            Some(JobStatus::InProgress)
        } else if str_eq(s, "completed") {
            Some(JobStatus::Completed)
        } else if str_eq(s, "failed") {
            Some(JobStatus::Failed)
        } else {
            None
        }
    }

    /// Whether a job in this status is held by a client.
    pub fn is_active(&self) -> (res: bool)
        ensures
            res == self.active(),
    {
        match self {
            JobStatus::Assigned | JobStatus::InProgress => true,
            _ => false,
        }
    }
}

/// Reading back the name of a status gives that status.
pub proof fn status_name_round_trip(status: JobStatus)
    ensures
        JobStatus::named(status.text()) == Some(status),
{
    reveal_strlit("pending");
    reveal_strlit("assigned");
    reveal_strlit("in_progress");
    reveal_strlit("completed");
    reveal_strlit("failed");
    assert("pending"@.len() == 7);
    assert("assigned"@.len() == 8);
    assert("in_progress"@.len() == 11);
    assert("completed"@.len() == 9);
    assert("failed"@.len() == 6);
}

/// A name that reads as a status is exactly that status's name.
pub proof fn status_name_unique(t: Seq<char>, status: JobStatus)
    requires
        JobStatus::named(t) == Some(status),
    ensures
        t == status.text(),
{
    reveal_strlit("pending");
    reveal_strlit("assigned");
    reveal_strlit("in_progress");
    reveal_strlit("completed");
    reveal_strlit("failed");
    assert("pending"@.len() == 7);
    assert("assigned"@.len() == 8);
    assert("in_progress"@.len() == 11);
    assert("completed"@.len() == 9);
    assert("failed"@.len() == 6);
}

/// The status of a job stored under the name `s`: an unknown name reads as pending.
pub fn status_or_pending(s: &str) -> (res: JobStatus)
    ensures
        res == (match JobStatus::named(s@) {
            Some(st) => st,
            None => JobStatus::Pending,
        }),
{
    match JobStatus::from_str(s) {
        Some(st) => st,
        None => JobStatus::Pending,
    }
}

/// A client's request for a job.
#[derive(Debug)]
pub struct JobRequest {
    pub client_id: String,
}

/// A client's report that a job failed.
#[derive(Debug)]
pub struct JobFailure {
    pub error: String,
}

/// A client's report of the phase a job is in (downloading, encoding, uploading).
#[derive(Debug)]
pub struct PhaseUpdate {
    pub phase: String,
}

/// Why a job could not be started.
#[derive(Debug, Clone, PartialEq)]
pub enum StartJobError {
    /// No job has the given id (the id given).
    NotFound(String),
    /// The job is in a status other than assigned (the status name given).
    InvalidStatus(String),
}

/// Checks that a job may be started: it must exist (`current` is its stored status
/// name, `None` when no such job exists) and be assigned.
pub fn check_start(job_id: &str, current: Option<&str>) -> (res: Result<(), StartJobError>)
    ensures
        match current {
            None => res matches Err(StartJobError::NotFound(id)) && id@ == job_id@,
            Some(s) => if s@ == "assigned"@ {
                res is Ok
            } else {
                res matches Err(StartJobError::InvalidStatus(t)) && t@ == s@
            },
        },
{
    match current {
        None => Err(StartJobError::NotFound(owned(job_id))),
        Some(s) => {
            if str_eq(s, "assigned") {
                Ok(())
            } else {
                Err(StartJobError::InvalidStatus(owned(s)))
            }
        },
    }
}

/// The output path offered to a client for a job's media file: the file's path
/// followed by `.h264.` and the output container.
pub fn output_template(media_file_path: &str, output_container: &str) -> (res: String)
    ensures
        res@ == media_file_path@ + ".h264."@ + output_container@,
{
    let mut s = owned(media_file_path);
    crate::text::push_str(&mut s, ".h264.");
    crate::text::push_str(&mut s, output_container);
    s
}

/// A job as the scheduler sees it when picking the next one.
#[derive(Debug, Clone, Copy, PartialEq, Eq, Structural)]
pub struct QueuedJob {
    pub status: JobStatus,
    pub priority: i64,
    pub created_at: i64,
    /// The job's media file has already been processed.
    pub file_processed: bool,
}

/// The job may be handed out: it is pending and its file is not processed yet.
pub open spec fn eligible(j: QueuedJob) -> bool {
    j.status == JobStatus::Pending && !j.file_processed
}

/// `a` goes before `b`: higher priority first, then the older one.
pub open spec fn ranks_before(a: QueuedJob, b: QueuedJob) -> bool {
    a.priority > b.priority || (a.priority == b.priority && a.created_at < b.created_at)
}

/// The position of the next job to hand out: an eligible job that no eligible job ranks
/// before, the first such; `None` when no job is eligible.
pub fn next_job(jobs: &[QueuedJob]) -> (res: Option<usize>)
    ensures
        res is None <==> (forall|k: int| 0 <= k < jobs.len() ==> !eligible(#[trigger] jobs@[k])),
        res matches Some(i) ==> {
            &&& i < jobs.len()
            &&& eligible(jobs@[i as int])
            &&& forall|k: int|
                0 <= k < jobs.len() && eligible(#[trigger] jobs@[k]) ==> !ranks_before(
                    jobs@[k],
                    jobs@[i as int],
                )
            &&& forall|k: int|
                0 <= k < i && eligible(#[trigger] jobs@[k]) ==> ranks_before(
                    jobs@[i as int],
                    jobs@[k],
                )
        },
{
    let mut best: Option<usize> = None;
    let mut k: usize = 0;
    while k < jobs.len()
        invariant
            k <= jobs.len(),
            best is None <==> (forall|m: int| 0 <= m < k ==> !eligible(#[trigger] jobs@[m])),
            best matches Some(i) ==> {
                &&& i < k
                &&& eligible(jobs@[i as int])
                &&& forall|m: int|
                    0 <= m < k && eligible(#[trigger] jobs@[m]) ==> !ranks_before(
                        jobs@[m],
                        jobs@[i as int],
                    )
                &&& forall|m: int|
                    0 <= m < i && eligible(#[trigger] jobs@[m]) ==> ranks_before(
                        jobs@[i as int],
                        jobs@[m],
                    )
            },
        decreases jobs.len() - k,
    {
        let j = jobs[k];
        if j.status == JobStatus::Pending && !j.file_processed {
            match best {
                None => {
                    best = Some(k);
                },
                Some(i) => {
                    let b = jobs[i];
                    if j.priority > b.priority || (j.priority == b.priority && j.created_at
                        < b.created_at) {
                        best = Some(k);
                    }
                },
            }
        }
        k = k + 1;
    }
    best
}

/// The time before which a job or heartbeat counts as stale: `now` less the timeout.
pub open spec fn stale_cutoff(now: i64, timeout_seconds: i64) -> int {
    now - timeout_seconds
}

/// A job is stale when it is held by a client, was assigned before the cutoff, and
/// either names no client or its client's last heartbeat is before the cutoff.
pub open spec fn job_is_stale(
    status: JobStatus,
    assigned_at: Option<i64>,
    assigned_client: Option<Seq<char>>,
    clients: Seq<Client>,
    cutoff: int,
) -> bool {
    &&& status.active()
    &&& assigned_at matches Some(t) && t < cutoff
    &&& match assigned_client {
        None => true,
        Some(id) => exists|k: int|
            0 <= k < clients.len() && (#[trigger] clients[k]).id@ == id
                && clients[k].last_heartbeat < cutoff,
    }
}

/// Whether a job is stale at `now` with the given timeout (see [`job_is_stale`]);
/// `clients` are the known clients.
pub fn is_stale_job(
    status: JobStatus,
    assigned_at: Option<i64>,
    assigned_client: Option<&str>,
    clients: &[Client],
    now: i64,
    timeout_seconds: i64,
) -> (res: bool)
    requires
        i64::MIN <= now - timeout_seconds <= i64::MAX,
    ensures
        res == job_is_stale(
            status,
            assigned_at,
            match assigned_client {
                Some(c) => Some(c@),
                None => None,
            },
            clients@,
            stale_cutoff(now, timeout_seconds),
        ),
{
    let cutoff: i64 = now - timeout_seconds;
    if !status.is_active() {
        return false;
    }
    match assigned_at {
        None => {
            return false;
        },
        Some(t) => {
            if t >= cutoff {
                return false;
            }
        },
    }
    match assigned_client {
        None => true,
        Some(id) => {
            let mut k: usize = 0;
            while k < clients.len()
                invariant
                    k <= clients.len(),
                    status.active(),
                    assigned_at matches Some(t) && t < cutoff,
                    cutoff == now - timeout_seconds,
                    assigned_client == Some(id),
                    forall|m: int|
                        0 <= m < k ==> !((#[trigger] clients@[m]).id@ == id@
                            && clients@[m].last_heartbeat < cutoff),
                decreases clients.len() - k,
            {
                if clients[k].last_heartbeat < cutoff && str_eq(clients[k].id.as_str(), id) {
                    assert(clients@[k as int].id@ == id@ && clients@[k as int].last_heartbeat
                        < cutoff);
                    return true;
                }
                k = k + 1;
            }
            false
        },
    }
}

/// The names under which job statuses are stored: `pending`, `assigned`, `in_progress`,
/// `completed` and `failed`.
pub proof fn job_status_names()
    ensures
        JobStatus::Pending.text() == "pending"@,
        JobStatus::Assigned.text() == "assigned"@,
        JobStatus::InProgress.text() == "in_progress"@,
        JobStatus::Completed.text() == "completed"@,
        JobStatus::Failed.text() == "failed"@,
{
}

} // verus!
