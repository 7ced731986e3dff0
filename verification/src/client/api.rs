//! The client's view of the server API: the address of each endpoint and the checks
//! made on transfers.
use vstd::prelude::*;
use crate::server::files::{file_name_of_path, path_file_name};
use crate::text::{concat, decimal, decimal_string, owned, push_str};

verus! {

/// The handshake a client sends to register with the server.
#[derive(Debug)]
pub struct HandshakeRequest {
    pub server_guid: String,
    pub display_name: String,
    pub computer_name: String,
    pub machine_id: String,
}

/// The server's answer to a handshake.
#[derive(Debug)]
pub struct HandshakeResponse {
    pub client_id: String,
    pub auth_token: String,
    pub ffmpeg_template: String,
}

/// An endpoint of the server API, with the ids it names.
#[derive(Debug)]
pub enum ApiRoute {
    Handshake,
    RequestJob { client_id: String },
    StartJob { job_id: String },
    JobProgress { job_id: String },
    CompleteJob { job_id: String },
    FailJob { job_id: String },
    CancelJob { job_id: String },
    Disconnect { client_id: String },
    Heartbeat { client_id: String },
    InputFile { job_id: String },
    OutputFile { job_id: String },
    ActiveJobs,
    ClientHistory { client_id: String },
    RemoteProgress { exclude_client_id: Option<String> },
    Leaderboard { category: String },
}

/// The path (and query) of an endpoint, after the server's base address.
pub open spec fn route_path(route: ApiRoute) -> Seq<char> {
    match route {
        ApiRoute::Handshake => "/api/handshake"@,
        ApiRoute::RequestJob { client_id } => "/api/jobs/request/"@ + client_id@,
        ApiRoute::StartJob { job_id } => "/api/jobs/"@ + job_id@ + "/start"@,
        ApiRoute::JobProgress { job_id } => "/api/jobs/"@ + job_id@ + "/progress"@,
        ApiRoute::CompleteJob { job_id } => "/api/jobs/"@ + job_id@ + "/complete"@,
        ApiRoute::FailJob { job_id } => "/api/jobs/"@ + job_id@ + "/fail"@,
        ApiRoute::CancelJob { job_id } => "/api/jobs/"@ + job_id@ + "/cancel"@,
        ApiRoute::Disconnect { client_id } => "/api/clients/"@ + client_id@ + "/disconnect"@,
        ApiRoute::Heartbeat { client_id } => "/api/heartbeat/"@ + client_id@,
        ApiRoute::InputFile { job_id } => "/api/files/"@ + job_id@ + "/input"@,
        ApiRoute::OutputFile { job_id } => "/api/files/"@ + job_id@ + "/output"@,
        ApiRoute::ActiveJobs => "/api/jobs/active"@,
        ApiRoute::ClientHistory { client_id } => "/api/stats/client/"@ + client_id@ + "/history"@,
        ApiRoute::RemoteProgress { exclude_client_id } => match exclude_client_id {
            Some(c) => "/api/stats/remote-progress?exclude_self="@ + c@,
            None => "/api/stats/remote-progress"@,
        },
        ApiRoute::Leaderboard { category } => "/api/stats/leaderboard?category="@ + category@,
    }
}

/// The server's path for each endpoint: `/api/handshake`; `/api/jobs/request/` and the
/// client; `/api/jobs/` and the job followed by `/start`, `/progress`, `/complete`,
/// `/fail` or `/cancel`; `/api/clients/` and the client followed by `/disconnect`;
/// `/api/heartbeat/` and the client; `/api/files/` and the job followed by `/input` or
/// `/output`; `/api/jobs/active`; `/api/stats/client/` and the client followed by
/// `/history`; `/api/stats/remote-progress`, with `?exclude_self=` and a client when
/// one is excluded; and `/api/stats/leaderboard?category=` and the category.
pub proof fn route_paths(id: String, category: String)
    ensures
        route_path(ApiRoute::Handshake) == "/api/handshake"@,
        route_path(ApiRoute::RequestJob { client_id: id }) == "/api/jobs/request/"@ + id@,
        route_path(ApiRoute::StartJob { job_id: id }) == "/api/jobs/"@ + id@ + "/start"@,
        route_path(ApiRoute::JobProgress { job_id: id }) == "/api/jobs/"@ + id@ + "/progress"@,
        route_path(ApiRoute::CompleteJob { job_id: id }) == "/api/jobs/"@ + id@ + "/complete"@,
        route_path(ApiRoute::FailJob { job_id: id }) == "/api/jobs/"@ + id@ + "/fail"@,
        route_path(ApiRoute::CancelJob { job_id: id }) == "/api/jobs/"@ + id@ + "/cancel"@,
        route_path(ApiRoute::Disconnect { client_id: id }) == "/api/clients/"@ + id@ + "/disconnect"@,
        route_path(ApiRoute::Heartbeat { client_id: id }) == "/api/heartbeat/"@ + id@,
        route_path(ApiRoute::InputFile { job_id: id }) == "/api/files/"@ + id@ + "/input"@,
        route_path(ApiRoute::OutputFile { job_id: id }) == "/api/files/"@ + id@ + "/output"@,
        route_path(ApiRoute::ActiveJobs) == "/api/jobs/active"@,
        route_path(ApiRoute::ClientHistory { client_id: id }) == "/api/stats/client/"@ + id@
            + "/history"@,
        route_path(ApiRoute::RemoteProgress { exclude_client_id: None }) == "/api/stats/remote-progress"@,
        route_path(ApiRoute::RemoteProgress { exclude_client_id: Some(id) })
            == "/api/stats/remote-progress?exclude_self="@ + id@,
        route_path(ApiRoute::Leaderboard { category }) == "/api/stats/leaderboard?category="@
            + category@,
{
}

/// Texts that share a beginning and end differently are different.
proof fn lemma_endings_differ(head: Seq<char>, a: Seq<char>, b: Seq<char>)
    requires
        a != b,
    ensures
        head + a != head + b,
{
    if head + a == head + b {
        assert((head + a).skip(head.len() as int) =~= a);
        assert((head + b).skip(head.len() as int) =~= b);
    }
}

/// The things done to one job go to different places: starting it, reporting its
/// progress, completing it, failing it and cancelling it are five different paths, and
/// its input and output files are two different paths.
pub proof fn job_routes_differ(job_id: String)
    ensures
        ({
            let paths = seq![
                route_path(ApiRoute::StartJob { job_id }),
                route_path(ApiRoute::JobProgress { job_id }),
                route_path(ApiRoute::CompleteJob { job_id }),
                route_path(ApiRoute::FailJob { job_id }),
                route_path(ApiRoute::CancelJob { job_id }),
            ];
            forall|i: int, j: int| 0 <= i < j < 5 ==> paths[i] != paths[j]
        }),
        route_path(ApiRoute::InputFile { job_id }) != route_path(ApiRoute::OutputFile { job_id }),
{
    reveal_strlit("/start");
    reveal_strlit("/progress");
    reveal_strlit("/complete");
    reveal_strlit("/fail");
    reveal_strlit("/cancel");
    reveal_strlit("/input");
    reveal_strlit("/output");
    let head = "/api/jobs/"@ + job_id@;
    let ends = seq!["/start"@, "/progress"@, "/complete"@, "/fail"@, "/cancel"@];
    assert("/start"@.len() == 6);
    assert("/progress"@.len() == 9);
    assert("/complete"@.len() == 9);
    assert("/fail"@.len() == 5);
    assert("/cancel"@.len() == 7);
    assert("/progress"@[1] != "/complete"@[1]);
    assert forall|i: int, j: int| 0 <= i < j < 5 implies head + ends[i] != head + ends[j] by {
        assert(ends[i] != ends[j]) by {
            if i == 1 && j == 2 {
                assert(ends[i][1] != ends[j][1]);
            } else {
                assert(ends[i].len() != ends[j].len());
            }
        }
        lemma_endings_differ(head, ends[i], ends[j]);
    }
    assert("/input"@.len() == 6);
    assert("/output"@.len() == 7);
    lemma_endings_differ("/api/files/"@ + job_id@, "/input"@, "/output"@);
    let paths = seq![
        route_path(ApiRoute::StartJob { job_id }),
        route_path(ApiRoute::JobProgress { job_id }),
        route_path(ApiRoute::CompleteJob { job_id }),
        route_path(ApiRoute::FailJob { job_id }),
        route_path(ApiRoute::CancelJob { job_id }),
    ];
    assert forall|i: int| 0 <= i < 5 implies paths[i] == head + ends[i] by {}
}

/// `prefix`, the id, and `suffix`.
fn around(prefix: &str, id: &str, suffix: &str) -> (res: String)
    ensures
        res@ == prefix@ + id@ + suffix@,
{
    let mut s = concat(prefix, id);
    push_str(&mut s, suffix);
    s
}

/// The path (and query) of an endpoint (see [`route_path`]).
pub fn route_path_of(route: &ApiRoute) -> (res: String)
    ensures
        res@ == route_path(*route),
{
    match route {
        ApiRoute::Handshake => owned("/api/handshake"),
        ApiRoute::RequestJob { client_id } => concat("/api/jobs/request/", client_id.as_str()),
        ApiRoute::StartJob { job_id } => around("/api/jobs/", job_id.as_str(), "/start"),
        ApiRoute::JobProgress { job_id } => around("/api/jobs/", job_id.as_str(), "/progress"),
        ApiRoute::CompleteJob { job_id } => around("/api/jobs/", job_id.as_str(), "/complete"),
        ApiRoute::FailJob { job_id } => around("/api/jobs/", job_id.as_str(), "/fail"),
        ApiRoute::CancelJob { job_id } => around("/api/jobs/", job_id.as_str(), "/cancel"),
        ApiRoute::Disconnect { client_id } => around("/api/clients/", client_id.as_str(), "/disconnect"),
        ApiRoute::Heartbeat { client_id } => concat("/api/heartbeat/", client_id.as_str()),
        ApiRoute::InputFile { job_id } => around("/api/files/", job_id.as_str(), "/input"),
        ApiRoute::OutputFile { job_id } => around("/api/files/", job_id.as_str(), "/output"),
        ApiRoute::ActiveJobs => owned("/api/jobs/active"),
        ApiRoute::ClientHistory { client_id } => around("/api/stats/client/", client_id.as_str(), "/history"),
        ApiRoute::RemoteProgress { exclude_client_id } => match exclude_client_id {
            Some(c) => concat("/api/stats/remote-progress?exclude_self=", c.as_str()),
            None => owned("/api/stats/remote-progress"),
        },
        ApiRoute::Leaderboard { category } => concat("/api/stats/leaderboard?category=", category.as_str()),
    }
}

/// The full address of an endpoint on the server at `base_url`: the base address
/// followed by the endpoint's path.
pub fn route_url(base_url: &str, route: &ApiRoute) -> (res: String)
    ensures
        res@ == base_url@ + route_path(*route),
{
    let path = route_path_of(route);
    concat(base_url, path.as_str())
}

/// The `Authorization` header value for a token.
pub fn bearer(token: &str) -> (res: String)
    ensures
        res@ == "Bearer "@ + token@,
{
    concat("Bearer ", token)
}

/// Whether a transfer reports its progress now: when at least 100 ms have passed since
/// the last report, or when every announced byte has moved.
pub fn progress_report_due(millis_since_last: u64, transferred_bytes: u64, total_bytes: u64) -> (res: bool)
    ensures
        res == (millis_since_last >= 100 || transferred_bytes >= total_bytes),
{
    millis_since_last >= 100 || transferred_bytes >= total_bytes
}

/// The name an output file is uploaded under: its file name, or `output.mp4` when the
/// path has none.
pub fn upload_file_name(file_path: &str) -> (res: String)
    ensures
        res@ == match file_name_of_path(file_path@) {
            Some(n) => n,
            None => "output.mp4"@,
        },
{
    match path_file_name(file_path) {
        Some(n) => n,
        None => owned("output.mp4"),
    }
}

/// Checks that a download received every byte announced: else the error
/// `Incomplete download: expected N bytes, got M bytes`.
pub fn check_download_complete(downloaded_bytes: u64, total_bytes: u64) -> (res: Result<(), String>)
    ensures
        downloaded_bytes == total_bytes ==> res is Ok,
        downloaded_bytes != total_bytes ==> (res matches Err(e) && e@
            == "Incomplete download: expected "@ + decimal(total_bytes as nat) + " bytes, got "@
            + decimal(downloaded_bytes as nat) + " bytes"@),
{
    if downloaded_bytes == total_bytes {
        return Ok(());
    }
    let mut e = concat("Incomplete download: expected ", decimal_string(total_bytes).as_str());
    push_str(&mut e, " bytes, got ");
    push_str(&mut e, decimal_string(downloaded_bytes).as_str());
    push_str(&mut e, " bytes");
    Err(e)
}

} // verus!
