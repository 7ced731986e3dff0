use ffnodes::server::actor::{map_actor_error, require_initialized, status_after_init, ActorError, InitOutcome, InitializationStatus};
use ffnodes::server::clients::{client_status, timed_out_clients, Client, ClientRegistry};
use ffnodes::server::config::{ConfigError, Configuration};
use ffnodes::server::jobs::{check_start, is_stale_job, next_job, status_or_pending, JobStatus, QueuedJob, StartJobError};
use ffnodes::server::media::{media_file_from_probe, media_probe_command, frame_count_from_probe, frame_count_in_output, latest_frame_count, ScanProgress, Scanner};
use ffnodes::server::path_security::{
    path_components, path_starts_with, validate_path_security, validate_path_security_non_existent,
    validate_path_within_base, validate_path_within_base_non_existent, PathError,
};
use ffnodes::server::stats::{file_name_of, jobs_label, rank_of, LeaderboardCategory};
use ffnodes::server::templates::TemplateParser;
use ffnodes::builders::probe_result::{FormatSummary, StreamSummary};
use ffnodes::ffmpeg::FFMpeg;
use ffnodes::server::files::{output_path_for, upload_target};
use std::path::{Component, Path};
use ffnodes::server::media::{should_probe, ScanTally, is_video_file, needs_probing, plan_batch, watch_priority, FsEvent, FsEventKind, WatchAction};
use ffnodes::server::files::path_extension;
use ffnodes::server::auth::{bearer_token, AuthHeaderError, Claims};
use ffnodes::server::stats::{history_sizes, history_totals};
use ffnodes::server::jobs::output_template;

#[test]
fn path_security_test_validate_path_security_rejects_parent_dir() {
    let path = "../etc/passwd";
    assert!(validate_path_security(path, Ok("/etc/passwd".to_string())).is_err());
    assert!(validate_path_security(path, Err("not found".to_string())).is_err());
}

#[test]
fn path_security_accepts_plain_path() {
    let r = validate_path_security("/tmp/./a.mkv", Ok("/tmp/a.mkv".to_string()));
    assert_eq!(r, Ok("/tmp/a.mkv".to_string()));
}

#[test]
fn path_security_reports_canonicalize_failure_first() {
    let r = validate_path_security("../x", Err("No such file".to_string()));
    assert_eq!(r, Err(PathError::CanonicalizeFailed("No such file".to_string())));
}

#[test]
fn path_security_dots_in_names_are_not_traversal() {
    let r = validate_path_security("/media/..hidden/a...mkv", Ok("/media/..hidden/a...mkv".to_string()));
    assert!(r.is_ok());
}

#[test]
fn path_within_base_checks_components() {
    let bases = vec!["/media/videos".to_string()];
    assert_eq!(
        validate_path_within_base("/media/videos/a.mkv", Ok("/media/videos/a.mkv".to_string()), &bases),
        Ok("/media/videos/a.mkv".to_string())
    );
    assert_eq!(
        validate_path_within_base("/media/videos2/a.mkv", Ok("/media/videos2/a.mkv".to_string()), &bases),
        Err(PathError::NotWithinAllowedBase("/media/videos2/a.mkv".to_string()))
    );
}

#[test]
fn path_components_follow_std() {
    assert_eq!(path_components("/a//b/./c/"), vec!["/", "a", "b", "c"]);
    assert_eq!(path_components("./a/../b"), vec![".", "a", "..", "b"]);
    assert_eq!(path_components("a/."), vec!["a"]);
    assert!(path_starts_with("/a/b/c", "/a/b/"));
    assert!(!path_starts_with("/a/bc", "/a/b"));
}

#[test]
fn non_existent_path_joined_onto_cwd() {
    assert_eq!(
        validate_path_security_non_existent("out/x.mkv", Ok("/srv".to_string())),
        Ok("/srv/out/x.mkv".to_string())
    );
    assert_eq!(
        validate_path_security_non_existent("out/x.mkv", Ok("/srv/".to_string())),
        Ok("/srv/out/x.mkv".to_string())
    );
    assert_eq!(
        validate_path_security_non_existent("/abs/x.mkv", Err("no cwd".to_string())),
        Ok("/abs/x.mkv".to_string())
    );
    assert_eq!(
        validate_path_security_non_existent("rel", Err("no cwd".to_string())),
        Err(PathError::CurrentDirFailed("no cwd".to_string()))
    );
    assert_eq!(
        validate_path_security_non_existent("a/../b", Ok("/srv".to_string())),
        Err(PathError::ParentDirTraversal)
    );
    let bases = vec!["/srv".to_string()];
    assert_eq!(
        validate_path_within_base_non_existent("out/x.mkv", Ok("/srv".to_string()), &bases),
        Ok("/srv/out/x.mkv".to_string())
    );
}

#[test]
fn test_template_parsing() {
    let template = TemplateParser::new(
        "-c:v h264{HWACCEL_CODE} -preset medium -crf 23 -i {INPUT} {OUTPUT}".to_string(),
    );

    let args = template.build_args("_nvenc", "input.mp4", "output.mp4");

    assert_eq!(
        args,
        vec![
            "-c:v",
            "h264_nvenc",
            "-preset",
            "medium",
            "-crf",
            "23",
            "-i",
            "input.mp4",
            "output.mp4"
        ]
    );
}

#[test]
fn test_template_no_hwaccel() {
    let template = TemplateParser::new(
        "-c:v h264{HWACCEL_CODE} -preset medium -i {INPUT} {OUTPUT}".to_string(),
    );

    let args = template.build_args("", "input.mp4", "output.mp4");

    assert_eq!(
        args,
        vec![
            "-c:v",
            "h264",
            "-preset",
            "medium",
            "-i",
            "input.mp4",
            "output.mp4"
        ]
    );
}

#[test]
fn template_parse_applies_replacements_in_order() {
    let t = TemplateParser::new("-preset {PRESET} -crf {CRF}".to_string());
    assert_eq!(t.parse(&[("{PRESET}", "slow"), ("{CRF}", "20")]), "-preset slow -crf 20");
}

#[test]
fn job_status_names_round_trip() {
    for s in [JobStatus::Pending, JobStatus::Assigned, JobStatus::InProgress, JobStatus::Completed, JobStatus::Failed] {
        assert_eq!(JobStatus::from_str(s.as_str()), Some(s));
    }
    assert_eq!(JobStatus::InProgress.as_str(), "in_progress");
    assert_eq!(JobStatus::from_str("Pending"), None);
    assert_eq!(status_or_pending("bogus"), JobStatus::Pending);
}

#[test]
fn leaderboard_category_names_round_trip() {
    for c in [LeaderboardCategory::MostJobs, LeaderboardCategory::MostSaved, LeaderboardCategory::HighestSpeed] {
        assert_eq!(LeaderboardCategory::from_str(c.as_str()), Some(c));
    }
    assert_eq!(LeaderboardCategory::from_str("fastest"), None);
}

#[test]
fn start_needs_assigned_status() {
    assert_eq!(check_start("j1", Some("assigned")), Ok(()));
    assert_eq!(check_start("j1", None), Err(StartJobError::NotFound("j1".to_string())));
    assert_eq!(
        check_start("j1", Some("pending")),
        Err(StartJobError::InvalidStatus("pending".to_string()))
    );
}

#[test]
fn next_job_prefers_priority_then_age() {
    let q = |status, priority, created_at, file_processed| QueuedJob { status, priority, created_at, file_processed };
    let jobs = vec![
        q(JobStatus::Pending, 5, 100, false),
        q(JobStatus::Pending, 9, 300, false),
        q(JobStatus::Pending, 9, 200, false),
        q(JobStatus::Assigned, 50, 1, false),
        q(JobStatus::Pending, 99, 1, true),
    ];
    assert_eq!(next_job(&jobs), Some(2));
    assert_eq!(next_job(&jobs[3..]), None);
}

fn client(id: &str, heartbeat: i64) -> Client {
    Client::new_at(id.to_string(), "n".to_string(), "c".to_string(), heartbeat)
}

#[test]
fn stale_jobs_follow_heartbeats() {
    let clients = vec![client("a", 100), client("b", 1000)];
    assert!(is_stale_job(JobStatus::Assigned, Some(10), Some("a"), &clients, 1060, 60));
    assert!(!is_stale_job(JobStatus::Assigned, Some(10), Some("b"), &clients, 1060, 60));
    assert!(is_stale_job(JobStatus::InProgress, Some(10), None, &clients, 1060, 60));
    assert!(!is_stale_job(JobStatus::Completed, Some(10), None, &clients, 1060, 60));
    assert!(!is_stale_job(JobStatus::Assigned, None, None, &clients, 1060, 60));
    assert!(!is_stale_job(JobStatus::Assigned, Some(10), Some("ghost"), &clients, 1060, 60));
}

#[test]
fn heartbeat_timeout_picks_silent_clients() {
    let clients = vec![client("a", 100), client("b", 1000), client("c", 939)];
    assert_eq!(timed_out_clients(&clients, 1000), vec!["a".to_string(), "c".to_string()]);
}

#[test]
fn new_client_is_connected() {
    let c = Client::new("id".to_string(), "Display".to_string(), "host".to_string());
    assert!(c.is_connected());
    assert_eq!(c.connected_at, c.last_heartbeat);
}

#[test]
fn registry_heartbeat_upsert_remove() {
    let mut r = ClientRegistry::new();
    r.add(client("a", 1));
    r.add(client("b", 2));
    r.record_heartbeat("b", 50);
    assert_eq!(r.clients()[1].last_heartbeat, 50);
    r.upsert(client("a", 70));
    assert_eq!(r.clients()[0].last_heartbeat, 70);
    r.upsert(client("z", 5));
    assert_eq!(r.clients().len(), 3);
    r.remove("a");
    let ids: Vec<&str> = r.clients().iter().map(|c| c.id.as_str()).collect();
    assert_eq!(ids, vec!["b", "z"]);
}

#[test]
fn actor_errors_map_to_http() {
    let e = map_actor_error(ActorError::NotInitialized);
    assert_eq!(e.status, 503);
    assert_eq!(e.message, "Server is still initializing, please try again");
    let e = map_actor_error(ActorError::DatabaseError("db down".to_string()));
    assert_eq!((e.status, e.message.as_str()), (500, "db down"));
    let e = map_actor_error(ActorError::NotFound);
    assert_eq!((e.status, e.message.as_str()), (404, "Resource not found"));
    let e = map_actor_error(ActorError::InvalidState("bad".to_string()));
    assert_eq!((e.status, e.message.as_str()), (500, "bad"));
    assert_eq!(ActorError::DatabaseError("x".to_string()).message(), "Database error: x");
}

#[test]
fn stats_text_pieces() {
    assert_eq!(file_name_of("/media/show/ep1.mkv"), "ep1.mkv");
    assert_eq!(file_name_of("C:\\videos\\a.mp4"), "a.mp4");
    assert_eq!(file_name_of("plain.mkv"), "plain.mkv");
    assert_eq!(file_name_of("dir/"), "");
    assert_eq!(jobs_label(12), "12 jobs");
    assert_eq!(jobs_label(-3), "-3 jobs");
}

#[test]
fn scan_progress_values() {
    let p = ScanProgress::with_total("Probing files", 7);
    assert_eq!((p.total_files, p.completed_files, p.operation.as_str()), (7, 0, "Probing files"));
    let p = ScanProgress::complete(7);
    assert_eq!((p.total_files, p.completed_files, p.operation.as_str()), (7, 7, "Complete"));
    assert!(ScanProgress::new("Scanning directories").current_file.is_none());
}

#[test]
fn video_extensions_and_priority() {
    assert!(Scanner::is_video_extension("mkv"));
    assert!(Scanner::is_video_extension("f4b"));
    assert!(!Scanner::is_video_extension("MKV"));
    assert!(!Scanner::is_video_extension("txt"));
    assert_eq!(Scanner::job_priority(10, 20), 30);
    assert_eq!(Scanner::job_priority(u64::MAX, 0), -1);
    assert_eq!(Scanner::job_priority(i64::MAX as u64, 5), i64::MAX);
    let long = "a".repeat(60);
    assert_eq!(Scanner::display_name(&long), format!("{}...", "a".repeat(47)));
    assert_eq!(Scanner::display_name("short.mkv"), "short.mkv");
}

#[test]
fn frame_counts_from_probe_and_output() {
    assert_eq!(frame_count_from_probe(Some("120"), Some("5"), None), Some(120));
    assert_eq!(frame_count_from_probe(Some("N/A"), None, Some("77")), Some(77));
    assert_eq!(frame_count_from_probe(None, None, None), None);
    assert_eq!(frame_count_in_output("frame=  250 fps= 30 q=-0.0 size=N/A"), Some(250));
    assert_eq!(frame_count_in_output("no frames here"), None);
    assert_eq!(frame_count_in_output("frame=1 frame=9 end"), Some(9));
    assert_eq!(latest_frame_count(Some(5), "speed=1x"), Some(5));
    assert_eq!(latest_frame_count(Some(5), "frame=6"), Some(6));
}

#[test]
fn configuration_repair_and_env() {
    let mut c = Configuration::default_config();
    assert_eq!(c.port, 7456);
    assert_eq!(c.output_container, "mkv");
    assert_eq!(c.server_guid.len(), 36);
    c.jwt_secret = String::new();
    c.output_container = String::new();
    assert!(c.fill_missing());
    assert_eq!(c.output_container, "mp4");
    assert_eq!(c.jwt_secret.len(), 36);
    assert!(!c.fill_missing());

    let r = c.apply_env(Some("abc"), Some("webm".to_string()), None, None);
    assert!(matches!(r, Err(ConfigError::InvalidPort)));
    assert_eq!(c.output_container, "mp4");
    let r = c.apply_env(Some("8080"), Some("webm".to_string()), Some(Ok(vec!["/v".to_string()])), Some("-i {INPUT} {OUTPUT}".to_string()));
    assert!(r.is_ok());
    assert_eq!((c.port, c.output_container.as_str()), (8080, "webm"));
    assert_eq!(c.watch_directories, vec!["/v".to_string()]);
    assert_eq!(c.ffmpeg_template, "-i {INPUT} {OUTPUT}");
    let r = c.apply_env(None, None, Some(Err("bad json".to_string())), Some("x".to_string()));
    assert!(matches!(r, Err(ConfigError::WatchDirectories(_))));
    assert_eq!(c.ffmpeg_template, "-i {INPUT} {OUTPUT}");
    assert_eq!(ConfigError::InvalidPort.message(), "FFNODE_PORT must be a valid integer");
}

#[test]
fn output_paths_match_std_paths() {
    for p in [
        "/media/show/ep1.mkv",
        "ep1.mkv",
        "/a.mkv",
        "/media/.hidden",
        "/media/archive.tar.gz",
        "/media/./x.mkv/",
        "./clip.avi",
        "dir//sub/./name",
        "a/b.c/d",
    ] {
        let path = Path::new(p);
        let stem = path.file_stem().unwrap().to_str().unwrap();
        let expected = path.parent().unwrap().join(format!("{}.{}", stem, "mp4"));
        assert_eq!(output_path_for(p, "mp4"), Ok(expected.to_string_lossy().to_string()), "path {}", p);
    }
    assert_eq!(output_path_for("/", "mp4"), Err("Invalid filename".to_string()));
    assert_eq!(output_path_for("a/..", "mp4"), Err("Invalid filename".to_string()));
    assert_eq!(output_path_for("", "mp4"), Err("Invalid filename".to_string()));
}

#[test]
fn components_match_std_paths() {
    for p in ["/a//b/./c/", "./a/../b", "a/.", ".", "", "//x", "../y/", "a/./.", "./"] {
        let expected: Vec<String> = Path::new(p)
            .components()
            .map(|c| match c {
                Component::RootDir => "/".to_string(),
                Component::CurDir => ".".to_string(),
                Component::ParentDir => "..".to_string(),
                Component::Normal(s) => s.to_string_lossy().to_string(),
                Component::Prefix(_) => String::new(),
            })
            .collect();
        assert_eq!(path_components(p), expected, "path {}", p);
    }
}

#[test]
fn watcher_and_probing_rules() {
    assert!(needs_probing(10, None));
    assert!(needs_probing(10, Some(9)));
    assert!(!needs_probing(10, Some(10)));
    assert!(!needs_probing(10, Some(-1)));
    assert!(is_video_file("/m/A.MKV"));
    assert!(!is_video_file("/m/.mkv"));
    assert!(!is_video_file("/m/notes.txt"));
    assert_eq!(watch_priority(3, 4), 12);
    let events = vec![
        FsEvent { kind: FsEventKind::Create, paths: vec!["/m/a.mp4".to_string(), "/m/b.txt".to_string()] },
        FsEvent { kind: FsEventKind::Other, paths: vec!["/m/c.mp4".to_string()] },
        FsEvent { kind: FsEventKind::Remove, paths: vec!["/m/d.avi".to_string()] },
    ];
    assert_eq!(
        plan_batch(&events),
        vec![WatchAction::Probe("/m/a.mp4".to_string()), WatchAction::Forget("/m/d.avi".to_string())]
    );
}

#[test]
fn extensions_match_std_paths() {
    for p in ["/a/b.mkv", "/a/.hidden", "a.tar.gz", "noext", "dir/", "a.", "/", "x/..", "./a.b/"] {
        let expected = Path::new(p).extension().map(|e| e.to_string_lossy().to_string());
        assert_eq!(path_extension(p), expected, "path {}", p);
    }
}

#[test]
fn bearer_tokens() {
    assert_eq!(bearer_token(Some("Bearer abc.def")), Ok("abc.def".to_string()));
    assert_eq!(bearer_token(Some("Basic x")), Err(AuthHeaderError::NotBearer));
    assert_eq!(bearer_token(None), Err(AuthHeaderError::Missing));
    assert_eq!(AuthHeaderError::Missing.message(), "Missing Authorization header");
    let c = Claims::issued_at("c1".to_string(), 1000, 90);
    assert_eq!((c.iat, c.exp), (1000, 1000 + 90 * 86400));
}

#[test]
fn history_sizes_and_totals() {
    let a = history_sizes(1000, Some(400), 10, 70);
    assert_eq!((a.duration_seconds, a.size_after, a.size_saved), (60, 400, 600));
    let b = history_sizes(500, None, 0, 5);
    assert_eq!((b.size_after, b.size_saved), (500, 0));
    assert_eq!(history_totals(&[a, b]), (65, 600));
    assert_eq!(history_totals(&[]), (0, 0));
}

#[test]
fn job_output_template() {
    assert_eq!(output_template("/m/a.mkv", "mp4"), "/m/a.mkv.h264.mp4");
}

#[test]
fn actor_initialization_outcomes() {
    assert_eq!(status_after_init(InitOutcome::Ready), InitializationStatus::Complete);
    assert_eq!(
        status_after_init(InitOutcome::Failed("no database".to_string())),
        InitializationStatus::Failed { error: "no database".to_string() }
    );
    assert_eq!(
        status_after_init(InitOutcome::Panicked("boom".to_string())),
        InitializationStatus::Failed { error: "Initialization task panicked: boom".to_string() }
    );
    assert!(require_initialized(true).is_ok());
    let e = require_initialized(false).unwrap_err();
    assert_eq!(map_actor_error(e).status, 503);
}

#[test]
fn client_status_and_ranks() {
    let c = Client::new_at("id1".to_string(), "Desk".to_string(), "desk-pc".to_string(), 500);
    let s = client_status(c, 3);
    assert_eq!((s.id.as_str(), s.display_name.as_str(), s.computer_name.as_str()), ("id1", "Desk", "desk-pc"));
    assert_eq!((s.connected_at, s.last_heartbeat, s.active_jobs_count), (500, 500, 3));
    assert_eq!(rank_of(0), 1);
    assert_eq!(rank_of(9), 10);
}

#[test]
fn fresh_configuration_ids_are_random_uuids() {
    let c = Configuration::default_config();
    for id in [&c.server_guid, &c.jwt_secret] {
        let chars: Vec<char> = id.chars().collect();
        assert_eq!(chars.len(), 36);
        for (i, ch) in chars.iter().enumerate() {
            if [8, 13, 18, 23].contains(&i) {
                assert_eq!(*ch, '-');
            } else {
                assert!(ch.is_ascii_hexdigit() && !ch.is_ascii_uppercase());
            }
        }
        assert_eq!(chars[14], '4');
        assert!(['8', '9', 'a', 'b'].contains(&chars[19]));
    }
    assert_ne!(c.server_guid, c.jwt_secret);
}

fn stream(kind: &str, w: Option<u32>, h: Option<u32>, nb: Option<&str>, tag: Option<&str>, tag_eng: Option<&str>) -> StreamSummary {
    StreamSummary {
        codec_type: Some(kind.to_string()),
        width: w,
        height: h,
        nb_frames: nb.map(String::from),
        frames_tag: tag.map(String::from),
        frames_tag_eng: tag_eng.map(String::from),
    }
}

#[test]
fn media_record_from_probe() {
    let format = || Some(FormatSummary { size: Some("1048576".to_string()), bit_rate: Some("N/A".to_string()) });
    let streams = vec![
        stream("audio", None, None, Some("10"), None, None),
        stream("video", Some(1920), Some(1080), Some("N/A"), None, Some("1440")),
        stream("video", Some(640), Some(480), Some("5"), None, None),
    ];
    let r = media_file_from_probe("/m/a.mkv".to_string(), format(), &streams).unwrap();
    assert_eq!(r.path, "/m/a.mkv");
    assert_eq!((r.scanned_size, r.scanned_bit_rate, r.width, r.height), (1048576, 0, 1920, 1080));
    assert_eq!(r.probe_frames, Some(1440));
    assert_eq!(r.frames(Some(7)), Ok(1440));
    let none = FormatSummary { size: None, bit_rate: Some("4000000".to_string()) };
    let r = media_file_from_probe("x".to_string(), Some(none), &streams[2..]).unwrap();
    assert_eq!((r.scanned_size, r.scanned_bit_rate, r.probe_frames), (0, 4000000, Some(5)));
    let no_count = vec![stream("video", Some(1), Some(2), None, Some("x"), None)];
    let r = media_file_from_probe("x".to_string(), format(), &no_count).unwrap();
    assert_eq!(r.probe_frames, None);
    assert_eq!(r.frames(Some(99)), Ok(99));
    assert_eq!(r.frames(None), Err("Failed to determine frame count".to_string()));
    let err = |f: Option<FormatSummary>, s: &[StreamSummary]| media_file_from_probe("x".to_string(), f, s).unwrap_err();
    assert_eq!(err(None, &streams), "Failed to parse ffprobe output");
    assert_eq!(err(format(), &streams[..1]), "Failed to parse ffprobe output");
    let no_height = vec![stream("video", Some(1), None, Some("3"), None, None)];
    assert_eq!(err(format(), &no_height), "Failed to parse ffprobe output");
}

#[test]
fn media_probe_arguments() {
    let cmd = media_probe_command(&FFMpeg::new("ffmpeg", "ffprobe"), "/m/a.mkv").unwrap();
    assert_eq!(
        cmd.args(),
        ["-print_format", "json", "-show_streams", "-loglevel", "1", "-show_format", "-i", "/m/a.mkv"]
    );
}

#[test]
fn upload_target_checks_job_then_path() {
    let e = upload_target(None, "/m/a.mkv", "mp4").unwrap_err();
    assert_eq!((e.status, e.message.as_str()), (404, "Job not found"));
    let e = upload_target(Some("assigned"), "/m/a.mkv", "mp4").unwrap_err();
    assert_eq!((e.status, e.message.as_str()), (400, "Job is not in progress (status: assigned)"));
    assert_eq!(upload_target(Some("in_progress"), "/m/show/a.b.mkv", "mp4").unwrap(), "/m/show/a.b.mp4");
    assert_eq!(upload_target(Some("in_progress"), "a.mkv", "mp4").unwrap(), "a.mp4");
    let e = upload_target(Some("in_progress"), "/", "mp4").unwrap_err();
    assert_eq!((e.status, e.message.as_str()), (500, "Invalid filename"));
}

#[test]
fn scan_tally_counts_and_reports() {
    let (t, p) = ScanTally::start(0);
    assert!(t.is_none());
    assert_eq!((p.total_files, p.completed_files, p.current_file, p.operation.as_str()), (0, 0, None, "Complete"));
    let (t, p) = ScanTally::start(3);
    let mut t = t.unwrap();
    assert_eq!((p.total_files, p.completed_files, p.operation.as_str()), (3, 0, "Probing files"));
    t.record(true);
    let p = t.progress_for("/m/b.mkv".to_string());
    assert_eq!((p.total_files, p.completed_files, p.current_file.as_deref()), (3, 1, Some("/m/b.mkv")));
    t.record(false);
    t.record(true);
    let (p, inserted) = t.finish();
    assert_eq!((p.total_files, p.completed_files, p.operation.as_str(), inserted), (3, 3, "Complete", 2));
    assert!(should_probe(Some("mkv"), Some(true)));
    assert!(should_probe(Some("mp4"), None));
    assert!(!should_probe(Some("mkv"), Some(false)));
    assert!(!should_probe(Some("MKV"), Some(true)));
    assert!(!should_probe(None, Some(true)));
}
