use ffnodes::client::api::{bearer, check_download_complete, progress_report_due, route_url, upload_file_name, ApiRoute};
use ffnodes::client::config::ClientConfig;
use ffnodes::client::encoder::{
    add_progress_args, args_from_words, build_ffmpeg_args, duration_probe_command, frame_count_from_packets,
    frame_count_probe_command, frame_extraction_command, frame_file_name, read_progress_line, reports_progress,
    ProgressLine,
};
use ffnodes::data_url::jpeg_data_url;
use ffnodes::ffmpeg::FFMpeg;
use ffnodes::client::gpu::{gpu_from_adapters, gpu_on_linux, gpu_on_macos, GpuInfo, VideoAdapter};
use ffnodes::client::job_manager::{
    after_run, job_error, loop_step, JobManagerState, JobRun, LoopStep, RunAction, RunEvent, RunOutcome,
};
use ffnodes::client::logger::{archived_log_name, log_frontend, LogLevel};
use ffnodes::client::machine_id::{choose_mac_address, cpu_identifier, hash_identifier, is_virtual_mac, machine_id_from};
use ffnodes::client::oauth::{
    authorization_code, authorization_url, client_id_var, client_secret_var, code_exchange_form, refresh_form, code_from_callback, redirect_uri, refresh_endpoint,
    token_endpoint, token_response,
};

#[test]
fn test_is_virtual_mac() {
    assert!(is_virtual_mac("00:05:69:AB:CD:EF")); // VMware
    assert!(is_virtual_mac("08:00:27:12:34:56")); // VirtualBox
    assert!(!is_virtual_mac("A4:B1:C2:D3:E4:F5")); // Real adapter
}

#[test]
fn test_hash_identifier() {
    let input = "test-hardware-id";
    let hash = hash_identifier(input);

    // SHA-256 produces 64-character hex string
    assert_eq!(hash.len(), 64);

    // Same input should produce same hash
    assert_eq!(hash, hash_identifier(input));
}

#[test]
fn hash_identifier_known_digest() {
    assert_eq!(
        hash_identifier("abc"),
        "ba7816bf8f01cfea414140de5dae2223b00361a396177a9cb410ff61f20015ad"
    );
}

#[test]
fn machine_id_components() {
    let id = machine_id_from(Some("A4:B1:C2:D3:E4:F5".to_string()), Some("CPU".to_string()));
    assert_eq!(id, hash_identifier("A4:B1:C2:D3:E4:F5|CPU"));
    let id = machine_id_from(None, Some("CPU".to_string()));
    assert_eq!(id, hash_identifier("CPU"));
    let id = machine_id_from(None, None);
    assert_eq!(id.len(), 36);
    assert_eq!(
        choose_mac_address(Some("00:50:56:00:00:01".to_string()), Some("11:22:33:44:55:66".to_string())),
        Some("11:22:33:44:55:66".to_string())
    );
    assert_eq!(choose_mac_address(Some("A4:B1:C2:D3:E4:F5".to_string()), None), Some("A4:B1:C2:D3:E4:F5".to_string()));
    assert_eq!(cpu_identifier(Some("")), None);
    assert_eq!(cpu_identifier(Some("Ryzen")), Some("Ryzen".to_string()));
}

#[test]
fn gpu_detection_rules() {
    let fb = GpuInfo::fallback();
    assert_eq!((fb.vendor.as_str(), fb.encoder_h264.as_str()), ("Software", "libx264"));
    let adapters = vec![
        VideoAdapter { name: "Microsoft Basic Display".to_string(), vendor: "Microsoft".to_string() },
        VideoAdapter { name: "Radeon RX 6800".to_string(), vendor: "Advanced Micro Devices, Inc.".to_string() },
        VideoAdapter { name: "GeForce RTX".to_string(), vendor: "NVIDIA".to_string() },
    ];
    let g = gpu_from_adapters(&adapters);
    assert_eq!((g.vendor.as_str(), g.name.as_str(), g.encoder_h265.as_str()), ("AMD", "Radeon RX 6800", "hevc_amf"));
    assert_eq!(gpu_from_adapters(&[]).vendor, "Software");
    assert_eq!(gpu_on_linux(false, Some(" 0x8086\n"), true).encoder_h264, "h264_qsv");
    assert_eq!(gpu_on_linux(false, Some("0x10de"), true).encoder_h264, "h264_vaapi");
    assert_eq!(gpu_on_linux(true, None, false).vendor, "NVIDIA");
    assert_eq!(gpu_on_linux(false, None, false).vendor, "Software");
    assert_eq!(gpu_on_macos().encoder_h265, "hevc_videotoolbox");
}

#[test]
fn job_manager_state_transitions() {
    let mut s = JobManagerState::new();
    assert!(s.start().is_ok());
    assert!(s.is_processing && !s.is_paused);
    assert_eq!(s.start(), Err("Job processing is already running".to_string()));
    s.pause();
    assert!(s.is_paused);
    assert_eq!(loop_step(&s), LoopStep::Wait(5));
    s.resume();
    assert_eq!(loop_step(&s), LoopStep::ProcessNextJob);
    s.current_job_id = Some("j".to_string());
    s.stop();
    assert!(!s.is_processing && !s.is_paused && s.current_job_id.is_none());
    assert_eq!(loop_step(&s), LoopStep::Stop);
}

#[test]
fn after_run_waits() {
    let r = after_run(&Ok(true));
    assert_eq!((r.wait_seconds, r.error_event), (0, None));
    let r = after_run(&Ok(false));
    assert_eq!(r.wait_seconds, 5);
    let r = after_run(&Err(job_error("boom")));
    assert_eq!((r.wait_seconds, r.error_event), (10, Some("Error: boom".to_string())));
}

fn job_id_of(a: &RunAction) -> String {
    match a {
        RunAction::StartJob { job_id }
        | RunAction::DownloadInput { job_id }
        | RunAction::ExtractFrame { job_id }
        | RunAction::EncodeVideo { job_id }
        | RunAction::UploadOutput { job_id }
        | RunAction::RemoveTempFiles { job_id }
        | RunAction::CompleteJob { job_id, .. }
        | RunAction::ReportFailure { job_id, .. } => job_id.clone(),
        _ => String::new(),
    }
}

#[test]
fn job_run_happy_path() {
    let (run, a) = JobRun::begin(true, true, Some("tok".to_string()));
    assert!(matches!(a, RunAction::RequestJob { ref auth_token } if auth_token == "tok"));
    let (run, a) = run.step(RunEvent::JobOffered { job_id: Some("j1".to_string()) });
    assert!(matches!(a, Some(RunAction::StartJob { .. })));
    assert_eq!(job_id_of(a.as_ref().unwrap()), "j1");
    let (run, a) = run.step(RunEvent::Succeeded);
    assert!(matches!(a, Some(RunAction::DownloadInput { .. })));
    let (run, a) = run.step(RunEvent::Succeeded);
    assert!(matches!(a, Some(RunAction::ExtractFrame { .. })));
    let (run, a) = run.step(RunEvent::Succeeded);
    assert!(matches!(a, Some(RunAction::EncodeVideo { .. })));
    let (run, a) = run.step(RunEvent::Encoded { output_size: 1000, output_bitrate: 800 });
    assert!(matches!(a, Some(RunAction::UploadOutput { .. })));
    let (run, a) = run.step(RunEvent::Succeeded);
    assert!(matches!(a, Some(RunAction::RemoveTempFiles { .. })));
    let (run, a) = run.step(RunEvent::Succeeded);
    assert!(matches!(a, Some(RunAction::CompleteJob { output_size: 1000, output_bitrate: 800, .. })));
    let (run, a) = run.step(RunEvent::Succeeded);
    assert!(matches!(a, Some(RunAction::Finish { outcome: RunOutcome::Completed { ref job_id } }) if job_id == "j1"));
    let (_, a) = run.step(RunEvent::Succeeded);
    assert!(a.is_none());
}

#[test]
fn job_run_failure_is_reported() {
    let (run, _) = JobRun::begin(true, true, Some("tok".to_string()));
    let (run, _) = run.step(RunEvent::JobOffered { job_id: Some("j2".to_string()) });
    let (run, _) = run.step(RunEvent::Succeeded);
    let (run, a) = run.step(RunEvent::Failed { error: job_error("disk full") });
    assert!(matches!(a, Some(RunAction::ReportFailure { ref message, .. }) if message == "disk full"));
    let (_, a) = run.step(RunEvent::FailureReported);
    match a {
        Some(RunAction::Finish { outcome: RunOutcome::Failed { error, event } }) => {
            assert_eq!(error.full, "disk full");
            assert_eq!(event, Some("Job failed: disk full".to_string()));
        }
        _ => panic!("run did not end failed"),
    }
}

#[test]
fn job_run_without_setup_or_jobs() {
    let (_, a) = JobRun::begin(false, true, Some("t".to_string()));
    assert!(matches!(a, RunAction::Finish { outcome: RunOutcome::Failed { ref error, event: None } } if error.brief == "No configuration set"));
    let (_, a) = JobRun::begin(true, true, None);
    assert!(matches!(a, RunAction::Finish { outcome: RunOutcome::Failed { ref error, .. } } if error.brief == "No auth token"));
    let (run, _) = JobRun::begin(true, true, Some("t".to_string()));
    let (_, a) = run.step(RunEvent::JobOffered { job_id: None });
    assert!(matches!(a, Some(RunAction::Finish { outcome: RunOutcome::NoJob })));
}

#[test]
fn encoder_arguments() {
    let gpu = GpuInfo {
        vendor: "NVIDIA".to_string(),
        name: "RTX".to_string(),
        encoder_h264: "h264_nvenc".to_string(),
        encoder_h265: "hevc_nvenc".to_string(),
    };
    let args = build_ffmpeg_args("/tmp/in put.mkv", "/tmp/out.mkv", &gpu, "-i {INPUT} -c:v h264{HWACCEL_CODE} {OUTPUT}").unwrap();
    assert_eq!(args, vec!["-i", "/tmp/in put.mkv", "-c:v", "h264_nvenc", "/tmp/out.mkv"]);
    assert!(build_ffmpeg_args("a", "b", &gpu, "-vf \"scale").is_err());
    assert_eq!(args_from_words(None), Err("Failed to parse FFmpeg command template".to_string()));
    let with = add_progress_args(args);
    assert_eq!(with, vec!["-i", "/tmp/in put.mkv", "-c:v", "h264_nvenc", "-progress", "pipe:2", "/tmp/out.mkv"]);
    assert!(add_progress_args(vec![]).is_empty());
}

#[test]
fn encoder_progress_lines() {
    assert!(matches!(read_progress_line("frame=123\n"), ProgressLine::Frame(123)));
    assert!(matches!(read_progress_line("frame= 2957 fps=410 q=-0.0"), ProgressLine::Frame(2957)));
    assert!(matches!(read_progress_line("frame=abc"), ProgressLine::Frame(0)));
    assert!(matches!(read_progress_line("fps=45.6"), ProgressLine::Fps(ref v) if v == "45.6"));
    assert!(matches!(read_progress_line("bitrate=1234.5kbits/s"), ProgressLine::Bitrate(ref v) if v == "1234.5"));
    assert!(matches!(read_progress_line("speed=1.2x"), ProgressLine::Speed(ref v) if v == "1.2"));
    assert!(matches!(read_progress_line("progress=continue"), ProgressLine::Marker(ref v) if v == "continue"));
    assert!(matches!(read_progress_line("out_time=00:00:01"), ProgressLine::Ignored));
    assert!(matches!(read_progress_line("no equals sign"), ProgressLine::Ignored));
    assert!(reports_progress("end", 3));
    assert!(!reports_progress("continue", 0));
    assert!(!reports_progress("pause", 3));
}

#[test]
fn api_routes() {
    assert_eq!(route_url("http://s:7456", &ApiRoute::StartJob { job_id: "j".to_string() }), "http://s:7456/api/jobs/j/start");
    assert_eq!(route_url("h", &ApiRoute::RemoteProgress { exclude_client_id: Some("c".to_string()) }), "h/api/stats/remote-progress?exclude_self=c");
    assert_eq!(route_url("h", &ApiRoute::RemoteProgress { exclude_client_id: None }), "h/api/stats/remote-progress");
    assert_eq!(route_url("h", &ApiRoute::Handshake), "h/api/handshake");
    assert_eq!(bearer("t"), "Bearer t");
    assert!(check_download_complete(5, 5).is_ok());
    assert_eq!(check_download_complete(3, 5), Err("Incomplete download: expected 5 bytes, got 3 bytes".to_string()));
}

#[test]
fn oauth_addresses_and_tokens() {
    let redirect = redirect_uri(3000);
    assert_eq!(redirect, "http://localhost:3000");
    assert_eq!(
        authorization_url("github", "cid", &redirect, "read:user email").unwrap(),
        "https://github.com/login/oauth/authorize?client_id=cid&redirect_uri=http%3A%2F%2Flocalhost%3A3000&scope=read%3Auser%20email"
    );
    assert_eq!(
        authorization_url("google", "cid", "x", "s").unwrap(),
        "https://accounts.google.com/o/oauth2/v2/auth?client_id=cid&redirect_uri=x&response_type=code&scope=s"
    );
    assert_eq!(authorization_url("myspace", "c", "r", "s"), Err("Unsupported OAuth provider: myspace".to_string()));
    assert_eq!(token_endpoint("github").unwrap(), "https://github.com/login/oauth/access_token");
    assert_eq!(token_endpoint("x"), Err("Unsupported provider: x".to_string()));
    assert_eq!(refresh_endpoint("github"), Err("GitHub tokens do not expire and cannot be refreshed".to_string()));
    assert_eq!(client_secret_var("google"), "GOOGLE_CLIENT_SECRET");
    assert_eq!(authorization_code("http://localhost:3000/?state=1&code=abc%20d"), Ok("abc d".to_string()));
    assert_eq!(authorization_code("http://localhost:3000/?state=1"), Err("No authorization code in callback URL".to_string()));
    assert!(authorization_code("not a url").unwrap_err().starts_with("Failed to parse callback URL: "));
    assert_eq!(code_from_callback(Err("bad".to_string())), Err("Failed to parse callback URL: bad".to_string()));
    let t = token_response(Some("a".to_string()), None, None, None, None, Some("r0".to_string())).unwrap();
    assert_eq!((t.access_token.as_str(), t.refresh_token, t.expires_in, t.token_type.as_str()), ("a", Some("r0".to_string()), 3600, "Bearer"));
    assert_eq!(token_response(None, None, None, None, None, None).unwrap_err(), "Missing access_token");
}

#[test]
fn frontend_logging() {
    let l = log_frontend("WARN", "m".to_string(), None);
    assert_eq!(l.level, LogLevel::Warn);
    assert_eq!(l.source, "frontend");
    let l = log_frontend("verbose", "m".to_string(), Some("ui".to_string()));
    assert_eq!((l.level, l.source.as_str()), (LogLevel::Info, "ui"));
    assert_eq!(archived_log_name("ffnodes-client", "2024-01-02", 0), "ffnodes-client.2024-01-02.log");
    assert_eq!(archived_log_name("ffnodes-server", "2024-01-02", 3), "ffnodes-server.2024-01-02.3.log");
}

#[test]
fn client_config_defaults_and_session() {
    let mut c = ClientConfig::new("http://s".to_string(), "g".to_string(), "me".to_string(), None, "mid".to_string());
    assert_eq!(c.computer_name, "Unknown");
    assert_eq!(c.auto_start_processing, Some(false));
    assert_eq!(c.require_auth_token(), Err("No auth token".to_string()));
    c.set_session("cid".to_string(), "tok".to_string());
    assert_eq!(c.require_auth_token(), Ok("tok".to_string()));
    assert_eq!(c.require_client_id(), Ok("cid".to_string()));
    c.auto_start_processing = None;
    c.fill_defaults();
    assert_eq!(c.auto_start_processing, Some(false));
    let h = c.handshake_request();
    assert_eq!((h.server_guid.as_str(), h.machine_id.as_str()), ("g", "mid"));
}

#[test]
fn frame_preview_as_data_url() {
    assert_eq!(jpeg_data_url(b""), "data:image/jpeg;base64,");
    assert_eq!(jpeg_data_url(b"M"), "data:image/jpeg;base64,TQ==");
    assert_eq!(jpeg_data_url(b"Ma"), "data:image/jpeg;base64,TWE=");
    assert_eq!(jpeg_data_url(b"Man"), "data:image/jpeg;base64,TWFu");
    assert_eq!(jpeg_data_url(b"hello world~"), "data:image/jpeg;base64,aGVsbG8gd29ybGR+");
    assert_eq!(jpeg_data_url(&[0xff, 0xd8, 0xff, 0xe0, 0x3f]), "data:image/jpeg;base64,/9j/4D8=");
}

#[test]
fn frame_extraction_and_probe_commands() {
    let ffmpeg = FFMpeg::new("/usr/bin/ffmpeg", "/usr/bin/ffprobe");
    let cmd = frame_extraction_command(&ffmpeg, "/tmp/in.mkv", "12.5", "/tmp/frame_in.jpg").unwrap();
    assert_eq!(
        cmd.args(),
        ["-vframes", "1", "-q:v", "2", "-y", "-ss", "12.5", "-i", "/tmp/in.mkv", "/tmp/frame_in.jpg"]
    );
    assert_eq!(cmd.ffmpeg().ffmpeg_path(), "/usr/bin/ffmpeg");
    let probe = duration_probe_command(&ffmpeg, "/tmp/in.mkv").unwrap();
    assert_eq!(
        probe.args(),
        ["-print_format", "json", "-show_format", "-loglevel", "16", "-hide_banner", "-i", "/tmp/in.mkv"]
    );
    assert!(probe.check_json_output().is_ok());
    let probe = frame_count_probe_command(&ffmpeg, "/tmp/in.mkv").unwrap();
    assert_eq!(
        probe.args(),
        [
            "-print_format", "json", "-select_streams", "v", "-count_packets", "-show_streams", "-loglevel", "16",
            "-hide_banner", "-i", "/tmp/in.mkv"
        ]
    );
    assert_eq!(frame_file_name("/videos/show.s01e01.mkv"), "frame_show.s01e01.jpg");
    assert_eq!(frame_file_name("/"), "frame_video.jpg");
}

#[test]
fn frame_count_from_probed_packets() {
    assert_eq!(frame_count_from_packets(Some("1440")), Ok(1440));
    assert_eq!(frame_count_from_packets(Some("-3")), Ok(-3));
    assert_eq!(frame_count_from_packets(None), Err("No packet count found in probe result".to_string()));
    assert_eq!(
        frame_count_from_packets(Some("12a")),
        Err("Failed to parse frame count: invalid digit found in string".to_string())
    );
    assert_eq!(
        frame_count_from_packets(Some("")),
        Err("Failed to parse frame count: cannot parse integer from empty string".to_string())
    );
    for p in ["", "-", "+", "12a", "-+1", "9223372036854775808", "-9223372036854775809", "99999999999999999999x",
        "1x99999999999999999999", " 5", "+-3"]
    {
        let reason = p.parse::<i64>().unwrap_err();
        assert_eq!(frame_count_from_packets(Some(p)), Err(format!("Failed to parse frame count: {}", reason)));
    }
}

#[test]
fn transfer_reports_and_upload_names() {
    assert!(!progress_report_due(99, 10, 100));
    assert!(progress_report_due(100, 10, 100));
    assert!(progress_report_due(0, 100, 100));
    assert!(progress_report_due(0, 120, 100));
    assert_eq!(upload_file_name("/tmp/ffnodes-client/output_42"), "output_42");
    assert_eq!(upload_file_name("/tmp/out.mp4/"), "out.mp4");
    assert_eq!(upload_file_name("/tmp/.."), "output.mp4");
    assert_eq!(upload_file_name("/"), "output.mp4");
}

#[test]
fn oauth_forms_and_variables() {
    assert_eq!(client_id_var("google"), "GOOGLE_CLIENT_ID");
    let form = code_exchange_form("c0de", "id", "secret", "http://localhost:8080/callback");
    let pairs: Vec<(&str, &str)> = form.iter().map(|(k, v)| (k.as_str(), v.as_str())).collect();
    assert_eq!(
        pairs,
        vec![
            ("grant_type", "authorization_code"),
            ("code", "c0de"),
            ("client_id", "id"),
            ("client_secret", "secret"),
            ("redirect_uri", "http://localhost:8080/callback"),
        ]
    );
    let form = refresh_form("r1", "id", "secret");
    let pairs: Vec<(&str, &str)> = form.iter().map(|(k, v)| (k.as_str(), v.as_str())).collect();
    assert_eq!(
        pairs,
        vec![("grant_type", "refresh_token"), ("refresh_token", "r1"), ("client_id", "id"), ("client_secret", "secret")]
    );
}

#[test]
fn test_generate_machine_id() {
    // Whatever hardware is found (MAC address, CPU, or neither), an id is produced.
    let found = [
        (Some("A4:B1:C2:D3:E4:F5".to_string()), Some("Intel(R) Core(TM) i7".to_string())),
        (Some("A4:B1:C2:D3:E4:F5".to_string()), None),
        (None, Some("Apple M2".to_string())),
        (None, None),
    ];
    for (mac, cpu) in found {
        let id = machine_id_from(mac, cpu);
        assert!(!id.is_empty());
        assert!(id.len() >= 32);
    }
}
