use std::sync::Arc;

use ffnodes::builders::common::{
    AudioCodec, ChannelLayout, ContainerFormat, HardwareAccel, PixelFormat, Preset, ProbeFormat, ScaleAlgorithm,
    StreamType, VideoCodec,
};
use ffnodes::builders::error::BuilderError;
use ffnodes::builders::ffmpeg_builder::FFmpegBuilder;
use ffnodes::builders::ffprobe_builder::FFprobeBuilder;
use ffnodes::ffmpeg::FFMpeg;
use ffnodes::builders::probe_result::{bit_rate, first_audio_stream, first_video_stream, streams_of_type, video_resolution, StreamSummary};
use ffnodes::builders::probe_output::decode_probe_output;

fn has(args: &[String], s: &str) -> bool {
    args.iter().any(|a| a == s)
}

#[test]
fn test_builder_basic() {
    let ffmpeg = Arc::new(FFMpeg::default());
    let builder = FFmpegBuilder::new(ffmpeg)
        .input("input.mp4")
        .unwrap()
        .output("output.mp4")
        .unwrap()
        .video_codec(VideoCodec::H264)
        .audio_codec(AudioCodec::AAC);

    let cmd = builder.build().unwrap();
    let args = cmd.args();

    assert!(has(args, "-i"));
    assert!(has(args, "input.mp4"));
    assert!(has(args, "-c:v"));
    assert!(has(args, "libx264"));
    assert!(has(args, "-c:a"));
    assert!(has(args, "aac"));
    assert!(has(args, "output.mp4"));
}

#[test]
fn test_builder_no_input_error() {
    let ffmpeg = Arc::new(FFMpeg::default());
    let builder = FFmpegBuilder::new(ffmpeg).output("output.mp4").unwrap();

    let result = builder.build();
    assert!(matches!(result, Err(BuilderError::NoInput)));
}

#[test]
fn test_builder_no_output_error() {
    let ffmpeg = Arc::new(FFMpeg::default());
    let builder = FFmpegBuilder::new(ffmpeg).input("input.mp4").unwrap();

    let result = builder.build();
    assert!(matches!(result, Err(BuilderError::NoOutput)));
}

#[test]
fn test_probe_builder_basic() {
    let ffmpeg = Arc::new(FFMpeg::default());
    let probe = FFprobeBuilder::new(ffmpeg)
        .input("video.mp4")
        .unwrap()
        .show_streams()
        .show_format()
        .output_format(ProbeFormat::JSON);

    let cmd = probe.build().unwrap();
    let args = cmd.args();

    assert!(has(args, "-print_format"));
    assert!(has(args, "json"));
    assert!(has(args, "-show_streams"));
    assert!(has(args, "-show_format"));
    assert!(has(args, "-i"));
    assert!(has(args, "video.mp4"));
}

#[test]
fn test_probe_builder_no_input_error() {
    let ffmpeg = Arc::new(FFMpeg::default());
    let probe = FFprobeBuilder::new(ffmpeg).show_streams();

    let result = probe.build();
    assert!(matches!(result, Err(BuilderError::NoInput)));
}

#[test]
fn builder_exact_argument_order() {
    let ffmpeg = Arc::new(FFMpeg::new("ffmpeg", "ffprobe"));
    let cmd = FFmpegBuilder::new(ffmpeg)
        .overwrite(true)
        .input("in.mkv")
        .unwrap()
        .output("out.mp4")
        .unwrap()
        .video_codec(VideoCodec::H264)
        .crf(23)
        .build()
        .unwrap();
    let expected: Vec<String> =
        vec!["-y", "-i", "in.mkv", "-c:v", "libx264", "-crf", "23", "out.mp4"]
            .into_iter()
            .map(String::from)
            .collect();
    assert_eq!(cmd.args().to_vec(), expected);
}

#[test]
fn builder_video_filters_join_with_commas() {
    let ffmpeg = Arc::new(FFMpeg::default());
    let cmd = FFmpegBuilder::new(ffmpeg)
        .input("a.mp4")
        .unwrap()
        .output("b.mp4")
        .unwrap()
        .video_filter("scale=1280:-2")
        .video_filter("fps=30")
        .build()
        .unwrap();
    let args = cmd.args().to_vec();
    let pos = args.iter().position(|a| a == "-vf").unwrap();
    assert_eq!(args[pos + 1], "scale=1280:-2,fps=30");
    assert_eq!(args.iter().filter(|a| *a == "-vf").count(), 1);
}

#[test]
fn builder_hardware_codec_name() {
    let ffmpeg = Arc::new(FFMpeg::default());
    let cmd = FFmpegBuilder::new(ffmpeg)
        .input("a.mp4")
        .unwrap()
        .output("b.mp4")
        .unwrap()
        .video_codec_hw(VideoCodec::H265, HardwareAccel::NVENC)
        .build()
        .unwrap();
    assert!(has(cmd.args(), "hevc_nvenc"));
}

#[test]
fn builder_error_messages() {
    assert_eq!(BuilderError::NoInput.message(), "No input file specified");
    assert_eq!(BuilderError::NoOutput.message(), "No output file specified");
    assert_eq!(
        BuilderError::InvalidOption("x".to_string()).message(),
        "Invalid option: x"
    );
}

#[test]
fn ffmpeg_paths_are_kept() {
    let f = FFMpeg::new("/usr/bin/ffmpeg", "/usr/bin/ffprobe");
    assert_eq!(f.ffmpeg_path(), "/usr/bin/ffmpeg");
    assert_eq!(f.ffprobe_path(), "/usr/bin/ffprobe");
}

#[test]
fn probe_json_output_required() {
    let ffmpeg = Arc::new(FFMpeg::default());
    let json = FFprobeBuilder::new(ffmpeg.clone()).input("v.mp4").unwrap().output_format(ProbeFormat::JSON).build().unwrap();
    assert!(json.check_json_output().is_ok());
    let plain = FFprobeBuilder::new(ffmpeg).input("v.mp4").unwrap().output_format(ProbeFormat::Default).build().unwrap();
    assert_eq!(
        plain.check_json_output(),
        Err(BuilderError::InvalidOption("Output format must be JSON to use execute_json()".to_string()))
    );
}

#[test]
fn probe_result_questions() {
    let s = |t: Option<&str>, w: Option<u32>, h: Option<u32>| StreamSummary {
        codec_type: t.map(String::from),
        width: w,
        height: h,
        nb_frames: None,
        frames_tag: None,
        frames_tag_eng: None,
    };
    let streams = vec![s(Some("audio"), None, None), s(Some("video"), Some(1920), Some(1080)), s(Some("video"), None, None), s(None, None, None)];
    assert_eq!(first_video_stream(&streams), Some(1));
    assert_eq!(first_audio_stream(&streams), Some(0));
    assert_eq!(streams_of_type(&streams, "video"), vec![1, 2]);
    assert_eq!(streams_of_type(&streams, "subtitle"), Vec::<usize>::new());
    assert_eq!(video_resolution(&streams), Some((1920, 1080)));
    assert_eq!(video_resolution(&streams[2..]), None);
    assert_eq!(bit_rate(Some("128000")), Some(128000));
    assert_eq!(bit_rate(Some("N/A")), None);
}

#[test]
fn probe_output_decoding() {
    assert_eq!(decode_probe_output(b"{ \"a\": 1 }"), "{ \"a\": 1 }");
    let utf16: Vec<u8> = [0xFFu8, 0xFE].iter().copied().chain("{ }".encode_utf16().flat_map(|u| u.to_le_bytes())).collect();
    assert_eq!(decode_probe_output(&utf16), "{ }");
    let no_bom: Vec<u8> = "{ }".encode_utf16().flat_map(|u| u.to_le_bytes()).collect();
    assert_eq!(decode_probe_output(&no_bom), "{ }");
}

#[test]
fn builder_every_option_lands_in_place() {
    let ffmpeg = Arc::new(FFMpeg::default());
    let cmd = FFmpegBuilder::new(ffmpeg)
        .hardware_accel(HardwareAccel::VAAPI)
        .hardware_device("/dev/dri/renderD128")
        .input("in.mkv")
        .unwrap()
        .input_format("matroska")
        .start_time("5")
        .unwrap()
        .duration("60")
        .unwrap()
        .end_time("65")
        .unwrap()
        .input_framerate("24")
        .filter_complex("[0:v]null[v]")
        .output("out.mp4")
        .unwrap()
        .video_bitrate("2M")
        .unwrap()
        .max_video_bitrate("3M")
        .unwrap()
        .buffer_size("4M")
        .preset(Preset::Slow)
        .pixel_format(PixelFormat::YUV420P)
        .keyframe_interval(48)
        .scale_algorithm(ScaleAlgorithm::Lanczos)
        .audio_bitrate("128k")
        .unwrap()
        .audio_sample_rate(48000)
        .audio_channels(2)
        .channel_layout(ChannelLayout::Surround5_1)
        .audio_quality(3)
        .no_subtitles()
        .format(ContainerFormat::MKV)
        .select_stream(StreamType::Audio, 0, 1)
        .metadata("title", "Demo")
        .audio_filter("volume=2")
        .audio_filter("aresample=44100")
        .build()
        .unwrap();
    let expected: Vec<&str> = vec![
        "-hwaccel", "vaapi", "-hwaccel_device", "/dev/dri/renderD128", "-f", "matroska", "-ss", "5", "-t", "60",
        "-to", "65", "-r", "24", "-i", "in.mkv", "-filter_complex", "[0:v]null[v]", "-b:v", "2M", "-maxrate", "3M",
        "-bufsize", "4M", "-preset", "slow", "-pix_fmt", "yuv420p", "-g", "48", "-sws_flags", "lanczos", "-b:a",
        "128k", "-ar", "48000", "-ac", "2", "-channel_layout", "5.1", "-q:a", "3", "-sn", "-f", "matroska",
        "-map", "0:a:1", "-metadata", "title=Demo", "-af", "volume=2,aresample=44100", "out.mp4",
    ];
    assert_eq!(cmd.args(), expected.as_slice());
}

#[test]
fn builder_streaming_and_two_pass_apply_to_open_output() {
    let ffmpeg = Arc::new(FFMpeg::default());
    let cmd = FFmpegBuilder::new(ffmpeg.clone())
        .input("in.mp4")
        .unwrap()
        .two_pass_first("passlog")
        .output("/dev/null")
        .unwrap()
        .two_pass_first("passlog")
        .no_audio()
        .build()
        .unwrap();
    assert_eq!(
        cmd.args(),
        ["-i", "in.mp4", "-pass", "1", "-passlogfile", "passlog", "-f", "null", "-an", "/dev/null"]
    );
    let cmd = FFmpegBuilder::new(ffmpeg.clone())
        .input("in.mp4")
        .unwrap()
        .output("out.mp4")
        .unwrap()
        .two_pass_second("passlog")
        .output("live.m3u8")
        .unwrap()
        .hls_options(6, 5, "seg_%03d.ts")
        .output("live.mpd")
        .unwrap()
        .dash_options(4, 3)
        .no_video()
        .build()
        .unwrap();
    assert_eq!(
        cmd.args(),
        [
            "-i", "in.mp4", "-pass", "2", "-passlogfile", "passlog", "out.mp4", "-f", "hls", "-hls_time", "6",
            "-hls_list_size", "5", "-hls_segment_filename", "seg_%03d.ts", "live.m3u8", "-f", "dash",
            "-seg_duration", "4", "-window_size", "3", "-vn", "live.mpd"
        ]
    );
    let cmd = FFmpegBuilder::new(ffmpeg)
        .hardware_accel(HardwareAccel::Disabled)
        .input("in.mp4")
        .unwrap()
        .output("out.mp4")
        .unwrap()
        .video_codec_hw(VideoCodec::H265, HardwareAccel::QSV)
        .audio_codec(AudioCodec::Opus)
        .build()
        .unwrap();
    assert_eq!(cmd.args(), ["-i", "in.mp4", "-c:v", "hevc_qsv", "-c:a", "libopus", "out.mp4"]);
}

#[test]
fn probe_builder_options() {
    let ffmpeg = Arc::new(FFMpeg::default());
    let cmd = FFprobeBuilder::new(ffmpeg)
        .input("v.mkv")
        .unwrap()
        .output_format(ProbeFormat::JSON)
        .show_pixel_format()
        .show_data_hash("md5")
        .build()
        .unwrap();
    assert_eq!(
        cmd.args(),
        ["-print_format", "json", "-show_pixel_formats", "-show_data_hash", "md5", "-i", "v.mkv"]
    );
}

#[test]
fn hardware_codec_is_the_named_codec() {
    let pairs = [
        (VideoCodec::H264, HardwareAccel::NVENC, "h264_nvenc"),
        (VideoCodec::H265, HardwareAccel::QSV, "hevc_qsv"),
        (VideoCodec::H264, HardwareAccel::VideoToolbox, "h264_videotoolbox"),
        (VideoCodec::H265, HardwareAccel::VAAPI, "hevc_vaapi"),
        (VideoCodec::H264, HardwareAccel::AMF, "h264_amf"),
        (VideoCodec::H264, HardwareAccel::CUDA, "libx264"),
        (VideoCodec::VP9, HardwareAccel::NVENC, "libvpx-vp9"),
    ];
    for (codec, hw, name) in pairs {
        let ffmpeg = Arc::new(FFMpeg::default());
        let a = FFmpegBuilder::new(ffmpeg.clone()).input("i").unwrap().output("o").unwrap().video_codec_hw(codec, hw);
        let b = FFmpegBuilder::new(ffmpeg).input("i").unwrap().output("o").unwrap().video_codec(VideoCodec::Custom(name.to_string()));
        let (a, b) = (a.build().unwrap(), b.build().unwrap());
        assert_eq!(a.args(), b.args());
        assert_eq!(a.args(), ["-i", "i", "-c:v", name, "o"]);
    }
}

#[test]
fn command_builder_is_a_new_builder_over_a_copy() {
    let f = FFMpeg::new("/opt/ffmpeg", "/opt/ffprobe");
    let a = f.ffmpeg_command_builder().hide_banner().input("in.mp4").unwrap().output("out.mkv").unwrap().crf(23);
    let b = FFmpegBuilder::new(Arc::new(f.clone())).hide_banner().input("in.mp4").unwrap().output("out.mkv").unwrap().crf(23);
    let (a, b) = (a.build().unwrap(), b.build().unwrap());
    assert_eq!(a.args(), b.args());
    assert_eq!(a.ffmpeg().ffmpeg_path(), "/opt/ffmpeg");
    assert_eq!(b.ffmpeg().ffmpeg_path(), "/opt/ffmpeg");
    assert!(matches!(f.ffmpeg_command_builder().output("x").unwrap().build(), Err(BuilderError::NoInput)));
}

#[test]
fn build_sections_follow_call_order() {
    // Global options, then options before the inputs, then each input with its options,
    // then options given before any output, then each output with its options.
    let cmd = FFmpegBuilder::new(Arc::new(FFMpeg::default()))
        .video_filter("yadif")
        .input("a.mkv")
        .unwrap()
        .start_time("3")
        .unwrap()
        .hide_banner()
        .input("b.mkv")
        .unwrap()
        .input_format("matroska")
        .hardware_device("/dev/dri/renderD128")
        .video_filter("hqdn3d")
        .no_audio()
        .output("one.mp4")
        .unwrap()
        .video_filter("scale=1280:-1")
        .audio_filter("volume=2")
        .video_filter("fps=30")
        .output("two.mp4")
        .unwrap()
        .no_video()
        .overwrite(true)
        .build()
        .unwrap();
    assert_eq!(
        cmd.args(),
        [
            "-hide_banner", "-y", "-hwaccel_device", "/dev/dri/renderD128", "-ss", "3", "-i", "a.mkv", "-f",
            "matroska", "-i", "b.mkv", "-vf", "yadif,hqdn3d", "-an", "-vf", "scale=1280:-1,fps=30", "-af",
            "volume=2", "one.mp4", "-vn", "two.mp4"
        ]
    );
}
