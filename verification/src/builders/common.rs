//! Option values shared by the FFmpeg and FFprobe builders, each with the
//! text that it stands for on an FFmpeg command line.
use vstd::prelude::*;
use crate::text::owned;

verus! {

/// Video codec selection
#[derive(Debug, Clone, PartialEq)]
pub enum VideoCodec {
    /// H.264/AVC codec
    H264,
    /// H.265/HEVC codec
    H265,
    /// VP9 codec
    VP9,
    /// AV1 codec
    AV1,
    /// Copy stream without re-encoding
    Copy,
    /// Custom codec string
    Custom(String),
}

impl VideoCodec {
    /// The command-line text of this value.
    pub open spec fn text(self) -> Seq<char> {
        match self {
            VideoCodec::H264 => "libx264"@,
            VideoCodec::H265 => "libx265"@,
            VideoCodec::VP9 => "libvpx-vp9"@,
            VideoCodec::AV1 => "libaom-av1"@,
            VideoCodec::Copy => "copy"@,
            VideoCodec::Custom(s) => s@,
        }
    }

    /// The command-line text of this value, as FFmpeg expects it.
    pub fn to_string(&self) -> (res: String)
        ensures
            res@ == self.text(),
    {
        match self {
            VideoCodec::H264 => owned("libx264"),
            VideoCodec::H265 => owned("libx265"),
            VideoCodec::VP9 => owned("libvpx-vp9"),
            VideoCodec::AV1 => owned("libaom-av1"),
            VideoCodec::Copy => owned("copy"),
            VideoCodec::Custom(s) => owned(s.as_str()),
        }
    }
}

/// Each built-in video codec stands for FFmpeg's encoder of that codec: H.264 for
/// `libx264`, H.265 for `libx265`, VP9 for `libvpx-vp9`, AV1 for `libaom-av1`, and
/// stream copy for `copy`; so distinct built-in codecs give distinct encoders.
pub proof fn video_codec_encoders()
    ensures
        VideoCodec::H264.text() == "libx264"@,
        VideoCodec::H265.text() == "libx265"@,
        VideoCodec::VP9.text() == "libvpx-vp9"@,
        VideoCodec::AV1.text() == "libaom-av1"@,
        VideoCodec::Copy.text() == "copy"@,
        forall|a: VideoCodec, b: VideoCodec|
            !(a is Custom) && !(b is Custom) && #[trigger] a.text() == #[trigger] b.text() ==> a == b,
{
    reveal_strlit("libx264");
    reveal_strlit("libx265");
    reveal_strlit("libvpx-vp9");
    reveal_strlit("libaom-av1");
    reveal_strlit("copy");
    assert("libx264"@[6] != "libx265"@[6]);
    assert("libvpx-vp9"@[3] != "libaom-av1"@[3]);
    assert forall|a: VideoCodec, b: VideoCodec|
        !(a is Custom) && !(b is Custom) && #[trigger] a.text() == #[trigger] b.text() implies a == b by {
        if a != b {
            assert(a.text().len() != b.text().len() || a.text()[3] != b.text()[3] || a.text()[6]
                != b.text()[6]);
        }
    }
}

/// Audio codec selection
#[derive(Debug, Clone, PartialEq)]
pub enum AudioCodec {
    /// AAC codec
    AAC,
    /// Opus codec
    Opus,
    /// MP3 codec
    MP3,
    /// FLAC codec
    FLAC,
    /// Vorbis codec
    Vorbis,
    /// Copy stream without re-encoding
    Copy,
    /// Custom codec string
    Custom(String),
}

impl AudioCodec {
    /// The command-line text of this value.
    pub open spec fn text(self) -> Seq<char> {
        match self {
            AudioCodec::AAC => "aac"@,
            AudioCodec::Opus => "libopus"@,
            AudioCodec::MP3 => "libmp3lame"@,
            AudioCodec::FLAC => "flac"@,
            AudioCodec::Vorbis => "libvorbis"@,
            AudioCodec::Copy => "copy"@,
            AudioCodec::Custom(s) => s@,
        }
    }

    /// The command-line text of this value, as FFmpeg expects it.
    pub fn to_string(&self) -> (res: String)
        ensures
            res@ == self.text(),
    {
        match self {
            AudioCodec::AAC => owned("aac"),
            AudioCodec::Opus => owned("libopus"),
            AudioCodec::MP3 => owned("libmp3lame"),
            AudioCodec::FLAC => owned("flac"),
            AudioCodec::Vorbis => owned("libvorbis"),
            AudioCodec::Copy => owned("copy"),
            AudioCodec::Custom(s) => owned(s.as_str()),
        }
    }
}

/// Encoding preset (speed vs compression efficiency)
#[derive(Debug, Clone, Copy, PartialEq, Eq, Structural)]
pub enum Preset {
    UltraFast,
    SuperFast,
    VeryFast,
    Faster,
    Fast,
    Medium,
    Slow,
    Slower,
    VerySlow,
}

impl Preset {
    /// The command-line text of this value.
    pub open spec fn text(self) -> Seq<char> {
        match self {
            Preset::UltraFast => "ultrafast"@,
            Preset::SuperFast => "superfast"@,
            Preset::VeryFast => "veryfast"@,
            Preset::Faster => "faster"@,
            Preset::Fast => "fast"@,
            Preset::Medium => "medium"@,
            Preset::Slow => "slow"@,
            Preset::Slower => "slower"@,
            Preset::VerySlow => "veryslow"@,
        }
    }

    /// The command-line text of this value, as FFmpeg expects it.
    pub fn to_string(&self) -> (res: String)
        ensures
            res@ == self.text(),
    {
        match self {
            Preset::UltraFast => owned("ultrafast"),
            Preset::SuperFast => owned("superfast"),
            Preset::VeryFast => owned("veryfast"),
            Preset::Faster => owned("faster"),
            Preset::Fast => owned("fast"),
            Preset::Medium => owned("medium"),
            Preset::Slow => owned("slow"),
            Preset::Slower => owned("slower"),
            Preset::VerySlow => owned("veryslow"),
        }
    }
}

/// Pixel format for video
#[derive(Debug, Clone, PartialEq)]
pub enum PixelFormat {
    YUV420P,
    YUV422P,
    YUV444P,
    RGB24,
    RGBA,
    Gray,
    /// Custom pixel format
    Custom(String),
}

impl PixelFormat {
    /// The command-line text of this value.
    pub open spec fn text(self) -> Seq<char> {
        match self {
            PixelFormat::YUV420P => "yuv420p"@,
            PixelFormat::YUV422P => "yuv422p"@,
            PixelFormat::YUV444P => "yuv444p"@,
            PixelFormat::RGB24 => "rgb24"@,
            PixelFormat::RGBA => "rgba"@,
            PixelFormat::Gray => "gray"@,
            PixelFormat::Custom(s) => s@,
        }
    }

    /// The command-line text of this value, as FFmpeg expects it.
    pub fn to_string(&self) -> (res: String)
        ensures
            res@ == self.text(),
    {
        match self {
            PixelFormat::YUV420P => owned("yuv420p"),
            PixelFormat::YUV422P => owned("yuv422p"),
            PixelFormat::YUV444P => owned("yuv444p"),
            PixelFormat::RGB24 => owned("rgb24"),
            PixelFormat::RGBA => owned("rgba"),
            PixelFormat::Gray => owned("gray"),
            PixelFormat::Custom(s) => owned(s.as_str()),
        }
    }
}

/// Hardware acceleration type
#[derive(Debug, Clone, PartialEq)]
pub enum HardwareAccel {
    /// No hardware acceleration
    Disabled,
    /// NVIDIA NVENC
    NVENC,
    /// Intel Quick Sync Video
    QSV,
    /// Apple VideoToolbox
    VideoToolbox,
    /// Video Acceleration API (Linux)
    VAAPI,
    /// AMD Advanced Media Framework
    AMF,
    /// CUDA
    CUDA,
    /// Custom hardware acceleration
    Custom(String),
}

impl HardwareAccel {
    /// The command-line text of this value.
    pub open spec fn text(self) -> Seq<char> {
        match self {
            HardwareAccel::Disabled => "none"@,
            HardwareAccel::NVENC => "nvenc"@,
            HardwareAccel::QSV => "qsv"@,
            HardwareAccel::VideoToolbox => "videotoolbox"@,
            HardwareAccel::VAAPI => "vaapi"@,
            HardwareAccel::AMF => "amf"@,
            HardwareAccel::CUDA => "cuda"@,
            HardwareAccel::Custom(s) => s@,
        }
    }

    /// The command-line text of this value, as FFmpeg expects it.
    pub fn to_string(&self) -> (res: String)
        ensures
            res@ == self.text(),
    {
        match self {
            HardwareAccel::Disabled => owned("none"),
            HardwareAccel::NVENC => owned("nvenc"),
            HardwareAccel::QSV => owned("qsv"),
            HardwareAccel::VideoToolbox => owned("videotoolbox"),
            HardwareAccel::VAAPI => owned("vaapi"),
            HardwareAccel::AMF => owned("amf"),
            HardwareAccel::CUDA => owned("cuda"),
            HardwareAccel::Custom(s) => owned(s.as_str()),
        }
    }
}

/// Stream type selection
#[derive(Debug, Clone, Copy, PartialEq, Eq, Structural)]
pub enum StreamType {
    Video,
    Audio,
    Subtitle,
    Data,
    Attachment,
}

impl StreamType {
    /// The command-line text of this value.
    pub open spec fn text(self) -> Seq<char> {
        match self {
            StreamType::Video => "v"@,
            StreamType::Audio => "a"@,
            StreamType::Subtitle => "s"@,
            StreamType::Data => "d"@,
            StreamType::Attachment => "t"@,
        }
    }

    /// The command-line text of this value, as FFmpeg expects it.
    pub fn to_string(&self) -> (res: String)
        ensures
            res@ == self.text(),
    {
        match self {
            StreamType::Video => owned("v"),
            StreamType::Audio => owned("a"),
            StreamType::Subtitle => owned("s"),
            StreamType::Data => owned("d"),
            StreamType::Attachment => owned("t"),
        }
    }
}

/// Audio channel layout
#[derive(Debug, Clone, PartialEq)]
pub enum ChannelLayout {
    Mono,
    Stereo,
    Surround2_1,
    Surround5_1,
    Surround7_1,
    /// Custom channel layout
    Custom(String),
}

impl ChannelLayout {
    /// The command-line text of this value.
    pub open spec fn text(self) -> Seq<char> {
        match self {
            ChannelLayout::Mono => "mono"@,
            ChannelLayout::Stereo => "stereo"@,
            ChannelLayout::Surround2_1 => "2.1"@,
            ChannelLayout::Surround5_1 => "5.1"@,
            ChannelLayout::Surround7_1 => "7.1"@,
            ChannelLayout::Custom(s) => s@,
        }
    }

    /// The command-line text of this value, as FFmpeg expects it.
    pub fn to_string(&self) -> (res: String)
        ensures
            res@ == self.text(),
    {
        match self {
            ChannelLayout::Mono => owned("mono"),
            ChannelLayout::Stereo => owned("stereo"),
            ChannelLayout::Surround2_1 => owned("2.1"),
            ChannelLayout::Surround5_1 => owned("5.1"),
            ChannelLayout::Surround7_1 => owned("7.1"),
            ChannelLayout::Custom(s) => owned(s.as_str()),
        }
    }
}

/// Video scaling algorithm
#[derive(Debug, Clone, Copy, PartialEq, Eq, Structural)]
pub enum ScaleAlgorithm {
    FastBilinear,
    Bilinear,
    Bicubic,
    Experimental,
    Neighbor,
    Area,
    Bicublin,
    Gauss,
    Sinc,
    Lanczos,
    Spline,
}

impl ScaleAlgorithm {
    /// The command-line text of this value.
    pub open spec fn text(self) -> Seq<char> {
        match self {
            ScaleAlgorithm::FastBilinear => "fast_bilinear"@,
            ScaleAlgorithm::Bilinear => "bilinear"@,
            ScaleAlgorithm::Bicubic => "bicubic"@,
            ScaleAlgorithm::Experimental => "experimental"@,
            ScaleAlgorithm::Neighbor => "neighbor"@,
            ScaleAlgorithm::Area => "area"@,
            ScaleAlgorithm::Bicublin => "bicublin"@,
            ScaleAlgorithm::Gauss => "gauss"@,
            ScaleAlgorithm::Sinc => "sinc"@,
            ScaleAlgorithm::Lanczos => "lanczos"@,
            ScaleAlgorithm::Spline => "spline"@,
        }
    }

    /// The command-line text of this value, as FFmpeg expects it.
    pub fn to_string(&self) -> (res: String)
        ensures
            res@ == self.text(),
    {
        match self {
            ScaleAlgorithm::FastBilinear => owned("fast_bilinear"),
            ScaleAlgorithm::Bilinear => owned("bilinear"),
            ScaleAlgorithm::Bicubic => owned("bicubic"),
            ScaleAlgorithm::Experimental => owned("experimental"),
            ScaleAlgorithm::Neighbor => owned("neighbor"),
            ScaleAlgorithm::Area => owned("area"),
            ScaleAlgorithm::Bicublin => owned("bicublin"),
            ScaleAlgorithm::Gauss => owned("gauss"),
            ScaleAlgorithm::Sinc => owned("sinc"),
            ScaleAlgorithm::Lanczos => owned("lanczos"),
            ScaleAlgorithm::Spline => owned("spline"),
        }
    }
}

/// Container format
#[derive(Debug, Clone, PartialEq)]
pub enum ContainerFormat {
    MP4,
    MKV,
    WebM,
    AVI,
    MOV,
    FLV,
    MPEG,
    HLS,
    DASH,
    /// Custom container format
    Custom(String),
}

impl ContainerFormat {
    /// The command-line text of this value.
    pub open spec fn text(self) -> Seq<char> {
        match self {
            ContainerFormat::MP4 => "mp4"@,
            ContainerFormat::MKV => "matroska"@,
            ContainerFormat::WebM => "webm"@,
            ContainerFormat::AVI => "avi"@,
            ContainerFormat::MOV => "mov"@,
            ContainerFormat::FLV => "flv"@,
            ContainerFormat::MPEG => "mpeg"@,
            ContainerFormat::HLS => "hls"@,
            ContainerFormat::DASH => "dash"@,
            ContainerFormat::Custom(s) => s@,
        }
    }

    /// The command-line text of this value, as FFmpeg expects it.
    pub fn to_string(&self) -> (res: String)
        ensures
            res@ == self.text(),
    {
        match self {
            ContainerFormat::MP4 => owned("mp4"),
            ContainerFormat::MKV => owned("matroska"),
            ContainerFormat::WebM => owned("webm"),
            ContainerFormat::AVI => owned("avi"),
            ContainerFormat::MOV => owned("mov"),
            ContainerFormat::FLV => owned("flv"),
            ContainerFormat::MPEG => owned("mpeg"),
            ContainerFormat::HLS => owned("hls"),
            ContainerFormat::DASH => owned("dash"),
            ContainerFormat::Custom(s) => owned(s.as_str()),
        }
    }
}

/// FFprobe output format
#[derive(Debug, Clone, Copy, PartialEq, Eq, Structural)]
pub enum ProbeFormat {
    Default,
    JSON,
    XML,
    CSV,
    Flat,
    Ini,
}

impl ProbeFormat {
    /// The command-line text of this value.
    pub open spec fn text(self) -> Seq<char> {
        match self {
            ProbeFormat::Default => "default"@,
            ProbeFormat::JSON => "json"@,
            ProbeFormat::XML => "xml"@,
            ProbeFormat::CSV => "csv"@,
            ProbeFormat::Flat => "flat"@,
            ProbeFormat::Ini => "ini"@,
        }
    }

    /// The command-line text of this value, as FFmpeg expects it.
    pub fn to_string(&self) -> (res: String)
        ensures
            res@ == self.text(),
    {
        match self {
            ProbeFormat::Default => owned("default"),
            ProbeFormat::JSON => owned("json"),
            ProbeFormat::XML => owned("xml"),
            ProbeFormat::CSV => owned("csv"),
            ProbeFormat::Flat => owned("flat"),
            ProbeFormat::Ini => owned("ini"),
        }
    }
}

/// The command-line text FFmpeg gets for each built-in option value: the audio encoders,
/// encoding presets, pixel formats, hardware accelerations, stream types, channel
/// layouts, scaling algorithms, container formats and probe output formats, by name.
pub proof fn option_value_texts()
    ensures
        AudioCodec::AAC.text() == "aac"@,
        AudioCodec::Opus.text() == "libopus"@,
        AudioCodec::MP3.text() == "libmp3lame"@,
        AudioCodec::FLAC.text() == "flac"@,
        AudioCodec::Vorbis.text() == "libvorbis"@,
        AudioCodec::Copy.text() == "copy"@,
        Preset::UltraFast.text() == "ultrafast"@,
        Preset::SuperFast.text() == "superfast"@,
        Preset::VeryFast.text() == "veryfast"@,
        Preset::Faster.text() == "faster"@,
        Preset::Fast.text() == "fast"@,
        Preset::Medium.text() == "medium"@,
        Preset::Slow.text() == "slow"@,
        Preset::Slower.text() == "slower"@,
        Preset::VerySlow.text() == "veryslow"@,
        PixelFormat::YUV420P.text() == "yuv420p"@,
        PixelFormat::YUV422P.text() == "yuv422p"@,
        PixelFormat::YUV444P.text() == "yuv444p"@,
        PixelFormat::RGB24.text() == "rgb24"@,
        PixelFormat::RGBA.text() == "rgba"@,
        PixelFormat::Gray.text() == "gray"@,
        HardwareAccel::Disabled.text() == "none"@,
        HardwareAccel::NVENC.text() == "nvenc"@,
        HardwareAccel::QSV.text() == "qsv"@,
        HardwareAccel::VideoToolbox.text() == "videotoolbox"@,
        HardwareAccel::VAAPI.text() == "vaapi"@,
        HardwareAccel::AMF.text() == "amf"@,
        HardwareAccel::CUDA.text() == "cuda"@,
        StreamType::Video.text() == "v"@,
        StreamType::Audio.text() == "a"@,
        StreamType::Subtitle.text() == "s"@,
        StreamType::Data.text() == "d"@,
        StreamType::Attachment.text() == "t"@,
        ChannelLayout::Mono.text() == "mono"@,
        ChannelLayout::Stereo.text() == "stereo"@,
        ChannelLayout::Surround2_1.text() == "2.1"@,
        ChannelLayout::Surround5_1.text() == "5.1"@,
        ChannelLayout::Surround7_1.text() == "7.1"@,
        ScaleAlgorithm::FastBilinear.text() == "fast_bilinear"@,
        ScaleAlgorithm::Bilinear.text() == "bilinear"@,
        ScaleAlgorithm::Bicubic.text() == "bicubic"@,
        ScaleAlgorithm::Experimental.text() == "experimental"@,
        ScaleAlgorithm::Neighbor.text() == "neighbor"@,
        ScaleAlgorithm::Area.text() == "area"@,
        ScaleAlgorithm::Bicublin.text() == "bicublin"@,
        ScaleAlgorithm::Gauss.text() == "gauss"@,
        ScaleAlgorithm::Sinc.text() == "sinc"@,
        ScaleAlgorithm::Lanczos.text() == "lanczos"@,
        ScaleAlgorithm::Spline.text() == "spline"@,
        ContainerFormat::MP4.text() == "mp4"@,
        ContainerFormat::MKV.text() == "matroska"@,
        ContainerFormat::WebM.text() == "webm"@,
        ContainerFormat::AVI.text() == "avi"@,
        ContainerFormat::MOV.text() == "mov"@,
        ContainerFormat::FLV.text() == "flv"@,
        ContainerFormat::MPEG.text() == "mpeg"@,
        ContainerFormat::HLS.text() == "hls"@,
        ContainerFormat::DASH.text() == "dash"@,
        ProbeFormat::Default.text() == "default"@,
        ProbeFormat::JSON.text() == "json"@,
        ProbeFormat::XML.text() == "xml"@,
        ProbeFormat::CSV.text() == "csv"@,
        ProbeFormat::Flat.text() == "flat"@,
        ProbeFormat::Ini.text() == "ini"@,
{
}

} // verus!
