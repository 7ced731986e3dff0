//! GPU detection: which hardware encoder a machine's graphics adapter offers.
use vstd::prelude::*;
use crate::text::{contains, contains_str, lowercase_of, owned, str_eq, to_lowercase, trim, trimmed};

verus! {

/// A graphics adapter and the H.264 and H.265 encoders that go with it.
#[derive(Debug)]
pub struct GpuInfo {
    pub vendor: String,
    pub name: String,
    pub encoder_h264: String,
    pub encoder_h265: String,
}

/// The text fields of a [`GpuInfo`]: vendor, name, H.264 encoder, H.265 encoder.
pub open spec fn gpu_fields(g: GpuInfo) -> (Seq<char>, Seq<char>, Seq<char>, Seq<char>) {
    (g.vendor@, g.name@, g.encoder_h264@, g.encoder_h265@)
}

impl Clone for GpuInfo {
    fn clone(&self) -> (res: Self)
        ensures
            res == *self,
    {
        GpuInfo {
            vendor: self.vendor.clone(),
            name: self.name.clone(),
            encoder_h264: self.encoder_h264.clone(),
            encoder_h265: self.encoder_h265.clone(),
        }
    }
}

/// A [`GpuInfo`] from its four fields.
fn gpu(vendor: &str, name: String, h264: &str, h265: &str) -> (res: GpuInfo)
    ensures
        gpu_fields(res) == (vendor@, name@, h264@, h265@),
{
    GpuInfo { vendor: owned(vendor), name, encoder_h264: owned(h264), encoder_h265: owned(h265) }
}

impl GpuInfo {
    /// Software encoding, for machines without a usable hardware encoder.
    pub fn fallback() -> (res: Self)
        ensures
            gpu_fields(res) == ("Software"@, "Software Encoder"@, "libx264"@, "libx265"@),
    {
        gpu("Software", owned("Software Encoder"), "libx264", "libx265")
    }
}

/// A graphics adapter as the system reports it.
#[derive(Debug)]
pub struct VideoAdapter {
    pub name: String,
    pub vendor: String,
}

/// The adapter is an NVIDIA one: `nvidia` in its vendor or name, in lower case.
pub open spec fn is_nvidia(a: VideoAdapter) -> bool {
    contains(lowercase_of(a.vendor@), "nvidia"@) || contains(lowercase_of(a.name@), "nvidia"@)
}

/// The adapter is an AMD one: `amd` or `advanced micro devices` in its vendor, or `amd`
/// or `radeon` in its name, in lower case.
pub open spec fn is_amd(a: VideoAdapter) -> bool {
    contains(lowercase_of(a.vendor@), "amd"@) || contains(
        lowercase_of(a.vendor@),
        "advanced micro devices"@,
    ) || contains(lowercase_of(a.name@), "amd"@) || contains(lowercase_of(a.name@), "radeon"@)
}

/// The adapter is an Intel one: `intel` in its vendor or name, in lower case.
pub open spec fn is_intel(a: VideoAdapter) -> bool {
    contains(lowercase_of(a.vendor@), "intel"@) || contains(lowercase_of(a.name@), "intel"@)
}

/// The encoders an adapter offers, if it is a known one: NVIDIA first, then AMD, then
/// Intel; the adapter's own name is kept.
pub open spec fn adapter_encoders(a: VideoAdapter) -> Option<(Seq<char>, Seq<char>, Seq<char>, Seq<char>)> {
    if is_nvidia(a) {
        Some(("NVIDIA"@, a.name@, "h264_nvenc"@, "hevc_nvenc"@))
    } else if is_amd(a) {
        Some(("AMD"@, a.name@, "h264_amf"@, "hevc_amf"@))
    } else if is_intel(a) {
        Some(("Intel"@, a.name@, "h264_qsv"@, "hevc_qsv"@))
    } else {
        None
    }
}

/// The encoders of the first known adapter, or software encoding when none is known.
pub open spec fn adapters_gpu(adapters: Seq<VideoAdapter>) -> (Seq<char>, Seq<char>, Seq<char>, Seq<char>)
    decreases adapters.len(),
{
    if adapters.len() == 0 {
        ("Software"@, "Software Encoder"@, "libx264"@, "libx265"@)
    } else {
        match adapter_encoders(adapters[0]) {
            Some(g) => g,
            None => adapters_gpu(adapters.drop_first()),
        }
    }
}

/// The encoders an adapter offers, if it is a known one (see [`adapter_encoders`]).
fn classify_adapter(a: &VideoAdapter) -> (res: Option<GpuInfo>)
    ensures
        match adapter_encoders(*a) {
            Some(g) => res matches Some(r) && gpu_fields(r) == g,
            None => res is None,
        },
{
    let vendor = to_lowercase(a.vendor.as_str());
    let name = to_lowercase(a.name.as_str());
    if contains_str(vendor.as_str(), "nvidia") || contains_str(name.as_str(), "nvidia") {
        return Some(gpu("NVIDIA", a.name.clone(), "h264_nvenc", "hevc_nvenc"));
    }
    if contains_str(vendor.as_str(), "amd") || contains_str(vendor.as_str(), "advanced micro devices")
        || contains_str(name.as_str(), "amd") || contains_str(name.as_str(), "radeon") {
        return Some(gpu("AMD", a.name.clone(), "h264_amf", "hevc_amf"));
    }
    if contains_str(vendor.as_str(), "intel") || contains_str(name.as_str(), "intel") {
        return Some(gpu("Intel", a.name.clone(), "h264_qsv", "hevc_qsv"));
    }
    None
}

/// Picks the encoders for a Windows machine from its graphics adapters, in the order
/// the system lists them (see [`adapters_gpu`]).
pub fn gpu_from_adapters(adapters: &[VideoAdapter]) -> (res: GpuInfo)
    ensures
        gpu_fields(res) == adapters_gpu(adapters@),
{
    let mut k: usize = 0;
    assert(adapters@.skip(0) =~= adapters@);
    while k < adapters.len()
        invariant
            k <= adapters.len(),
            adapters_gpu(adapters@.skip(k as int)) == adapters_gpu(adapters@),
        decreases adapters.len() - k,
    {
        let ghost rest = adapters@.skip(k as int);
        assert(rest[0] == adapters@[k as int]);
        assert(rest.drop_first() =~= adapters@.skip(k + 1));
        match classify_adapter(&adapters[k]) {
            Some(g) => {
                return g;
            },
            None => {},
        }
        k = k + 1;
    }
    assert(adapters@.skip(k as int) =~= Seq::<VideoAdapter>::empty());
    GpuInfo::fallback()
}

/// The encoders for a Linux machine: NVIDIA when its driver is present; else by the
/// PCI vendor id of the first graphics card (`0x1002` AMD, `0x8086` Intel, ignoring
/// white space around it); else VAAPI when `/dev/dri` is present; else software.
pub open spec fn linux_gpu_fields(
    nvidia_driver: bool,
    card_vendor_id: Option<Seq<char>>,
    dri_present: bool,
) -> (Seq<char>, Seq<char>, Seq<char>, Seq<char>) {
    if nvidia_driver {
        ("NVIDIA"@, "NVIDIA GPU"@, "h264_nvenc"@, "hevc_nvenc"@)
    } else if card_vendor_id is Some && trimmed(card_vendor_id->Some_0) == "0x1002"@ {
        ("AMD"@, "AMD GPU"@, "h264_amf"@, "hevc_amf"@)
    } else if card_vendor_id is Some && trimmed(card_vendor_id->Some_0) == "0x8086"@ {
        ("Intel"@, "Intel GPU"@, "h264_qsv"@, "hevc_qsv"@)
    } else if dri_present {
        ("Linux"@, "VAAPI"@, "h264_vaapi"@, "hevc_vaapi"@)
    } else {
        ("Software"@, "Software Encoder"@, "libx264"@, "libx265"@)
    }
}

/// How an adapter is classified, by what its vendor and name say in lower case: `nvidia`
/// in either makes it NVIDIA (NVENC encoders); else `amd` or `advanced micro devices`
/// in the vendor, or `amd` or `radeon` in the name, makes it AMD (AMF encoders); else
/// `intel` in either makes it Intel (Quick Sync encoders); else it is unknown. A known
/// adapter keeps its own name.
pub proof fn adapter_classification(a: VideoAdapter)
    ensures
        ({
            let v = lowercase_of(a.vendor@);
            let n = lowercase_of(a.name@);
            let nvidia = contains(v, "nvidia"@) || contains(n, "nvidia"@);
            let amd = contains(v, "amd"@) || contains(v, "advanced micro devices"@) || contains(n, "amd"@)
                || contains(n, "radeon"@);
            let intel = contains(v, "intel"@) || contains(n, "intel"@);
            &&& nvidia ==> adapter_encoders(a) == Some(("NVIDIA"@, a.name@, "h264_nvenc"@, "hevc_nvenc"@))
            &&& !nvidia && amd ==> adapter_encoders(a) == Some(("AMD"@, a.name@, "h264_amf"@, "hevc_amf"@))
            &&& !nvidia && !amd && intel ==> adapter_encoders(a) == Some(
                ("Intel"@, a.name@, "h264_qsv"@, "hevc_qsv"@),
            )
            &&& !nvidia && !amd && !intel ==> adapter_encoders(a) is None
        }),
{
}

/// The encoders chosen for a list of adapters are those of the first adapter that is
/// known (see [`adapter_classification`]), and software encoding (`libx264`, `libx265`)
/// when none is.
pub proof fn first_known_adapter_chosen(adapters: Seq<VideoAdapter>, k: int)
    requires
        0 <= k <= adapters.len(),
        forall|j: int| 0 <= j < k ==> adapter_encoders(#[trigger] adapters[j]) is None,
    ensures
        k < adapters.len() && adapter_encoders(adapters[k]) is Some ==> adapters_gpu(adapters)
            == adapter_encoders(adapters[k])->Some_0,
        k == adapters.len() ==> adapters_gpu(adapters) == (
            "Software"@,
            "Software Encoder"@,
            "libx264"@,
            "libx265"@,
        ),
    decreases k,
{
    if k > 0 {
        let rest = adapters.drop_first();
        assert(adapter_encoders(adapters[0]) is None);
        assert forall|j: int| 0 <= j < k - 1 implies adapter_encoders(#[trigger] rest[j]) is None by {
            assert(rest[j] == adapters[j + 1]);
        }
        first_known_adapter_chosen(rest, k - 1);
        if k < adapters.len() {
            assert(rest[k - 1] == adapters[k]);
        }
    }
}

/// The encoders chosen on Linux: NVIDIA's NVENC when its driver is present; else AMD's
/// AMF for the card vendor id `0x1002` and Intel's Quick Sync for `0x8086` (white space
/// around the id ignored); else VAAPI when `/dev/dri` is present; else software.
pub proof fn linux_choice(nvidia_driver: bool, card_vendor_id: Option<Seq<char>>, dri_present: bool)
    ensures
        nvidia_driver ==> linux_gpu_fields(nvidia_driver, card_vendor_id, dri_present) == (
            "NVIDIA"@,
            "NVIDIA GPU"@,
            "h264_nvenc"@,
            "hevc_nvenc"@,
        ),
        !nvidia_driver && card_vendor_id is Some && trimmed(card_vendor_id->Some_0) == "0x1002"@ ==> linux_gpu_fields(
            nvidia_driver,
            card_vendor_id,
            dri_present,
        ) == ("AMD"@, "AMD GPU"@, "h264_amf"@, "hevc_amf"@),
        !nvidia_driver && card_vendor_id is Some && trimmed(card_vendor_id->Some_0) == "0x8086"@ ==> linux_gpu_fields(
            nvidia_driver,
            card_vendor_id,
            dri_present,
        ) == ("Intel"@, "Intel GPU"@, "h264_qsv"@, "hevc_qsv"@),
        !nvidia_driver && !(card_vendor_id is Some && (trimmed(card_vendor_id->Some_0) == "0x1002"@
            || trimmed(card_vendor_id->Some_0) == "0x8086"@)) ==> linux_gpu_fields(nvidia_driver, card_vendor_id, dri_present) == if dri_present {
            ("Linux"@, "VAAPI"@, "h264_vaapi"@, "hevc_vaapi"@)
        } else {
            ("Software"@, "Software Encoder"@, "libx264"@, "libx265"@)
        },
{
    reveal_strlit("0x1002");
    reveal_strlit("0x8086");
    assert("0x1002"@[2] != "0x8086"@[2]);
}

/// Picks the encoders for a Linux machine from what its file system shows: whether the
/// NVIDIA driver is present, the first card's vendor id file if it could be read, and
/// whether `/dev/dri` is present (see [`linux_gpu_fields`]).
pub fn gpu_on_linux(nvidia_driver: bool, card_vendor_id: Option<&str>, dri_present: bool) -> (res:
    GpuInfo)
    ensures
        gpu_fields(res) == linux_gpu_fields(
            nvidia_driver,
            match card_vendor_id {
                Some(v) => Some(v@),
                None => None,
            },
            dri_present,
        ),
{
    if nvidia_driver {
        return gpu("NVIDIA", owned("NVIDIA GPU"), "h264_nvenc", "hevc_nvenc");
    }
    if let Some(v) = card_vendor_id {
        let id = trim(v);
        if str_eq(id.as_str(), "0x1002") {
            return gpu("AMD", owned("AMD GPU"), "h264_amf", "hevc_amf");
        } else if str_eq(id.as_str(), "0x8086") {
            return gpu("Intel", owned("Intel GPU"), "h264_qsv", "hevc_qsv");
        }
    }
    if dri_present {
        gpu("Linux", owned("VAAPI"), "h264_vaapi", "hevc_vaapi")
    } else {
        GpuInfo::fallback()
    }
}

/// The encoders for a macOS machine: VideoToolbox.
pub fn gpu_on_macos() -> (res: GpuInfo)
    ensures
        gpu_fields(res) == ("Apple"@, "VideoToolbox"@, "h264_videotoolbox"@, "hevc_videotoolbox"@),
{
    gpu("Apple", owned("VideoToolbox"), "h264_videotoolbox", "hevc_videotoolbox")
}

} // verus!
