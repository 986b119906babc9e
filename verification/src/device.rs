//! The microphone: which input device capture opens, which stream format it
//! asks for, what the Settings picker offers, and what a failed start says.
//! The audio host's device list and format ranges reach this module as plain
//! values; opening the stream is the glue's.

use vstd::prelude::*;
use crate::text::{push_str, same_chars};

verus! {

/// Why capture could not start.
pub enum CaptureError {
    /// No device was named (or the named one is gone) and the host has no
    /// default input device.
    NoDevice,
    /// The default format is not f32 and no f32 range covers the device's
    /// default rate; `offered` lists every format seen.
    NoF32Config { offered: String },
    /// The host could not list the device's configurations.
    QueryConfig(String),
    /// The stream could not be built.
    BuildStream(String),
    /// The stream was built but would not start.
    Play(String),
    /// The capture thread ended before it reported a stream.
    ThreadDied,
}

/// What each failure says.
pub open spec fn message_of(e: CaptureError) -> Seq<char> {
    match e {
        CaptureError::NoDevice => "no usable microphone: no default input device"@,
        CaptureError::NoF32Config { offered } =>
            "no f32 input config available on the default device (formats offered: "@
                + offered@ + ")"@,
        CaptureError::QueryConfig(d) => "cannot query input device configs: "@ + d@,
        CaptureError::BuildStream(d) => "cannot build the input stream: "@ + d@,
        CaptureError::Play(d) => "cannot start the input stream: "@ + d@,
        CaptureError::ThreadDied => "capture thread exited before reporting a stream"@,
    }
}

impl CaptureError {
    /// The failure in words, as the settings page and the log show it.
    pub fn message(&self) -> (m: String)
        ensures
            m@ == message_of(*self),
    {
        let mut m = String::new();
        match self {
            CaptureError::NoDevice => {
                push_str(&mut m, "no usable microphone: no default input device");
            },
            CaptureError::NoF32Config { offered } => {
                push_str(
                    &mut m,
                    "no f32 input config available on the default device (formats offered: ",
                );
                push_str(&mut m, offered.as_str());
                push_str(&mut m, ")");
            },
            CaptureError::QueryConfig(d) => {
                push_str(&mut m, "cannot query input device configs: ");
                push_str(&mut m, d.as_str());
            },
            CaptureError::BuildStream(d) => {
                push_str(&mut m, "cannot build the input stream: ");
                push_str(&mut m, d.as_str());
            },
            CaptureError::Play(d) => {
                push_str(&mut m, "cannot start the input stream: ");
                push_str(&mut m, d.as_str());
            },
            CaptureError::ThreadDied => {
                push_str(&mut m, "capture thread exited before reporting a stream");
            },
        }
        m
    }
}

/// Which device capture opens.
#[derive(Debug, Clone, Copy, PartialEq, Eq)]
pub enum DeviceChoice {
    /// The enumerated device at this index.
    Named(usize),
    /// The host's default input device.
    Default,
}

/// Whether `wanted` names one of the enumerated devices.
pub open spec fn names_a_device(wanted: Option<&str>, names: Option<Vec<String>>) -> bool {
    match (wanted, names) {
        (Some(w), Some(ns)) => exists|i: int| 0 <= i < ns@.len() && (#[trigger] ns@[i])@ == w@,
        _ => false,
    }
}

/// The device to open: the first enumerated device whose name is `wanted`
/// while one is still there, else the host's default. A configured name
/// that no longer matches (mic unplugged) or a failed enumeration (`names`
/// is `None`) degrades to the default rather than failing dictation.
pub fn select_device(wanted: Option<&str>, names: &Option<Vec<String>>, has_default: bool) -> (r:
    Result<DeviceChoice, CaptureError>)
    ensures
        match r {
            Ok(DeviceChoice::Named(i)) => {
                &&& wanted matches Some(w)
                &&& names matches Some(ns)
                &&& i < ns@.len()
                &&& ns@[i as int]@ == w@
                &&& forall|j: int| 0 <= j < i ==> (#[trigger] ns@[j])@ != w@
            },
            Ok(DeviceChoice::Default) => has_default && !names_a_device(wanted, *names),
            Err(e) => e is NoDevice && !has_default && !names_a_device(wanted, *names),
        },
{
    if let Some(w) = wanted {
        if let Some(ns) = names {
            let mut i: usize = 0;
            while i < ns.len()
                invariant
                    i <= ns@.len(),
                    wanted == Some(w),
                    *names == Some(*ns),
                    forall|j: int| 0 <= j < i ==> (#[trigger] ns@[j])@ != w@,
                decreases ns@.len() - i,
            {
                if same_chars(ns[i].as_str(), w) {
                    return Ok(DeviceChoice::Named(i));
                }
                i = i + 1;
            }
        }
    }
    if has_default {
        Ok(DeviceChoice::Default)
    } else {
        Err(CaptureError::NoDevice)
    }
}

/// One range of configurations a device supports: a sample format (by its
/// name and whether it is 32-bit float) over a span of rates.
pub struct ConfigRange {
    pub format: String,
    pub is_f32: bool,
    pub min_rate: u32,
    pub max_rate: u32,
}

/// Whether a range can run f32 at `rate`.
pub open spec fn runs_f32_at(c: ConfigRange, rate: u32) -> bool {
    c.is_f32 && c.min_rate <= rate <= c.max_rate
}

/// The formats seen, `first` then each of `rest`, joined with ", ".
pub open spec fn offered_list(first: Seq<char>, rest: Seq<Seq<char>>) -> Seq<char>
    decreases rest.len(),
{
    if rest.len() == 0 {
        first
    } else {
        offered_list(first, rest.drop_last()) + ", "@ + rest.last()
    }
}

/// The format names of a list of ranges.
pub open spec fn formats_of(ranges: Seq<ConfigRange>) -> Seq<Seq<char>> {
    ranges.map_values(|c: ConfigRange| c.format@)
}

/// Which configuration capture asks for.
#[derive(Debug, Clone, Copy, PartialEq, Eq)]
pub enum ConfigChoice {
    /// The device's default configuration, already f32.
    Default,
    /// The range at this index, at the device's default rate.
    Range(usize),
}

/// Capture takes f32 samples only: the default configuration when it is
/// f32, else the first supported f32 range that covers the device's default
/// rate. With none, the error lists every format seen, the default's first.
pub fn choose_config(
    default_format: &str,
    default_is_f32: bool,
    default_rate: u32,
    supported: &Vec<ConfigRange>,
) -> (r: Result<ConfigChoice, CaptureError>)
    ensures
        match r {
            Ok(ConfigChoice::Default) => default_is_f32,
            Ok(ConfigChoice::Range(i)) => {
                &&& !default_is_f32
                &&& i < supported@.len()
                &&& runs_f32_at(supported@[i as int], default_rate)
                &&& forall|j: int|
                    0 <= j < i ==> !runs_f32_at(#[trigger] supported@[j], default_rate)
            },
            Err(e) => {
                &&& !default_is_f32
                &&& forall|j: int|
                    0 <= j < supported@.len() ==> !runs_f32_at(
                        #[trigger] supported@[j],
                        default_rate,
                    )
                &&& e matches CaptureError::NoF32Config { offered }
                &&& offered@ == offered_list(default_format@, formats_of(supported@))
            },
        },
{
    if default_is_f32 {
        return Ok(ConfigChoice::Default);
    }
    let mut offered = String::new();
    push_str(&mut offered, default_format);
    let mut i: usize = 0;
    while i < supported.len()
        invariant
            i <= supported@.len(),
            !default_is_f32,
            offered@ == offered_list(default_format@, formats_of(supported@.take(i as int))),
            forall|j: int| 0 <= j < i ==> !runs_f32_at(#[trigger] supported@[j], default_rate),
        decreases supported@.len() - i,
    {
        let c = &supported[i];
        if c.is_f32 && c.min_rate <= default_rate && default_rate <= c.max_rate {
            return Ok(ConfigChoice::Range(i));
        }
        proof {
            let next = formats_of(supported@.take(i + 1));
            assert(next.drop_last() =~= formats_of(supported@.take(i as int)));
            assert(next.last() == supported@[i as int].format@);
        }
        push_str(&mut offered, ", ");
        push_str(&mut offered, c.format.as_str());
        i = i + 1;
    }
    proof {
        assert(supported@.take(i as int) =~= supported@);
    }
    Err(CaptureError::NoF32Config { offered })
}

/// The capture ring holds `ring_seconds` of audio at the stream's rate.
pub fn capture_ring_len(ring_seconds: u32, sample_rate: u32) -> (n: usize)
    requires
        ring_seconds * sample_rate <= usize::MAX,
    ensures
        n == ring_seconds * sample_rate,
{
    (ring_seconds as usize) * (sample_rate as usize)
}

/// The picker's entry for the host's default device.
pub const DEFAULT_MIC_LABEL: &'static str = "System default";

/// One entry of the microphone picker: the device it selects (`None` for the
/// system default) and its label.
pub struct MicChoice {
    pub device: Option<String>,
    pub label: String,
}

/// A device's label: Windows keeps a second default for communications apps
/// that capture never asks for, so that device is named as such.
pub open spec fn mic_label_of(name: Seq<char>, comms_default: Option<&str>) -> Seq<char> {
    match comms_default {
        Some(c) if c@ == name => name + "  \u{2014} used by Teams/Zoom"@,
        _ => name,
    }
}

/// Whether `name` is one of `devices`.
pub open spec fn is_listed(devices: Seq<String>, name: Seq<char>) -> bool {
    exists|i: int| 0 <= i < devices.len() && (#[trigger] devices[i])@ == name
}

/// The label the closed picker shows for the selection.
pub fn mic_selected_text(selected: &Option<String>) -> (s: String)
    ensures
        s@ == match selected {
            Some(n) => n@,
            None => DEFAULT_MIC_LABEL@,
        },
{
    let mut s = String::new();
    match selected {
        Some(n) => push_str(&mut s, n.as_str()),
        None => push_str(&mut s, DEFAULT_MIC_LABEL),
    }
    s
}

/// The microphone picker: the system default first, then every enumerated
/// device in order, and last a configured device that is not connected now,
/// so opening the picker cannot silently reset the choice.
pub fn mic_choices(devices: &Vec<String>, selected: &Option<String>, comms_default: Option<&str>) -> (v:
    Vec<MicChoice>)
    ensures
        v@.len() == 1 + devices@.len() + (if selected matches Some(n) && !is_listed(
            devices@,
            n@,
        ) {
            1int
        } else {
            0int
        }),
        v@[0].device is None,
        v@[0].label@ == DEFAULT_MIC_LABEL@,
        forall|i: int|
            0 <= i < devices@.len() ==> {
                &&& (#[trigger] v@[i + 1]).device matches Some(d)
                &&& d@ == devices@[i]@
                &&& v@[i + 1].label@ == mic_label_of(devices@[i]@, comms_default)
            },
        selected matches Some(n) ==> (!is_listed(devices@, n@) ==> {
            &&& v@[devices@.len() + 1int].device matches Some(d)
            &&& d@ == n@
            &&& v@[devices@.len() + 1int].label@ == n@ + " (not connected)"@
        }),
{
    let mut v: Vec<MicChoice> = Vec::new();
    let mut first = String::new();
    push_str(&mut first, DEFAULT_MIC_LABEL);
    v.push(MicChoice { device: None, label: first });
    let mut found = false;
    let mut i: usize = 0;
    while i < devices.len()
        invariant
            i <= devices@.len(),
            v@.len() == i + 1,
            v@[0].device is None,
            v@[0].label@ == DEFAULT_MIC_LABEL@,
            forall|k: int|
                0 <= k < i ==> {
                    &&& (#[trigger] v@[k + 1]).device matches Some(d)
                    &&& d@ == devices@[k]@
                    &&& v@[k + 1].label@ == mic_label_of(devices@[k]@, comms_default)
                },
            found == (selected matches Some(n) && exists|k: int|
                0 <= k < i && (#[trigger] devices@[k])@ == n@),
        decreases devices@.len() - i,
    {
        let name = devices[i].as_str();
        let mut device = String::new();
        push_str(&mut device, name);
        let mut label = String::new();
        push_str(&mut label, name);
        let is_comms = match comms_default {
            Some(c) => same_chars(c, name),
            None => false,
        };
        if is_comms {
            push_str(&mut label, "  \u{2014} used by Teams/Zoom");
        }
        let is_selected = match selected {
            Some(n) => same_chars(n.as_str(), name),
            None => false,
        };
        if is_selected {
            found = true;
        }
        v.push(MicChoice { device: Some(device), label });
        i = i + 1;
    }
    if let Some(n) = selected {
        if !found {
            let mut device = String::new();
            push_str(&mut device, n.as_str());
            let mut label = String::new();
            push_str(&mut label, n.as_str());
            push_str(&mut label, " (not connected)");
            v.push(MicChoice { device: Some(device), label });
        }
    }
    v
}

} // verus!
