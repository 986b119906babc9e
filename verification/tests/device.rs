use hark::device::{
    capture_ring_len, choose_config, mic_choices, mic_selected_text, select_device,
    CaptureError, ConfigChoice, ConfigRange, DeviceChoice, DEFAULT_MIC_LABEL,
};

fn names(list: &[&str]) -> Vec<String> {
    list.iter().map(|s| s.to_string()).collect()
}

fn range(format: &str, is_f32: bool, min_rate: u32, max_rate: u32) -> ConfigRange {
    ConfigRange { format: format.to_string(), is_f32, min_rate, max_rate }
}

#[test]
fn each_capture_error_says_what_failed() {
    assert_eq!(
        CaptureError::NoDevice.message(),
        "no usable microphone: no default input device"
    );
    assert_eq!(
        CaptureError::NoF32Config { offered: "i16, i32".to_string() }.message(),
        "no f32 input config available on the default device (formats offered: i16, i32)"
    );
    assert_eq!(
        CaptureError::QueryConfig("busy".to_string()).message(),
        "cannot query input device configs: busy"
    );
    assert_eq!(
        CaptureError::BuildStream("bad".to_string()).message(),
        "cannot build the input stream: bad"
    );
    assert_eq!(
        CaptureError::Play("denied".to_string()).message(),
        "cannot start the input stream: denied"
    );
    assert_eq!(
        CaptureError::ThreadDied.message(),
        "capture thread exited before reporting a stream"
    );
}

#[test]
fn a_named_device_that_is_present_is_opened() {
    let list = Some(names(&["Built-in", "Headset", "Headset"]));
    assert!(matches!(
        select_device(Some("Headset"), &list, true),
        Ok(DeviceChoice::Named(1))
    ));
    assert!(matches!(
        select_device(Some("Headset"), &list, false),
        Ok(DeviceChoice::Named(1))
    ));
}

#[test]
fn a_missing_device_falls_back_to_the_default() {
    let list = Some(names(&["Built-in"]));
    assert!(matches!(select_device(Some("USB mic"), &list, true), Ok(DeviceChoice::Default)));
    assert!(matches!(select_device(Some("USB mic"), &None, true), Ok(DeviceChoice::Default)));
    assert!(matches!(select_device(None, &list, true), Ok(DeviceChoice::Default)));
}

#[test]
fn no_device_at_all_is_an_error() {
    assert!(matches!(select_device(None, &None, false), Err(CaptureError::NoDevice)));
    let list = Some(names(&["Built-in"]));
    assert!(matches!(select_device(Some("USB mic"), &list, false), Err(CaptureError::NoDevice)));
}

#[test]
fn an_f32_default_is_taken_as_is() {
    let supported = vec![range("i16", false, 8_000, 96_000)];
    assert!(matches!(
        choose_config("f32", true, 48_000, &supported),
        Ok(ConfigChoice::Default)
    ));
}

#[test]
fn the_first_f32_range_covering_the_default_rate_is_chosen() {
    let supported = vec![
        range("i16", false, 8_000, 96_000),
        range("f32", true, 8_000, 22_050),
        range("f32", true, 44_100, 48_000),
        range("f32", true, 8_000, 192_000),
    ];
    assert!(matches!(
        choose_config("i16", false, 48_000, &supported),
        Ok(ConfigChoice::Range(2))
    ));
}

#[test]
fn without_an_f32_range_the_error_lists_every_format_seen() {
    let supported = vec![
        range("i16", false, 8_000, 96_000),
        range("f32", true, 8_000, 22_050),
        range("i32", false, 8_000, 96_000),
    ];
    match choose_config("i16", false, 48_000, &supported) {
        Err(CaptureError::NoF32Config { offered }) => assert_eq!(offered, "i16, i16, f32, i32"),
        _ => panic!("expected NoF32Config"),
    }
    match choose_config("u8", false, 48_000, &Vec::new()) {
        Err(CaptureError::NoF32Config { offered }) => assert_eq!(offered, "u8"),
        _ => panic!("expected NoF32Config"),
    }
}

#[test]
fn the_ring_holds_the_requested_seconds_at_the_stream_rate() {
    assert_eq!(capture_ring_len(40, 48_000), 1_920_000);
    assert_eq!(capture_ring_len(0, 48_000), 0);
}

#[test]
fn the_picker_lists_default_devices_and_a_disconnected_choice() {
    let devices = names(&["Array Mic", "Headset"]);
    let v = mic_choices(&devices, &Some("USB mic".to_string()), Some("Headset"));
    assert_eq!(v.len(), 4);
    assert_eq!(v[0].device, None);
    assert_eq!(v[0].label, DEFAULT_MIC_LABEL);
    assert_eq!(v[1].device.as_deref(), Some("Array Mic"));
    assert_eq!(v[1].label, "Array Mic");
    assert_eq!(v[2].device.as_deref(), Some("Headset"));
    assert_eq!(v[2].label, "Headset  \u{2014} used by Teams/Zoom");
    assert_eq!(v[3].device.as_deref(), Some("USB mic"));
    assert_eq!(v[3].label, "USB mic (not connected)");
}

#[test]
fn a_connected_or_default_selection_adds_no_entry() {
    let devices = names(&["Array Mic"]);
    assert_eq!(mic_choices(&devices, &Some("Array Mic".to_string()), None).len(), 2);
    assert_eq!(mic_choices(&devices, &None, None).len(), 2);
    assert_eq!(mic_selected_text(&None), "System default");
    assert_eq!(mic_selected_text(&Some("Headset".to_string())), "Headset");
}
