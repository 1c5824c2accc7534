use screenpipe_audio::{
    default_input_from, default_output_from, list_from_names, should_include_output_device,
    CaptureError, DeviceType,
};

#[test]
fn exclusion_filter_drops_speakers_and_airpods() {
    let inputs: Vec<String> = vec![];
    let virt: Vec<String> = vec![];
    let outs = vec![
        "Built-in Speakers".to_string(),
        "AirPods Pro".to_string(),
        "USB DAC".to_string(),
    ];
    let listed = list_from_names(&inputs, &virt, &outs);
    assert_eq!(listed.len(), 1);
    assert_eq!(listed[0].name, "USB DAC".to_string());
    assert_eq!(listed[0].device_type, DeviceType::Output);
}

#[test]
fn exclusion_filter_is_case_insensitive() {
    assert!(!should_include_output_device("built-in SPEAKERS"));
    assert!(!should_include_output_device("airPods Max"));
    assert!(should_include_output_device("Studio Monitor"));
}

#[test]
fn listing_keeps_inputs_then_outputs_in_order() {
    let inputs = vec!["Mic A".to_string(), "Mic B".to_string()];
    let virt = vec!["Display Capture".to_string(), "Loopback Speakers".to_string()];
    let outs = vec!["HDMI Out".to_string()];
    let listed = list_from_names(&inputs, &virt, &outs);
    assert_eq!(listed.len(), 4);
    assert_eq!(listed[0].name, "Mic A".to_string());
    assert_eq!(listed[0].device_type, DeviceType::Input);
    assert_eq!(listed[1].name, "Mic B".to_string());
    assert_eq!(listed[1].device_type, DeviceType::Input);
    assert_eq!(listed[2].name, "Display Capture".to_string());
    assert_eq!(listed[2].device_type, DeviceType::Output);
    assert_eq!(listed[3].name, "HDMI Out".to_string());
    assert_eq!(listed[3].device_type, DeviceType::Output);
}

#[test]
fn inputs_are_never_filtered() {
    let inputs = vec!["Speakers Loopback Mic".to_string()];
    let virt: Vec<String> = vec![];
    let outs: Vec<String> = vec![];
    let listed = list_from_names(&inputs, &virt, &outs);
    assert_eq!(listed.len(), 1);
    assert_eq!(listed[0].device_type, DeviceType::Input);
}

#[test]
fn default_input_wraps_the_platform_name() {
    let d = default_input_from(Some("Built-in Microphone".to_string())).unwrap();
    assert_eq!(d.name, "Built-in Microphone".to_string());
    assert_eq!(d.device_type, DeviceType::Input);
    assert_eq!(default_input_from(None), Err(CaptureError::DeviceNotFound));
}

#[test]
fn default_output_prefers_virtual_capture() {
    let d = default_output_from(
        Some("Display Capture".to_string()),
        Some("Built-in Output".to_string()),
    )
    .unwrap();
    assert_eq!(d.name, "Display Capture".to_string());
    assert_eq!(d.device_type, DeviceType::Output);
}

#[test]
fn default_output_falls_back_to_native() {
    let d = default_output_from(None, Some("Built-in Output".to_string())).unwrap();
    assert_eq!(d.name, "Built-in Output".to_string());
    assert_eq!(d.device_type, DeviceType::Output);
    assert_eq!(default_output_from(None, None), Err(CaptureError::DeviceNotFound));
}
