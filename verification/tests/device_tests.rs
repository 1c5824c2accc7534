use screenpipe_audio::{
    parse_audio_device, AudioDevice, AudioTranscriptionEngine, CaptureError, DeviceControl,
    DeviceType,
};

#[test]
fn parse_strips_capitalized_input_suffix() {
    let d = parse_audio_device("Mic (Input)").unwrap();
    assert_eq!(d.name, "Mic".to_string());
    assert_eq!(d.device_type, DeviceType::Input);
}

#[test]
fn parse_strips_lowercase_input_suffix() {
    let d = parse_audio_device("mic (input)").unwrap();
    assert_eq!(d.name, "mic".to_string());
    assert_eq!(d.device_type, DeviceType::Input);
}

#[test]
fn parse_empty_fails() {
    assert_eq!(parse_audio_device(""), Err(CaptureError::InvalidDescriptor));
}

#[test]
fn parse_whitespace_only_fails() {
    assert_eq!(parse_audio_device("   "), Err(CaptureError::InvalidDescriptor));
}

#[test]
fn parse_without_direction_fails() {
    assert_eq!(parse_audio_device("Mic"), Err(CaptureError::InvalidDescriptor));
}

#[test]
fn parse_marker_alone_fails() {
    assert_eq!(parse_audio_device("(input)"), Err(CaptureError::InvalidDescriptor));
    assert_eq!(parse_audio_device("  (output)"), Err(CaptureError::InvalidDescriptor));
}

#[test]
fn parse_output_direction() {
    let d = AudioDevice::from_name("Blue Yeti (OUTPUT)").unwrap();
    assert_eq!(d.name, "Blue Yeti".to_string());
    assert_eq!(d.device_type, DeviceType::Output);
}

#[test]
fn parse_trims_space_before_marker() {
    let d = AudioDevice::from_name("USB Mic    (input)").unwrap();
    assert_eq!(d.name, "USB Mic".to_string());
    assert_eq!(d.device_type, DeviceType::Input);
}

#[test]
fn render_appends_direction_marker() {
    let d = AudioDevice::new("Mic".to_string(), DeviceType::Input);
    assert_eq!(d.render(), "Mic (input)".to_string());
    let o = AudioDevice::new("Blue Yeti".to_string(), DeviceType::Output);
    assert_eq!(o.render(), "Blue Yeti (output)".to_string());
}

#[test]
fn parse_is_left_inverse_of_render() {
    let d = AudioDevice::new("Built-in Microphone".to_string(), DeviceType::Input);
    let back = parse_audio_device(&d.render()).unwrap();
    assert_eq!(back, d);
    let o = AudioDevice::new("HDMI Out".to_string(), DeviceType::Output);
    let back = parse_audio_device(&o.render()).unwrap();
    assert_eq!(back, o);
}

#[test]
fn round_trip_keeps_a_marker_inside_the_name() {
    let d = AudioDevice::new("Odd (INPUT)".to_string(), DeviceType::Output);
    let back = parse_audio_device(&d.render()).unwrap();
    assert_eq!(back, d);
}

#[test]
fn device_equality_is_structural() {
    let a = AudioDevice::new("Mic".to_string(), DeviceType::Input);
    let b = AudioDevice::new("Mic".to_string(), DeviceType::Input);
    let c = AudioDevice::new("Mic".to_string(), DeviceType::Output);
    assert_eq!(a, b);
    assert!(a != c);
}

#[test]
fn error_messages_name_the_failure() {
    assert_eq!(
        CaptureError::DeviceNotFound.message(),
        "audio device not found".to_string()
    );
    assert_eq!(
        CaptureError::UnsupportedFormat.message(),
        "unsupported sample format".to_string()
    );
}

#[test]
fn engine_default_is_whisper_tiny() {
    assert_eq!(AudioTranscriptionEngine::default(), AudioTranscriptionEngine::WhisperTiny);
}

#[test]
fn engine_labels() {
    assert_eq!(AudioTranscriptionEngine::Deepgram.label(), "Deepgram".to_string());
    assert_eq!(AudioTranscriptionEngine::WhisperTiny.label(), "WhisperTiny".to_string());
    assert_eq!(
        AudioTranscriptionEngine::WhisperDistilLargeV3.label(),
        "WhisperLarge".to_string()
    );
}

#[test]
fn device_control_flags() {
    let c = DeviceControl { is_running: true, is_paused: false };
    assert!(c.is_running && !c.is_paused);
}
