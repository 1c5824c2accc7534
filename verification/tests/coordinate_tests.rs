use screenpipe_audio::{
    finish_recording, poll_check, should_stop, AudioDevice, CaptureSession, DeviceType,
    SampleEncoding, SessionState, StreamConfig,
};

#[test]
fn cleared_signal_stops_whatever_the_clock_says() {
    assert!(should_stop(0, 0, 1000, false));
    assert!(should_stop(i64::MIN, i64::MAX, u64::MAX, false));
}

#[test]
fn elapsed_time_stops_at_the_bound() {
    assert!(should_stop(10, 0, 10, true));
    assert!(should_stop(11, 0, 10, true));
    assert!(!should_stop(9, 0, 10, true));
}

#[test]
fn zero_duration_stops_at_the_first_poll() {
    assert!(should_stop(5, 5, 0, true));
    assert!(should_stop(6, 5, 0, true));
}

#[test]
fn extreme_clock_readings_do_not_overflow() {
    assert!(should_stop(i64::MAX, i64::MIN, u64::MAX, true));
    assert!(!should_stop(i64::MIN, i64::MAX, 0, true));
}

#[test]
fn poll_check_is_consistent_with_its_clock_reading() {
    let (stop, now) = poll_check(0, 0, true);
    assert_eq!(stop, now >= 0);
    let (stop, _now) = poll_check(0, u64::MAX, false);
    assert!(stop);
}

fn run_session(chunks: &[(bool, Vec<u32>)]) -> CaptureSession {
    let mut s = CaptureSession::begin(StreamConfig {
        sample_rate: 44100,
        channels: 1,
        encoding: SampleEncoding::Int16,
    });
    s.activate(true).unwrap();
    for (running, data) in chunks {
        s.on_data(*running, data);
    }
    s.keepalive_step(false);
    s.release();
    assert_eq!(s.state(), SessionState::Terminated);
    s
}

#[test]
fn finished_recording_packages_the_buffer() {
    let (tx, mut rx) = tokio::sync::mpsc::unbounded_channel();
    let device = AudioDevice::new("Mic".to_string(), DeviceType::Input);
    let session = run_session(&[(true, vec![1, 2]), (true, vec![3])]);
    let (pkg, delivered) = finish_recording(&device, session, &tx);
    assert!(delivered);
    assert_eq!(pkg.data, vec![1u32, 2, 3]);
    assert_eq!(pkg.device, "Mic (input)".to_string());
    assert_eq!(pkg.sample_rate, 44100);
    assert_eq!(pkg.channels, 1);
    let sent = rx.try_recv().unwrap();
    assert_eq!(sent.data, vec![1u32, 2, 3]);
    assert_eq!(sent.device, "Mic (input)".to_string());
    assert_eq!(sent.sample_rate, 44100);
    assert_eq!(sent.channels, 1);
}

#[test]
fn an_empty_capture_is_a_valid_package() {
    let (tx, mut rx) = tokio::sync::mpsc::unbounded_channel();
    let device = AudioDevice::new("Mic".to_string(), DeviceType::Input);
    let session = run_session(&[(false, vec![9, 9, 9])]);
    let (pkg, delivered) = finish_recording(&device, session, &tx);
    assert!(delivered);
    assert_eq!(pkg.data, Vec::<u32>::new());
    let sent = rx.try_recv().unwrap();
    assert_eq!(sent.data, Vec::<u32>::new());
}

#[test]
fn a_gone_receiver_does_not_fail_the_recording() {
    let (tx, rx) = tokio::sync::mpsc::unbounded_channel();
    drop(rx);
    let device = AudioDevice::new("Mic".to_string(), DeviceType::Output);
    let session = run_session(&[(true, vec![5])]);
    let (pkg, delivered) = finish_recording(&device, session, &tx);
    assert!(!delivered);
    assert_eq!(pkg.data, vec![5u32]);
    assert_eq!(pkg.device, "Mic (output)".to_string());
}
