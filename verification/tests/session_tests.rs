use screenpipe_audio::{
    is_fatal_stream_error, words_from_bytes, CaptureError, CaptureSession, RunSignal,
    SampleEncoding, SessionState, StreamConfig,
};

fn config(encoding: SampleEncoding) -> StreamConfig {
    StreamConfig { sample_rate: 48000, channels: 2, encoding }
}

#[test]
fn words_regroup_four_bytes_little_endian() {
    let bytes = [0x01u8, 0x00, 0x00, 0x00, 0xFF, 0x00, 0x00, 0x80];
    let words = words_from_bytes(&bytes);
    assert_eq!(words, vec![1u32, 0x8000_00FFu32]);
}

#[test]
fn words_drop_a_trailing_fragment() {
    let bytes = [0x01u8, 0x02, 0x03, 0x04, 0x05, 0x06];
    let words = words_from_bytes(&bytes);
    assert_eq!(words, vec![0x0403_0201u32]);
}

#[test]
fn unsupported_encoding_never_reaches_streaming() {
    let mut s = CaptureSession::begin(config(SampleEncoding::Other));
    assert_eq!(s.activate(true), Err(CaptureError::UnsupportedFormat));
    assert_eq!(s.state(), SessionState::Terminated);
}

#[test]
fn rejected_stream_start_never_reaches_streaming() {
    let mut s = CaptureSession::begin(config(SampleEncoding::Float32));
    assert_eq!(s.activate(false), Err(CaptureError::StreamStartFailure));
    assert_eq!(s.state(), SessionState::Terminated);
}

#[test]
fn each_supported_encoding_activates() {
    for e in [
        SampleEncoding::Int8,
        SampleEncoding::Int16,
        SampleEncoding::Int32,
        SampleEncoding::Float32,
    ] {
        let mut s = CaptureSession::begin(config(e));
        assert_eq!(s.activate(true), Ok(()));
        assert_eq!(s.state(), SessionState::Streaming);
    }
}

#[test]
fn callbacks_append_only_while_the_signal_is_set() {
    let mut s = CaptureSession::begin(config(SampleEncoding::Int16));
    s.activate(true).unwrap();
    s.on_data(true, &[10, 20]);
    s.on_data(false, &[30]);
    s.on_data(true, &[40]);
    assert!(s.keepalive_step(false));
    s.release();
    assert_eq!(s.into_samples(), vec![10u32, 20, 40]);
}

#[test]
fn cleared_signal_before_any_callback_yields_an_empty_buffer() {
    let mut s = CaptureSession::begin(config(SampleEncoding::Int8));
    s.activate(true).unwrap();
    s.on_data(false, &[1, 2, 3]);
    s.on_data(false, &[4]);
    assert!(s.keepalive_step(false));
    s.release();
    assert_eq!(s.into_samples(), Vec::<u32>::new());
}

#[test]
fn sequential_sessions_do_not_share_buffers() {
    let mut first = CaptureSession::begin(config(SampleEncoding::Float32));
    first.activate(true).unwrap();
    first.on_data(true, &[7, 8, 9]);
    first.keepalive_step(false);
    first.release();
    assert_eq!(first.into_samples(), vec![7u32, 8, 9]);

    let mut second = CaptureSession::begin(config(SampleEncoding::Float32));
    assert_eq!(second.buffered_len(), 0);
    second.activate(true).unwrap();
    second.on_data(true, &[1]);
    second.keepalive_step(false);
    second.release();
    assert_eq!(second.into_samples(), vec![1u32]);
}

#[test]
fn fatal_error_message_is_a_substring_match() {
    assert!(is_fatal_stream_error("the device is no longer valid (disconnected)"));
    assert!(!is_fatal_stream_error("buffer underrun"));
    assert!(!is_fatal_stream_error("DEVICE IS NO LONGER VALID"));
}

#[test]
fn fatal_error_stops_the_session_and_clears_the_signal() {
    let mut s = CaptureSession::begin(config(SampleEncoding::Int32));
    s.activate(true).unwrap();
    let mut run = RunSignal::new();
    assert!(run.observe());
    s.on_error(&mut run, "the device is no longer valid");
    assert_eq!(s.state(), SessionState::Stopping);
    assert!(!run.observe());
}

#[test]
fn recoverable_error_changes_nothing() {
    let mut s = CaptureSession::begin(config(SampleEncoding::Int32));
    s.activate(true).unwrap();
    let mut run = RunSignal::new();
    s.on_error(&mut run, "transient xrun");
    assert_eq!(s.state(), SessionState::Streaming);
    assert!(run.observe());
}

#[test]
fn keepalive_continues_while_the_signal_is_set() {
    let mut s = CaptureSession::begin(config(SampleEncoding::Int16));
    s.activate(true).unwrap();
    assert!(!s.keepalive_step(true));
    assert_eq!(s.state(), SessionState::Streaming);
    assert!(s.keepalive_step(false));
    assert_eq!(s.state(), SessionState::Stopping);
    s.release();
    assert_eq!(s.state(), SessionState::Terminated);
}

#[test]
fn run_signal_clears_once_and_stays_cleared() {
    let mut run = RunSignal::new();
    assert!(run.observe());
    run.clear();
    assert!(!run.observe());
    run.clear();
    assert!(!run.observe());
}
