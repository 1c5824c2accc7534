//! Verified core of an audio capture subsystem.
//!
//! The library resolves a human-readable device description to a concrete
//! device, negotiates a stream configuration, models the capture session as a
//! state machine fed by platform callbacks, and packages the captured samples
//! for a downstream consumer.  Platform I/O (the audio host, clocks, threads)
//! stays outside; the decisions it feeds are verified here.

mod coordinate;
mod device;
mod engine;
mod enumerate;
mod errors;
mod resolve;
mod session;
pub mod text;

pub use coordinate::finish_recording;
pub use coordinate::lemma_cleared_signal_stops;
pub use coordinate::lemma_zero_duration_stops;
pub use coordinate::poll_check;
pub use coordinate::should_stop;
pub use coordinate::stop_condition;
pub use coordinate::AudioInput;

pub use device::format_spec;
pub use device::lemma_parse_render_round_trip;
pub use device::parse_audio_device;
pub use device::parse_post;
pub use device::parse_spec;
pub use device::wf_device_name;
pub use device::AudioDevice;
pub use device::DeviceType;

pub use engine::engine_label;
pub use engine::AudioTranscriptionEngine;
pub use engine::DeviceControl;

pub use enumerate::default_input_from;
pub use enumerate::default_output_from;
pub use enumerate::device_models;
pub use enumerate::include_output_name;
pub use enumerate::lemma_outputs_kept_membership;
pub use enumerate::list_from_names;
pub use enumerate::listed_models;
pub use enumerate::name_views;
pub use enumerate::outputs_kept;
pub use enumerate::should_include_output_device;

pub use errors::CaptureError;

pub use resolve::config_side;
pub use resolve::has_match;
pub use resolve::is_display_device;
pub use resolve::resolution_source;
pub use resolve::resolve_in_list;
pub use resolve::side_spec;
pub use resolve::source_spec;
pub use resolve::wants_default;
pub use resolve::wants_default_spec;
pub use resolve::ConfigSide;
pub use resolve::EnumSource;

pub use session::buffered_after;
pub use session::encoding_supported;
pub use session::is_fatal_error_msg;
pub use session::is_fatal_stream_error;
pub use session::lemma_buffer_append_only;
pub use session::lemma_stopped_session_stays_empty;
pub use session::words_from_bytes;
pub use session::words_of;
pub use session::CaptureSession;
pub use session::RunSignal;
pub use session::SampleEncoding;
pub use session::SessionState;
pub use session::StreamConfig;
