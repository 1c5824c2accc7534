//! The capture coordinator: the poll-loop decision that bounds a recording
//! by wall-clock time and the run signal, and the packaging and dispatch of
//! the captured samples.

use vstd::prelude::*;

use crate::device::{format_spec, AudioDevice};
use crate::session::{CaptureSession, SessionState};

verus! {

/// The package handed to the downstream transcription consumer: the
/// captured sample words, the rendered device label, and the stream's rate
/// and channel count.
#[derive(Clone, Debug)]
pub struct AudioInput {
    pub data: Vec<u32>,
    pub device: String,
    pub sample_rate: u32,
    pub channels: u16,
}

/// When the coordinator's poll loop stops: the run signal is cleared, or at
/// least `max_secs` whole seconds have elapsed since `start`.
pub open spec fn stop_condition(now: i64, start: i64, max_secs: u64, running: bool) -> bool {
    !running || now - start >= max_secs
}

/// Decides whether the poll loop stops, given the clock readings and the
/// observed run signal.
pub fn should_stop(now: i64, start: i64, max_secs: u64, running: bool) -> (r: bool)
    ensures
        r == stop_condition(now, start, max_secs, running),
{
    if !running {
        true
    } else {
        (now as i128) - (start as i128) >= (max_secs as i128)
    }
}

/// Relies on chrono's `Utc::now`, read as whole seconds since the epoch;
/// nothing is assumed of the value it returns.
#[verifier::external_body]
fn now_timestamp() -> i64 {
    chrono::Utc::now().timestamp()
}

/// One round of the coordinator's poll loop: reads the clock and decides.
/// The decision returned is exactly `stop_condition` at the returned clock
/// reading, whatever the clock says.
pub fn poll_check(start: i64, max_secs: u64, running: bool) -> (r: (bool, i64))
    ensures
        r.0 == stop_condition(r.1, start, max_secs, running),
{
    let now = now_timestamp();
    (should_stop(now, start, max_secs, running), now)
}

/// A zero duration bound stops the poll loop at its first check, provided
/// only that the clock has not run backwards past the start.
pub proof fn lemma_zero_duration_stops(now: i64, start: i64, running: bool)
    requires
        start <= now,
    ensures
        stop_condition(now, start, 0, running),
{
}

/// A cleared run signal stops the poll loop at the next check, whatever the
/// clock says.  With the session's fatal-error transition, which clears the
/// signal itself, a dead device therefore unwinds the coordinator within
/// one poll interval of the error.
pub proof fn lemma_cleared_signal_stops(now: i64, start: i64, max_secs: u64)
    ensures
        stop_condition(now, start, max_secs, false),
{
}

/// A fresh copy of a sample-word buffer.
fn copy_words(v: &Vec<u32>) -> (r: Vec<u32>)
    ensures
        r@ == v@,
{
    let mut r: Vec<u32> = Vec::new();
    let mut i: usize = 0;
    while i < v.len()
        invariant
            i <= v@.len(),
            r@ =~= v@.take(i as int),
        decreases v@.len() - i,
    {
        r.push(v[i]);
        proof {
            assert(r@ =~= v@.take(i + 1));
        }
        i += 1;
    }
    proof {
        assert(v@.take(v@.len() as int) =~= v@);
    }
    r
}

/// The downstream channel's sending half, declared so that verified code
/// can carry it; the channel itself belongs to tokio.
#[verifier::external_type_specification]
#[verifier::external_body]
#[verifier::reject_recursive_types(T)]
pub struct ExUnboundedSender<T>(tokio::sync::mpsc::UnboundedSender<T>);

/// Relies on tokio's `UnboundedSender::send`: it queues the message unless
/// the receiver is gone, and the result says whether it did.  Sending never
/// blocks.
#[verifier::external_body]
fn send_audio(tx: &tokio::sync::mpsc::UnboundedSender<AudioInput>, pkg: AudioInput) -> (r: bool) {
    tx.send(pkg).is_ok()
}

/// Packages a terminated session's buffer with the device label and stream
/// parameters, dispatches a copy downstream, and hands the package back.
/// An empty buffer is a valid package, not an error; a failed dispatch (no
/// receiver) is reported in the flag and is not a failure of the recording.
pub fn finish_recording(
    device: &AudioDevice,
    session: CaptureSession,
    tx: &tokio::sync::mpsc::UnboundedSender<AudioInput>,
) -> (r: (AudioInput, bool))
    requires
        session.state_spec() == SessionState::Terminated,
    ensures
        r.0.data@ == session.buffered(),
        r.0.device@ == format_spec(device.name@, device.device_type),
        r.0.sample_rate == session.config_spec().sample_rate,
        r.0.channels == session.config_spec().channels,
{
    let label = device.render();
    let config = session.config();
    let samples = session.into_samples();
    let copy = AudioInput {
        data: copy_words(&samples),
        device: label.clone(),
        sample_rate: config.sample_rate,
        channels: config.channels,
    };
    let delivered = send_audio(tx, copy);
    let pkg = AudioInput {
        data: samples,
        device: label,
        sample_rate: config.sample_rate,
        channels: config.channels,
    };
    (pkg, delivered)
}

} // verus!
