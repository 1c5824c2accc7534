//! The capture session: a state machine over the life of one hardware
//! stream.  The platform drives it through callbacks and a keepalive loop;
//! every decision those paths take is made here.

use vstd::prelude::*;

use crate::errors::CaptureError;
use crate::text::contains_seq;

verus! {

/// The sample encoding a stream hands to its data callback.  `Other` stands
/// for every platform encoding without a conversion path.
#[derive(Clone, Copy, Debug, PartialEq, Eq, Structural)]
pub enum SampleEncoding {
    Int8,
    Int16,
    Int32,
    Float32,
    Other,
}

/// The encoding has a conversion path to normalized samples.
pub open spec fn encoding_supported(e: SampleEncoding) -> bool {
    e != SampleEncoding::Other
}

/// A stream configuration negotiated once per session.
#[derive(Clone, Copy, Debug, PartialEq, Eq, Structural)]
pub struct StreamConfig {
    pub sample_rate: u32,
    pub channels: u16,
    pub encoding: SampleEncoding,
}

/// The life-cycle states of a capture session.
#[derive(Clone, Copy, Debug, PartialEq, Eq, Structural)]
pub enum SessionState {
    Idle,
    Starting,
    Streaming,
    Stopping,
    Terminated,
}

/// The shared stop/continue flag.  It starts set and can only be cleared:
/// no operation sets it back, so within one session it transitions to
/// `false` at most once, monotonically.
pub struct RunSignal {
    set: bool,
}

impl RunSignal {
    /// Whether the signal still allows the session to run.
    pub closed spec fn is_set(&self) -> bool {
        self.set
    }

    /// A fresh signal, set.
    pub fn new() -> (r: Self)
        ensures
            r.is_set(),
    {
        RunSignal { set: true }
    }

    /// Reads the flag without owning it.
    pub fn observe(&self) -> (r: bool)
        ensures
            r == self.is_set(),
    {
        self.set
    }

    /// Requests a stop; once cleared the signal stays cleared.
    pub fn clear(&mut self)
        ensures
            !final(self).is_set(),
    {
        self.set = false;
    }
}

/// The marker that tells a fatal stream error from a recoverable one.
pub open spec fn fatal_marker() -> Seq<char> {
    "device is no longer valid"@
}

/// A stream error message reports the device gone.
pub open spec fn is_fatal_error_msg(m: Seq<char>) -> bool {
    contains_seq(m, fatal_marker())
}

/// Whether a stream error message reports the device gone.  A substring
/// heuristic on the platform's wording; not stable across platform versions.
pub fn is_fatal_stream_error(msg: &str) -> (r: bool)
    ensures
        r == is_fatal_error_msg(msg@),
{
    crate::text::contains_pat(msg, "device is no longer valid")
}

/// The sample word assembled from four raw little-endian callback bytes.
pub open spec fn word_at(b: Seq<u8>, i: int) -> u32 {
    (b[4 * i] as u32) | ((b[4 * i + 1] as u32) << 8) | ((b[4 * i + 2] as u32) << 16) | ((b[4 * i
        + 3] as u32) << 24)
}

/// The sample words of a raw byte buffer; a trailing fragment of less than
/// one word is dropped.
pub open spec fn words_of(b: Seq<u8>) -> Seq<u32> {
    Seq::new((b.len() / 4) as nat, |i: int| word_at(b, i))
}

/// Regroups the raw bytes a data callback delivers into sample words.
pub fn words_from_bytes(bytes: &[u8]) -> (r: Vec<u32>)
    ensures
        r@ == words_of(bytes@),
{
    let n = bytes.len() / 4;
    proof {
        assert(4 * (n as int) <= bytes@.len()) by (nonlinear_arith)
            requires
                n == bytes@.len() as int / 4,
        ;
    }
    let mut r: Vec<u32> = Vec::new();
    let mut i: usize = 0;
    let mut b: usize = 0;
    while i < n
        invariant
            n == bytes@.len() / 4,
            4 * (n as int) <= bytes@.len(),
            i <= n,
            b == 4 * (i as int),
            r@ =~= words_of(bytes@).take(i as int),
        decreases n - i,
    {
        let w = (bytes[b] as u32) | ((bytes[b + 1] as u32) << 8) | ((bytes[b + 2] as u32) << 16)
            | ((bytes[b + 3] as u32) << 24);
        r.push(w);
        proof {
            assert(w == word_at(bytes@, i as int));
            assert(r@ =~= words_of(bytes@).take(i + 1));
        }
        i += 1;
        b += 4;
    }
    proof {
        assert(words_of(bytes@).take(n as int) =~= words_of(bytes@));
    }
    r
}

/// One capture session: the state of its stream and the buffer its
/// callbacks fill.  Each session owns a buffer of its own, created empty.
pub struct CaptureSession {
    state: SessionState,
    config: StreamConfig,
    buf: Vec<u32>,
}

impl CaptureSession {
    /// The session's life-cycle state.
    pub closed spec fn state_spec(&self) -> SessionState {
        self.state
    }

    /// The configuration the session was begun with.
    pub closed spec fn config_spec(&self) -> StreamConfig {
        self.config
    }

    /// The samples captured so far.
    pub closed spec fn buffered(&self) -> Seq<u32> {
        self.buf@
    }

    /// The session's life-cycle state, read out.
    pub fn state(&self) -> (r: SessionState)
        ensures
            r == self.state_spec(),
    {
        self.state
    }

    /// The session's configuration, read out.
    pub fn config(&self) -> (r: StreamConfig)
        ensures
            r == self.config_spec(),
    {
        self.config
    }

    /// How many samples the session has buffered.
    pub fn buffered_len(&self) -> (r: usize)
        ensures
            r == self.buffered().len(),
    {
        self.buf.len()
    }

    /// Idle to Starting: a session over a negotiated configuration, with a
    /// fresh, empty capture buffer of its own.
    pub fn begin(config: StreamConfig) -> (s: Self)
        ensures
            s.state_spec() == SessionState::Starting,
            s.config_spec() == config,
            s.buffered() == Seq::<u32>::empty(),
    {
        CaptureSession { state: SessionState::Starting, config, buf: Vec::new() }
    }

    /// Starting to Streaming, if the encoding has a conversion path and the
    /// platform accepted stream construction and activation; a session that
    /// fails here never reaches Streaming.
    pub fn activate(&mut self, platform_accepted: bool) -> (r: Result<(), CaptureError>)
        requires
            old(self).state_spec() == SessionState::Starting,
        ensures
            final(self).config_spec() == old(self).config_spec(),
            final(self).buffered() == old(self).buffered(),
            !encoding_supported(old(self).config_spec().encoding) ==> (r
                == Result::<(), CaptureError>::Err(CaptureError::UnsupportedFormat)
                && final(self).state_spec() == SessionState::Terminated),
            encoding_supported(old(self).config_spec().encoding) && !platform_accepted ==> (r
                == Result::<(), CaptureError>::Err(CaptureError::StreamStartFailure)
                && final(self).state_spec() == SessionState::Terminated),
            encoding_supported(old(self).config_spec().encoding) && platform_accepted ==> (r
                == Result::<(), CaptureError>::Ok(())
                && final(self).state_spec() == SessionState::Streaming),
    {
        if self.config.encoding == SampleEncoding::Other {
            self.state = SessionState::Terminated;
            Err(CaptureError::UnsupportedFormat)
        } else if !platform_accepted {
            self.state = SessionState::Terminated;
            Err(CaptureError::StreamStartFailure)
        } else {
            self.state = SessionState::Streaming;
            Ok(())
        }
    }

    /// A data callback while Streaming: the samples are appended only if the
    /// run signal was still set at the moment of the callback.  This is how a
    /// stop takes effect without blocking the realtime path.
    pub fn on_data(&mut self, running: bool, samples: &[u32])
        requires
            old(self).state_spec() == SessionState::Streaming,
        ensures
            final(self).state_spec() == SessionState::Streaming,
            final(self).config_spec() == old(self).config_spec(),
            running ==> final(self).buffered() == old(self).buffered() + samples@,
            !running ==> final(self).buffered() == old(self).buffered(),
    {
        if running {
            let mut i: usize = 0;
            while i < samples.len()
                invariant
                    i <= samples@.len(),
                    self.state == old(self).state_spec(),
                    self.config == old(self).config_spec(),
                    self.buf@ =~= old(self).buffered() + samples@.take(i as int),
                decreases samples@.len() - i,
            {
                self.buf.push(samples[i]);
                proof {
                    assert(self.buf@ =~= old(self).buffered() + samples@.take(i + 1));
                }
                i += 1;
            }
            proof {
                assert(samples@.take(samples@.len() as int) =~= samples@);
            }
        }
    }

    /// The error callback while Streaming: a message that reports the device
    /// gone forces Stopping and clears the run signal itself, so every
    /// cooperating observer sees the stop; any other message changes nothing.
    pub fn on_error(&mut self, run: &mut RunSignal, msg: &str)
        requires
            old(self).state_spec() == SessionState::Streaming,
        ensures
            final(self).config_spec() == old(self).config_spec(),
            final(self).buffered() == old(self).buffered(),
            is_fatal_error_msg(msg@) ==> (final(self).state_spec() == SessionState::Stopping
                && !final(run).is_set()),
            !is_fatal_error_msg(msg@) ==> (final(self).state_spec() == SessionState::Streaming
                && final(run).is_set() == old(run).is_set()),
    {
        if is_fatal_stream_error(msg) {
            self.state = SessionState::Stopping;
            run.clear();
        }
    }

    /// One round of the keepalive loop, with the run signal as observed: a
    /// cleared signal moves the session to Stopping and ends the loop.
    pub fn keepalive_step(&mut self, running: bool) -> (done: bool)
        requires
            old(self).state_spec() == SessionState::Streaming || old(self).state_spec()
                == SessionState::Stopping,
        ensures
            final(self).config_spec() == old(self).config_spec(),
            final(self).buffered() == old(self).buffered(),
            done == !running,
            running ==> final(self).state_spec() == old(self).state_spec(),
            !running ==> final(self).state_spec() == SessionState::Stopping,
    {
        if !running {
            self.state = SessionState::Stopping;
            true
        } else {
            false
        }
    }

    /// Stopping to Terminated: the hardware stream has been deactivated and
    /// released, strictly after the last callback that could append.
    pub fn release(&mut self)
        requires
            old(self).state_spec() == SessionState::Stopping,
        ensures
            final(self).state_spec() == SessionState::Terminated,
            final(self).config_spec() == old(self).config_spec(),
            final(self).buffered() == old(self).buffered(),
    {
        self.state = SessionState::Terminated;
    }

    /// Consumes the terminated session and hands its buffer out, exactly
    /// once.
    pub fn into_samples(self) -> (r: Vec<u32>)
        requires
            self.state_spec() == SessionState::Terminated,
        ensures
            r@ == self.buffered(),
    {
        self.buf
    }
}

/// The buffer contents after a sequence of data callbacks, each an observed
/// run-signal value and the delivered samples.
pub open spec fn buffered_after(init: Seq<u32>, events: Seq<(bool, Seq<u32>)>) -> Seq<u32>
    decreases events.len(),
{
    if events.len() == 0 {
        init
    } else {
        let prior = buffered_after(init, events.drop_last());
        if events.last().0 {
            prior + events.last().1
        } else {
            prior
        }
    }
}

/// A session whose run signal is cleared before any callback fires buffers
/// nothing: however many callbacks arrive, the capture buffer stays empty.
pub proof fn lemma_stopped_session_stays_empty(events: Seq<(bool, Seq<u32>)>)
    requires
        forall|i: int| 0 <= i < events.len() ==> !events[i].0,
    ensures
        buffered_after(Seq::empty(), events) == Seq::<u32>::empty(),
    decreases events.len(),
{
    if events.len() > 0 {
        assert(!events[events.len() - 1].0);
        lemma_stopped_session_stays_empty(events.drop_last());
    }
}

/// The capture buffer is append-only: whatever it held beforehand stays a
/// prefix, and what the callbacks add depends on those callbacks alone.  Two
/// sessions therefore never leak samples into one another: each starts from
/// the empty buffer and ends with exactly what its own callbacks appended.
pub proof fn lemma_buffer_append_only(init: Seq<u32>, events: Seq<(bool, Seq<u32>)>)
    ensures
        buffered_after(init, events) == init + buffered_after(Seq::empty(), events),
    decreases events.len(),
{
    if events.len() == 0 {
        assert(buffered_after(init, events) == init);
        assert(init + Seq::<u32>::empty() =~= init);
    } else {
        lemma_buffer_append_only(init, events.drop_last());
        if events.last().0 {
            assert(init + (buffered_after(Seq::empty(), events.drop_last()) + events.last().1)
                =~= (init + buffered_after(Seq::empty(), events.drop_last())) + events.last().1);
        }
    }
}

} // verus!
