use vstd::prelude::*;
use std::sync::Arc;
use std::sync::atomic::AtomicBool;
use std::sync::atomic::Ordering;

verus! {

/// The lifecycle of one voice. A voice is created idle, starts playing
/// when a decoded stream is bound to it, and ends either at the stream's
/// natural end or by cancellation. The two terminal states are never
/// revisited: the next queued stream always gets a fresh voice.
#[derive(Debug, Clone, Copy, PartialEq, Eq, Structural)]
pub enum VoiceState {
    /// Created, but no stream bound to it yet.
    Idle,
    /// A decoded stream is bound and rendering.
    Playing,
    /// The stream reached its natural end; terminal.
    Finished,
    /// The cancellation flag was set before the natural end; terminal.
    Cancelled,
}

/// Where a cancellation request moves a voice: a playing voice stops
/// early; every other state is left alone, so the terminal states are
/// never revisited.
pub open spec fn cancel_step(s: VoiceState) -> VoiceState {
    if s is Playing {
        VoiceState::Cancelled
    } else {
        s
    }
}

/// Where the natural end of the bound stream moves a voice.
pub open spec fn finish_step(s: VoiceState) -> VoiceState {
    if s is Playing {
        VoiceState::Finished
    } else {
        s
    }
}

/// Cancellation is idempotent: requesting a stop any number of times has
/// the same effect on a voice as requesting it once — playback stops at
/// most once.
pub proof fn lemma_cancel_idempotent(s: VoiceState)
    ensures
        cancel_step(cancel_step(s)) == cancel_step(s),
{
}

/// A voice that finished naturally is not also cancelled afterwards: the
/// terminal states are final.
pub proof fn lemma_terminal_states_final(s: VoiceState)
    ensures
        s is Finished || s is Cancelled ==> cancel_step(s) == s && finish_step(s) == s,
{
}

/// One concurrently playing audio channel: where it stands in its
/// lifecycle, and the cancellation flag it shares with the background
/// playback task.
pub struct Voice {
    /// Shared with the playback side, which runs on the audio device's own
    /// thread; setting it asks that side to stop rendering early.
    flag: Arc<AtomicBool>,
    state: VoiceState,
}

impl View for Voice {
    type V = VoiceState;

    closed spec fn view(&self) -> VoiceState {
        self.state
    }
}

impl Voice {
    /// A fresh voice: idle, its cancellation flag unset.
    pub fn new() -> (v: Voice)
        ensures
            v@ == VoiceState::Idle,
    {
        Voice { flag: Arc::new(AtomicBool::new(false)), state: VoiceState::Idle }
    }

    /// Where the voice stands in its lifecycle.
    pub fn state(&self) -> (s: VoiceState)
        ensures
            s == self@,
    {
        self.state
    }

    /// The shared cancellation flag, for the output backend to watch while
    /// it renders this voice's stream.
    pub fn flag(&self) -> (f: &Arc<AtomicBool>) {
        &self.flag
    }

    /// Binds the voice to a stream: it starts playing.
    pub fn start(&mut self)
        requires
            old(self)@ is Idle,
        ensures
            final(self)@ is Playing,
    {
        self.state = VoiceState::Playing;
    }

    /// The bound stream reached its natural end without a cancellation.
    pub fn finish(&mut self)
        ensures
            final(self)@ == finish_step(old(self)@),
    {
        if self.state == VoiceState::Playing {
            self.state = VoiceState::Finished;
        }
    }

    /// Requests an early stop: sets the shared flag, which the playback
    /// side observes, and records the cancellation. On a voice that is not
    /// playing the request changes nothing, so repeated requests stop
    /// playback at most once.
    pub fn cancel(&mut self)
        ensures
            final(self)@ == cancel_step(old(self)@),
    {
        if self.state == VoiceState::Playing {
            self.flag.store(true, Ordering::Relaxed);
            self.state = VoiceState::Cancelled;
        }
    }

    /// Whether the voice is in a terminal state and may be removed.
    pub fn is_done(&self) -> (r: bool)
        ensures
            r == (self@ is Finished || self@ is Cancelled),
    {
        self.state == VoiceState::Finished || self.state == VoiceState::Cancelled
    }
}

} // verus!
