use vstd::prelude::*;
use std::sync::Arc;
use std::sync::atomic::AtomicBool;
use crate::decode::decodes_ok;
use crate::decode::DecodedStream;
use crate::source::DecoderError;
use crate::source::Source;
use crate::voice::cancel_step;
use crate::voice::finish_step;
use crate::voice::Voice;
use crate::voice::VoiceState;

verus! {

/// The sounds a sequence of voices keeps when the terminal ones are
/// dropped: the playing voices, in their original order.
pub open spec fn keep_playing(s: Seq<VoiceState>) -> Seq<VoiceState>
    decreases s.len(),
{
    if s.len() == 0 {
        Seq::empty()
    } else if s.first() is Playing {
        seq![s.first()] + keep_playing(s.drop_first())
    } else {
        keep_playing(s.drop_first())
    }
}

/// The playing state of one emitter: its FIFO queue of pending decoded
/// sounds and its live voices.
///
/// This is also exactly what a picker callback sees while it runs: the
/// picker slot stands apart, in [`AudioEmitter`], so a callback holding
/// exclusive access to this state can never observe or re-enter itself.
pub struct EmitterCore {
    voices: Vec<Voice>,
    sound_queue: Vec<DecodedStream>,
}

impl EmitterCore {
    /// The pending sounds, each as the encoded bytes it was decoded from,
    /// head (next to play) first.
    pub closed spec fn queue_model(self) -> Seq<Seq<u8>> {
        self.sound_queue@.map(|i: int, s: DecodedStream| s@)
    }

    /// The lifecycle state of each voice, oldest first.
    pub closed spec fn voice_model(self) -> Seq<VoiceState> {
        self.voices@.map(|i: int, v: Voice| v@)
    }

    /// An emitter runs out of sound when nothing is pending and no voice
    /// is still playing: the condition under which the scheduler asks the
    /// picker for a refill.
    pub open spec fn out_of_sound_spec(self) -> bool {
        &&& self.queue_model().len() == 0
        &&& forall|i: int|
            0 <= i < self.voice_model().len() ==> !(#[trigger] self.voice_model()[i] is Playing)
    }

    /// A core with no voices and nothing queued.
    pub fn new() -> (c: EmitterCore)
        ensures
            c.queue_model() == Seq::<Seq<u8>>::empty(),
            c.voice_model() == Seq::<VoiceState>::empty(),
    {
        let c = EmitterCore { voices: Vec::new(), sound_queue: Vec::new() };
        proof {
            assert(c.queue_model() =~= Seq::<Seq<u8>>::empty());
            assert(c.voice_model() =~= Seq::<VoiceState>::empty());
        }
        c
    }

    /// Appends an already-decoded stream at the tail of the pending queue.
    pub fn enqueue(&mut self, stream: DecodedStream)
        ensures
            final(self).queue_model() == old(self).queue_model().push(stream@),
            final(self).voice_model() == old(self).voice_model(),
    {
        self.sound_queue.push(stream);
        proof {
            assert(final(self).queue_model() =~= old(self).queue_model().push(stream@));
        }
    }

    /// Plays an audio source from this emitter: decodes it and appends the
    /// decoded stream at the tail of the pending queue, so sounds play in
    /// the order they were requested. Succeeds exactly when the bytes
    /// decode; on failure the error is returned and nothing changes.
    /// Playback itself starts only when the scheduler later binds the
    /// queued stream to a voice.
    pub fn play(&mut self, source: &Source) -> (r: Result<(), DecoderError>)
        ensures
            r is Ok <==> decodes_ok(source@),
            r is Ok ==> final(self).queue_model() == old(self).queue_model().push(source@),
            r is Ok ==> final(self).voice_model() == old(self).voice_model(),
            r is Err ==> *final(self) == *old(self),
    {
        match DecodedStream::decode(source) {
            Ok(stream) => {
                self.enqueue(stream);
                Ok(())
            },
            Err(e) => Err(e),
        }
    }

    /// How many sounds are pending.
    pub fn queue_len(&self) -> (n: usize)
        ensures
            n == self.queue_model().len(),
    {
        self.sound_queue.len()
    }

    /// How many voices the emitter holds, playing or terminal.
    pub fn voice_count(&self) -> (n: usize)
        ensures
            n == self.voice_model().len(),
    {
        self.voices.len()
    }

    /// The lifecycle state of the given voice.
    pub fn voice_state(&self, i: usize) -> (s: VoiceState)
        requires
            i < self.voice_model().len(),
        ensures
            s == self.voice_model()[i as int],
    {
        self.voices[i].state()
    }

    /// The given voice's shared cancellation flag, for the output backend
    /// to watch while it renders that voice's stream.
    pub fn voice_flag(&self, i: usize) -> (f: &Arc<AtomicBool>)
        requires
            i < self.voice_model().len(),
    {
        self.voices[i].flag()
    }

    /// Dequeues the head of the pending queue, starts a fresh voice for
    /// it, and returns the stream for the output backend to render; with
    /// an empty queue, nothing changes. Streams leave the queue in the
    /// strict order their `play` calls enqueued them.
    pub fn bind_next(&mut self) -> (r: Option<DecodedStream>)
        ensures
            old(self).queue_model().len() == 0 ==> r is None && *final(self) == *old(self),
            old(self).queue_model().len() > 0 ==> {
                &&& r matches Some(s) && s@ == old(self).queue_model().first()
                &&& final(self).queue_model() == old(self).queue_model().drop_first()
                &&& final(self).voice_model() == old(self).voice_model().push(
                    VoiceState::Playing,
                )
            },
    {
        if self.sound_queue.len() == 0 {
            None
        } else {
            let stream = self.sound_queue.remove(0);
            let mut v = Voice::new();
            v.start();
            self.voices.push(v);
            proof {
                assert(final(self).queue_model() =~= old(self).queue_model().drop_first());
                assert(final(self).voice_model() =~= old(self).voice_model().push(
                    VoiceState::Playing,
                ));
            }
            Some(stream)
        }
    }

    /// The given voice's stream reached its natural end: the scheduler
    /// reports the event and the voice becomes `Finished` (if it was still
    /// playing; terminal states are never revisited).
    pub fn finish_voice(&mut self, i: usize)
        requires
            i < old(self).voice_model().len(),
        ensures
            final(self).voice_model() == old(self).voice_model().update(
                i as int,
                finish_step(old(self).voice_model()[i as int]),
            ),
            final(self).queue_model() == old(self).queue_model(),
    {
        let v = &mut self.voices[i];
        v.finish();
        proof {
            assert(final(self).voice_model() =~= old(self).voice_model().update(
                i as int,
                finish_step(old(self).voice_model()[i as int]),
            ));
        }
    }

    /// Requests an early stop of the given voice: its shared flag is set
    /// and it becomes `Cancelled` (if it was still playing).
    pub fn cancel_voice(&mut self, i: usize)
        requires
            i < old(self).voice_model().len(),
        ensures
            final(self).voice_model() == old(self).voice_model().update(
                i as int,
                cancel_step(old(self).voice_model()[i as int]),
            ),
            final(self).queue_model() == old(self).queue_model(),
    {
        let v = &mut self.voices[i];
        v.cancel();
        proof {
            assert(final(self).voice_model() =~= old(self).voice_model().update(
                i as int,
                cancel_step(old(self).voice_model()[i as int]),
            ));
        }
    }

    /// Requests an early stop of every voice: what teardown of the owning
    /// entity does before the emitter is dropped.
    pub fn cancel_all(&mut self)
        ensures
            final(self).voice_model() == old(self).voice_model().map(
                |j: int, s: VoiceState| cancel_step(s),
            ),
            final(self).queue_model() == old(self).queue_model(),
    {
        let n = self.voices.len();
        let mut i: usize = 0;
        while i < n
            invariant
                n == self.voice_model().len(),
                i <= n,
                self.queue_model() == old(self).queue_model(),
                self.voice_model().len() == old(self).voice_model().len(),
                forall|j: int|
                    0 <= j < i ==> #[trigger] self.voice_model()[j] == cancel_step(
                        old(self).voice_model()[j],
                    ),
                forall|j: int|
                    i <= j < n ==> #[trigger] self.voice_model()[j] == old(self).voice_model()[j],
            decreases n - i,
        {
            self.cancel_voice(i);
            i = i + 1;
        }
        proof {
            assert(final(self).voice_model() =~= old(self).voice_model().map(
                |j: int, s: VoiceState| cancel_step(s),
            ));
        }
    }

    /// Drops the voices that reached a terminal state, keeping the playing
    /// ones in their original order; finished and cancelled voices are
    /// what the scheduler removes each tick.
    pub fn retain_playing(&mut self)
        ensures
            final(self).voice_model() == keep_playing(old(self).voice_model()),
            final(self).queue_model() == old(self).queue_model(),
    {
        let mut kept: Vec<Voice> = Vec::new();
        let ghost all = self.voices@;
        while self.voices.len() != 0
            invariant
                self.queue_model() == old(self).queue_model(),
                all == old(self).voices@,
                kept@.map(|i: int, v: Voice| v@) + keep_playing(
                    self.voices@.map(|i: int, v: Voice| v@),
                ) == keep_playing(all.map(|i: int, v: Voice| v@)),
            decreases self.voices.len(),
        {
            let ghost pre = self.voices@.map(|i: int, v: Voice| v@);
            let v = self.voices.remove(0);
            proof {
                assert(self.voices@.map(|i: int, v: Voice| v@) =~= pre.drop_first());
            }
            if !(v.state() == VoiceState::Playing) {
                proof {
                    assert(keep_playing(pre) == keep_playing(pre.drop_first()));
                }
            } else {
                let ghost kept_pre = kept@.map(|i: int, v: Voice| v@);
                kept.push(v);
                proof {
                    assert(kept@.map(|i: int, v: Voice| v@) =~= kept_pre.push(v@));
                    assert(keep_playing(pre) == seq![pre.first()] + keep_playing(
                        pre.drop_first(),
                    ));
                    assert(kept_pre.push(v@) + keep_playing(pre.drop_first()) =~= kept_pre + (
                    seq![v@] + keep_playing(pre.drop_first())));
                }
            }
        }
        proof {
            assert(self.voices@.map(|i: int, v: Voice| v@) =~= Seq::<VoiceState>::empty());
            assert(keep_playing(Seq::<VoiceState>::empty()) == Seq::<VoiceState>::empty());
        }
        self.voices = kept;
        proof {
            assert(kept@.map(|i: int, v: Voice| v@) + Seq::<VoiceState>::empty() =~= kept@.map(
                |i: int, v: Voice| v@,
            ));
        }
    }

    /// Whether the emitter has run out of sound: nothing pending and no
    /// voice still playing. When this holds, the scheduler turns to the
    /// picker for a refill.
    pub fn out_of_sound(&self) -> (r: bool)
        ensures
            r == self.out_of_sound_spec(),
    {
        if self.sound_queue.len() != 0 {
            return false;
        }
        let n = self.voices.len();
        let mut i: usize = 0;
        while i < n
            invariant
                n == self.voice_model().len(),
                i <= n,
                forall|j: int| 0 <= j < i ==> !(#[trigger] self.voice_model()[j] is Playing),
            decreases n - i,
        {
            if self.voices[i].state() == VoiceState::Playing {
                proof {
                    assert(self.voice_model()[i as int] is Playing);
                }
                return false;
            }
            i = i + 1;
        }
        true
    }
}

/// A re-fill callback. When an emitter has run out of sound, the scheduler
/// detaches the emitter's picker and invokes it with exclusive access to
/// the emitter's playing state; the picker typically queues the next sound
/// with [`EmitterCore::play`]. Returning `true` asks to be reattached for
/// the next such event; `false` asks to be dropped.
pub trait Picker: Sized {
    /// Decides what the emitter should play next, mutating the emitter's
    /// playing state at will.
    fn pick(&mut self, emitter: &mut EmitterCore) -> bool;
}

/// A picker that refills nothing and detaches itself at the first idle
/// event: the picker of an emitter that only ever plays what it is
/// explicitly given.
pub struct NoPicker;

impl Picker for NoPicker {
    fn pick(&mut self, _emitter: &mut EmitterCore) -> bool {
        false
    }
}

/// A picker that queues its source again at every idle event and stays
/// attached: an endlessly looping sound. While it runs it calls `play` on
/// the very emitter state it was detached from — safe precisely because
/// the picker slot is empty for the duration of the call.
pub struct LoopPicker {
    source: Source,
}

impl LoopPicker {
    /// A picker that loops the given source.
    pub fn new(source: Source) -> (p: LoopPicker) {
        LoopPicker { source }
    }
}

impl Picker for LoopPicker {
    fn pick(&mut self, emitter: &mut EmitterCore) -> bool {
        let _ = emitter.play(&self.source);
        true
    }
}

/// A per-entity sound emitter: the playing state (pending queue and
/// voices) plus an optional re-fill picker, kept in a slot of its own so
/// that an invoked picker never aliases the emitter that owns it.
pub struct AudioEmitter<P: Picker> {
    core: EmitterCore,
    picker: Option<P>,
}

impl<P: Picker> AudioEmitter<P> {
    /// The emitter's playing state, for specification.
    pub closed spec fn core_spec(self) -> EmitterCore {
        self.core
    }

    /// The attached picker, if any.
    pub closed spec fn picker_model(self) -> Option<P> {
        self.picker
    }

    /// Whether a picker is attached: exactly then does an idle-voice event
    /// invoke one.
    pub open spec fn has_picker_spec(self) -> bool {
        self.picker_model() is Some
    }

    /// A new emitter: no voices, nothing queued, no picker.
    pub fn new() -> (e: Self)
        ensures
            e.core_spec().queue_model() == Seq::<Seq<u8>>::empty(),
            e.core_spec().voice_model() == Seq::<VoiceState>::empty(),
            !e.has_picker_spec(),
    {
        AudioEmitter { core: EmitterCore::new(), picker: None }
    }

    /// Plays an audio source from this emitter; see [`EmitterCore::play`].
    /// The picker is untouched either way.
    pub fn play(&mut self, source: &Source) -> (r: Result<(), DecoderError>)
        ensures
            r is Ok <==> decodes_ok(source@),
            r is Ok ==> final(self).core_spec().queue_model() == old(self).core_spec().queue_model().push(
                source@,
            ),
            r is Ok ==> final(self).core_spec().voice_model() == old(self).core_spec().voice_model(),
            r is Err ==> *final(self) == *old(self),
            final(self).picker_model() == old(self).picker_model(),
    {
        self.core.play(source)
    }

    /// Attaches `picker` for the next idle-voice event, replacing whatever
    /// picker was attached before. The playing state is untouched.
    pub fn set_picker(&mut self, picker: P)
        ensures
            final(self).picker_model() == Some(picker),
            final(self).core_spec() == old(self).core_spec(),
    {
        self.picker = Some(picker);
    }

    /// Detaches the picker, if any: until one is set again, idle-voice
    /// events refill nothing. The playing state is untouched.
    pub fn clear_picker(&mut self)
        ensures
            final(self).picker_model() is None,
            final(self).core_spec() == old(self).core_spec(),
    {
        self.picker = None;
    }

    /// Borrows the emitter's playing state: the pending queue and the
    /// voices.
    pub fn core_ref(&self) -> (c: &EmitterCore)
        ensures
            *c == self.core_spec(),
    {
        &self.core
    }

    /// Mutably borrows the emitter's playing state, for the scheduler to
    /// drive it; the picker slot is untouched.
    pub fn core_mut(&mut self) -> (c: &mut EmitterCore)
        ensures
            *c == old(self).core_spec(),
            final(self).core_spec() == *final(c),
            final(self).picker_model() == old(self).picker_model(),
    {
        &mut self.core
    }

    /// Whether a picker is attached.
    pub fn has_picker(&self) -> (r: bool)
        ensures
            r == self.has_picker_spec(),
    {
        self.picker.is_some()
    }

    /// The idle-voice event: the detach/invoke/reattach picker protocol.
    ///
    /// If a picker is attached it is first moved out of the emitter — so
    /// that while the callback runs the picker slot is empty and the
    /// callback can neither observe nor re-enter itself — then invoked
    /// with exclusive access to the emitter's playing state. Whatever the
    /// callback did to that state (such as queueing a sound with `play`)
    /// is visible as soon as this returns. If the callback answers `true`,
    /// the same picker is reattached for the next idle-voice event; on
    /// `false` it is dropped, and no later event invokes any picker until
    /// `set_picker` is called again.
    ///
    /// Returns `None` when no picker was attached — then nothing at all
    /// was invoked or changed — otherwise `Some` of the picker's answer.
    pub fn run_picker(&mut self) -> (r: Option<bool>)
        ensures
            r is Some <==> old(self).has_picker_spec(),
            r is None ==> *final(self) == *old(self),
            final(self).has_picker_spec() <==> r == Some(true),
    {
        match self.picker.take() {
            None => None,
            Some(mut p) => {
                let keep = p.pick(&mut self.core);
                if keep {
                    self.picker = Some(p);
                }
                Some(keep)
            },
        }
    }
}

/// Sounds pass through the pending queue first-in, first-out: whatever was
/// queued before them, sounds enqueued in the order `a`, `b`, `c` stand in
/// the queue — and so are bound to voices — in exactly that order.
pub proof fn lemma_fifo_order(q: Seq<Seq<u8>>, a: Seq<u8>, b: Seq<u8>, c: Seq<u8>)
    ensures
        q.push(a).push(b).push(c).skip(q.len() as int) =~= seq![a, b, c],
{
    assert(q.push(a).push(b).push(c).skip(q.len() as int) =~= seq![a, b, c]);
}

} // verus!
