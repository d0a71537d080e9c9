use std::sync::atomic::AtomicUsize;
use std::sync::atomic::Ordering;
use std::sync::Arc;

use audio_emitter::AudioEmitter;
use audio_emitter::DecoderError;
use audio_emitter::EmitterCore;
use audio_emitter::Voice;
use audio_emitter::LoopPicker;
use audio_emitter::NoPicker;
use audio_emitter::Picker;
use audio_emitter::Source;
use audio_emitter::VoiceState;

/// A minimal 16-bit PCM mono WAV file with `samples` samples.
fn wav_bytes(samples: u16) -> Vec<u8> {
    let data_len = 2 * samples as u32;
    let mut v: Vec<u8> = Vec::new();
    v.extend_from_slice(b"RIFF");
    v.extend_from_slice(&(36 + data_len).to_le_bytes());
    v.extend_from_slice(b"WAVE");
    v.extend_from_slice(b"fmt ");
    v.extend_from_slice(&16u32.to_le_bytes());
    v.extend_from_slice(&1u16.to_le_bytes()); // PCM
    v.extend_from_slice(&1u16.to_le_bytes()); // mono
    v.extend_from_slice(&8000u32.to_le_bytes()); // sample rate
    v.extend_from_slice(&16000u32.to_le_bytes()); // byte rate
    v.extend_from_slice(&2u16.to_le_bytes()); // block align
    v.extend_from_slice(&16u16.to_le_bytes()); // bits per sample
    v.extend_from_slice(b"data");
    v.extend_from_slice(&data_len.to_le_bytes());
    for i in 0..samples {
        v.extend_from_slice(&((i as i16) * 100).to_le_bytes());
    }
    v
}

/// A picker that records how often it ran, queues one sound, and answers
/// as told.
struct CountingPicker {
    hits: Arc<AtomicUsize>,
    sound: Vec<u8>,
    keep: bool,
}

impl Picker for CountingPicker {
    fn pick(&mut self, emitter: &mut EmitterCore) -> bool {
        // Re-entrant use of the emitter state the picker belongs to.
        self.hits.fetch_add(1, Ordering::Relaxed);
        emitter
            .play(&Source::new(self.sound.clone()))
            .expect("the refill sound decodes");
        self.keep
    }
}

#[test]
fn play_valid_source_enqueues_one() {
    let mut em = AudioEmitter::<NoPicker>::new();
    assert_eq!(em.core_ref().queue_len(), 0);
    let src = Source::new(wav_bytes(4));
    assert!(em.play(&src).is_ok());
    assert_eq!(em.core_ref().queue_len(), 1);
    assert!(em.play(&src).is_ok());
    assert_eq!(em.core_ref().queue_len(), 2);
    assert_eq!(em.core_ref().voice_count(), 0);
}

#[test]
fn play_invalid_source_fails_and_changes_nothing() {
    let mut em = AudioEmitter::<NoPicker>::new();
    let bad = Source::new(vec![0u8, 1, 2, 3, 4, 5, 6, 7]);
    assert_eq!(em.play(&bad), Err(DecoderError));
    assert_eq!(em.core_ref().queue_len(), 0);
    assert_eq!(em.core_ref().voice_count(), 0);
}

#[test]
fn play_empty_source_fails() {
    let mut em = AudioEmitter::<NoPicker>::new();
    let bad = Source::new(Vec::new());
    assert_eq!(em.play(&bad), Err(DecoderError));
    assert_eq!(em.core_ref().queue_len(), 0);
}

#[test]
fn decoder_error_description_is_fixed() {
    assert_eq!(
        DecoderError.description(),
        "An error occurred while decoding sound data."
    );
}

#[test]
fn source_clone_shares_the_bytes() {
    let src = Source::new(wav_bytes(4));
    let twin = src.clone();
    assert_eq!(src.bytes(), twin.bytes());
    assert_eq!(src.len(), twin.len());
}

#[test]
fn fifo_streams_leave_in_play_order() {
    let mut em = AudioEmitter::<NoPicker>::new();
    em.play(&Source::new(wav_bytes(4))).unwrap();
    em.play(&Source::new(wav_bytes(8))).unwrap();
    em.play(&Source::new(wav_bytes(12))).unwrap();
    let a = em.core_mut().bind_next().unwrap();
    let b = em.core_mut().bind_next().unwrap();
    let c = em.core_mut().bind_next().unwrap();
    assert!(em.core_mut().bind_next().is_none());
    assert_eq!(a.into_handle().drain(), 4);
    assert_eq!(b.into_handle().drain(), 8);
    assert_eq!(c.into_handle().drain(), 12);
    assert_eq!(em.core_ref().voice_count(), 3);
    assert_eq!(em.core_ref().voice_state(0), VoiceState::Playing);
}

#[test]
fn bind_next_on_empty_queue_is_none() {
    let mut em = AudioEmitter::<NoPicker>::new();
    assert!(em.core_mut().bind_next().is_none());
    assert_eq!(em.core_ref().voice_count(), 0);
}

#[test]
fn cancel_sets_the_shared_flag_once() {
    let mut em = AudioEmitter::<NoPicker>::new();
    em.play(&Source::new(wav_bytes(4))).unwrap();
    em.core_mut().bind_next().unwrap();
    let flag = em.core_ref().voice_flag(0).clone();
    assert!(!flag.load(Ordering::Relaxed));
    em.core_mut().cancel_voice(0);
    assert!(flag.load(Ordering::Relaxed));
    assert_eq!(em.core_ref().voice_state(0), VoiceState::Cancelled);
    // Cancelling again (and again) changes nothing further.
    em.core_mut().cancel_voice(0);
    em.core_mut().cancel_voice(0);
    assert!(flag.load(Ordering::Relaxed));
    assert_eq!(em.core_ref().voice_state(0), VoiceState::Cancelled);
    // A cancelled voice is not revisited by a later natural end.
    em.core_mut().finish_voice(0);
    assert_eq!(em.core_ref().voice_state(0), VoiceState::Cancelled);
}

#[test]
fn finish_then_retain_drops_the_voice() {
    let mut em = AudioEmitter::<NoPicker>::new();
    em.play(&Source::new(wav_bytes(4))).unwrap();
    em.play(&Source::new(wav_bytes(4))).unwrap();
    em.core_mut().bind_next().unwrap();
    em.core_mut().bind_next().unwrap();
    em.core_mut().finish_voice(0);
    assert_eq!(em.core_ref().voice_state(0), VoiceState::Finished);
    assert_eq!(em.core_ref().voice_state(1), VoiceState::Playing);
    em.core_mut().retain_playing();
    assert_eq!(em.core_ref().voice_count(), 1);
    assert_eq!(em.core_ref().voice_state(0), VoiceState::Playing);
}

#[test]
fn cancel_all_stops_every_voice() {
    let mut em = AudioEmitter::<NoPicker>::new();
    em.play(&Source::new(wav_bytes(4))).unwrap();
    em.play(&Source::new(wav_bytes(4))).unwrap();
    em.core_mut().bind_next().unwrap();
    em.core_mut().bind_next().unwrap();
    em.core_mut().cancel_all();
    assert_eq!(em.core_ref().voice_state(0), VoiceState::Cancelled);
    assert_eq!(em.core_ref().voice_state(1), VoiceState::Cancelled);
    assert!(em.core_ref().out_of_sound());
}

#[test]
fn out_of_sound_only_when_nothing_plays() {
    let mut em = AudioEmitter::<NoPicker>::new();
    assert!(em.core_ref().out_of_sound());
    em.play(&Source::new(wav_bytes(4))).unwrap();
    assert!(!em.core_ref().out_of_sound());
    em.core_mut().bind_next().unwrap();
    assert!(!em.core_ref().out_of_sound());
    em.core_mut().finish_voice(0);
    assert!(em.core_ref().out_of_sound());
}

#[test]
fn picker_reentrant_play_is_visible_at_once() {
    let hits = Arc::new(AtomicUsize::new(0));
    let mut em = AudioEmitter::new();
    em.set_picker(CountingPicker { hits: Arc::clone(&hits), sound: wav_bytes(4), keep: false });
    assert_eq!(em.core_ref().queue_len(), 0);
    let answer = em.run_picker();
    assert_eq!(answer, Some(false));
    assert_eq!(hits.load(Ordering::Relaxed), 1);
    // The sound the picker queued from inside its own invocation is there.
    assert_eq!(em.core_ref().queue_len(), 1);
}

#[test]
fn picker_returning_true_is_invoked_again() {
    let hits = Arc::new(AtomicUsize::new(0));
    let mut em = AudioEmitter::new();
    em.set_picker(CountingPicker { hits: Arc::clone(&hits), sound: wav_bytes(4), keep: true });
    assert_eq!(em.run_picker(), Some(true));
    assert!(em.has_picker());
    assert_eq!(em.run_picker(), Some(true));
    assert_eq!(hits.load(Ordering::Relaxed), 2);
    assert_eq!(em.core_ref().queue_len(), 2);
}

#[test]
fn picker_returning_false_is_dropped() {
    let hits = Arc::new(AtomicUsize::new(0));
    let mut em = AudioEmitter::new();
    em.set_picker(CountingPicker { hits: Arc::clone(&hits), sound: wav_bytes(4), keep: false });
    assert_eq!(em.run_picker(), Some(false));
    assert!(!em.has_picker());
    assert_eq!(em.run_picker(), None);
    assert_eq!(hits.load(Ordering::Relaxed), 1);
}

#[test]
fn cleared_picker_is_never_invoked() {
    let hits = Arc::new(AtomicUsize::new(0));
    let mut em = AudioEmitter::new();
    em.set_picker(CountingPicker { hits: Arc::clone(&hits), sound: wav_bytes(4), keep: true });
    em.clear_picker();
    assert!(!em.has_picker());
    assert_eq!(em.run_picker(), None);
    assert_eq!(hits.load(Ordering::Relaxed), 0);
    assert_eq!(em.core_ref().queue_len(), 0);
}

#[test]
fn set_picker_overwrites_the_previous_one() {
    let first = Arc::new(AtomicUsize::new(0));
    let second = Arc::new(AtomicUsize::new(0));
    let mut em = AudioEmitter::new();
    em.set_picker(CountingPicker { hits: Arc::clone(&first), sound: wav_bytes(4), keep: true });
    em.set_picker(CountingPicker { hits: Arc::clone(&second), sound: wav_bytes(4), keep: true });
    assert_eq!(em.run_picker(), Some(true));
    assert_eq!(first.load(Ordering::Relaxed), 0);
    assert_eq!(second.load(Ordering::Relaxed), 1);
}

#[test]
fn idle_emitter_without_picker_stays_silent() {
    let mut em = AudioEmitter::<NoPicker>::new();
    em.play(&Source::new(wav_bytes(4))).unwrap();
    em.core_mut().bind_next().unwrap();
    em.core_mut().finish_voice(0);
    em.core_mut().retain_playing();
    assert!(em.core_ref().out_of_sound());
    // No picker: the idle event refills nothing, however often it fires.
    assert_eq!(em.run_picker(), None);
    assert_eq!(em.run_picker(), None);
    assert!(em.core_ref().out_of_sound());
    assert_eq!(em.core_ref().voice_count(), 0);
    // Only an external play starts sound again.
    em.play(&Source::new(wav_bytes(4))).unwrap();
    assert_eq!(em.core_ref().queue_len(), 1);
}

#[test]
fn no_picker_detaches_at_first_event() {
    let mut em = AudioEmitter::new();
    em.set_picker(NoPicker);
    assert_eq!(em.run_picker(), Some(false));
    assert!(!em.has_picker());
}

#[test]
fn loop_picker_requeues_its_source_forever() {
    let mut em = AudioEmitter::new();
    em.set_picker(LoopPicker::new(Source::new(wav_bytes(6))));
    assert_eq!(em.run_picker(), Some(true));
    assert_eq!(em.run_picker(), Some(true));
    assert!(em.has_picker());
    assert_eq!(em.core_ref().queue_len(), 2);
    let s = em.core_mut().bind_next().unwrap();
    assert_eq!(s.into_handle().drain(), 6);
}

#[test]
fn voice_lifecycle_follows_the_state_machine() {
    let mut v = Voice::new();
    assert_eq!(v.state(), VoiceState::Idle);
    assert!(!v.is_done());
    v.start();
    assert_eq!(v.state(), VoiceState::Playing);
    v.finish();
    assert_eq!(v.state(), VoiceState::Finished);
    assert!(v.is_done());
    // Terminal states are never revisited.
    v.cancel();
    assert_eq!(v.state(), VoiceState::Finished);
    assert!(!v.flag().load(Ordering::Relaxed));
}
