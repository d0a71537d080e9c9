//! Per-entity sound emission for a game audio layer.
//!
//! An [`AudioEmitter`](emitter::AudioEmitter) owns a FIFO queue of decoded
//! sounds waiting to play, a set of live [`Voice`](voice::Voice)s, and an
//! optional re-fill callback (a [`Picker`](emitter::Picker)) that an external
//! scheduler invokes when the emitter runs out of sound.

pub mod decode;
pub mod emitter;
pub mod source;
pub mod voice;

pub use decode::DecodedStream;
pub use emitter::AudioEmitter;
pub use emitter::EmitterCore;
pub use emitter::LoopPicker;
pub use emitter::NoPicker;
pub use emitter::Picker;
pub use source::DecoderError;
pub use source::Source;
pub use voice::Voice;
pub use voice::VoiceState;
