use vstd::prelude::*;
use crate::source::DecoderError;
use crate::source::Source;

verus! {

/// Whether rodio recognizes the given bytes as a decodable audio stream.
pub uninterp spec fn decodes_ok(bytes: Seq<u8>) -> bool;

/// Holds the decoder that rodio built over a source's bytes. Nothing
/// inside it is visible here: the emitter only carries it from the pending
/// queue to the output backend.
#[verifier::external_body]
pub struct DecoderHandle {
    inner: rodio::Decoder<std::io::Cursor<Vec<u8>>>,
}

impl DecoderHandle {
    /// Relies on `rodio::Decoder::new`: it returns `Ok` exactly when it
    /// can read the byte stream as a supported audio format, which depends
    /// on the bytes alone.
    #[verifier::external_body]
    fn build(source: &Source) -> (r: Result<DecoderHandle, DecoderError>)
        ensures
            r is Ok <==> decodes_ok(source@),
    {
        match rodio::Decoder::new(std::io::Cursor::new((*source.data).clone())) {
            Ok(d) => Ok(DecoderHandle { inner: d }),
            Err(_) => Err(DecoderError),
        }
    }

    /// Relies on `rodio::Decoder`'s `Iterator` impl: consumes the stream
    /// to its natural end, as an output backend would, and reports how
    /// many decoded samples it yielded.
    #[verifier::external_body]
    pub fn drain(self) -> (n: usize) {
        self.inner.count()
    }
}

/// One decoded audio stream, ready to play: the decoder rodio built,
/// together with the bytes it was decoded from (the latter kept only for
/// specification).
pub struct DecodedStream {
    handle: DecoderHandle,
    bytes: Ghost<Seq<u8>>,
}

impl View for DecodedStream {
    type V = Seq<u8>;

    closed spec fn view(&self) -> Seq<u8> {
        self.bytes@
    }
}

impl DecodedStream {
    /// Decodes the source's bytes. Succeeds exactly when rodio recognizes
    /// them as audio; the returned stream remembers which bytes it came
    /// from.
    pub fn decode(source: &Source) -> (r: Result<DecodedStream, DecoderError>)
        ensures
            r is Ok <==> decodes_ok(source@),
            r matches Ok(s) ==> s@ == source@,
    {
        match DecoderHandle::build(source) {
            Ok(h) => Ok(DecodedStream { handle: h, bytes: Ghost(source@) }),
            Err(e) => Err(e),
        }
    }

    /// Hands the underlying decoder to the output backend, which renders
    /// its frames.
    pub fn into_handle(self) -> DecoderHandle {
        self.handle
    }
}

} // verus!
