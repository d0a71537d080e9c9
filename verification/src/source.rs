use vstd::prelude::*;

verus! {

/// The bytes handed to `play` could not be interpreted as an audio stream.
/// This is the single recoverable failure of this library; it carries no
/// further detail.
#[derive(Debug, Clone, Copy, PartialEq, Eq, Structural)]
pub struct DecoderError;

impl DecoderError {
    /// A fixed human-readable description of the failure.
    pub fn description(&self) -> (s: &'static str)
        ensures
            s@ == "An error occurred while decoding sound data."@,
    {
        "An error occurred while decoding sound data."
    }
}

/// Relies on `Arc::clone` (std): the clone refers to the same shared value.
#[verifier::external_body]
fn arc_clone_bytes(a: &std::sync::Arc<Vec<u8>>) -> (r: std::sync::Arc<Vec<u8>>)
    ensures
        r == *a,
{
    std::sync::Arc::clone(a)
}

/// Relies on `Arc`'s `Deref` impl (std): dereferencing yields the shared value.
#[verifier::external_body]
fn arc_bytes<'a>(a: &'a std::sync::Arc<Vec<u8>>) -> (r: &'a Vec<u8>)
    ensures
        r@ == a@,
{
    &**a
}

/// An immutable, reference-counted buffer of raw encoded audio data.
///
/// The bytes never change after construction; cloning shares the buffer
/// rather than duplicating it. Whether the bytes are valid audio is the
/// decoder's concern, not this type's.
pub struct Source {
    pub(crate) data: std::sync::Arc<Vec<u8>>,
}

impl View for Source {
    type V = Seq<u8>;

    closed spec fn view(&self) -> Seq<u8> {
        self.data@
    }
}

impl Source {
    /// Wraps the given bytes in a new shared buffer.
    pub fn new(bytes: Vec<u8>) -> (s: Source)
        ensures
            s@ == bytes@,
    {
        Source { data: std::sync::Arc::new(bytes) }
    }

    /// The raw encoded bytes.
    pub fn bytes(&self) -> (b: &Vec<u8>)
        ensures
            b@ == self@,
    {
        arc_bytes(&self.data)
    }

    /// How many encoded bytes the buffer holds.
    pub fn len(&self) -> (n: usize)
        ensures
            n == self@.len(),
    {
        self.bytes().len()
    }
}

impl Clone for Source {
    /// Cloning is cheap: the returned `Source` shares this one's buffer.
    fn clone(&self) -> (s: Self)
        ensures
            s@ == self@,
    {
        Source { data: arc_clone_bytes(&self.data) }
    }
}

} // verus!
