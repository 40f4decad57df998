//! The per-thread capture buffer.
//!
//! The rendering engine writes one event's formatted bytes into the buffer;
//! the adapter then validates the bytes (the transport needs nul-terminated
//! text, so an interior nul byte makes the event undeliverable) and clears
//! the buffer before the next event.

use vstd::prelude::*;

verus! {

/// Whether the byte sequence holds a nul byte, which would make it
/// undeliverable as nul-terminated text.
pub open spec fn contains_nul(s: Seq<u8>) -> bool {
    exists|i: int| 0 <= i < s.len() && s[i] == 0u8
}

/// A transient byte accumulator holding one event's rendered text between
/// rendering and forwarding. Its view is the accumulated byte sequence.
pub struct CaptureBuffer {
    bytes: Vec<u8>,
}

impl View for CaptureBuffer {
    type V = Seq<u8>;

    closed spec fn view(&self) -> Seq<u8> {
        self.bytes@
    }
}

impl CaptureBuffer {
    /// An empty buffer.
    pub fn new() -> (r: CaptureBuffer)
        ensures
            r@ == Seq::<u8>::empty(),
    {
        CaptureBuffer { bytes: Vec::new() }
    }

    /// How many bytes are accumulated.
    pub fn len(&self) -> (n: usize)
        ensures
            n == self@.len(),
    {
        self.bytes.len()
    }

    /// Appends one chunk of rendered bytes, as the engine's writer does;
    /// reports the whole chunk as taken.
    pub fn write(&mut self, data: &[u8]) -> (n: usize)
        ensures
            final(self)@ == old(self)@ + data@,
            n == data@.len(),
    {
        self.bytes.extend_from_slice(data);
        data.len()
    }

    /// Empties the buffer, so that the next event starts from nothing.
    pub fn clear(&mut self)
        ensures
            final(self)@ == Seq::<u8>::empty(),
    {
        self.bytes.clear();
    }

    /// The accumulated text, validated for the transport: the bytes as
    /// written, or nothing exactly when they hold an interior nul byte.
    pub fn message(&self) -> (r: Option<Vec<u8>>)
        ensures
            r is Some <==> !contains_nul(self@),
            r matches Some(m) ==> m@ == self@,
    {
        let mut out: Vec<u8> = Vec::new();
        let mut i: usize = 0;
        while i < self.bytes.len()
            invariant
                i <= self@.len(),
                out@ == self@.subrange(0, i as int),
                forall|j: int| 0 <= j < i ==> self@[j] != 0u8,
            decreases self@.len() - i,
        {
            let b = self.bytes[i];
            if b == 0 {
                assert(contains_nul(self@)) by {
                    assert(self@[i as int] == 0u8);
                }
                return None;
            }
            out.push(b);
            i = i + 1;
        }
        assert(out@ =~= self@);
        Some(out)
    }
}

} // verus!
