//! The buffer that collects what the MP4 muxer writes, one fragment per
//! write, so that the finished file can be handed to the page in parts.

use vstd::prelude::*;

verus! {

/// Fragments written so far, in the order of the writes.
pub struct FragmentBuffer {
    parts: Vec<Vec<u8>>,
}

impl View for FragmentBuffer {
    type V = Seq<Seq<u8>>;

    closed spec fn view(&self) -> Seq<Seq<u8>> {
        self.parts@.map_values(|p: Vec<u8>| p@)
    }
}

impl FragmentBuffer {
    /// An empty buffer.
    pub fn new() -> (res: Self)
        ensures
            res@ == Seq::<Seq<u8>>::empty(),
    {
        let res = FragmentBuffer { parts: Vec::new() };
        assert(res@ =~= Seq::<Seq<u8>>::empty());
        res
    }

    /// Keeps a copy of `buf` as the next fragment and reports all of it as
    /// written.
    pub fn write(&mut self, buf: &[u8]) -> (written: usize)
        ensures
            final(self)@ == old(self)@.push(buf@),
            written == buf@.len(),
    {
        let part = vstd::slice::slice_to_vec(buf);
        self.parts.push(part);
        assert(final(self)@ =~= old(self)@.push(buf@));
        buf.len()
    }

    /// Nothing is held back, so there is nothing to flush.
    pub fn flush(&mut self)
        ensures
            final(self)@ == old(self)@,
    {
    }

    /// The fragments, in the order they were written.
    pub fn parts(&self) -> (res: &[Vec<u8>])
        ensures
            res@.len() == self@.len(),
            forall|i: int| 0 <= i < res@.len() ==> (#[trigger] res@[i])@ == self@[i],
    {
        self.parts.as_slice()
    }

    /// Number of fragments.
    pub fn len(&self) -> (res: usize)
        ensures
            res == self@.len(),
    {
        self.parts.len()
    }
}

/// The bytes of a buffer: its fragments one after the other.
pub open spec fn fragment_bytes(parts: Seq<Seq<u8>>) -> Seq<u8> {
    parts.flatten()
}

/// Writing a block adds exactly that block at the end of the buffer's bytes,
/// so the buffer holds every byte written, in the order written.
pub proof fn lemma_write_appends_bytes(parts: Seq<Seq<u8>>, buf: Seq<u8>)
    ensures
        fragment_bytes(parts.push(buf)) == fragment_bytes(parts) + buf,
{
    parts.lemma_flatten_push(buf);
}

} // verus!
