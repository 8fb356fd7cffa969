use vstd::prelude::*;
use crate::checksum::{crc32_bzip2, ChecksumEngine, ChecksumStream};
use crate::format::{le_bytes, to_le_bytes};

verus! {

/// The checksum side of a slot being written.
///
/// The caller writes the generation byte and then the payload to the slot
/// file, reports each run of bytes that reached the file with
/// [`BufferedFileWriter::record`], and on release appends the trailer that
/// [`BufferedFileWriter::finish`] returns. The checksum covers the generation
/// byte and the payload, as a probe recomputes it.
pub struct BufferedFileWriter<'a> {
    generation: u8,
    stream: ChecksumStream<'a>,
}

impl<'a> View for BufferedFileWriter<'a> {
    type V = Seq<u8>;

    /// The payload bytes recorded so far.
    closed spec fn view(&self) -> Seq<u8> {
        self.stream@.drop_first()
    }
}

impl<'a> BufferedFileWriter<'a> {
    /// The running checksum starts with the generation byte.
    pub closed spec fn wf(&self) -> bool {
        &&& self.stream@.len() >= 1
        &&& self.stream@[0] == self.generation
    }

    /// The generation this writer stamps its slot with.
    pub closed spec fn stamp(&self) -> u8 {
        self.generation
    }

    /// Starts writing a slot stamped with `generation`, with an empty payload.
    pub fn new(engine: &'a ChecksumEngine, generation: u8) -> (w: Self)
        ensures
            w.wf(),
            w.stamp() == generation,
            w@ == Seq::<u8>::empty(),
    {
        let mut stream = engine.stream();
        let header: [u8; 1] = [generation];
        stream.update(header.as_slice());
        let w = BufferedFileWriter { generation, stream };
        assert(w@ =~= Seq::<u8>::empty());
        w
    }

    /// The generation byte that opens the slot.
    pub fn generation(&self) -> (g: u8)
        ensures
            g == self.stamp(),
    {
        self.generation
    }

    /// Records payload bytes that were written to the slot.
    pub fn record(&mut self, data: &[u8])
        requires
            old(self).wf(),
        ensures
            final(self).wf(),
            final(self).stamp() == old(self).stamp(),
            final(self)@ == old(self)@ + data@,
    {
        let ghost before = self.stream@;
        self.stream.update(data);
        assert(self.stream@.drop_first() =~= before.drop_first() + data@);
    }

    /// Ends the slot: the trailer to append after the payload, the little-endian
    /// checksum of the generation byte followed by every payload byte recorded.
    pub fn finish(self) -> (trailer: [u8; 4])
        requires
            self.wf(),
        ensures
            trailer@ == le_bytes(crc32_bzip2(seq![self.stamp()] + self@)),
    {
        assert(self.stream@ =~= seq![self.generation] + self@);
        let checksum = self.stream.finalize();
        to_le_bytes(checksum)
    }
}

} // verus!
