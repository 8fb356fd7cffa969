use vstd::prelude::*;
use vstd::slice::slice_subrange;
use crate::checksum::{ChecksumEngine, ChecksumStream};
use crate::format::{covered, from_le_bytes, slot_status, trailer, MIN_SLOT_LEN};
use crate::generation::Generation;

verus! {

/// Classifies one slot from its bytes, fed in chunks of any size.
///
/// The end of a slot is only known once its last chunk has been fed, so the
/// probe always holds back the last four bytes seen as the candidate trailer
/// and folds only what lies before them into the running checksum.
pub struct SlotProbe<'a> {
    stream: ChecksumStream<'a>,
    held: Vec<u8>,
    generation: Option<u8>,
    seen: Ghost<Seq<u8>>,
}

impl<'a> View for SlotProbe<'a> {
    type V = Seq<u8>;

    /// Every byte fed so far, in order.
    closed spec fn view(&self) -> Seq<u8> {
        self.seen@
    }
}

impl<'a> SlotProbe<'a> {
    /// The probe's fields agree with the bytes fed so far.
    pub closed spec fn wf(&self) -> bool {
        let s = self.seen@;
        let n = s.len();
        if n <= 4 {
            &&& self.held@ == s
            &&& self.stream@ == Seq::<u8>::empty()
            &&& self.generation is None
        } else {
            &&& self.held@ == s.subrange(n - 4, n as int)
            &&& self.stream@ == s.subrange(0, n - 4)
            &&& self.generation == Some(s[0])
        }
    }

    /// Starts a probe that has seen no byte.
    pub fn new(engine: &'a ChecksumEngine) -> (p: Self)
        ensures
            p.wf(),
            p@ == Seq::<u8>::empty(),
    {
        SlotProbe {
            stream: engine.stream(),
            held: Vec::new(),
            generation: None,
            seen: Ghost(Seq::empty()),
        }
    }

    /// Feeds the next bytes of the slot.
    pub fn feed(&mut self, chunk: &[u8])
        requires
            old(self).wf(),
        ensures
            final(self).wf(),
            final(self)@ == old(self)@ + chunk@,
    {
        let ghost before = self.seen@;
        let ghost after = before + chunk@;
        let mut combined: Vec<u8> = Vec::new();
        let mut i: usize = 0;
        while i < self.held.len()
            invariant
                i <= self.held@.len(),
                combined@ == self.held@.subrange(0, i as int),
            decreases self.held@.len() - i,
        {
            combined.push(self.held[i]);
            i = i + 1;
        }
        let mut j: usize = 0;
        while j < chunk.len()
            invariant
                j <= chunk@.len(),
                combined@ == self.held@ + chunk@.subrange(0, j as int),
            decreases chunk@.len() - j,
        {
            combined.push(chunk[j]);
            j = j + 1;
        }
        assert(self.held@.subrange(0, self.held@.len() as int) =~= self.held@);
        assert(chunk@.subrange(0, chunk@.len() as int) =~= chunk@);
        let total = combined.len();
        if total > 4 {
            let k = total - 4;
            if self.generation.is_none() {
                self.generation = Some(combined[0]);
            }
            self.stream.update(slice_subrange(combined.as_slice(), 0, k));
            let mut rest: Vec<u8> = Vec::new();
            let mut m: usize = k;
            while m < total
                invariant
                    k <= m <= total,
                    total == combined@.len(),
                    rest@ == combined@.subrange(k as int, m as int),
                decreases total - m,
            {
                rest.push(combined[m]);
                m = m + 1;
            }
            self.held = rest;
            proof {
                let n = before.len();
                if n <= 4 {
                    assert(combined@ =~= after);
                } else {
                    assert(combined@ =~= after.subrange(n - 4, after.len() as int));
                    assert(before.subrange(0, n - 4) + combined@.subrange(0, k as int)
                        =~= after.subrange(0, after.len() - 4));
                }
                assert(self.held@ =~= after.subrange(after.len() - 4, after.len() as int));
            }
        } else {
            self.held = combined;
            proof {
                if before.len() <= 4 {
                    assert(self.held@ =~= after);
                } else {
                    assert(after =~= before);
                }
            }
        }
        self.seen = Ghost(after);
    }

    /// The classification of the slot whose bytes were fed.
    pub fn finish(self) -> (r: Generation)
        requires
            self.wf(),
        ensures
            r == slot_status(self@),
    {
        match self.generation {
            None => Generation::Invalid,
            Some(g) => {
                let expected = from_le_bytes(self.held[0], self.held[1], self.held[2], self.held[3]);
                let ghost s = self.seen@;
                proof {
                    assert(s.len() >= MIN_SLOT_LEN);
                    assert(covered(s) =~= self.stream@);
                    assert(trailer(s) =~= seq![self.held@[0], self.held@[1], self.held@[2], self.held@[3]]);
                }
                let actual = self.stream.finalize();
                if actual == expected {
                    Generation::Valid(g)
                } else {
                    Generation::Invalid
                }
            }
        }
    }
}

} // verus!
