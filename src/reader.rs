use vstd::prelude::*;
use crate::format::{HEADER_LEN, MIN_SLOT_LEN, TRAILER_LEN};

verus! {

/// A seek request, as `std::io::SeekFrom` states one.
#[derive(Debug, Clone, Copy, PartialEq, Eq, Structural)]
pub enum SeekFrom {
    Start(u64),
    End(i64),
    Current(i64),
}

/// The cursor of read-only access to a slot's payload.
///
/// Payload offset 0 is offset 1 of the slot (after the generation byte) and
/// the payload ends four bytes before the slot does (before the trailer). The
/// caller reads the slot file itself; this cursor clamps each read at the end
/// of the payload and shifts seek offsets between the two views.
#[derive(Debug)]
pub struct BufferedFileReader {
    useful_file_size: u64,
    pos: u64,
}

/// What is left of a payload of `size` bytes after offset `pos`.
pub open spec fn remaining(size: u64, pos: u64) -> int {
    if pos <= size {
        size - pos
    } else {
        0
    }
}

impl BufferedFileReader {
    /// The length of the payload.
    pub closed spec fn size(&self) -> u64 {
        self.useful_file_size
    }

    /// The current offset in the payload.
    pub closed spec fn position(&self) -> u64 {
        self.pos
    }

    /// A cursor at the start of a payload of `len` bytes.
    pub fn new(len: u64) -> (r: Self)
        ensures
            r.size() == len,
            r.position() == 0,
    {
        BufferedFileReader { useful_file_size: len, pos: 0 }
    }

    /// A cursor at the start of the payload of a slot of `slot_len` bytes,
    /// whose underlying file stands at offset 1.
    pub fn for_slot(slot_len: u64) -> (r: Self)
        ensures
            r.size() == (if slot_len >= MIN_SLOT_LEN { slot_len - MIN_SLOT_LEN } else { 0 }),
            r.position() == 0,
    {
        Self::new(slot_len.saturating_sub(MIN_SLOT_LEN))
    }

    /// How many of `requested` bytes the next read may take: no more than is
    /// left of the payload, so that a read at its end reads nothing.
    pub fn read_limit(&self, requested: usize) -> (r: usize)
        ensures
            r as int == if requested as int <= remaining(self.size(), self.position()) {
                requested as int
            } else {
                remaining(self.size(), self.position())
            },
    {
        let left: u64 = self.useful_file_size.saturating_sub(self.pos);
        if (requested as u64) <= left {
            requested
        } else {
            left as usize
        }
    }

    /// Records that a read took `count` bytes.
    pub fn advance(&mut self, count: usize)
        requires
            count as int <= remaining(old(self).size(), old(self).position()),
        ensures
            final(self).size() == old(self).size(),
            final(self).position() == old(self).position() + count,
    {
        self.pos = self.pos + count as u64;
    }

    /// The seek to make on the slot file for a seek in the payload: from the
    /// start, one byte further (past the generation byte); from the end, four
    /// bytes earlier (before the trailer); relative seeks unchanged.
    pub fn inner_seek(&self, target: SeekFrom) -> (r: SeekFrom)
        ensures
            target matches SeekFrom::Start(n) ==> r == SeekFrom::Start(
                if n < u64::MAX { (n + HEADER_LEN) as u64 } else { u64::MAX },
            ),
            target matches SeekFrom::End(d) ==> r == SeekFrom::End(
                if d >= i64::MIN + TRAILER_LEN { (d - TRAILER_LEN) as i64 } else { i64::MIN },
            ),
            target matches SeekFrom::Current(d) ==> r == SeekFrom::Current(d),
    {
        match target {
            SeekFrom::Start(n) => SeekFrom::Start(n.saturating_add(1)),
            SeekFrom::End(d) => SeekFrom::End(
                if d >= i64::MIN + 4 {
                    d - 4
                } else {
                    i64::MIN
                },
            ),
            SeekFrom::Current(d) => SeekFrom::Current(d),
        }
    }

    /// Records that the slot file now stands at `inner_pos`; the payload
    /// offset that stands for, which the seek returns.
    pub fn seek_done(&mut self, inner_pos: u64) -> (r: u64)
        ensures
            r == (if inner_pos >= HEADER_LEN { inner_pos - HEADER_LEN } else { 0 }),
            final(self).position() == r,
            final(self).size() == old(self).size(),
    {
        self.pos = inner_pos.saturating_sub(1);
        self.pos
    }
}

} // verus!
