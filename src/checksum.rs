use vstd::prelude::*;
use crc::{Crc, Digest};

verus! {

/// CRC-32/BZIP2 lookup tables, which running checksums borrow.
#[verifier::external_body]
pub struct ChecksumEngine {
    crc: Crc<u32>,
}

/// A running CRC-32/BZIP2 checksum over a byte stream.
#[verifier::external_body]
pub struct ChecksumStream<'a> {
    digest: Digest<'a, u32>,
}

/// The CRC-32/BZIP2 checksum of a byte sequence, as computed by the `crc` crate.
pub uninterp spec fn crc32_bzip2(bytes: Seq<u8>) -> u32;

/// The bytes folded into a running checksum so far, in order.
pub uninterp spec fn stream_input(s: ChecksumStream) -> Seq<u8>;

/// Relies on `Crc::<u32>::new`: builds the tables of the `CRC_32_BZIP2`
/// algorithm. No other `Crc` is built in this crate.
#[verifier::external_body]
fn bzip2_engine() -> ChecksumEngine {
    ChecksumEngine { crc: Crc::<u32>::new(&crc::CRC_32_BZIP2) }
}

/// Relies on `Crc::digest`: a fresh digest has folded nothing.
#[verifier::external_body]
fn start_stream<'a>(e: &'a ChecksumEngine) -> (s: ChecksumStream<'a>)
    ensures
        stream_input(s) == Seq::<u8>::empty(),
{
    ChecksumStream { digest: e.crc.digest() }
}

/// Relies on `Digest::update`: the bytes are folded in after those before.
#[verifier::external_body]
fn stream_update<'a>(s: &mut ChecksumStream<'a>, bytes: &[u8])
    ensures
        stream_input(*final(s)) == stream_input(*old(s)) + bytes@,
{
    s.digest.update(bytes)
}

/// Relies on `Digest::finalize`: the CRC-32/BZIP2 checksum of every byte folded
/// in, as every stream starts from the tables that `bzip2_engine` builds.
#[verifier::external_body]
fn stream_finalize<'a>(s: ChecksumStream<'a>) -> (r: u32)
    ensures
        r == crc32_bzip2(stream_input(s)),
{
    s.digest.finalize()
}

impl ChecksumEngine {
    /// Builds the CRC-32/BZIP2 tables.
    pub fn new() -> Self {
        bzip2_engine()
    }

    /// Starts a checksum over an empty stream.
    pub fn stream(&self) -> (s: ChecksumStream<'_>)
        ensures
            s@ == Seq::<u8>::empty(),
    {
        start_stream(self)
    }
}

impl<'a> View for ChecksumStream<'a> {
    type V = Seq<u8>;

    /// The bytes folded in so far.
    open spec fn view(&self) -> Seq<u8> {
        stream_input(*self)
    }
}

impl<'a> ChecksumStream<'a> {
    /// Folds `bytes` into the checksum.
    pub fn update(&mut self, bytes: &[u8])
        ensures
            final(self)@ == old(self)@ + bytes@,
    {
        stream_update(self, bytes);
    }

    /// The checksum of every byte folded in.
    pub fn finalize(self) -> (r: u32)
        ensures
            r == crc32_bzip2(self@),
    {
        stream_finalize(self)
    }
}

} // verus!
