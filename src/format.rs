use vstd::prelude::*;
use crate::checksum::crc32_bzip2;
use crate::generation::Generation;

verus! {

/// Bytes before the payload: the generation stamp.
pub const HEADER_LEN: u64 = 1;

/// Bytes after the payload: the little-endian CRC-32 trailer.
pub const TRAILER_LEN: u64 = 4;

/// The smallest slot that can be valid: a header and a trailer around an empty payload.
pub const MIN_SLOT_LEN: u64 = 5;

/// The four little-endian bytes of `v`.
pub open spec fn le_bytes(v: u32) -> Seq<u8> {
    seq![
        (v % 256) as u8,
        ((v / 256) % 256) as u8,
        ((v / 65536) % 256) as u8,
        (v / 16777216) as u8,
    ]
}

/// The number that four little-endian bytes stand for.
pub open spec fn le_value(b: Seq<u8>) -> int {
    b[0] + 256 * b[1] + 65536 * b[2] + 16777216 * b[3]
}

/// The bytes a slot's checksum covers: all but the trailer.
pub open spec fn covered(slot: Seq<u8>) -> Seq<u8> {
    slot.subrange(0, slot.len() - 4)
}

/// The trailer of a slot: its last four bytes.
pub open spec fn trailer(slot: Seq<u8>) -> Seq<u8> {
    slot.subrange(slot.len() - 4, slot.len() as int)
}

/// The payload of a slot: what lies between the generation byte and the trailer.
pub open spec fn payload(slot: Seq<u8>) -> Seq<u8> {
    slot.subrange(1, slot.len() - 4)
}

/// How a slot with these bytes is classified: valid, with its first byte as
/// generation, when it holds at least five bytes and its trailer is the checksum
/// of everything before it.
pub open spec fn slot_status(slot: Seq<u8>) -> Generation {
    if slot.len() < MIN_SLOT_LEN {
        Generation::Invalid
    } else if crc32_bzip2(covered(slot)) as int == le_value(trailer(slot)) {
        Generation::Valid(slot[0])
    } else {
        Generation::Invalid
    }
}

/// The complete slot that holds `payload` under generation `g`.
pub open spec fn slot_image(g: u8, payload: Seq<u8>) -> Seq<u8> {
    seq![g] + payload + le_bytes(crc32_bzip2(seq![g] + payload))
}

/// The little-endian encoding of `v`.
pub fn to_le_bytes(v: u32) -> (r: [u8; 4])
    ensures
        r@ == le_bytes(v),
{
    let r = [(v % 256) as u8, ((v / 256) % 256) as u8, ((v / 65536) % 256) as u8, (v / 16777216) as u8];
    assert(r@ =~= le_bytes(v));
    r
}

/// The number that four little-endian bytes stand for.
pub fn from_le_bytes(b0: u8, b1: u8, b2: u8, b3: u8) -> (r: u32)
    ensures
        r as int == le_value(seq![b0, b1, b2, b3]),
{
    assert(256 * (b1 as int) <= 65280) by (nonlinear_arith);
    assert(65536 * (b2 as int) <= 16711680) by (nonlinear_arith);
    assert(16777216 * (b3 as int) <= 4278190080) by (nonlinear_arith);
    b0 as u32 + 256 * (b1 as u32) + 65536 * (b2 as u32) + 16777216 * (b3 as u32)
}

/// Reading a value back from its encoding gives the value.
pub proof fn lemma_le_round_trip(v: u32)
    ensures
        le_value(le_bytes(v)) == v as int,
{
    let b = le_bytes(v);
    assert(b[0] as int == v % 256);
    assert(b[1] as int == (v / 256) % 256);
    assert(b[2] as int == (v / 65536) % 256);
    assert(b[3] as int == v / 16777216);
    assert(le_value(b) == v as int) by (nonlinear_arith)
        requires
            b[0] as int == v % 256,
            b[1] as int == (v / 256) % 256,
            b[2] as int == (v / 65536) % 256,
            b[3] as int == v / 16777216,
            0 <= v < 4294967296,
    {
    }
}

/// A slot written with generation `g` and payload `p` probes as valid with
/// generation `g`, and its payload region holds exactly `p`.
pub proof fn lemma_round_trip(g: u8, p: Seq<u8>)
    ensures
        slot_status(slot_image(g, p)) == Generation::Valid(g),
        payload(slot_image(g, p)) == p,
        slot_image(g, p).len() == p.len() + MIN_SLOT_LEN,
{
    let s = slot_image(g, p);
    let c = crc32_bzip2(seq![g] + p);
    assert(covered(s) =~= seq![g] + p);
    assert(trailer(s) =~= le_bytes(c));
    assert(payload(s) =~= p);
    lemma_le_round_trip(c);
}

/// A slot of fewer than five bytes is invalid, whatever it holds.
pub proof fn lemma_short_slot_invalid(slot: Seq<u8>)
    requires
        slot.len() < MIN_SLOT_LEN,
    ensures
        slot_status(slot) == Generation::Invalid,
{
}

/// Changing one byte of a valid slot's trailer makes the slot invalid.
pub proof fn lemma_trailer_change_invalidates(slot: Seq<u8>, i: int, v: u8)
    requires
        slot_status(slot) is Valid,
        slot.len() - 4 <= i < slot.len(),
        v != slot[i],
    ensures
        slot_status(slot.update(i, v)) == Generation::Invalid,
{
    let t = slot.update(i, v);
    assert(covered(t) =~= covered(slot));
    let a = trailer(slot);
    let b = trailer(t);
    let k = i - (slot.len() - 4);
    assert(b =~= a.update(k, v));
    let (a0, a1, a2, a3) = (a[0] as int, a[1] as int, a[2] as int, a[3] as int);
    let (b0, b1, b2, b3) = (b[0] as int, b[1] as int, b[2] as int, b[3] as int);
    assert(a0 + 256 * a1 + 65536 * a2 + 16777216 * a3 != b0 + 256 * b1 + 65536 * b2 + 16777216 * b3)
        by (nonlinear_arith)
        requires
            0 <= a0 < 256 && 0 <= a1 < 256 && 0 <= a2 < 256 && 0 <= a3 < 256,
            0 <= b0 < 256 && 0 <= b1 < 256 && 0 <= b2 < 256 && 0 <= b3 < 256,
            a0 != b0 || a1 != b1 || a2 != b2 || a3 != b3,
    {
    }
}

} // verus!
