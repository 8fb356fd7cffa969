use vstd::prelude::*;
use std::cmp::Ordering;

verus! {

/// The generation stamp of one slot as found by a probe.
#[derive(Debug, Clone, Copy, PartialEq, Eq, Structural)]
pub enum Generation {
    /// The slot passed its checksum and carries this generation byte.
    Valid(u8),
    /// The slot is missing, too short or fails its checksum.
    Invalid,
}

impl Generation {
    /// Checks if the generation is valid.
    pub fn is_valid(&self) -> (r: bool)
        ensures
            r == (*self is Valid),
    {
        match self {
            Generation::Valid(_) => true,
            Generation::Invalid => false,
        }
    }
}

/// Distance from `b` forward to `a` on the 256-step generation ring.
pub open spec fn ring_distance(a: u8, b: u8) -> int {
    (a as int - b as int) % 256
}

/// Wraparound order of generations: `a` is newer than `b` when it lies
/// 1 to 127 steps ahead of it, older when it lies 128 to 255 steps ahead.
pub open spec fn generation_order(a: u8, b: u8) -> Ordering {
    let d = ring_distance(a, b);
    if d == 0 {
        Ordering::Equal
    } else if d < 128 {
        Ordering::Greater
    } else {
        Ordering::Less
    }
}

/// Compares two generations with wrapping behaviour (assumes increments of 1).
pub fn wrapping_cmp(a: u8, b: u8) -> (r: Ordering)
    ensures
        r == generation_order(a, b),
{
    let d: u8 = a.wrapping_sub(b);
    if d == 0 {
        Ordering::Equal
    } else if d < 128 {
        Ordering::Greater
    } else {
        Ordering::Less
    }
}

/// The wraparound order is antisymmetric: `a` is newer than `b` exactly when
/// `b` is older than `a`, and equal exactly when `b` is equal to `a`. This holds
/// for every pair except those half the ring apart, which compare as older
/// both ways.
pub proof fn lemma_order_antisymmetric(a: u8, b: u8)
    requires
        ring_distance(a, b) != 128,
    ensures
        generation_order(a, b) == Ordering::Greater <==> generation_order(b, a) == Ordering::Less,
        generation_order(a, b) == Ordering::Less <==> generation_order(b, a) == Ordering::Greater,
        generation_order(a, b) == Ordering::Equal <==> generation_order(b, a) == Ordering::Equal,
{
}

/// Every generation is older than its successor on the ring, and the successor
/// newer than it; this includes 255, whose successor is 0.
pub proof fn lemma_successor_is_newer(g: u8)
    ensures
        generation_order(g, ((g as int + 1) % 256) as u8) == Ordering::Less,
        generation_order(((g as int + 1) % 256) as u8, g) == Ordering::Greater,
{
}

} // verus!
