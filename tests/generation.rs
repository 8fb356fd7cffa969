use std::cmp::Ordering;

use multibufferedfile::{wrapping_cmp, Generation};

/// Provides tests for the helper function `wrapping_cmp`
#[test]
fn wrapping_cmp_test() {
    assert_eq!(wrapping_cmp(0, 0), Ordering::Equal);
    assert_eq!(wrapping_cmp(1, 1), Ordering::Equal);
    assert_eq!(wrapping_cmp(0, 1), Ordering::Less);
    assert_eq!(wrapping_cmp(1, 0), Ordering::Greater);
    assert_eq!(wrapping_cmp(255, 0), Ordering::Less);
    assert_eq!(wrapping_cmp(0, 255), Ordering::Greater);
}

#[test]
fn successor_is_always_newer() {
    for g in 0..=255u8 {
        let next = g.wrapping_add(1);
        assert_eq!(wrapping_cmp(g, next), Ordering::Less, "generation {g}");
        assert_eq!(wrapping_cmp(next, g), Ordering::Greater, "generation {g}");
    }
}

#[test]
fn order_is_antisymmetric_except_half_the_ring_apart() {
    for a in 0..=255u8 {
        for b in 0..=255u8 {
            let ab = wrapping_cmp(a, b);
            let ba = wrapping_cmp(b, a);
            if a.wrapping_sub(b) == 128 {
                assert_eq!(ab, Ordering::Less);
                assert_eq!(ba, Ordering::Less);
            } else {
                assert_eq!(ab, ba.reverse(), "{a} vs {b}");
            }
        }
    }
}

#[test]
fn order_boundaries() {
    assert_eq!(wrapping_cmp(127, 0), Ordering::Greater);
    assert_eq!(wrapping_cmp(128, 0), Ordering::Less);
    assert_eq!(wrapping_cmp(10, 200), Ordering::Greater);
    assert_eq!(wrapping_cmp(200, 10), Ordering::Less);
}

#[test]
fn validity_of_generations() {
    assert!(Generation::Valid(0).is_valid());
    assert!(Generation::Valid(255).is_valid());
    assert!(!Generation::Invalid.is_valid());
}
