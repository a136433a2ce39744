use lane_mask::mask::Vec4Mask;
use lane_mask::scalar::ScalarLanes;
use lane_mask::vec4::Vec4;
use std::cmp::Ordering;
use std::collections::hash_map::DefaultHasher;
use std::hash::{Hash, Hasher};

const ALL1: u32 = 0xFFFF_FFFF;

fn every_mask() -> Vec<(bool, bool, bool, bool)> {
    let mut out = Vec::new();
    for bits in 0u32..16 {
        out.push((bits & 1 != 0, bits & 2 != 0, bits & 4 != 0, bits & 8 != 0));
    }
    out
}

fn word(b: bool) -> u32 {
    if b {
        ALL1
    } else {
        0
    }
}

fn hash_of<T: Hash>(value: &T) -> u64 {
    let mut hasher = DefaultHasher::new();
    value.hash(&mut hasher);
    hasher.finish()
}

#[test]
fn new_reads_back_through_array() {
    for (x, y, z, w) in every_mask() {
        let mask = Vec4Mask::new(x, y, z, w);
        assert_eq!(mask.to_array(), [word(x), word(y), word(z), word(w)]);
        let array: [u32; 4] = mask.into();
        assert_eq!(array, [word(x), word(y), word(z), word(w)]);
    }
}

#[test]
fn any_and_all_match_boolean_reductions() {
    for (x, y, z, w) in every_mask() {
        let mask = Vec4Mask::new(x, y, z, w);
        assert_eq!(mask.any(), x || y || z || w);
        assert_eq!(mask.all(), x && y && z && w);
    }
}

#[test]
fn any_on_single_lanes() {
    assert!(!Vec4Mask::new(false, false, false, false).any());
    assert!(Vec4Mask::new(true, false, false, false).any());
    assert!(Vec4Mask::new(false, true, false, false).any());
    assert!(Vec4Mask::new(false, false, true, false).any());
    assert!(Vec4Mask::new(false, false, false, true).any());
}

#[test]
fn all_needs_every_lane() {
    assert!(Vec4Mask::new(true, true, true, true).all());
    assert!(!Vec4Mask::new(false, true, true, true).all());
    assert!(!Vec4Mask::new(true, false, true, true).all());
    assert!(!Vec4Mask::new(true, true, false, true).all());
    assert!(!Vec4Mask::new(true, true, true, false).all());
    assert!(!Vec4Mask::new(false, false, false, false).all());
}

#[test]
fn bitmask_bit_order() {
    assert_eq!(Vec4Mask::new(true, false, false, false).bitmask(), 1);
    assert_eq!(Vec4Mask::new(false, true, false, false).bitmask(), 2);
    assert_eq!(Vec4Mask::new(false, false, true, false).bitmask(), 4);
    assert_eq!(Vec4Mask::new(false, false, false, true).bitmask(), 8);
    assert_eq!(Vec4Mask::new(true, true, true, true).bitmask(), 0b1111);
    assert_eq!(Vec4Mask::new(false, false, false, false).bitmask(), 0);
    assert_eq!(Vec4Mask::new(true, false, true, false).bitmask(), 0b0101);
    assert_eq!(Vec4Mask::new(false, true, false, true).bitmask(), 0b1010);
}

#[test]
fn bitmask_packs_every_combination() {
    for bits in 0u32..16 {
        let mask = Vec4Mask::new(bits & 1 != 0, bits & 2 != 0, bits & 4 != 0, bits & 8 != 0);
        assert_eq!(mask.bitmask(), bits);
    }
}

#[test]
fn default_is_all_false() {
    assert_eq!(Vec4Mask::default(), Vec4Mask::new(false, false, false, false));
    assert!(Vec4Mask::default() == Vec4Mask::new(false, false, false, false));
    assert_eq!(Vec4Mask::default().to_array(), [0, 0, 0, 0]);
    assert_eq!(Vec4Mask::default().bitmask(), 0);
}

#[test]
fn de_morgan_holds_for_every_pair() {
    for (ax, ay, az, aw) in every_mask() {
        for (bx, by, bz, bw) in every_mask() {
            let a = Vec4Mask::new(ax, ay, az, aw);
            let b = Vec4Mask::new(bx, by, bz, bw);
            assert_eq!(!(a & b), !a | !b);
            assert_eq!(!(a | b), !a & !b);
        }
    }
}

#[test]
fn double_negation_restores() {
    for (x, y, z, w) in every_mask() {
        let a = Vec4Mask::new(x, y, z, w);
        assert_eq!(!!a, a);
        assert_eq!((!a).to_array(), [word(!x), word(!y), word(!z), word(!w)]);
    }
}

#[test]
fn and_or_are_lane_wise_and_commutative() {
    for (ax, ay, az, aw) in every_mask() {
        for (bx, by, bz, bw) in every_mask() {
            let a = Vec4Mask::new(ax, ay, az, aw);
            let b = Vec4Mask::new(bx, by, bz, bw);
            assert_eq!(a & b, Vec4Mask::new(ax && bx, ay && by, az && bz, aw && bw));
            assert_eq!(a | b, Vec4Mask::new(ax || bx, ay || by, az || bz, aw || bw));
            assert_eq!(a & b, b & a);
            assert_eq!(a | b, b | a);
        }
    }
}

#[test]
fn assignment_operators_replace_the_value() {
    let mut acc = Vec4Mask::new(true, false, true, false);
    acc |= Vec4Mask::new(false, true, false, false);
    assert_eq!(acc, Vec4Mask::new(true, true, true, false));
    acc &= Vec4Mask::new(false, true, true, true);
    assert_eq!(acc, Vec4Mask::new(false, true, true, false));
    assert_eq!(acc.bitmask(), 0b0110);
}

#[test]
fn select_picks_per_lane() {
    let mask = Vec4Mask::new(true, false, true, false);
    let a = Vec4::new(1, 2, 3, 4);
    let b = Vec4::new(10, 20, 30, 40);
    assert_eq!(mask.select(a, b), Vec4::new(1, 20, 3, 40));
    assert_eq!(Vec4::select(mask, a, b), Vec4::new(1, 20, 3, 40));
    assert_eq!((!mask).select(a, b), Vec4::new(10, 2, 30, 4));
}

#[test]
fn select_on_float_patterns() {
    let mask = Vec4Mask::new(true, false, true, false);
    let a = Vec4::new(1.0f32.to_bits(), 2.0f32.to_bits(), 3.0f32.to_bits(), 4.0f32.to_bits());
    let b = Vec4::new(10.0f32.to_bits(), 20.0f32.to_bits(), 30.0f32.to_bits(), 40.0f32.to_bits());
    let r = mask.select(a, b);
    assert_eq!(f32::from_bits(r.x), 1.0);
    assert_eq!(f32::from_bits(r.y), 20.0);
    assert_eq!(f32::from_bits(r.z), 3.0);
    assert_eq!(f32::from_bits(r.w), 40.0);
}

#[test]
fn select_with_uniform_masks() {
    let a = Vec4::new(0xDEAD_BEEF, 0, ALL1, 7);
    let b = Vec4::new(1, 0x8000_0000, 0, 0x1234_5678);
    assert_eq!(Vec4Mask::new(true, true, true, true).select(a, b), a);
    assert_eq!(Vec4Mask::new(false, false, false, false).select(a, b), b);
    assert_eq!(Vec4Mask::default().select(a, b), b);
}

#[test]
fn equality_follows_the_array() {
    for (ax, ay, az, aw) in every_mask() {
        for (bx, by, bz, bw) in every_mask() {
            let a = Vec4Mask::new(ax, ay, az, aw);
            let b = Vec4Mask::new(bx, by, bz, bw);
            assert_eq!(a == b, a.to_array() == b.to_array());
            assert_eq!(a != b, a.to_array() != b.to_array());
        }
    }
}

#[test]
fn order_follows_the_array() {
    for (ax, ay, az, aw) in every_mask() {
        for (bx, by, bz, bw) in every_mask() {
            let a = Vec4Mask::new(ax, ay, az, aw);
            let b = Vec4Mask::new(bx, by, bz, bw);
            assert_eq!(a.partial_cmp(&b), a.to_array().partial_cmp(&b.to_array()));
            assert_eq!(a.cmp(&b), a.to_array().cmp(&b.to_array()));
            assert_eq!(a < b, a.to_array() < b.to_array());
            assert_eq!(a >= b, a.to_array() >= b.to_array());
        }
    }
}

#[test]
fn order_is_decided_by_the_first_differing_lane() {
    let low = Vec4Mask::new(false, true, true, true);
    let high = Vec4Mask::new(true, false, false, false);
    assert_eq!(low.partial_cmp(&high), Some(Ordering::Less));
    assert_eq!(high.partial_cmp(&low), Some(Ordering::Greater));
    assert_eq!(high.partial_cmp(&high), Some(Ordering::Equal));
    assert!(Vec4Mask::new(true, true, false, true) < Vec4Mask::new(true, true, true, false));
}

#[test]
fn hash_is_that_of_the_array() {
    for (x, y, z, w) in every_mask() {
        let mask = Vec4Mask::new(x, y, z, w);
        assert_eq!(hash_of(&mask), hash_of(&mask.to_array()));
        assert_eq!(hash_of(&mask), hash_of(&[word(x), word(y), word(z), word(w)]));
    }
}

#[test]
fn hash_tells_masks_apart() {
    let a = Vec4Mask::new(true, false, false, false);
    let b = Vec4Mask::new(false, true, false, false);
    assert_ne!(hash_of(&a), hash_of(&b));
    assert_eq!(hash_of(&a), hash_of(&Vec4Mask::new(true, false, false, false)));
}

#[test]
fn copies_are_independent() {
    let a = Vec4Mask::new(true, false, true, true);
    let mut b = a;
    b &= Vec4Mask::new(false, false, false, false);
    assert_eq!(a.bitmask(), 0b1101);
    assert_eq!(b.bitmask(), 0);
    assert_eq!(a.clone(), a);
}

#[test]
fn into_storage_layout() {
    let mask = Vec4Mask::new(false, true, true, false);
    let inner: ScalarLanes = mask.into();
    assert_eq!(inner, ScalarLanes::new(false, true, true, false));
    assert_eq!(inner.to_array(), [0, ALL1, ALL1, 0]);
    assert_eq!(inner.bitmask(), 0b0110);
}
