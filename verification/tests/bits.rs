use py32f030_hal::bit::{
    bit_mask_idx, bit_mask_idx_clear, bit_mask_idx_get, bit_mask_idx_modify, bit_mask_idx_set,
};
use py32f030_hal::common::BitOption;

#[test]
fn masks() {
    assert_eq!(bit_mask_idx::<1>(0), 1);
    assert_eq!(bit_mask_idx::<3>(4), 0b111 << 4);
    assert_eq!(bit_mask_idx::<4>(28), 0xf000_0000);
}

#[test]
fn get_after_modify() {
    let v = bit_mask_idx_modify::<3>(5, 0xffff_ffff, 0b010);
    assert_eq!(v, 0xffff_ff5f);
    assert_eq!(bit_mask_idx_get::<3>(5, v), 0b010);
}

#[test]
fn modify_keeps_other_fields() {
    let v = bit_mask_idx_modify::<2>(8, 0x1234_5678, 1);
    assert_eq!(v & !(0b11 << 8), 0x1234_5678 & !(0b11 << 8));
    assert_eq!(bit_mask_idx_get::<2>(8, v), 1);
}

#[test]
fn modify_twice_keeps_last() {
    let once = bit_mask_idx_modify::<4>(12, 0xabcd_ef01, 3);
    let twice = bit_mask_idx_modify::<4>(12, once, 9);
    assert_eq!(twice, bit_mask_idx_modify::<4>(12, 0xabcd_ef01, 9));
}

#[test]
fn modify_with_current_value_changes_nothing() {
    let origin = 0x8765_4321;
    let cur = bit_mask_idx_get::<4>(8, origin);
    assert_eq!(bit_mask_idx_modify::<4>(8, origin, cur), origin);
}

#[test]
fn clear_and_set() {
    assert_eq!(bit_mask_idx_get::<2>(4, bit_mask_idx_clear::<2>(4, 0xff)), 0);
    assert_eq!(bit_mask_idx_clear::<2>(4, 0xff), 0xcf);
    assert_eq!(bit_mask_idx_get::<2>(4, bit_mask_idx_set::<2>(4, 0)), 3);
    assert_eq!(bit_mask_idx_set::<2>(4, 0), 0x30);
}

#[test]
fn bit_option_masks_the_value() {
    // a value wider than the field is cut to the field
    assert_eq!(BitOption::bit_mask_idx_modify::<2>(0, 0, 0b111), 0b11);
    assert_eq!(BitOption::bit_mask_idx_modify::<2>(4, 0xff, 0), 0xcf);
    assert_eq!(BitOption::bit_mask_idx_get::<3>(1, 0b1110), 0b111);
    assert_eq!(BitOption::bit_mask_idx::<2>(3), 0b11 << 3);
    assert_eq!(BitOption::bit_mask_idx_set::<1>(31, 0), 0x8000_0000);
    assert_eq!(BitOption::bit_mask_idx_clear::<1>(0, 1), 0);
}
