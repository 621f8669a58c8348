//! Bit-field helpers grouped on a unit type.
use crate::bit::{bit_of, field_max, field_value, field_write, in_field};
use vstd::prelude::*;

verus! {

/// Namespace for bit-field operations on 32-bit register values.
pub struct BitOption;

impl BitOption {
    /// Sets exactly the `BIT_WIDTH` consecutive bits that start at `idx`.
    pub fn bit_mask_idx<const BIT_WIDTH: usize>(idx: usize) -> (r: u32)
        requires
            BIT_WIDTH < 32,
            idx < 32,
        ensures
            r == field_max(BIT_WIDTH as u32) << (idx as u32),
            forall|i: u32|
                i < 32 ==> (#[trigger] bit_of(r, i) <==> in_field(i, idx as u32, BIT_WIDTH as u32)),
    {
        crate::bit::bit_mask_idx::<BIT_WIDTH>(idx)
    }

    /// Replaces the `BIT_WIDTH`-bit field at `idx` of `origin` by the low
    /// `BIT_WIDTH` bits of `val`; higher bits of `val` are dropped.
    pub fn bit_mask_idx_modify<const BIT_WIDTH: usize>(idx: usize, origin: u32, val: u32) -> (r: u32)
        requires
            BIT_WIDTH < 32,
            idx < 32,
        ensures
            r == field_write(origin, idx as u32, BIT_WIDTH as u32, val & field_max(BIT_WIDTH as u32)),
    {
        let field = Self::bit_mask_idx::<BIT_WIDTH>(0);
        let w = BIT_WIDTH as u32;
        assert(field == ((1u32 << w) - 1u32) as u32) by (bit_vector)
            requires
                field == (((1u32 << w) - 1u32) as u32) << 0u32,
        ;
        let val = (val & field) << idx as u32;
        origin & !Self::bit_mask_idx::<BIT_WIDTH>(idx) | val
    }

    /// Clears the `BIT_WIDTH`-bit field at `idx` of `origin`.
    pub fn bit_mask_idx_clear<const BIT_WIDTH: usize>(idx: usize, origin: u32) -> (r: u32)
        requires
            BIT_WIDTH < 32,
            idx < 32,
        ensures
            r == field_write(origin, idx as u32, BIT_WIDTH as u32, 0),
    {
        crate::bit::bit_mask_idx_clear::<BIT_WIDTH>(idx, origin)
    }

    /// Reads the `BIT_WIDTH`-bit field at `idx` of `origin`.
    pub fn bit_mask_idx_get<const BIT_WIDTH: usize>(idx: usize, origin: u32) -> (r: u32)
        requires
            BIT_WIDTH < 32,
            idx < 32,
        ensures
            r == field_value(origin, idx as u32, BIT_WIDTH as u32),
    {
        crate::bit::bit_mask_idx_get::<BIT_WIDTH>(idx, origin)
    }

    /// Sets every bit of the `BIT_WIDTH`-bit field at `idx` of `origin`.
    pub fn bit_mask_idx_set<const BIT_WIDTH: usize>(idx: usize, origin: u32) -> (r: u32)
        requires
            BIT_WIDTH < 32,
            idx < 32,
        ensures
            r == field_write(origin, idx as u32, BIT_WIDTH as u32, field_max(BIT_WIDTH as u32)),
    {
        crate::bit::bit_mask_idx_set::<BIT_WIDTH>(idx, origin)
    }
}

/// The masking write agrees with the checked write whenever the value fits the field.
pub proof fn law_masked_modify_agrees(origin: u32, idx: u32, width: u32, val: u32)
    requires
        width < 32,
        idx < 32,
        val <= field_max(width),
    ensures
        field_write(origin, idx, width, val & field_max(width)) == field_write(origin, idx, width, val),
{
    assert(val & (((1u32 << width) - 1u32) as u32) == val) by (bit_vector)
        requires
            width < 32,
            val <= ((1u32 << width) - 1u32) as u32,
    ;
}

/// The masking write never touches bits outside its field, whatever the value.
pub proof fn law_masked_modify_stays_in_field(origin: u32, idx: u32, width: u32, val: u32)
    requires
        width < 32,
        idx < 32,
        idx + width <= 32,
    ensures
        field_value(field_write(origin, idx, width, val & field_max(width)), idx, width) == val
            & field_max(width),
        forall|i: u32|
            i < 32 && !in_field(i, idx, width) ==> #[trigger] bit_of(
                field_write(origin, idx, width, val & field_max(width)),
                i,
            ) == bit_of(origin, i),
{
    let v = val & field_max(width);
    assert(v <= field_max(width)) by (bit_vector)
        requires
            width < 32,
            v == val & (((1u32 << width) - 1u32) as u32),
    ;
    crate::bit::law_get_after_modify(origin, idx, width, v);
    let r = field_write(origin, idx, width, v);
    assert(forall|i: u32|
        i < 32 && !(idx <= i && (i as int) < (idx as int) + (width as int)) ==> ((r >> i) & 1u32
            == 1u32) == ((origin >> i) & 1u32 == 1u32)) by (bit_vector)
        requires
            width < 32,
            idx < 32,
            v <= ((1u32 << width) - 1u32) as u32,
            r == origin & !((((1u32 << width) - 1u32) as u32) << idx) | (v << idx),
    ;
}

} // verus!
