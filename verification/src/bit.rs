//! Bit-field operations on 32-bit register values.
use vstd::prelude::*;

verus! {

/// Bit `i` of `v` (for `i < 32`).
pub open spec fn bit_of(v: u32, i: u32) -> bool {
    (v >> i) & 1u32 == 1u32
}

/// Position `i` lies in the field of `width` bits that starts at `idx`.
pub open spec fn in_field(i: u32, idx: u32, width: u32) -> bool {
    idx <= i && (i as int) < (idx as int) + (width as int)
}

/// The largest value a field of `width` bits can hold (`width < 32`).
pub open spec fn field_max(width: u32) -> u32 {
    ((1u32 << width) - 1u32) as u32
}

/// The value stored in the field of `width` bits starting at bit `idx`.
pub open spec fn field_value(v: u32, idx: u32, width: u32) -> u32 {
    (v >> idx) & field_max(width)
}

/// `origin` with the field of `width` bits at `idx` replaced by `val`
/// (bits of `val` beyond the field width are or-ed in as they are).
pub open spec fn field_write(origin: u32, idx: u32, width: u32, val: u32) -> u32 {
    origin & !(field_max(width) << idx) | (val << idx)
}

/// `origin` with bit `i` set to `en`.
pub open spec fn bit_write(origin: u32, i: u32, en: bool) -> u32 {
    field_write(
        origin,
        i,
        1,
        if en {
            1
        } else {
            0
        },
    )
}

/// Every bit of `a` and `b` outside the field (`idx`, `width`) agrees.
pub open spec fn same_outside(a: u32, b: u32, idx: u32, width: u32) -> bool {
    forall|i: u32| i < 32 && !in_field(i, idx, width) ==> #[trigger] bit_of(a, i) == bit_of(b, i)
}

/// `r` is `origin` with the field (`idx`, `width`) replaced by `val` (truncated to 32 bits).
pub open spec fn is_field_write(r: u32, origin: u32, idx: u32, width: u32, val: u32) -> bool {
    forall|i: u32| i < 32 ==> #[trigger] bit_of(r, i) == (if in_field(i, idx, width) {
        bit_of(val, (i - idx) as u32)
    } else {
        bit_of(origin, i)
    })
}

/// Values of the field masks used by the register layouts.
pub proof fn lemma_field_max_values()
    ensures
        field_max(1) == 1,
        field_max(2) == 3,
        field_max(3) == 7,
        field_max(4) == 15,
        field_max(5) == 31,
        field_max(8) == 0xff,
        field_max(12) == 0xfff,
        field_max(16) == 0xffff,
{
    assert(((1u32 << 1u32) - 1u32) as u32 == 1 && ((1u32 << 2u32) - 1u32) as u32 == 3 && ((1u32
        << 3u32) - 1u32) as u32 == 7 && ((1u32 << 4u32) - 1u32) as u32 == 15 && ((1u32 << 5u32)
        - 1u32) as u32 == 31 && ((1u32 << 8u32) - 1u32) as u32 == 0xff && ((1u32 << 12u32) - 1u32)
        as u32 == 0xfff && ((1u32 << 16u32) - 1u32) as u32 == 0xffff) by (bit_vector);
}

/// Splitting a byte into its high and low nibble.
pub proof fn lemma_nibbles(x: u8)
    ensures
        x >> 4u8 == x / 16,
        x & 0x0fu8 == x % 16,
{
    assert(x >> 4u8 == x / 16 && x & 0x0fu8 == x % 16) by (bit_vector);
}

/// A field never holds more than its width allows.
pub proof fn lemma_field_value_bound(v: u32, idx: u32, width: u32)
    requires
        width < 32,
    ensures
        field_value(v, idx, width) <= field_max(width),
{
    assert((v >> idx) & (((1u32 << width) - 1u32) as u32) <= ((1u32 << width) - 1u32) as u32)
        by (bit_vector);
}

/// Sets exactly the `BIT_WIDTH` consecutive bits that start at `idx` (those that fit in 32 bits).
pub fn bit_mask_idx<const BIT_WIDTH: usize>(idx: usize) -> (r: u32)
    requires
        BIT_WIDTH < 32,
        idx < 32,
    ensures
        r == field_max(BIT_WIDTH as u32) << (idx as u32),
        forall|i: u32| i < 32 ==> (#[trigger] bit_of(r, i) <==> in_field(i, idx as u32, BIT_WIDTH as u32)),
{
    let w = BIT_WIDTH as u32;
    let s = idx as u32;
    assert(1u32 << w >= 1u32) by (bit_vector)
        requires
            w < 32,
    ;
    let m: u32 = (1u32 << w) - 1;
    let r = m << s;
    assert(forall|i: u32|
        i < 32 ==> (((r >> i) & 1u32 == 1u32) <==> (s <= i && (i as int) < (s as int) + (w as int))))
        by (bit_vector)
        requires
            w < 32,
            s < 32,
            m == ((1u32 << w) - 1u32) as u32,
            r == m << s,
    ;
    r
}

/// Replaces the `BIT_WIDTH`-bit field at `idx` of `origin` by `val`.
/// The value must fit in the field.
pub fn bit_mask_idx_modify<const BIT_WIDTH: usize>(idx: usize, origin: u32, val: u32) -> (r: u32)
    requires
        BIT_WIDTH < 32,
        idx < 32,
        val <= field_max(BIT_WIDTH as u32),
    ensures
        r == field_write(origin, idx as u32, BIT_WIDTH as u32, val),
        is_field_write(r, origin, idx as u32, BIT_WIDTH as u32, val),
{
    let mask = bit_mask_idx::<BIT_WIDTH>(idx);
    let w = BIT_WIDTH as u32;
    let s = idx as u32;
    let r = origin & !mask | (val << s);
    assert(forall|i: u32|
        i < 32 ==> (((r >> i) & 1u32 == 1u32) == (if s <= i && (i as int) < (s as int) + (w as int) {
            ((val >> ((i - s) as u32)) & 1u32 == 1u32)
        } else {
            ((origin >> i) & 1u32 == 1u32)
        }))) by (bit_vector)
        requires
            w < 32,
            s < 32,
            val <= ((1u32 << w) - 1u32) as u32,
            mask == (((1u32 << w) - 1u32) as u32) << s,
            r == origin & !mask | (val << s),
    ;
    r
}

/// Clears the `BIT_WIDTH`-bit field at `idx` of `origin`.
pub fn bit_mask_idx_clear<const BIT_WIDTH: usize>(idx: usize, origin: u32) -> (r: u32)
    requires
        BIT_WIDTH < 32,
        idx < 32,
    ensures
        r == field_write(origin, idx as u32, BIT_WIDTH as u32, 0),
        is_field_write(r, origin, idx as u32, BIT_WIDTH as u32, 0),
{
    let mask = bit_mask_idx::<BIT_WIDTH>(idx);
    let w = BIT_WIDTH as u32;
    let s = idx as u32;
    let r = origin & !mask;
    assert(forall|i: u32|
        i < 32 ==> (((r >> i) & 1u32 == 1u32) == (if s <= i && (i as int) < (s as int) + (w as int) {
            ((0u32 >> ((i - s) as u32)) & 1u32 == 1u32)
        } else {
            ((origin >> i) & 1u32 == 1u32)
        }))) by (bit_vector)
        requires
            w < 32,
            s < 32,
            mask == (((1u32 << w) - 1u32) as u32) << s,
            r == origin & !mask,
    ;
    assert(r == origin & !mask | (0u32 << s)) by (bit_vector)
        requires
            r == origin & !mask,
    ;
    r
}

/// Reads the `BIT_WIDTH`-bit field at `idx` of `origin`.
pub fn bit_mask_idx_get<const BIT_WIDTH: usize>(idx: usize, origin: u32) -> (r: u32)
    requires
        BIT_WIDTH < 32,
        idx < 32,
    ensures
        r == field_value(origin, idx as u32, BIT_WIDTH as u32),
{
    let mask = bit_mask_idx::<BIT_WIDTH>(idx);
    let w = BIT_WIDTH as u32;
    let s = idx as u32;
    let r = (mask & origin) >> s;
    assert(r == (origin >> s) & (((1u32 << w) - 1u32) as u32)) by (bit_vector)
        requires
            w < 32,
            s < 32,
            mask == (((1u32 << w) - 1u32) as u32) << s,
            r == (mask & origin) >> s,
    ;
    r
}

/// Sets every bit of the `BIT_WIDTH`-bit field at `idx` of `origin`.
pub fn bit_mask_idx_set<const BIT_WIDTH: usize>(idx: usize, origin: u32) -> (r: u32)
    requires
        BIT_WIDTH < 32,
        idx < 32,
    ensures
        r == field_write(origin, idx as u32, BIT_WIDTH as u32, field_max(BIT_WIDTH as u32)),
        is_field_write(r, origin, idx as u32, BIT_WIDTH as u32, field_max(BIT_WIDTH as u32)),
{
    let mask = bit_mask_idx::<BIT_WIDTH>(idx);
    let w = BIT_WIDTH as u32;
    let s = idx as u32;
    let r = origin | mask;
    assert(forall|i: u32|
        i < 32 ==> (((r >> i) & 1u32 == 1u32) == (if s <= i && (i as int) < (s as int) + (w as int) {
            (((((1u32 << w) - 1u32) as u32) >> ((i - s) as u32)) & 1u32 == 1u32)
        } else {
            ((origin >> i) & 1u32 == 1u32)
        }))) by (bit_vector)
        requires
            w < 32,
            s < 32,
            mask == (((1u32 << w) - 1u32) as u32) << s,
            r == origin | mask,
    ;
    assert(r == origin & !mask | ((((1u32 << w) - 1u32) as u32) << s)) by (bit_vector)
        requires
            mask == (((1u32 << w) - 1u32) as u32) << s,
            r == origin | mask,
    ;
    r
}

/// Reading a field back after writing a value that fits gives that value.
pub proof fn law_get_after_modify(origin: u32, idx: u32, width: u32, val: u32)
    requires
        width < 32,
        idx < 32,
        idx + width <= 32,
        val <= field_max(width),
    ensures
        field_value(field_write(origin, idx, width, val), idx, width) == val,
{
    assert(field_value(field_write(origin, idx, width, val), idx, width) == val) by (bit_vector)
        requires
            width < 32,
            idx < 32,
            idx + width <= 32,
            val <= ((1u32 << width) - 1u32) as u32,
    ;
}

/// Writing a field leaves every field that does not overlap it unchanged.
pub proof fn law_modify_keeps_disjoint_field(
    origin: u32,
    idx: u32,
    width: u32,
    val: u32,
    other_idx: u32,
    other_width: u32,
)
    requires
        width < 32,
        idx < 32,
        other_width < 32,
        other_idx < 32,
        val <= field_max(width),
        idx + width <= other_idx || other_idx + other_width <= idx,
    ensures
        field_value(field_write(origin, idx, width, val), other_idx, other_width) == field_value(
            origin,
            other_idx,
            other_width,
        ),
{
    assert(field_value(field_write(origin, idx, width, val), other_idx, other_width) == field_value(
        origin,
        other_idx,
        other_width,
    )) by (bit_vector)
        requires
            width < 32,
            idx < 32,
            other_width < 32,
            other_idx < 32,
            val <= ((1u32 << width) - 1u32) as u32,
            idx + width <= other_idx || other_idx + other_width <= idx,
    ;
}

/// Of two writes to the same field only the last one is visible.
pub proof fn law_modify_twice(origin: u32, idx: u32, width: u32, first: u32, second: u32)
    requires
        width < 32,
        idx < 32,
        first <= field_max(width),
        second <= field_max(width),
    ensures
        field_write(field_write(origin, idx, width, first), idx, width, second) == field_write(
            origin,
            idx,
            width,
            second,
        ),
{
    assert(field_write(field_write(origin, idx, width, first), idx, width, second) == field_write(
        origin,
        idx,
        width,
        second,
    )) by (bit_vector)
        requires
            width < 32,
            idx < 32,
            first <= ((1u32 << width) - 1u32) as u32,
            second <= ((1u32 << width) - 1u32) as u32,
    ;
}

/// Writing back the value a field already holds changes nothing.
pub proof fn law_modify_with_current_value(origin: u32, idx: u32, width: u32)
    requires
        width < 32,
        idx < 32,
    ensures
        field_value(origin, idx, width) <= field_max(width),
        field_write(origin, idx, width, field_value(origin, idx, width)) == origin,
{
    assert(field_value(origin, idx, width) <= field_max(width)) by (bit_vector)
        requires
            width < 32,
            idx < 32,
    ;
    assert(field_write(origin, idx, width, field_value(origin, idx, width)) == origin) by (bit_vector)
        requires
            width < 32,
            idx < 32,
    ;
}

/// Clearing a field is writing zero to it, and setting it is writing its largest value.
pub proof fn law_clear_and_set_read_back(origin: u32, idx: u32, width: u32)
    requires
        width < 32,
        idx < 32,
        idx + width <= 32,
    ensures
        field_value(field_write(origin, idx, width, 0), idx, width) == 0,
        field_value(field_write(origin, idx, width, field_max(width)), idx, width) == field_max(width),
{
    law_get_after_modify(origin, idx, width, 0);
    assert(field_max(width) <= field_max(width));
    law_get_after_modify(origin, idx, width, field_max(width));
}

/// Sets bit `idx` of `origin` to `en`.
pub(crate) fn write_flag(origin: u32, idx: usize, en: bool) -> (r: u32)
    requires
        idx < 32,
    ensures
        r == bit_write(origin, idx as u32, en),
{
    proof {
        lemma_field_max_values();
    }
    bit_mask_idx_modify::<1>(
        idx,
        origin,
        if en {
            1
        } else {
            0
        },
    )
}

/// Bit `idx` of `origin` is set.
pub(crate) fn read_flag(origin: u32, idx: usize) -> (r: bool)
    requires
        idx < 32,
    ensures
        r == (field_value(origin, idx as u32, 1) == 1),
{
    proof {
        lemma_field_max_values();
        lemma_field_value_bound(origin, idx as u32, 1);
    }
    bit_mask_idx_get::<1>(idx, origin) != 0
}

} // verus!
