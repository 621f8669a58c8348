//! Power control.
use crate::bit::{bit_mask_idx_modify, field_write};
use vstd::prelude::*;

verus! {

/// The power controller.
#[allow(non_camel_case_types)]
pub struct pwr;

impl pwr {
    /// Write access to the RTC domain (`DBP` of `PWR_CR1`). After reset the RTC is
    /// write-protected; the bit must be set to change it.
    pub fn rtc_unlock(cr1: &mut u32, unlock: bool)
        ensures
            *final(cr1) == field_write(
                *old(cr1),
                8,
                1,
                if unlock {
                    1
                } else {
                    0
                },
            ),
    {
        proof {
            crate::bit::lemma_field_max_values();
        }
        *cr1 = bit_mask_idx_modify::<1>(
            8,
            *cr1,
            if unlock {
                1
            } else {
                0
            },
        );
    }
}

} // verus!
