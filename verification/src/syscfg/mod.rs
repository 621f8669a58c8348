//! System configuration controller.
use crate::bit::{bit_mask_idx_modify, field_max, field_write};
use crate::clock::peripheral::PeripheralClockIndex;
use crate::clock::Rcc;
use crate::dma::Channel;
use vstd::prelude::*;

verus! {

/// The system configuration controller.
#[allow(non_camel_case_types)]
pub struct syscfg;

impl syscfg {
    /// The controller's clock gate.
    pub fn clock() -> (r: PeripheralClockIndex)
        ensures
            r == PeripheralClockIndex::SYSCFG,
    {
        PeripheralClockIndex::SYSCFG
    }

    /// Switches the controller's clock on.
    pub fn open(rcc: &mut Rcc)
        ensures
            *final(rcc) == PeripheralClockIndex::SYSCFG.spec_clock(*old(rcc), true),
    {
        Self::clock().open(rcc);
    }

    /// Switches the controller's clock off.
    pub fn close(rcc: &mut Rcc)
        ensures
            *final(rcc) == PeripheralClockIndex::SYSCFG.spec_clock(*old(rcc), false),
    {
        Self::clock().close(rcc);
    }

    /// Maps a DMA channel to the request line `map` (5 bits) in `SYSCFG_CFGR3`.
    pub fn set_dma_channel_map(cfgr3: &mut u32, channel: Channel, map: u32)
        requires
            map <= field_max(5),
        ensures
            *final(cfgr3) == field_write(*old(cfgr3), (channel.spec_index() * 8) as u32, 5, map),
    {
        *cfgr3 = bit_mask_idx_modify::<5>(channel.index() * 8, *cfgr3, map);
    }

    /// Enables or disables the fast response of a DMA channel.
    pub fn en_dma_channel_fast_response(cfgr3: &mut u32, channel: Channel, en: bool)
        ensures
            *final(cfgr3) == field_write(
                *old(cfgr3),
                (channel.spec_index() * 8 + 5) as u32,
                1,
                if en {
                    1
                } else {
                    0
                },
            ),
    {
        proof {
            crate::bit::lemma_field_max_values();
        }
        *cfgr3 = bit_mask_idx_modify::<1>(
            channel.index() * 8 + 5,
            *cfgr3,
            if en {
                1
            } else {
                0
            },
        );
    }
}

} // verus!
