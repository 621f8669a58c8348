//! I2C register operations and bus timing.
use super::{Config, Error, Event, SPEED_HZ_FAST, SPEED_HZ_STAND};
use crate::bit::{bit_mask_idx_get, bit_write, field_max, field_value, field_write, read_flag, write_flag};
use crate::common::BitOption;
use vstd::prelude::*;

verus! {

/// Tick budget for each flag of a blocking transfer.
pub const WAIT_FLAG_TIMEOUT: usize = 100_000;

/// Image of the I2C registers.
#[derive(Debug, Clone, Copy, PartialEq, Eq, Structural)]
pub struct I2cRegs {
    pub cr1: u32,
    pub cr2: u32,
    pub oar1: u32,
    pub dr: u32,
    pub sr1: u32,
    pub sr2: u32,
    pub ccr: u32,
    pub trise: u32,
}

/// Bus timing derived from the APB clock and the requested bus clock.
#[derive(Debug, Clone, Copy, PartialEq, Eq, Structural)]
pub struct Timing {
    /// Clock control value.
    pub ccr: u32,
    /// Fast mode (above 100 kHz).
    pub fast: bool,
    /// Fast-mode duty cycle 16/9 instead of 2.
    pub duty: bool,
}

/// Clock control value for the APB clock `pclk` and the bus clock `speed` (not zero).
///
/// Standard mode (up to 100 kHz) divides by 2 and needs a result above 4. Fast mode
/// (up to 400 kHz) divides by 3, or by 15 with the 16/9 duty cycle when the first
/// division gives 0, where the result must then exceed 1.
pub open spec fn spec_timing(pclk: u32, speed: usize) -> Result<Timing, Error> {
    if speed > SPEED_HZ_FAST {
        Err(Error::SpeedMode)
    } else if speed <= SPEED_HZ_STAND {
        let c = pclk / 2 / (speed as u32);
        if c <= 4 {
            Err(Error::PClock)
        } else {
            Ok(Timing { ccr: c as u32, fast: false, duty: false })
        }
    } else {
        let c = pclk / 3 / (speed as u32);
        if c >= 1 {
            Ok(Timing { ccr: c as u32, fast: true, duty: false })
        } else {
            let c2 = pclk / 15 / (speed as u32);
            if c2 > 1 {
                Ok(Timing { ccr: c2 as u32, fast: true, duty: true })
            } else {
                Err(Error::PClock)
            }
        }
    }
}

/// The APB clock in whole MHz (the `FREQ` setting).
pub open spec fn spec_freq(pclk: u32) -> u32 {
    pclk / 1000 / 1000
}

/// Maximum rise time setting: `FREQ + 1` in standard mode, `FREQ * 0.3 + 1` in fast mode.
pub open spec fn spec_rise(pclk: u32, speed: usize) -> u32 {
    if speed <= SPEED_HZ_STAND {
        (spec_freq(pclk) + 1) as u32
    } else {
        (spec_freq(pclk) * 300 / 1000 + 1) as u32
    }
}

/// Computes the bus timing; see [`spec_timing`].
pub fn timing(pclk: u32, speed: usize) -> (r: Result<Timing, Error>)
    requires
        speed != 0,
    ensures
        r == spec_timing(pclk, speed),
{
    if speed > SPEED_HZ_FAST {
        return Err(Error::SpeedMode);
    }
    if speed <= SPEED_HZ_STAND {
        let ccr = pclk / 2 / speed as u32;
        if ccr <= 0x04 {
            return Err(Error::PClock);
        }
        Ok(Timing { ccr, fast: false, duty: false })
    } else {
        let ccr = pclk / 3 / speed as u32;
        if ccr >= 1 {
            Ok(Timing { ccr, fast: true, duty: false })
        } else {
            let ccr = pclk / 15 / speed as u32;
            if ccr > 1 {
                Ok(Timing { ccr, fast: true, duty: true })
            } else {
                Err(Error::PClock)
            }
        }
    }
}

/// Register values the configuration leaves: the peripheral is disabled and `FREQ`
/// written first; on success the timing is written and the peripheral enabled again.
pub open spec fn spec_config(regs: I2cRegs, pclk: u32, speed: usize) -> (I2cRegs, Result<(), Error>) {
    let off = I2cRegs {
        cr1: bit_write(regs.cr1, 0, false),
        cr2: field_write(regs.cr2, 0, 6, spec_freq(pclk) & field_max(6)),
        ..regs
    };
    match spec_timing(pclk, speed) {
        Err(e) => (off, Err(e)),
        Ok(t) => {
            let ccr1 = if t.fast {
                bit_write(bit_write(off.ccr, 15, true), 14, t.duty)
            } else {
                bit_write(off.ccr, 15, false)
            };
            (
                I2cRegs {
                    cr1: bit_write(off.cr1, 0, true),
                    ccr: field_write(ccr1, 0, 12, t.ccr & field_max(12)),
                    trise: field_write(off.trise, 0, 6, spec_rise(pclk, speed) & field_max(6)),
                    ..off
                },
                Ok(()),
            )
        },
    }
}

impl I2cRegs {
    /// Enables or disables the peripheral (`PE`).
    pub fn enable_config(&mut self, en: bool)
        ensures
            *final(self) == (I2cRegs { cr1: bit_write(old(self).cr1, 0, en), ..*old(self) }),
    {
        self.cr1 = write_flag(self.cr1, 0, en);
    }

    /// The software reset bit is set.
    pub fn is_bus_release(&self) -> (r: bool)
        ensures
            r == (field_value(self.cr1, 15, 1) == 1),
    {
        read_flag(self.cr1, 15)
    }

    /// Requests a start condition.
    pub fn start(&mut self)
        ensures
            *final(self) == (I2cRegs { cr1: bit_write(old(self).cr1, 8, true), ..*old(self) }),
    {
        self.cr1 = write_flag(self.cr1, 8, true);
    }

    /// Requests a stop condition.
    pub fn stop(&mut self)
        ensures
            *final(self) == (I2cRegs { cr1: bit_write(old(self).cr1, 9, true), ..*old(self) }),
    {
        self.cr1 = write_flag(self.cr1, 9, true);
    }

    /// Puts the peripheral into software reset. Used to recover from errors or a locked
    /// bus; the pins must be released and the bus idle before the reset is released.
    pub fn soft_reset(&mut self)
        ensures
            *final(self) == (I2cRegs { cr1: bit_write(old(self).cr1, 15, true), ..*old(self) }),
    {
        self.cr1 = write_flag(self.cr1, 15, true);
    }

    /// Writes a byte to the data register.
    pub fn transmit(&mut self, data: u8)
        ensures
            *final(self) == (I2cRegs {
                dr: field_write(old(self).dr, 0, 8, data as u32),
                ..*old(self)
            }),
    {
        proof {
            crate::bit::lemma_field_max_values();
        }
        self.dr = crate::bit::bit_mask_idx_modify::<8>(0, self.dr, data as u32);
    }

    /// Acknowledges (or not) received bytes.
    pub fn ack(&mut self, is_ack: bool)
        ensures
            *final(self) == (I2cRegs { cr1: bit_write(old(self).cr1, 10, is_ack), ..*old(self) }),
    {
        self.cr1 = write_flag(self.cr1, 10, is_ack);
    }

    /// Sets the own (slave) address, 7 bits.
    pub fn address(&mut self, address: u8)
        ensures
            *final(self) == (I2cRegs {
                oar1: field_write(old(self).oar1, 1, 7, address as u32 & field_max(7)),
                ..*old(self)
            }),
    {
        self.oar1 = BitOption::bit_mask_idx_modify::<7>(1, self.oar1, address as u32);
    }

    /// The bus is busy.
    pub fn busy(&self) -> (r: bool)
        ensures
            r == (field_value(self.sr2, 1, 1) == 1),
    {
        read_flag(self.sr2, 1)
    }

    /// Enables or disables the interrupt group of an event.
    pub fn event_config(&mut self, event: Event, en: bool)
        ensures
            *final(self) == (I2cRegs {
                cr2: bit_write(old(self).cr2, event.spec_enable_bit(), en),
                ..*old(self)
            }),
    {
        self.cr2 = write_flag(self.cr2, event.enable_bit(), en);
    }

    /// The event's flag is set and its interrupt is enabled.
    pub fn is_event_match(&self, event: Event) -> (r: bool)
        ensures
            r == (field_value(self.sr1, event.spec_bit(), 1) == 1 && field_value(
                self.cr2,
                event.spec_enable_bit(),
                1,
            ) == 1),
    {
        read_flag(self.sr1, event.bit()) && read_flag(self.cr2, event.enable_bit())
    }

    /// The event's flag is set.
    pub fn event_flag(&self, event: Event) -> (r: bool)
        ensures
            r == (field_value(self.sr1, event.spec_bit(), 1) == 1),
    {
        read_flag(self.sr1, event.bit())
    }

    /// Clears an error flag by writing zero; the other flags are cleared by the access
    /// sequence the hardware defines, so their clearing writes back `SR1` unchanged.
    pub fn event_clear(&mut self, event: Event)
        ensures
            event.spec_is_error() ==> *final(self) == (I2cRegs {
                sr1: bit_write(old(self).sr1, event.spec_bit(), false),
                ..*old(self)
            }),
            !event.spec_is_error() ==> *final(self) == *old(self),
    {
        match event {
            Event::BERR | Event::ARLO | Event::AF | Event::OVR | Event::PECERR => {
                self.sr1 = write_flag(self.sr1, event.bit(), false);
            },
            _ => {},
        }
    }

    /// The event's flag is set and its interrupt group is enabled.
    pub open spec fn spec_event_match(self, event: Event) -> bool {
        field_value(self.sr1, event.spec_bit(), 1) == 1 && field_value(
            self.cr2,
            event.spec_enable_bit(),
            1,
        ) == 1
    }

    fn serve_event(&mut self, event: Event)
        ensures
            *final(self) == if old(self).spec_event_match(event) {
                I2cRegs { cr2: bit_write(old(self).cr2, event.spec_enable_bit(), false), ..*old(self) }
            } else {
                *old(self)
            },
    {
        if self.is_event_match(event) {
            self.event_config(event, false);
        }
    }

    /// The event interrupt: every event whose flag is up while its interrupt
    /// group is enabled has that group disabled, so the interrupt stops firing
    /// until a waiter enables it again. Only the enable bits of the groups with
    /// a raised flag change; see [`event_group_raised`].
    pub fn on_event_interrupt(&mut self)
        ensures
            *final(self) == (I2cRegs { cr2: final(self).cr2, ..*old(self) }),
            forall|b: u32|
                b < 32 ==> #[trigger] field_value(final(self).cr2, b, 1) == if event_group_raised(
                    old(self).sr1,
                    b,
                ) {
                    0
                } else {
                    field_value(old(self).cr2, b, 1)
                },
    {
        let ghost s0 = *self;
        self.serve_event(Event::SB);
        let ghost s1 = *self;
        self.serve_event(Event::ADD);
        let ghost s2 = *self;
        self.serve_event(Event::STOPF);
        let ghost s3 = *self;
        self.serve_event(Event::BTF);
        let ghost s4 = *self;
        self.serve_event(Event::RXNE);
        let ghost s5 = *self;
        self.serve_event(Event::TXE);
        let ghost s6 = *self;
        self.serve_event(Event::BERR);
        let ghost s7 = *self;
        self.serve_event(Event::ARLO);
        let ghost s8 = *self;
        self.serve_event(Event::AF);
        let ghost s9 = *self;
        self.serve_event(Event::OVR);
        let ghost s10 = *self;
        self.serve_event(Event::PECERR);
        proof {
            assert forall|b: u32| b < 32 implies #[trigger] field_value(self.cr2, b, 1) == if event_group_raised(
                s0.sr1,
                b,
            ) {
                0
            } else {
                field_value(s0.cr2, b, 1)
            } by {
                crate::bit::lemma_field_max_values();
                crate::bit::lemma_field_value_bound(s0.cr2, b, 1);
                lemma_serve_step(s0, Event::SB, b);
                lemma_serve_step(s1, Event::ADD, b);
                lemma_serve_step(s2, Event::STOPF, b);
                lemma_serve_step(s3, Event::BTF, b);
                lemma_serve_step(s4, Event::RXNE, b);
                lemma_serve_step(s5, Event::TXE, b);
                lemma_serve_step(s6, Event::BERR, b);
                lemma_serve_step(s7, Event::ARLO, b);
                lemma_serve_step(s8, Event::AF, b);
                lemma_serve_step(s9, Event::OVR, b);
                lemma_serve_step(s10, Event::PECERR, b);
            }
        }
    }

    /// Clears `POS`: acknowledge control applies to the byte being received.
    pub fn clear_pos(&mut self)
        ensures
            *final(self) == (I2cRegs { cr1: bit_write(old(self).cr1, 11, false), ..*old(self) }),
    {
        self.cr1 = write_flag(self.cr1, 11, false);
    }

    /// Configures the bus timing for the APB clock `pclk`; see [`spec_config`].
    pub fn config(&mut self, pclk: u32, config: Config) -> (r: Result<(), Error>)
        requires
            config.speed != 0,
        ensures
            (*final(self), r) == spec_config(*old(self), pclk, config.speed),
    {
        self.enable_config(false);
        // standard mode needs at least 2 MHz, fast mode 4 MHz
        let freq = pclk / 1000 / 1000;
        self.cr2 = BitOption::bit_mask_idx_modify::<6>(0, self.cr2, freq);
        let t = match timing(pclk, config.speed) {
            Ok(t) => t,
            Err(e) => {
                return Err(e);
            },
        };
        if t.fast {
            self.ccr = write_flag(self.ccr, 15, true);
            self.ccr = write_flag(self.ccr, 14, t.duty);
        } else {
            self.ccr = write_flag(self.ccr, 15, false);
        }
        self.ccr = BitOption::bit_mask_idx_modify::<12>(0, self.ccr, t.ccr);
        assert(freq * 300 <= u32::MAX) by (nonlinear_arith)
            requires
                freq == pclk / 1000 / 1000,
        ;
        let rise = if config.speed <= SPEED_HZ_STAND {
            freq + 1
        } else {
            freq * 300 / 1000 + 1
        };
        self.trise = BitOption::bit_mask_idx_modify::<6>(0, self.trise, rise);
        self.enable_config(true);
        Ok(())
    }
}

/// Some event of the interrupt group whose enable is bit `b` of `CR2` has its
/// flag raised in `sr1`: `SB`, `ADDR`, `BTF` or `STOPF` for the event group (bit
/// 9), `RXNE` or `TXE` for the buffer group (bit 10), an error flag for the
/// error group (bit 8).
pub open spec fn event_group_raised(sr1: u32, b: u32) -> bool {
    exists|e: Event| e.spec_enable_bit() == b && #[trigger] field_value(sr1, e.spec_bit(), 1) == 1
}

proof fn lemma_serve_step(r: I2cRegs, e: Event, b: u32)
    requires
        b < 32,
    ensures
        ({
            let next = if r.spec_event_match(e) {
                I2cRegs { cr2: bit_write(r.cr2, e.spec_enable_bit(), false), ..r }
            } else {
                r
            };
            field_value(next.cr2, b, 1) == if r.spec_event_match(e) && e.spec_enable_bit() == b {
                0
            } else {
                field_value(r.cr2, b, 1)
            }
        }),
{
    crate::bit::lemma_field_max_values();
    let a = e.spec_enable_bit();
    if a == b {
        crate::bit::law_get_after_modify(r.cr2, a, 1, 0);
    } else {
        crate::bit::law_modify_keeps_disjoint_field(r.cr2, a, 1, 0, b, 1);
    }
}

/// Integer division facts: `q = x / d` is the largest value with `q * d <= x`.
proof fn lemma_div_bracket(x: int, d: int)
    requires
        0 <= x,
        0 < d,
    ensures
        (x / d) * d <= x < (x / d) * d + d,
        0 <= x / d,
{
    vstd::arithmetic::div_mod::lemma_fundamental_div_mod(x, d);
    vstd::arithmetic::div_mod::lemma_mod_pos_bound(x, d);
    assert(d * (x / d) == (x / d) * d) by (nonlinear_arith);
    assert(0 <= x / d) by (nonlinear_arith)
        requires
            0 <= x,
            0 < d,
    ;
}

/// `c = (x / k) / s` is the largest value with `k * s * c <= x`.
proof fn lemma_nested_div_bracket(x: int, k: int, s: int)
    requires
        0 <= x,
        0 < k,
        0 < s,
    ensures
        k * s * ((x / k) / s) <= x,
        x < k * s * ((x / k) / s + 1),
{
    let q = x / k;
    let c = q / s;
    lemma_div_bracket(x, k);
    lemma_div_bracket(q, s);
    assert(k * s * c <= x && x < k * s * (c + 1)) by (nonlinear_arith)
        requires
            q * k <= x < q * k + k,
            c * s <= q < c * s + s,
            0 < k,
            0 < s,
            0 <= c,
    ;
}

/// In fast mode (above 100 kHz, up to 400 kHz), when the APB clock is at
/// least three times the requested bus clock, the timing uses the 2:1 duty
/// cycle and its `CCR` is the largest divider whose bus clock
/// `pclk / (3 * CCR)` is not below the requested `speed`: a bus clock of
/// `pclk / (3 * (CCR + 1))` would already be below it.
pub proof fn law_fast_mode_divider_follows_speed(pclk: u32, speed: usize)
    requires
        SPEED_HZ_STAND < speed <= SPEED_HZ_FAST,
        3 * speed <= pclk,
    ensures
        spec_timing(pclk, speed) is Ok,
        spec_timing(pclk, speed)->Ok_0.fast,
        !spec_timing(pclk, speed)->Ok_0.duty,
        3 * speed * spec_timing(pclk, speed)->Ok_0.ccr <= pclk,
        pclk < 3 * speed * (spec_timing(pclk, speed)->Ok_0.ccr + 1),
{
    let s = speed as u32;
    let c = pclk / 3 / s;
    assert(c as int == (pclk as int / 3) / (s as int));
    lemma_nested_div_bracket(pclk as int, 3, s as int);
    assert(c >= 1) by (nonlinear_arith)
        requires
            pclk < 3 * s * (c + 1),
            3 * s <= pclk,
            c >= 0,
    ;
}

/// In standard mode (up to 100 kHz), when the APB clock is at least ten times
/// the requested bus clock, the timing's `CCR` is the largest divider whose bus
/// clock `pclk / (2 * CCR)` is not below the requested `speed`.
pub proof fn law_standard_mode_divider_follows_speed(pclk: u32, speed: usize)
    requires
        0 < speed <= SPEED_HZ_STAND,
        10 * speed <= pclk,
    ensures
        spec_timing(pclk, speed) is Ok,
        !spec_timing(pclk, speed)->Ok_0.fast,
        2 * speed * spec_timing(pclk, speed)->Ok_0.ccr <= pclk,
        pclk < 2 * speed * (spec_timing(pclk, speed)->Ok_0.ccr + 1),
{
    let s = speed as u32;
    let c = pclk / 2 / s;
    assert(c as int == (pclk as int / 2) / (s as int));
    lemma_nested_div_bracket(pclk as int, 2, s as int);
    assert(c > 4) by (nonlinear_arith)
        requires
            pclk < 2 * s * (c + 1),
            10 * s <= pclk,
            c >= 0,
    ;
}

/// The timing is refused exactly when no divider fits: a bus clock above
/// 400 kHz is not supported, and an APB clock below ten times the requested bus
/// clock (standard mode) or three times it (fast mode) is too slow.
pub proof fn law_timing_refusals(pclk: u32, speed: usize)
    requires
        speed > 0,
    ensures
        speed > SPEED_HZ_FAST ==> spec_timing(pclk, speed) == Err::<Timing, Error>(Error::SpeedMode),
        speed <= SPEED_HZ_STAND && pclk < 10 * speed ==> spec_timing(pclk, speed) == Err::<
            Timing,
            Error,
        >(Error::PClock),
        SPEED_HZ_STAND < speed <= SPEED_HZ_FAST && pclk < 3 * speed ==> spec_timing(pclk, speed)
            == Err::<Timing, Error>(Error::PClock),
{
    if speed <= SPEED_HZ_FAST {
        let s = speed as u32;
        if speed <= SPEED_HZ_STAND {
            lemma_nested_div_bracket(pclk as int, 2, s as int);
            let c = pclk / 2 / s;
            assert(c as int == (pclk as int / 2) / (s as int));
            if pclk < 10 * speed {
                assert(c <= 4) by (nonlinear_arith)
                    requires
                        2 * s * c <= pclk,
                        pclk < 10 * s,
                        s > 0,
                ;
            }
        } else {
            lemma_nested_div_bracket(pclk as int, 3, s as int);
            lemma_nested_div_bracket(pclk as int, 15, s as int);
            let c = pclk / 3 / s;
            let c2 = pclk / 15 / s;
            assert(c as int == (pclk as int / 3) / (s as int));
            assert(c2 as int == (pclk as int / 15) / (s as int));
            if pclk < 3 * speed {
                assert(c == 0 && c2 == 0) by (nonlinear_arith)
                    requires
                        3 * s * c <= pclk,
                        15 * s * c2 <= pclk,
                        pclk < 3 * s,
                        s > 0,
                ;
            }
        }
    }
}

} // verus!
