//! Analog-to-digital converter: configuration values and register operations.
pub mod types;

use crate::bit::{bit_mask_idx, bit_mask_idx_get, bit_mask_idx_modify, bit_write, field_max, field_value, field_write, read_flag, write_flag};
use crate::clock::peripheral::{PeripheralClockIndex, PeripheralIdToClockIndex, PeripheralInterrupt};
use crate::gpio::GpioRegs;
pub use types::{
    AdcChannel, Align, CalibrationSampleTime, CalibrationSelect, ClockMode, ConversionMode, Error,
    Event, ExitTrigleSource, Resolution, SampleCycles, ScanDir, TrigleSignal,
};
use vstd::prelude::*;

verus! {

/// ADC instance.
#[derive(Debug, Clone, Copy, PartialEq, Eq, Structural)]
pub enum Id {
    ADC1,
}

impl PeripheralIdToClockIndex for Id {
    fn clock(&self) -> (r: PeripheralClockIndex)
        ensures
            r == PeripheralClockIndex::ADC,
    {
        match *self {
            Self::ADC1 => PeripheralClockIndex::ADC,
        }
    }
}

/// Calibration settings.
#[derive(Debug, Clone, Copy, PartialEq, Eq, Structural)]
pub struct CalibrationConfig {
    pub content: CalibrationSelect,
    pub sample_time: CalibrationSampleTime,
}

impl CalibrationConfig {
    /// Calibration of `content` with the given sampling time.
    pub fn new(content: CalibrationSelect, sample_time: CalibrationSampleTime) -> (r: Self)
        ensures
            r.content == content,
            r.sample_time == sample_time,
    {
        Self { content, sample_time }
    }
}

impl Default for CalibrationConfig {
    fn default() -> (r: Self)
        ensures
            r.content == CalibrationSelect::OffsetLinearity,
            r.sample_time == CalibrationSampleTime::Cycle_8,
    {
        Self {
            content: CalibrationSelect::OffsetLinearity,
            sample_time: CalibrationSampleTime::Cycle_8,
        }
    }
}

/// Analog watchdog thresholds.
#[derive(Debug, Clone, Copy, PartialEq, Eq, Structural)]
pub struct WatchDogConfig {
    pub high: u16,
    pub low: u16,
}

/// Converter settings.
#[derive(Debug, Clone, Copy, PartialEq, Eq, Structural)]
pub struct Config {
    /// Calibrate before use.
    pub calibration: bool,
    /// Sampling time.
    pub sample_cycle: SampleCycles,
    /// Resolution.
    pub resolution: Resolution,
    /// Data alignment.
    pub align: Align,
    /// Clock source.
    pub clock: ClockMode,
}

impl Default for Config {
    fn default() -> (r: Self)
        ensures
            r == (Config {
                calibration: true,
                sample_cycle: SampleCycles::Cycle_3_5,
                resolution: Resolution::Bit12,
                align: Align::Right,
                clock: ClockMode::PCLK,
            }),
    {
        Self {
            calibration: true,
            sample_cycle: SampleCycles::Cycle_3_5,
            resolution: Resolution::Bit12,
            align: Align::Right,
            clock: ClockMode::PCLK,
        }
    }
}

impl Config {
    /// A configuration from all its settings.
    pub fn new(
        calibration: bool,
        sample_cycle: SampleCycles,
        resolution: Resolution,
        align: Align,
        clock: ClockMode,
    ) -> (r: Self)
        ensures
            r == (Config { calibration, sample_cycle, resolution, align, clock }),
    {
        Self { calibration, sample_cycle, resolution, align, clock }
    }

    /// With another sampling time.
    pub fn sample(self, sample: SampleCycles) -> (r: Self)
        ensures
            r == (Config { sample_cycle: sample, ..self }),
    {
        Self { sample_cycle: sample, ..self }
    }

    /// With or without calibration.
    pub fn calibration(self, calibration: bool) -> (r: Self)
        ensures
            r == (Config { calibration, ..self }),
    {
        Self { calibration, ..self }
    }

    /// With another resolution.
    pub fn resolution(self, resolution: Resolution) -> (r: Self)
        ensures
            r == (Config { resolution, ..self }),
    {
        Self { resolution, ..self }
    }

    /// With another alignment.
    pub fn align(self, align: Align) -> (r: Self)
        ensures
            r == (Config { align, ..self }),
    {
        Self { align, ..self }
    }

    /// With another clock.
    pub fn clock(self, clock: ClockMode) -> (r: Self)
        ensures
            r == (Config { clock, ..self }),
    {
        Self { clock, ..self }
    }

    /// Whether to calibrate before use.
    pub fn needs_calibration(&self) -> (r: bool)
        ensures
            r == self.calibration,
    {
        self.calibration
    }
}

/// Channel sequencing settings.
#[derive(Debug, Clone, Copy, PartialEq, Eq, Structural)]
pub struct ChannelConfig {
    /// Conversion mode.
    pub mode: ConversionMode,
    /// Scan direction.
    pub scan_dir: ScanDir,
    /// Overwrite unread data.
    pub over_write: bool,
    /// Wait for the data to be read before converting the next channel.
    pub wait: bool,
    /// Trigger.
    pub signal: TrigleSignal,
}

impl ChannelConfig {
    /// With another conversion mode.
    pub fn mode(self, mode: ConversionMode) -> (r: Self)
        ensures
            r == (ChannelConfig { mode, ..self }),
    {
        Self { mode, ..self }
    }

    /// With another trigger.
    pub fn singal(self, signal: TrigleSignal) -> (r: Self)
        ensures
            r == (ChannelConfig { signal, ..self }),
    {
        Self { signal, ..self }
    }

    /// With another scan direction.
    pub fn scan_dir(self, scan_dir: ScanDir) -> (r: Self)
        ensures
            r == (ChannelConfig { scan_dir, ..self }),
    {
        Self { scan_dir, ..self }
    }

    /// With or without waiting for the data to be read.
    pub fn wait(self, wait: bool) -> (r: Self)
        ensures
            r == (ChannelConfig { wait, ..self }),
    {
        Self { wait, ..self }
    }

    /// With or without overwriting unread data.
    pub fn over_write(self, over_write: bool) -> (r: Self)
        ensures
            r == (ChannelConfig { over_write, ..self }),
    {
        Self { over_write, ..self }
    }

    /// Recommended for reading several channels: continuous, upward scan, no overwrite,
    /// software trigger.
    pub fn new_multiple_channel_perferred() -> (r: Self)
        ensures
            r == (ChannelConfig {
                mode: ConversionMode::Continuous,
                scan_dir: ScanDir::Up,
                over_write: false,
                wait: false,
                signal: TrigleSignal::Soft,
            }),
    {
        Self {
            mode: ConversionMode::Continuous,
            scan_dir: ScanDir::Up,
            over_write: false,
            wait: false,
            signal: TrigleSignal::Soft,
        }
    }

    /// Recommended for reading one channel: continuous, upward scan, overwrite, software trigger.
    pub fn new_exclusive_perferred() -> (r: Self)
        ensures
            r == (ChannelConfig {
                mode: ConversionMode::Continuous,
                scan_dir: ScanDir::Up,
                over_write: true,
                wait: true,
                signal: TrigleSignal::Soft,
            }),
    {
        Self {
            mode: ConversionMode::Continuous,
            scan_dir: ScanDir::Up,
            over_write: true,
            wait: true,
            signal: TrigleSignal::Soft,
        }
    }

    /// Single conversion mode.
    pub fn new_exclusive_single() -> (r: Self)
        ensures
            r == (ChannelConfig {
                mode: ConversionMode::Single,
                scan_dir: ScanDir::Up,
                over_write: false,
                wait: true,
                signal: TrigleSignal::Soft,
            }),
    {
        Self {
            mode: ConversionMode::Single,
            scan_dir: ScanDir::Up,
            over_write: false,
            wait: true,
            signal: TrigleSignal::Soft,
        }
    }
}

impl Default for ChannelConfig {
    fn default() -> (r: Self)
        ensures
            r == (ChannelConfig {
                mode: ConversionMode::Continuous,
                scan_dir: ScanDir::Up,
                over_write: true,
                wait: true,
                signal: TrigleSignal::Soft,
            }),
    {
        Self {
            mode: ConversionMode::Continuous,
            scan_dir: ScanDir::Up,
            over_write: true,
            wait: true,
            signal: TrigleSignal::Soft,
        }
    }
}

/// A pin or internal source that the converter can sample.
pub trait AnalogPin {
    /// The channel it is sampled on.
    fn channel(&self) -> AdcChannel;

    /// Puts the pin into analog mode.
    fn as_anlog(&self, regs: &mut GpioRegs);
}

/// The internal temperature sensor.
pub struct TemperatureChannel;

/// The internal reference voltage.
pub struct VRrefChannel;

impl AnalogPin for TemperatureChannel {
    fn channel(&self) -> (r: AdcChannel)
        ensures
            r == AdcChannel::Channel11,
    {
        AdcChannel::Channel11
    }

    fn as_anlog(&self, regs: &mut GpioRegs)
        ensures
            *final(regs) == *old(regs),
    {
    }
}

impl AnalogPin for VRrefChannel {
    fn channel(&self) -> (r: AdcChannel)
        ensures
            r == AdcChannel::Channel12,
    {
        AdcChannel::Channel12
    }

    fn as_anlog(&self, regs: &mut GpioRegs)
        ensures
            *final(regs) == *old(regs),
    {
    }
}

/// `CONT` and `DISCEN` of a conversion mode.
pub open spec fn spec_cont_discen(mode: ConversionMode) -> (bool, bool) {
    match mode {
        ConversionMode::Single => (false, false),
        ConversionMode::Continuous => (true, false),
        ConversionMode::Discontinuous => (false, true),
    }
}

/// `EXTEN` and `EXTSEL` of a trigger.
pub open spec fn spec_exten_extsel(trigle: TrigleSignal) -> (u32, u32) {
    match trigle {
        TrigleSignal::Soft => (0, 0),
        TrigleSignal::Rising(s) => (1, s.spec_bits()),
        TrigleSignal::Falling(s) => (2, s.spec_bits()),
        TrigleSignal::RisingFalling(s) => (3, s.spec_bits()),
    }
}

/// Image of the ADC registers.
#[derive(Debug, Clone, Copy, PartialEq, Eq, Structural)]
pub struct AdcRegs {
    pub isr: u32,
    pub ier: u32,
    pub cr: u32,
    pub cfgr1: u32,
    pub cfgr2: u32,
    pub smpr: u32,
    pub tr: u32,
    pub chselr: u32,
    pub dr: u32,
    pub ccr: u32,
    pub ccsr: u32,
}

impl AdcRegs {
    pub open spec fn spec_channel_enable(self, channel: AdcChannel, en: bool) -> AdcRegs {
        let c = AdcRegs { chselr: bit_write(self.chselr, channel.spec_bits(), en), ..self };
        if channel == AdcChannel::Channel11 {
            AdcRegs { ccr: bit_write(c.ccr, 23, en), ..c }
        } else if channel == AdcChannel::Channel12 {
            AdcRegs { ccr: bit_write(c.ccr, 22, en), ..c }
        } else {
            c
        }
    }

    pub open spec fn spec_channel_config(self, config: ChannelConfig) -> AdcRegs {
        let (cont, discen) = spec_cont_discen(config.mode);
        let (exten, extsel) = spec_exten_extsel(config.signal);
        AdcRegs {
            cfgr1: bit_write(
                field_write(
                    field_write(
                        bit_write(
                            bit_write(
                                bit_write(bit_write(self.cfgr1, 16, discen), 13, cont),
                                2,
                                config.scan_dir == ScanDir::Down,
                            ),
                            12,
                            config.over_write,
                        ),
                        10,
                        2,
                        exten,
                    ),
                    6,
                    3,
                    extsel,
                ),
                14,
                config.wait,
            ),
            ..self
        }
    }

    /// Starts a calibration.
    pub fn calibration_start(&mut self)
        ensures
            *final(self) == (AdcRegs { cr: bit_write(old(self).cr, 31, true), ..*old(self) }),
    {
        self.cr = write_flag(self.cr, 31, true);
    }

    /// Enables the converter.
    pub fn enable(&mut self)
        ensures
            *final(self) == (AdcRegs { cr: bit_write(old(self).cr, 0, true), ..*old(self) }),
    {
        self.cr = write_flag(self.cr, 0, true);
    }

    /// Disables the converter.
    pub fn disable(&mut self)
        ensures
            *final(self) == (AdcRegs { cr: bit_write(old(self).cr, 0, false), ..*old(self) }),
    {
        self.cr = write_flag(self.cr, 0, false);
    }

    /// Selects the clock.
    pub fn set_clock_mode(&mut self, clock: ClockMode)
        ensures
            *final(self) == (AdcRegs {
                cfgr2: field_write(old(self).cfgr2, 28, 4, clock.spec_bits()),
                ..*old(self)
            }),
    {
        proof {
            crate::bit::lemma_field_max_values();
        }
        self.cfgr2 = bit_mask_idx_modify::<4>(28, self.cfgr2, clock.bits());
    }

    /// Starts conversions.
    pub fn start(&mut self)
        ensures
            *final(self) == (AdcRegs { cr: bit_write(old(self).cr, 2, true), ..*old(self) }),
    {
        self.cr = write_flag(self.cr, 2, true);
    }

    /// Stops conversions.
    pub fn stop(&mut self)
        ensures
            *final(self) == (AdcRegs { cr: bit_write(old(self).cr, 4, true), ..*old(self) }),
    {
        self.cr = write_flag(self.cr, 4, true);
    }

    /// Selects the conversion mode.
    pub fn conversion_mode(&mut self, mode: ConversionMode)
        ensures
            *final(self) == (AdcRegs {
                cfgr1: bit_write(
                    bit_write(old(self).cfgr1, 16, spec_cont_discen(mode).1),
                    13,
                    spec_cont_discen(mode).0,
                ),
                ..*old(self)
            }),
    {
        let (cont, discen) = match mode {
            ConversionMode::Single => (false, false),
            ConversionMode::Continuous => (true, false),
            ConversionMode::Discontinuous => (false, true),
        };
        self.cfgr1 = write_flag(write_flag(self.cfgr1, 16, discen), 13, cont);
    }

    /// Overwrites unread data on overrun.
    pub fn set_overwrite(&mut self, en: bool)
        ensures
            *final(self) == (AdcRegs { cfgr1: bit_write(old(self).cfgr1, 12, en), ..*old(self) }),
    {
        self.cfgr1 = write_flag(self.cfgr1, 12, en);
    }

    /// Waits for the data to be read before the next conversion.
    pub fn set_wait(&mut self, en: bool)
        ensures
            *final(self) == (AdcRegs { cfgr1: bit_write(old(self).cfgr1, 14, en), ..*old(self) }),
    {
        self.cfgr1 = write_flag(self.cfgr1, 14, en);
    }

    /// Selects the trigger.
    pub fn trigle_signal(&mut self, trigle: TrigleSignal)
        ensures
            *final(self) == (AdcRegs {
                cfgr1: field_write(
                    field_write(old(self).cfgr1, 10, 2, spec_exten_extsel(trigle).0),
                    6,
                    3,
                    spec_exten_extsel(trigle).1,
                ),
                ..*old(self)
            }),
    {
        proof {
            crate::bit::lemma_field_max_values();
        }
        let (exten, extsel) = match trigle {
            TrigleSignal::Soft => (0, 0),
            TrigleSignal::Rising(s) => (1, s.bits()),
            TrigleSignal::Falling(s) => (2, s.bits()),
            TrigleSignal::RisingFalling(s) => (3, s.bits()),
        };
        self.cfgr1 = bit_mask_idx_modify::<3>(
            6,
            bit_mask_idx_modify::<2>(10, self.cfgr1, exten),
            extsel,
        );
    }

    /// Conversions are started by software.
    pub fn is_soft_trigle(&self) -> (r: bool)
        ensures
            r == (field_value(self.cfgr1, 10, 2) == 0),
    {
        bit_mask_idx_get::<2>(10, self.cfgr1) == 0
    }

    /// Selects the data alignment.
    pub fn align(&mut self, align: Align)
        ensures
            *final(self) == (AdcRegs {
                cfgr1: bit_write(old(self).cfgr1, 5, align == Align::Left),
                ..*old(self)
            }),
    {
        self.cfgr1 = write_flag(self.cfgr1, 5, align == Align::Left);
    }

    /// Selects the resolution.
    pub fn set_resolution(&mut self, bit: Resolution)
        ensures
            *final(self) == (AdcRegs {
                cfgr1: field_write(old(self).cfgr1, 3, 2, bit.spec_bits()),
                ..*old(self)
            }),
    {
        proof {
            crate::bit::lemma_field_max_values();
        }
        self.cfgr1 = bit_mask_idx_modify::<2>(3, self.cfgr1, bit.bits());
    }

    /// Selects the scan direction.
    pub fn set_scan_dir(&mut self, dir: ScanDir)
        ensures
            *final(self) == (AdcRegs {
                cfgr1: bit_write(old(self).cfgr1, 2, dir == ScanDir::Down),
                ..*old(self)
            }),
    {
        self.cfgr1 = write_flag(self.cfgr1, 2, dir == ScanDir::Down);
    }

    /// Selects the sampling time.
    pub fn set_sample_cycle(&mut self, cycle: SampleCycles)
        ensures
            *final(self) == (AdcRegs {
                smpr: field_write(old(self).smpr, 0, 3, cycle.spec_bits()),
                ..*old(self)
            }),
    {
        proof {
            crate::bit::lemma_field_max_values();
        }
        self.smpr = bit_mask_idx_modify::<3>(0, self.smpr, cycle.bits());
    }

    /// Sets the analog watchdog thresholds (12 bits each).
    pub fn set_watch_dog_threshold(&mut self, high: u16, low: u16)
        ensures
            *final(self) == (AdcRegs {
                tr: field_write(
                    field_write(old(self).tr, 16, 12, high as u32 & field_max(12)),
                    0,
                    12,
                    low as u32 & field_max(12),
                ),
                ..*old(self)
            }),
    {
        let t = crate::common::BitOption::bit_mask_idx_modify::<12>(16, self.tr, high as u32);
        self.tr = crate::common::BitOption::bit_mask_idx_modify::<12>(0, t, low as u32);
    }

    /// Enables or disables a channel (and the internal sensor it reads).
    /// Only allowed while no conversion is ongoing.
    pub fn channel_enable(&mut self, channel: AdcChannel, en: bool)
        ensures
            *final(self) == old(self).spec_channel_enable(channel, en),
    {
        self.chselr = write_flag(self.chselr, channel.bits() as usize, en);
        if channel == AdcChannel::Channel11 {
            self.ccr = write_flag(self.ccr, 23, en);
        } else if channel == AdcChannel::Channel12 {
            self.ccr = write_flag(self.ccr, 22, en);
        }
    }

    /// Selects `channel` as the only channel (and enables the internal sensor it reads).
    pub fn channel_enable_exclusive(&mut self, channel: AdcChannel)
        ensures
            final(self).chselr == field_max(1) << channel.spec_bits(),
            channel == AdcChannel::Channel11 ==> final(self).ccr == bit_write(old(self).ccr, 23, true),
            channel == AdcChannel::Channel12 ==> final(self).ccr == bit_write(old(self).ccr, 22, true),
            channel != AdcChannel::Channel11 && channel != AdcChannel::Channel12 ==> final(self).ccr == old(self).ccr,
            *final(self) == (AdcRegs { chselr: final(self).chselr, ccr: final(self).ccr, ..*old(self) }),
    {
        self.chselr = bit_mask_idx::<1>(channel.bits() as usize);
        if channel == AdcChannel::Channel11 {
            self.ccr = write_flag(self.ccr, 23, true);
        } else if channel == AdcChannel::Channel12 {
            self.ccr = write_flag(self.ccr, 22, true);
        }
    }

    /// The conversion result.
    pub fn data_read(&self) -> (r: u16)
        ensures
            r == field_value(self.dr, 0, 16),
    {
        proof {
            crate::bit::lemma_field_max_values();
            crate::bit::lemma_field_value_bound(self.dr, 0, 16);
        }
        bit_mask_idx_get::<16>(0, self.dr) as u16
    }

    /// Selects the calibration sampling time.
    pub fn set_calibration_sample_time(&mut self, time: CalibrationSampleTime)
        ensures
            *final(self) == (AdcRegs {
                ccsr: field_write(old(self).ccsr, 12, 2, time.spec_bits()),
                ..*old(self)
            }),
    {
        proof {
            crate::bit::lemma_field_max_values();
        }
        self.ccsr = bit_mask_idx_modify::<2>(12, self.ccsr, time.bits());
    }

    /// Selects what the calibration corrects.
    pub fn set_calibration_content(&mut self, select: CalibrationSelect)
        ensures
            *final(self) == (AdcRegs {
                ccsr: bit_write(old(self).ccsr, 11, select == CalibrationSelect::OffsetLinearity),
                ..*old(self)
            }),
    {
        self.ccsr = write_flag(self.ccsr, 11, select == CalibrationSelect::OffsetLinearity);
    }

    /// The calibration has ended without failure.
    pub fn calibration_done(&self) -> (r: bool)
        ensures
            r == (field_value(self.ccsr, 31, 1) == 0 && field_value(self.ccsr, 30, 1) == 0),
    {
        proof {
            crate::bit::lemma_field_max_values();
            crate::bit::lemma_field_value_bound(self.ccsr, 31, 1);
            crate::bit::lemma_field_value_bound(self.ccsr, 30, 1);
        }
        !read_flag(self.ccsr, 31) && !read_flag(self.ccsr, 30)
    }

    /// Applies calibration settings and starts the calibration; completion is
    /// [`AdcRegs::calibration_done`], and a timeout is [`Error::Calibrate`].
    pub fn calibration(&mut self, config: CalibrationConfig)
        ensures
            *final(self) == (AdcRegs {
                ccsr: field_write(
                    bit_write(
                        old(self).ccsr,
                        11,
                        config.content == CalibrationSelect::OffsetLinearity,
                    ),
                    12,
                    2,
                    config.sample_time.spec_bits(),
                ),
                cr: bit_write(old(self).cr, 31, true),
                ..*old(self)
            }),
    {
        self.set_calibration_content(config.content);
        self.set_calibration_sample_time(config.sample_time);
        self.calibration_start();
    }

    /// The event's flag is set.
    pub fn event_flag(&self, event: Event) -> (r: bool)
        ensures
            r == (field_value(self.isr, event.spec_bits(), 1) == 1),
    {
        read_flag(self.isr, event.bits() as usize)
    }

    /// Enables or disables the event's interrupt.
    pub fn event_config(&mut self, event: Event, en: bool)
        ensures
            *final(self) == (AdcRegs {
                ier: bit_write(old(self).ier, event.spec_bits(), en),
                ..*old(self)
            }),
    {
        self.ier = write_flag(self.ier, event.bits() as usize, en);
    }

    /// Acknowledges the event's flag (write one to clear).
    pub fn event_clear(&mut self, event: Event)
        ensures
            *final(self) == (AdcRegs {
                isr: bit_write(old(self).isr, event.spec_bits(), true),
                ..*old(self)
            }),
    {
        self.isr = write_flag(self.isr, event.bits() as usize, true);
    }

    /// Applies channel sequencing settings.
    pub fn channel_config(&mut self, config: ChannelConfig)
        ensures
            *final(self) == old(self).spec_channel_config(config),
    {
        self.conversion_mode(config.mode);
        self.set_scan_dir(config.scan_dir);
        self.set_overwrite(config.over_write);
        self.trigle_signal(config.signal);
        self.set_wait(config.wait);
    }

    /// Sets the analog watchdog thresholds, if any are given.
    pub fn set_watchdog(&mut self, config: Option<WatchDogConfig>)
        ensures
            config.is_none() ==> *final(self) == *old(self),
            config matches Some(c) ==> *final(self) == (AdcRegs {
                tr: field_write(
                    field_write(old(self).tr, 16, 12, c.high as u32 & field_max(12)),
                    0,
                    12,
                    c.low as u32 & field_max(12),
                ),
                ..*old(self)
            }),
    {
        if let Some(config) = config {
            self.set_watch_dog_threshold(config.high, config.low)
        }
    }
}

/// `IER` after an interrupt: the interrupt of every event whose flag is set in
/// `isr` is switched off, in the order `EOSMP`, `EOC`, `EOSEQ`, `OVR`, `AWD`.
pub open spec fn spec_silence_fired(ier: u32, isr: u32) -> u32 {
    let a = if field_value(isr, 1, 1) == 1 { bit_write(ier, 1, false) } else { ier };
    let b = if field_value(isr, 2, 1) == 1 { bit_write(a, 2, false) } else { a };
    let c = if field_value(isr, 3, 1) == 1 { bit_write(b, 3, false) } else { b };
    let d = if field_value(isr, 4, 1) == 1 { bit_write(c, 4, false) } else { c };
    if field_value(isr, 7, 1) == 1 { bit_write(d, 7, false) } else { d }
}

impl AdcRegs {
    /// Arms a conversion of `channel` that ends in an interrupt: clears and
    /// enables end of conversion, makes `channel` the only channel and starts.
    pub fn arm_channel_read(&mut self, channel: AdcChannel)
        ensures
            final(self).isr == bit_write(old(self).isr, 2, true),
            final(self).ier == bit_write(old(self).ier, 2, true),
            final(self).chselr == field_max(1) << channel.spec_bits(),
            channel == AdcChannel::Channel11 ==> final(self).ccr == bit_write(old(self).ccr, 23, true),
            channel == AdcChannel::Channel12 ==> final(self).ccr == bit_write(old(self).ccr, 22, true),
            channel != AdcChannel::Channel11 && channel != AdcChannel::Channel12 ==> final(self).ccr
                == old(self).ccr,
            final(self).cr == bit_write(old(self).cr, 2, true),
            final(self).cfgr1 == old(self).cfgr1,
            final(self).cfgr2 == old(self).cfgr2,
            final(self).smpr == old(self).smpr,
            final(self).tr == old(self).tr,
            final(self).dr == old(self).dr,
            final(self).ccsr == old(self).ccsr,
    {
        self.event_clear(Event::EOC);
        self.event_config(Event::EOC, true);
        self.channel_enable_exclusive(channel);
        self.start();
    }

    /// The conversion result once end of conversion is flagged, else `None`.
    pub fn poll_read(&self) -> (r: Option<u16>)
        ensures
            field_value(self.isr, 2, 1) == 1 ==> r == Some(field_value(self.dr, 0, 16) as u16),
            field_value(self.isr, 2, 1) != 1 ==> r is None,
    {
        if self.event_flag(Event::EOC) {
            Some(self.data_read())
        } else {
            None
        }
    }

    /// Interrupt service: switches off the interrupt of every event that fired.
    pub fn on_interrupt(&mut self)
        ensures
            *final(self) == (AdcRegs { ier: spec_silence_fired(old(self).ier, old(self).isr), ..*old(self) }),
    {
        if self.event_flag(Event::EOSMP) {
            self.event_config(Event::EOSMP, false);
        }
        if self.event_flag(Event::EOC) {
            self.event_config(Event::EOC, false);
        }
        if self.event_flag(Event::EOSEQ) {
            self.event_config(Event::EOSEQ, false);
        }
        if self.event_flag(Event::OVR) {
            self.event_config(Event::OVR, false);
        }
        if self.event_flag(Event::AWD) {
            self.event_config(Event::AWD, false);
        }
    }
}

/// Register values after enabling the first `n` channels of `channels`, in order.
pub open spec fn spec_enable_channels(regs: AdcRegs, channels: Seq<AdcChannel>, n: int) -> AdcRegs
    decreases n,
{
    if n <= 0 {
        regs
    } else {
        spec_enable_channels(regs, channels, n - 1).spec_channel_enable(channels[n - 1], true)
    }
}

impl AdcRegs {
    /// First configuration phase: converter off, clock, resolution and sampling time.
    /// A calibration may follow ([`AdcRegs::calibration`]) when `config` asks for it.
    pub fn configure_before_calibration(&mut self, config: &Config)
        ensures
            *final(self) == (AdcRegs {
                cr: bit_write(old(self).cr, 0, false),
                cfgr2: field_write(old(self).cfgr2, 28, 4, config.clock.spec_bits()),
                cfgr1: field_write(old(self).cfgr1, 3, 2, config.resolution.spec_bits()),
                smpr: field_write(old(self).smpr, 0, 3, config.sample_cycle.spec_bits()),
                ..*old(self)
            }),
    {
        self.disable();
        self.set_clock_mode(config.clock);
        self.set_resolution(config.resolution);
        self.set_sample_cycle(config.sample_cycle);
    }

    /// Last configuration phase: alignment, channel sequencing, and the channels to convert.
    pub fn configure_after_calibration(
        &mut self,
        config: &Config,
        channel_config: ChannelConfig,
        channels: &[AdcChannel],
    )
        ensures
            *final(self) == spec_enable_channels(
                (AdcRegs {
                    cfgr1: bit_write(old(self).cfgr1, 5, config.align == Align::Left),
                    ..*old(self)
                }).spec_channel_config(channel_config),
                channels@,
                channels@.len() as int,
            ),
    {
        self.align(config.align);
        self.channel_config(channel_config);
        let ghost start = *self;
        let mut i: usize = 0;
        while i < channels.len()
            invariant
                i <= channels@.len(),
                *self == spec_enable_channels(start, channels@, i as int),
            decreases channels@.len() - i,
        {
            self.channel_enable(channels[i], true);
            i = i + 1;
        }
    }
}

impl PeripheralInterrupt for Id {
    open spec fn spec_interrupt(&self) -> u16 {
        12
    }

    /// `ADC_COMP`.
    fn interrupt(&self) -> (r: u16) {
        12
    }
}

/// `after` is `before` with bit `n` set to `en` and every other bit kept.
pub open spec fn changes_only_bit(before: u32, after: u32, n: u32, en: bool) -> bool {
    forall|b: u32|
        b < 32 ==> #[trigger] field_value(after, b, 1) == if b == n {
            if en {
                1u32
            } else {
                0u32
            }
        } else {
            field_value(before, b, 1)
        }
}

proof fn lemma_bit_write_changes_only_bit(x: u32, n: u32, en: bool)
    requires
        n < 32,
    ensures
        changes_only_bit(x, bit_write(x, n, en), n, en),
{
    crate::bit::lemma_field_max_values();
    let v: u32 = if en {
        1
    } else {
        0
    };
    assert forall|b: u32| b < 32 implies #[trigger] field_value(bit_write(x, n, en), b, 1) == if b == n {
        v
    } else {
        field_value(x, b, 1)
    } by {
        if b == n {
            crate::bit::law_get_after_modify(x, n, 1, v);
        } else {
            crate::bit::law_modify_keeps_disjoint_field(x, n, 1, v, b, 1);
        }
    }
}

/// Enabling or disabling channel `N` changes exactly bit `N` of `CHSELR`:
/// channels 0 to 7 (PA0 to PA7) are bits 0 to 7, channels 8 and 9 (PB0, PB1)
/// bits 8 and 9, the temperature sensor (channel 11) bit 11 and the internal
/// reference (channel 12) bit 12.
pub proof fn law_channel_selects_its_own_bit(r: AdcRegs, en: bool)
    ensures
        changes_only_bit(r.chselr, r.spec_channel_enable(AdcChannel::Channel0, en).chselr, 0, en),
        changes_only_bit(r.chselr, r.spec_channel_enable(AdcChannel::Channel1, en).chselr, 1, en),
        changes_only_bit(r.chselr, r.spec_channel_enable(AdcChannel::Channel2, en).chselr, 2, en),
        changes_only_bit(r.chselr, r.spec_channel_enable(AdcChannel::Channel3, en).chselr, 3, en),
        changes_only_bit(r.chselr, r.spec_channel_enable(AdcChannel::Channel4, en).chselr, 4, en),
        changes_only_bit(r.chselr, r.spec_channel_enable(AdcChannel::Channel5, en).chselr, 5, en),
        changes_only_bit(r.chselr, r.spec_channel_enable(AdcChannel::Channel6, en).chselr, 6, en),
        changes_only_bit(r.chselr, r.spec_channel_enable(AdcChannel::Channel7, en).chselr, 7, en),
        changes_only_bit(r.chselr, r.spec_channel_enable(AdcChannel::Channel8, en).chselr, 8, en),
        changes_only_bit(r.chselr, r.spec_channel_enable(AdcChannel::Channel9, en).chselr, 9, en),
        changes_only_bit(r.chselr, r.spec_channel_enable(AdcChannel::Channel11, en).chselr, 11, en),
        changes_only_bit(r.chselr, r.spec_channel_enable(AdcChannel::Channel12, en).chselr, 12, en),
{
    lemma_bit_write_changes_only_bit(r.chselr, 0, en);
    lemma_bit_write_changes_only_bit(r.chselr, 1, en);
    lemma_bit_write_changes_only_bit(r.chselr, 2, en);
    lemma_bit_write_changes_only_bit(r.chselr, 3, en);
    lemma_bit_write_changes_only_bit(r.chselr, 4, en);
    lemma_bit_write_changes_only_bit(r.chselr, 5, en);
    lemma_bit_write_changes_only_bit(r.chselr, 6, en);
    lemma_bit_write_changes_only_bit(r.chselr, 7, en);
    lemma_bit_write_changes_only_bit(r.chselr, 8, en);
    lemma_bit_write_changes_only_bit(r.chselr, 9, en);
    lemma_bit_write_changes_only_bit(r.chselr, 11, en);
    lemma_bit_write_changes_only_bit(r.chselr, 12, en);
}

/// Selecting channel `N` as the only channel leaves exactly bit `N` of
/// `CHSELR` set.
pub proof fn law_exclusive_channel_is_its_own_bit()
    ensures
        forall|c: AdcChannel, b: u32|
            b < 32 ==> (#[trigger] field_value(field_max(1) << c.spec_bits(), b, 1) == 1 <==> b == c.spec_bits()),
        AdcChannel::Channel0.spec_bits() == 0,
        AdcChannel::Channel1.spec_bits() == 1,
        AdcChannel::Channel2.spec_bits() == 2,
        AdcChannel::Channel3.spec_bits() == 3,
        AdcChannel::Channel4.spec_bits() == 4,
        AdcChannel::Channel5.spec_bits() == 5,
        AdcChannel::Channel6.spec_bits() == 6,
        AdcChannel::Channel7.spec_bits() == 7,
        AdcChannel::Channel8.spec_bits() == 8,
        AdcChannel::Channel9.spec_bits() == 9,
        AdcChannel::Channel11.spec_bits() == 11,
        AdcChannel::Channel12.spec_bits() == 12,
{
    crate::bit::lemma_field_max_values();
    assert forall|c: AdcChannel, b: u32| b < 32 implies (#[trigger] field_value(field_max(1) << c.spec_bits(), b, 1) == 1 <==> b == c.spec_bits()) by {
        let n = c.spec_bits();
        assert(n < 32);
        assert(field_value(1u32 << n, b, 1) == 1 <==> b == n) by (bit_vector)
            requires
                n < 32,
                b < 32,
        ;
    }
}

} // verus!
