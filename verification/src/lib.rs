//! Register-level driver logic for the PY32F030 microcontroller.

pub mod bit;
pub mod common;
pub mod clock;
pub mod config;
pub mod mode;
pub mod gpio;
pub mod iwdg;
pub mod rtc;
pub mod exti;
pub mod dma;
pub mod pwr;
pub mod syscfg;
pub mod spi;
pub mod adc;
pub mod i2c;
pub mod delay;
pub mod interrupt;
pub mod flash;
pub mod rcc;
pub mod embassy;
pub mod dwt;
