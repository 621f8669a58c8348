# py32f030_hal

Register-level driver logic for the PY32F030 microcontroller, verified with Verus.

- `src/` holds the library. Each peripheral's registers are modelled as a plain
  image (a struct of `u32` values, such as `clock::Rcc` or `gpio::GpioRegs`), and
  every operation states exactly how it changes that image. Sequences that wait on
  the hardware between steps (clock bring-up, flash erase, blocking and
  interrupt-driven I2C transfers, SPI transfers)
  are step machines: the caller performs the requested action and hands back what
  the hardware answered.
- `app/` is the hardware side: it loads and stores the register images through
  the peripheral access crate, polls the flags the step machines ask for, runs
  interrupt handlers and provides the embedded-hal and embassy glue.
- `tests/` exercises the library on concrete register values.
