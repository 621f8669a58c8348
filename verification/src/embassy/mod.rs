//! Time base for an async executor, driven by the SysTick timer.
pub mod time_driver_systick;
