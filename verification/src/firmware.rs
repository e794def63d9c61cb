//! The board-side decisions of the firmware: brightness handling for the
//! USB HID interfaces, backlight duty, brightness persistence, PSU
//! telemetry sampling and the fan's tachometer. The tasks that run them on
//! the hardware hand in what they read and carry out what comes back.

pub mod fan;
pub mod hid;
pub mod neopixel;
pub mod pwm;
pub mod smbus;
pub mod storage;
