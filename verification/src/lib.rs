//! The logic of a set of embedded Rust demos: an LED that blinks at a rate
//! set by a light sensor, a light monitor that shows its readings on a
//! small OLED screen, and a web page served over Wi-Fi that reports them.
//!
//! Everything that touches hardware (pins, the ADC, the I2C display, the
//! Wi-Fi radio, the HTTP server) stays outside this crate; the crate decides
//! what to show, what to serve, how long to wait and when to give up.

pub mod blink;
pub mod decimal;
pub mod monitor;
pub mod web;
pub mod wifi;
