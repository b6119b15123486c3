//! Verified core of a small USB analog keypad: a debounce engine that turns
//! noisy analog samples into clean button edges, a host-configurable key map
//! with byte-exact serialization and sentinel-based partial updates, a model
//! of the coalescing flash-persistence task, and the USB control handlers.
//!
//! Hardware access (ADC sampling, flash erase/write, USB transport) lives
//! outside this library; every function here is pure logic over plain values.

pub mod buttons;
pub mod config;
pub mod handlers;
pub mod persist;
