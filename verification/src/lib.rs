//! Concurrency and peripheral-ownership core of a small interrupt-driven
//! firmware: a cooperative scheduler over a fixed task set, periodic digital
//! output tasks, an analog sampling task with reference-voltage calibration,
//! and an input-capture task with overwrite semantics.

pub mod adc;
pub mod blink;
pub mod capture;
pub mod convert;
pub mod firmware;
pub mod handles;
pub mod scheduler;
pub mod timeline;
