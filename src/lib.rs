//! Monitoring of a Bluetooth LE heart-rate sensor: decoding of its
//! measurement notifications, a single-slot broadcaster of the latest
//! reading, and the state machine that acquires the sensor and keeps its
//! notification stream flowing.

pub mod acquisition;
pub mod broadcast;
pub mod measurement;
