//! Core logic of a thermistor telemetry node: the hysteresis gate that decides
//! when a reading is reported, the waveform encoder for the status LED, the
//! threshold store and the per-tick decisions of the sampling loop.

pub mod config;
pub mod led;
pub mod mqtt;
pub mod sampling;
pub mod threshold;
pub mod wifi;
