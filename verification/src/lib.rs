//! Verified core of a suite of environmental-sensor applications: the
//! streaming frame decoder and air-quality classifier of a multi-gas serial
//! sensor, and the bookkeeping of a typed publish/subscribe event bus.

pub mod aqi;
pub mod checksum;
pub mod decoder;
pub mod frame_buffer;
pub mod gui;
pub mod measurement;
pub mod monitor;
pub mod nicla_sense_env;
pub mod power;
pub mod pubsub;
pub mod sgp30;
pub mod stream;
