//! Verified core of an embedded pub/sub device controller: command decoding,
//! device state transitions, telemetry queueing and formatting, the sensor
//! polling cycle, the wireless session state machine, and the thermostat
//! schedule engine.  Hardware access, async plumbing and the transport itself
//! live outside this crate and drive these components with plain values.

pub mod controller;
pub mod kalval;
pub mod network;
pub mod relay;
pub mod schedule;
pub mod sensor;
pub mod telemetry;
pub mod togglable;
