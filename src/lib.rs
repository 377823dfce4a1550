//! Telemetry publishing for a robot: synchronisation counters (video frame
//! number, video timestamp, inference step) stamped onto every outgoing event,
//! which is then sent to an MQTT broker under `robots/<robot id>/<topic>`.

pub mod config;
pub mod message;
pub mod telemetry;
