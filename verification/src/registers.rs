//! The addressable registers of the sensor device: the raw register
//! primitive and the typed views of the individual registers.

pub mod device_id;
pub mod manuf_id;
pub mod register;
pub mod resolution;
pub mod temperature;
