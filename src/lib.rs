//! Verified connection-lifecycle logic for a wireless network management
//! bridge, with the sensor and control-loop rules of the device around it.

pub mod model;
pub mod manager;
pub mod connect;
pub mod gate;
pub mod wait;
pub mod util;
pub mod sensors;
pub mod control;
pub mod service;
