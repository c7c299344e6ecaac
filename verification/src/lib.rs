//! Type-C port management and supporting services for an embedded controller.
//!
//! The crate holds the decision logic of the services: every function here is
//! synchronous and takes the results of hardware or channel operations as plain
//! values, so that an executor can run the I/O around it.

pub mod bits;
pub mod espi;
pub mod hid;
pub mod oem;
pub mod power;
pub mod power_button;
pub mod time_alarm;
pub mod type_c;
