//! Power management types shared by the services.

pub mod policy;
