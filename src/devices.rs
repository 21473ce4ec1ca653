//! The terminals that the bus engine drives.
pub mod cia402;
pub mod device_trait;
pub mod el1xxx;
pub mod el3356;
pub mod i550;
