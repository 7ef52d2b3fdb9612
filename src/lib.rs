//! Verified core of an I2C pass-through test jig: the wire types shared by
//! host and device, the host-side bus façade logic, the device-side request
//! dispatcher, and the keypad keystroke decoder.

pub mod device;
pub mod facade;
pub mod icd;
pub mod ident;
pub mod keys;
pub mod pool;
