//! Register-level driver logic for the ADP5360 power-management IC.
//!
//! The driver decides which bus transaction each operation takes and what a
//! read returns from the transport's outcome; issuing the transactions on an
//! I2C bus is left to the caller.

mod charger;
mod device;
pub mod laws;
mod register;
mod transaction;

pub use charger::ChargerFunctionSetting;
pub use device::ADP5360;
pub use register::Register;
pub use transaction::{read_result, Transaction};
