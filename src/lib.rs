//! Master-mode driver logic for an I2C bus controller: timing derivation,
//! status classification with bounded waits, and transaction sequencing.
pub mod timing;
pub mod status;
pub mod transfer;
pub mod driver;
pub mod engine;
