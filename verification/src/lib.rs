//! A contract for a device acting as an I2C bus slave.
//!
//! The device waits for a bus master to address it, classifies the master's
//! intent into a [`Request`], and then serves exactly one matching response
//! call, whose outcome is reported as a [`Status`]. The [`I2cSlave`] trait
//! states the protocol as a verified contract, a borrowed handle to any
//! conforming device conforms to it too, and [`sim`] provides a scripted
//! bus backend against which the contract is provable and testable.

pub mod i2c_slave;
pub mod laws;
pub mod sim;

pub use i2c_slave::I2cSlave;
pub use i2c_slave::Request;
pub use i2c_slave::Status;
