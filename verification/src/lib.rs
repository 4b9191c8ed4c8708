//! Driver for an infrared thermometer reachable over a shared two-wire bus.
//!
//! The crate is organised around a register-access protocol: every register
//! read or write carries an 8-bit cyclic-redundancy code, reads are verified
//! against it and writes append it, and non-volatile registers are written
//! through a two-phase erase/program sequence.  The bus and the blocking
//! delay are collaborators supplied by the caller through the [`bus::I2cBus`]
//! and [`bus::Delayer`] traits; their contracts are stated over a ghost log
//! of transactions, so every driver operation's postcondition pins down the
//! exact byte traffic it produced.

pub mod bus;
pub mod checksum;
pub mod device;
pub mod mock;
pub mod protocol;

pub use bus::Delayer;
pub use bus::I2cBus;
pub use bus::Transaction;
pub use checksum::crc8;
pub use device::validate_address;
pub use device::Error;
pub use device::Mlx90614;
pub use device::DEFAULT_ADDRESS;
pub use mock::MockBus;
pub use mock::MockBusError;
pub use mock::MockDelay;
pub use mock::RecordedTxn;
