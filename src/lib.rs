//! Typed access to the registers of a device on a byte-oriented bus: a
//! register is declared once by address, width and access, and reading or
//! writing it frames the bus transaction and converts between raw bytes and
//! values.

pub mod address;
pub mod bus;
pub mod i2c_interface;
pub mod laws;
pub mod registers;
pub mod value;

pub use address::Address;
pub use i2c_interface::I2cInterface;
pub use registers::{
    Access, ConfigError, I2cReadRegister, I2cWriteRegister, ReadOnlyRegister, ReadWriteRegister,
    Register, RegisterDescriptor, WriteOnlyRegister,
};
pub use value::RegisterValue;
