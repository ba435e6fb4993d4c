//! The device facade: one bus and one device address, and typed register
//! reads and writes on them.

use vstd::prelude::*;

use crate::bus;
use crate::registers::{read_frame, write_frame, I2cReadRegister, I2cWriteRegister, Register};
use crate::value::RegisterValue;

verus! {

/// The value that the outcome of a register read stands for: the bytes
/// decoded on success, the bus error unchanged on failure.
pub fn decode_reply<V: RegisterValue, E>(outcome: Result<Vec<u8>, E>) -> (r: Result<V, E>)
    requires
        outcome matches Ok(raw) ==> raw@.len() == V::raw_len(),
    ensures
        outcome matches Ok(raw) ==> r == Ok::<V, E>(V::decode(raw@)),
        outcome matches Err(e) ==> r == Err::<V, E>(e),
{
    match outcome {
        Ok(raw) => Ok(V::from_raw(raw.as_slice())),
        Err(e) => Err(e),
    }
}

/// Register access to one device.
#[derive(Debug)]
pub struct I2cInterface<I2C> {
    /// Slave device I2C
    pub i2c: I2C,
    /// Slave device address
    pub address: u8,
}

impl<B, E> I2cInterface<bus::Recorded<B, E>> {
    /// Reads the register's bytes in one combined transaction and decodes
    /// them; a bus error is returned as it came. The transaction writes the
    /// register address to the device and reads as many bytes as the
    /// register is wide.
    pub fn read_register<R: I2cReadRegister, V: RegisterValue>(&mut self, register: R) -> (r:
        Result<V, E>) where B: bus::WriteRead<Error = E>
        requires
            register.spec_readable(),
            register.spec_size() == V::raw_len(),
        ensures
            final(self).address == old(self).address,
            ({
                let t = final(self).i2c.transfers().last();
                &&& final(self).i2c.transfers() == old(self).i2c.transfers().push(t)
                &&& t.device == old(self).address
                &&& t.command == read_frame(register.spec_address())
                &&& t.reply.len() == register.spec_size()
                &&& (t.outcome is Ok ==> r == Ok::<V, E>(V::decode(t.reply)))
                &&& (t.outcome matches Err(e) ==> r == Err::<V, E>(e))
                &&& final(self).i2c.writes() == old(self).i2c.writes()
            }),
    {
        let outcome = register.i2c_read(&mut self.i2c, self.address);
        decode_reply(outcome)
    }

    /// Encodes `value` and writes it to the register in one transaction of
    /// the register address followed by the encoded bytes; what the bus
    /// reports is returned as it came.
    pub fn write_register<R: I2cWriteRegister, V: RegisterValue>(
        &mut self,
        register: R,
        value: V,
    ) -> (r: Result<(), E>) where B: bus::Write<Error = E>
        requires
            register.spec_writable(),
            register.spec_size() == V::raw_len(),
        ensures
            final(self).address == old(self).address,
            final(self).i2c.transfers() == old(self).i2c.transfers(),
            final(self).i2c.writes() == old(self).i2c.writes().push(
                bus::WriteTransfer {
                    device: old(self).address,
                    bytes: write_frame(register.spec_address(), value.encode()),
                    outcome: r,
                },
            ),
    {
        let raw = value.to_raw();
        register.i2c_write(&mut self.i2c, self.address, raw.as_slice())
    }
}

} // verus!
