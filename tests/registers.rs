use i2c_reg::bus::{Recorded, Write, WriteRead};
use i2c_reg::i2c_interface::decode_reply;
use i2c_reg::registers::MAX_REGISTER_ADDRESS;
use i2c_reg::{
    Access, Address, ConfigError, I2cInterface, I2cReadRegister, I2cWriteRegister,
    ReadOnlyRegister, ReadWriteRegister, Register, RegisterDescriptor, RegisterValue,
    WriteOnlyRegister,
};

/// A device that keeps, per register address, the bytes last written after
/// it, and records every transaction it sees.
struct Loopback {
    cells: Vec<Vec<u8>>,
    writes: Vec<(u8, Vec<u8>)>,
    reads: Vec<(u8, Vec<u8>, usize)>,
}

impl Loopback {
    fn new() -> Self {
        Loopback { cells: vec![Vec::new(); 256], writes: Vec::new(), reads: Vec::new() }
    }
}

impl WriteRead for Loopback {
    type Error = ();

    fn write_read(&mut self, address: u8, bytes: &[u8], buffer: &mut [u8]) -> Result<(), ()> {
        self.reads.push((address, bytes.to_vec(), buffer.len()));
        let stored = &self.cells[bytes[0] as usize];
        for (i, b) in buffer.iter_mut().enumerate() {
            *b = stored.get(i).copied().unwrap_or(0);
        }
        Ok(())
    }
}

impl Write for Loopback {
    type Error = ();

    fn write(&mut self, address: u8, bytes: &[u8]) -> Result<(), ()> {
        self.writes.push((address, bytes.to_vec()));
        self.cells[bytes[0] as usize] = bytes[1..].to_vec();
        Ok(())
    }
}

/// A bus on which every transaction is refused.
struct Nack;

impl WriteRead for Nack {
    type Error = &'static str;

    fn write_read(&mut self, _: u8, _: &[u8], _: &mut [u8]) -> Result<(), &'static str> {
        Err("nack")
    }
}

impl Write for Nack {
    type Error = &'static str;

    fn write(&mut self, _: u8, _: &[u8]) -> Result<(), &'static str> {
        Err("nack")
    }
}

fn rw(address: u64, length: usize) -> ReadWriteRegister {
    ReadWriteRegister::new(address, length).unwrap()
}

#[test]
fn new_rejects_zero_length() {
    assert_eq!(RegisterDescriptor::new(3, 0, true, true).unwrap_err(), ConfigError::ZeroLength);
    assert_eq!(RegisterDescriptor::new(3, 0, true, false).unwrap_err(), ConfigError::ZeroLength);
}

#[test]
fn new_rejects_empty_capabilities() {
    assert_eq!(RegisterDescriptor::new(3, 2, false, false).unwrap_err(), ConfigError::NoAccess);
}

#[test]
fn new_rejects_address_out_of_range() {
    assert_eq!(
        RegisterDescriptor::new(256, 1, true, false).unwrap_err(),
        ConfigError::AddressOutOfRange
    );
    assert_eq!(
        RegisterDescriptor::new(u64::MAX, 1, false, true).unwrap_err(),
        ConfigError::AddressOutOfRange
    );
}

#[test]
fn new_checks_length_first_then_access() {
    assert_eq!(RegisterDescriptor::new(300, 0, false, false).unwrap_err(), ConfigError::ZeroLength);
    assert_eq!(RegisterDescriptor::new(300, 1, false, false).unwrap_err(), ConfigError::NoAccess);
}

#[test]
fn new_accepts_highest_address() {
    let d = RegisterDescriptor::new(MAX_REGISTER_ADDRESS, 1, true, false).unwrap();
    assert_eq!(d.address(), 255);
    assert_eq!(d.size(), 1);
}

#[test]
fn descriptor_keeps_declared_metadata() {
    let d = RegisterDescriptor::new(0b0111, 6, true, true).unwrap();
    assert_eq!(d.address(), 0b0111);
    assert_eq!(d.size(), 6);
    assert_eq!(d.access(), Access::ReadWrite);
    assert!(d.readable() && d.writable());
    let r = RegisterDescriptor::new(1, 2, true, false).unwrap();
    assert_eq!(r.access(), Access::ReadOnly);
    let w = RegisterDescriptor::new(1, 2, false, true).unwrap();
    assert_eq!(w.access(), Access::WriteOnly);
}

#[test]
fn access_flags() {
    assert_eq!(Access::from_flags(true, true), Some(Access::ReadWrite));
    assert_eq!(Access::from_flags(true, false), Some(Access::ReadOnly));
    assert_eq!(Access::from_flags(false, true), Some(Access::WriteOnly));
    assert_eq!(Access::from_flags(false, false), None);
    assert!(Access::ReadOnly.is_readable() && !Access::ReadOnly.is_writable());
    assert!(!Access::WriteOnly.is_readable() && Access::WriteOnly.is_writable());
    assert!(Access::ReadWrite.is_readable() && Access::ReadWrite.is_writable());
}

#[test]
fn write_payload_puts_address_first() {
    let d = RegisterDescriptor::new(0x2a, 3, false, true).unwrap();
    assert_eq!(d.write_payload(&[7, 8, 9]), vec![0x2a, 7, 8, 9]);
}

#[test]
fn read_command_and_buffer() {
    let d = RegisterDescriptor::new(0x13, 5, true, false).unwrap();
    assert_eq!(d.read_command(), vec![0x13]);
    assert_eq!(d.read_buffer(), vec![0u8; 5]);
}

#[test]
fn write_then_read_four_byte_register() {
    let d = ReadWriteRegister::new(0b1110, 4).unwrap();
    let mut interface = I2cInterface { i2c: Recorded::new(Loopback::new()), address: 0b0110 };
    interface.write_register(d, 0x89ABCDEFu32).unwrap();
    assert_eq!(interface.i2c.bus.writes, vec![(0b0110, vec![14, 0x89, 0xAB, 0xCD, 0xEF])]);
    let value: u32 = interface.read_register(d).unwrap();
    assert_eq!(value, 0x89ABCDEF);
    assert_eq!(interface.i2c.bus.reads, vec![(0b0110, vec![14], 4)]);
}

#[test]
fn read_decodes_big_endian_bytes() {
    let d = ReadOnlyRegister::new(14, 4).unwrap();
    let mut bus = Loopback::new();
    bus.cells[14] = vec![0x89, 0xAB, 0xCD, 0xEF];
    let mut interface = I2cInterface { i2c: Recorded::new(bus), address: 0x50 };
    let value: u32 = interface.read_register(d).unwrap();
    assert_eq!(value, 0x89ABCDEF);
}

#[test]
fn read_only_register_requests_six_bytes() {
    let d = ReadOnlyRegister::new(0b1101, 6).unwrap();
    assert!(d.readable() && !d.writable());
    let mut bus = Loopback::new();
    bus.cells[13] = vec![1, 2, 3, 4, 5, 6];
    let mut interface = I2cInterface { i2c: Recorded::new(bus), address: 0x21 };
    let raw: [u8; 6] = interface.read_register(d).unwrap();
    assert_eq!(raw, [1, 2, 3, 4, 5, 6]);
    assert_eq!(interface.i2c.bus.reads, vec![(0x21, vec![13], 6)]);
    assert!(interface.i2c.bus.writes.is_empty());
}

#[test]
fn round_trip_each_width() {
    let mut interface = I2cInterface { i2c: Recorded::new(Loopback::new()), address: 9 };
    interface.write_register(rw(1, 1), 0xA5u8).unwrap();
    interface.write_register(rw(2, 2), 0xBEEFu16).unwrap();
    interface.write_register(rw(3, 8), 0x0123_4567_89AB_CDEFu64).unwrap();
    interface.write_register(rw(4, 3), [42u8, 0, 255]).unwrap();
    assert_eq!(interface.read_register::<_, u8>(rw(1, 1)), Ok(0xA5));
    assert_eq!(interface.read_register::<_, u16>(rw(2, 2)), Ok(0xBEEF));
    assert_eq!(interface.read_register::<_, u64>(rw(3, 8)), Ok(0x0123_4567_89AB_CDEF));
    assert_eq!(interface.read_register::<_, [u8; 3]>(rw(4, 3)), Ok([42, 0, 255]));
}

#[test]
fn bus_errors_pass_through() {
    let mut interface = I2cInterface { i2c: Recorded::new(Nack), address: 1 };
    assert_eq!(interface.read_register::<_, u32>(rw(0, 4)), Err("nack"));
    assert_eq!(interface.write_register(rw(0, 4), 5u32), Err("nack"));
}

#[test]
fn register_operations_use_the_device_address() {
    let d = rw(7, 2);
    let mut bus = Recorded::new(Loopback::new());
    d.i2c_write(&mut bus, 0x68, &[0xAB, 0xCD]).unwrap();
    assert_eq!(bus.bus.writes, vec![(0x68, vec![7, 0xAB, 0xCD])]);
    assert_eq!(d.i2c_read(&mut bus, 0x69), Ok(vec![0xAB, 0xCD]));
    assert_eq!(bus.bus.reads, vec![(0x69, vec![7], 2)]);
}

#[test]
fn decode_reply_maps_success_and_keeps_errors() {
    assert_eq!(decode_reply::<u16, ()>(Ok(vec![0x12, 0x34])), Ok(0x1234));
    assert_eq!(decode_reply::<u16, u8>(Err(3)), Err(3));
}

#[test]
fn integer_encodings_are_big_endian() {
    assert_eq!(0x7Fu8.to_raw(), vec![0x7F]);
    assert_eq!(0x1234u16.to_raw(), vec![0x12, 0x34]);
    assert_eq!(0x89ABCDEFu32.to_raw(), vec![0x89, 0xAB, 0xCD, 0xEF]);
    assert_eq!(0x0102030405060708u64.to_raw(), vec![1, 2, 3, 4, 5, 6, 7, 8]);
    assert_eq!(u32::from_raw(&[0x89, 0xAB, 0xCD, 0xEF]), 0x89ABCDEF);
    assert_eq!(u64::from_raw(&[1, 2, 3, 4, 5, 6, 7, 8]), 0x0102030405060708);
    assert_eq!(u16::from_raw(&[0xFF, 0x01]), 0xFF01);
    assert_eq!(<[u8; 2]>::from_raw(&[9, 8]), [9, 8]);
    assert_eq!(<u64 as RegisterValue>::raw_length(), 8);
    assert_eq!(<[u8; 6] as RegisterValue>::raw_length(), 6);
}

#[test]
fn address_converts_to_byte() {
    let a = Address(0x3C);
    assert_eq!(u8::from(a), 0x3C);
    assert!(Address(1) < Address(2));
}

#[test]
fn typed_registers_validate_like_descriptors() {
    assert_eq!(ReadOnlyRegister::new(1, 0).unwrap_err(), ConfigError::ZeroLength);
    assert_eq!(WriteOnlyRegister::new(300, 1).unwrap_err(), ConfigError::AddressOutOfRange);
    assert_eq!(ReadWriteRegister::new(256, 0).unwrap_err(), ConfigError::ZeroLength);
    let w = WriteOnlyRegister::new(0b0011, 1).unwrap();
    assert_eq!((w.address(), w.size(), w.readable(), w.writable()), (3, 1, false, true));
    assert_eq!(w.descriptor().access(), Access::WriteOnly);
    let r = ReadOnlyRegister::new(0b1_0011, 4).unwrap();
    assert_eq!((r.address(), r.size(), r.readable(), r.writable()), (19, 4, true, false));
    assert_eq!(r.descriptor().access(), Access::ReadOnly);
    assert_eq!(rw(7, 2).descriptor().access(), Access::ReadWrite);
}

#[test]
fn write_only_register_sends_one_write() {
    let w = WriteOnlyRegister::new(0b0011, 1).unwrap();
    let mut interface = I2cInterface { i2c: Recorded::new(Loopback::new()), address: 0b10_1010 };
    interface.write_register(w, [42u8]).unwrap();
    assert_eq!(interface.i2c.bus.writes, vec![(0b10_1010, vec![3, 42])]);
    assert!(interface.i2c.bus.reads.is_empty());
}

#[test]
fn read_returns_the_buffer_as_the_bus_left_it() {
    let r = ReadOnlyRegister::new(0b1_0011, 4).unwrap();
    let mut interface = I2cInterface { i2c: Recorded::new(Loopback::new()), address: 0b0110 };
    let raw: [u8; 4] = interface.read_register(r).unwrap();
    assert_eq!(raw, [0, 0, 0, 0]);
    assert_eq!(interface.i2c.bus.reads, vec![(0b0110, vec![19], 4)]);
}
