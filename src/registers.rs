//! Register descriptors: where a register lives, how wide it is, and what may
//! be done with it; and the bus transactions that reach it.

use vstd::prelude::*;

use crate::bus;

verus! {

/// Highest register address that a descriptor accepts.
pub const MAX_REGISTER_ADDRESS: u64 = 255;

/// What a register allows: never empty.
#[derive(Debug, Clone, Copy, PartialEq, Eq, Structural)]
pub enum Access {
    ReadOnly,
    WriteOnly,
    ReadWrite,
}

impl Access {
    pub open spec fn can_read(self) -> bool {
        self is ReadOnly || self is ReadWrite
    }

    pub open spec fn can_write(self) -> bool {
        self is WriteOnly || self is ReadWrite
    }

    /// The access that allows exactly what the two flags say, if any.
    pub fn from_flags(readable: bool, writable: bool) -> (r: Option<Access>)
        ensures
            r is None <==> !readable && !writable,
            r matches Some(a) ==> a.can_read() == readable && a.can_write() == writable,
    {
        if readable && writable {
            Some(Access::ReadWrite)
        } else if readable {
            Some(Access::ReadOnly)
        } else if writable {
            Some(Access::WriteOnly)
        } else {
            None
        }
    }

    pub fn is_readable(&self) -> (r: bool)
        ensures
            r == self.can_read(),
    {
        !matches!(self, Access::WriteOnly)
    }

    pub fn is_writable(&self) -> (r: bool)
        ensures
            r == self.can_write(),
    {
        !matches!(self, Access::ReadOnly)
    }
}

/// Why a register declaration was refused.
#[derive(Debug, Clone, Copy, PartialEq, Eq, Structural)]
pub enum ConfigError {
    /// The register was declared zero bytes wide.
    ZeroLength,
    /// The register was declared neither readable nor writable.
    NoAccess,
    /// The register address lies above `MAX_REGISTER_ADDRESS`.
    AddressOutOfRange,
}

/// The bytes of a write transaction: the register address, then the raw value.
pub open spec fn write_frame(address: u8, raw: Seq<u8>) -> Seq<u8> {
    seq![address] + raw
}

/// The bytes written ahead of the read in a read transaction.
pub open spec fn read_frame(address: u8) -> Seq<u8> {
    seq![address]
}

/// Describes a generic register.
pub trait Register {
    spec fn spec_address(&self) -> u8;

    spec fn spec_size(&self) -> nat;

    spec fn spec_readable(&self) -> bool;

    spec fn spec_writable(&self) -> bool;

    /// Register address.
    fn address(&self) -> (r: u8)
        ensures
            r == self.spec_address(),
    ;

    /// Register number of bytes.
    fn size(&self) -> (r: usize)
        ensures
            r as nat == self.spec_size(),
    ;

    /// Whether the register may be read.
    fn readable(&self) -> (r: bool)
        ensures
            r == self.spec_readable(),
    ;

    /// Whether the register may be written.
    fn writable(&self) -> (r: bool)
        ensures
            r == self.spec_writable(),
    ;
}

/// A register that can be read over the bus.
pub trait I2cReadRegister: Register {
    /// Reads the register's bytes from the device at `device_address`.
    fn i2c_read<B: bus::WriteRead<Error = E>, E>(
        &self,
        i2c: &mut bus::Recorded<B, E>,
        device_address: u8,
    ) -> (r: Result<Vec<u8>, E>)
        requires
            self.spec_readable(),
        ensures
            ({
                let t = final(i2c).transfers().last();
                &&& final(i2c).transfers() == old(i2c).transfers().push(t)
                &&& t.device == device_address
                &&& t.command == read_frame(self.spec_address())
                &&& t.reply.len() == self.spec_size()
                &&& (r is Ok <==> t.outcome is Ok)
                &&& (r matches Ok(raw) ==> raw@ == t.reply)
                &&& (r matches Err(e) ==> t.outcome == Err::<(), E>(e))
                &&& final(i2c).writes() == old(i2c).writes()
            }),
    ;
}

/// A register that can be written over the bus.
pub trait I2cWriteRegister: Register {
    /// Writes `raw` to the register on the device at `device_address`.
    fn i2c_write<B: bus::Write<Error = E>, E>(
        &self,
        i2c: &mut bus::Recorded<B, E>,
        device_address: u8,
        raw: &[u8],
    ) -> (r: Result<(), E>)
        requires
            self.spec_writable(),
            raw@.len() == self.spec_size(),
        ensures
            final(i2c).transfers() == old(i2c).transfers(),
            final(i2c).writes() == old(i2c).writes().push(
                bus::WriteTransfer {
                    device: device_address,
                    bytes: write_frame(self.spec_address(), raw@),
                    outcome: r,
                },
            ),
    ;
}

/// A validated register declaration. Bus access goes through
/// `ReadOnlyRegister`, `WriteOnlyRegister` and `ReadWriteRegister`, whose types
/// say which operations a register has.
#[derive(Debug, Clone, Copy)]
pub struct RegisterDescriptor {
    address: u8,
    length: usize,
    access: Access,
}

impl RegisterDescriptor {
    /// Every descriptor is at least one byte wide.
    #[verifier::type_invariant]
    pub closed spec fn wf(self) -> bool {
        self.length >= 1
    }

    pub closed spec fn spec_access(self) -> Access {
        self.access
    }

    /// Declares a register at `address`, `length` bytes wide, with the given
    /// capabilities. Checks, in this order, that it has a width, that it
    /// allows something, and that its address is in range.
    pub fn new(address: u64, length: usize, readable: bool, writable: bool) -> (r: Result<
        RegisterDescriptor,
        ConfigError,
    >)
        ensures
            length == 0 ==> r == Err::<RegisterDescriptor, ConfigError>(ConfigError::ZeroLength),
            length > 0 && !readable && !writable ==> r == Err::<RegisterDescriptor, ConfigError>(
                ConfigError::NoAccess,
            ),
            length > 0 && (readable || writable) && address > MAX_REGISTER_ADDRESS ==> r == Err::<
                RegisterDescriptor,
                ConfigError,
            >(ConfigError::AddressOutOfRange),
            r is Ok <==> length > 0 && (readable || writable) && address <= MAX_REGISTER_ADDRESS,
            r matches Ok(d) ==> {
                &&& d.wf()
                &&& d.spec_address() as u64 == address
                &&& d.spec_size() == length as nat
                &&& d.spec_readable() == readable
                &&& d.spec_writable() == writable
            },
    {
        if length == 0 {
            return Err(ConfigError::ZeroLength);
        }
        let access = match Access::from_flags(readable, writable) {
            Some(a) => a,
            None => return Err(ConfigError::NoAccess),
        };
        if address > MAX_REGISTER_ADDRESS {
            return Err(ConfigError::AddressOutOfRange);
        }
        Ok(RegisterDescriptor { address: address as u8, length, access })
    }

    /// The access this register was declared with.
    pub fn access(&self) -> (r: Access)
        ensures
            r == self.spec_access(),
            r.can_read() == self.spec_readable(),
            r.can_write() == self.spec_writable(),
    {
        self.access
    }

    /// The bytes written ahead of the read when this register is read.
    pub fn read_command(&self) -> (r: Vec<u8>)
        ensures
            r@ == read_frame(self.spec_address()),
    {
        let r = vec![self.address];
        proof {
            assert(r@ =~= read_frame(self.address));
        }
        r
    }

    /// A zeroed buffer as wide as the register, for a read to fill.
    pub fn read_buffer(&self) -> (r: Vec<u8>)
        ensures
            r@ == Seq::new(self.spec_size(), |i: int| 0u8),
    {
        let r = vec![0u8; self.length];
        proof {
            assert(r@ =~= Seq::new(self.spec_size(), |i: int| 0u8));
        }
        r
    }

    /// The bytes of the write transaction that puts `raw` in this register.
    pub fn write_payload(&self, raw: &[u8]) -> (r: Vec<u8>)
        requires
            raw@.len() == self.spec_size(),
        ensures
            r@ == write_frame(self.spec_address(), raw@),
    {
        let mut payload: Vec<u8> = Vec::new();
        payload.push(self.address);
        let mut i: usize = 0;
        while i < raw.len()
            invariant
                i <= raw@.len(),
                payload@ == write_frame(self.spec_address(), raw@.subrange(0, i as int)),
            decreases raw@.len() - i,
        {
            payload.push(raw[i]);
            i = i + 1;
            proof {
                assert(payload@ =~= write_frame(self.spec_address(), raw@.subrange(0, i as int)));
            }
        }
        proof {
            assert(raw@.subrange(0, raw@.len() as int) =~= raw@);
        }
        payload
    }
}

impl Register for RegisterDescriptor {
    closed spec fn spec_address(&self) -> u8 {
        self.address
    }

    closed spec fn spec_size(&self) -> nat {
        self.length as nat
    }

    closed spec fn spec_readable(&self) -> bool {
        self.access.can_read()
    }

    closed spec fn spec_writable(&self) -> bool {
        self.access.can_write()
    }

    fn address(&self) -> (r: u8) {
        self.address
    }

    fn size(&self) -> (r: usize) {
        self.length
    }

    fn readable(&self) -> (r: bool) {
        self.access.is_readable()
    }

    fn writable(&self) -> (r: bool) {
        self.access.is_writable()
    }
}

impl RegisterDescriptor {
    /// One combined transaction that writes the register address to the
    /// device and reads the register's bytes back.
    pub(crate) fn read_transaction<B: bus::WriteRead<Error = E>, E>(
        &self,
        i2c: &mut bus::Recorded<B, E>,
        device_address: u8,
    ) -> (r: Result<Vec<u8>, E>)
        ensures
            ({
                let t = final(i2c).transfers().last();
                &&& final(i2c).transfers() == old(i2c).transfers().push(t)
                &&& t.device == device_address
                &&& t.command == read_frame(self.spec_address())
                &&& t.reply.len() == self.spec_size()
                &&& (r is Ok <==> t.outcome is Ok)
                &&& (r matches Ok(raw) ==> raw@ == t.reply)
                &&& (r matches Err(e) ==> t.outcome == Err::<(), E>(e))
                &&& final(i2c).writes() == old(i2c).writes()
            }),
    {
        let command = self.read_command();
        let mut buffer = self.read_buffer();
        match i2c.write_read(device_address, command.as_slice(), buffer.as_mut_slice()) {
            Ok(()) => Ok(buffer),
            Err(e) => Err(e),
        }
    }

    /// One write transaction of the register address followed by `raw`.
    pub(crate) fn write_transaction<B: bus::Write<Error = E>, E>(
        &self,
        i2c: &mut bus::Recorded<B, E>,
        device_address: u8,
        raw: &[u8],
    ) -> (r: Result<(), E>)
        requires
            raw@.len() == self.spec_size(),
        ensures
            final(i2c).transfers() == old(i2c).transfers(),
            final(i2c).writes() == old(i2c).writes().push(
                bus::WriteTransfer {
                    device: device_address,
                    bytes: write_frame(self.spec_address(), raw@),
                    outcome: r,
                },
            ),
    {
        let payload = self.write_payload(raw);
        i2c.write(device_address, payload.as_slice())
    }
}

/// A register that can only be read: it has no write operation.
#[derive(Debug, Clone, Copy)]
pub struct ReadOnlyRegister {
    descriptor: RegisterDescriptor,
}

impl ReadOnlyRegister {
    #[verifier::type_invariant]
    pub closed spec fn wf(self) -> bool {
        self.descriptor.spec_access() == Access::ReadOnly
    }

    /// Declares the register; fails as `RegisterDescriptor::new` does.
    pub fn new(address: u64, length: usize) -> (r: Result<ReadOnlyRegister, ConfigError>)
        ensures
            length == 0 ==> r == Err::<ReadOnlyRegister, ConfigError>(ConfigError::ZeroLength),
            length > 0 && address > MAX_REGISTER_ADDRESS ==> r == Err::<ReadOnlyRegister, ConfigError>(
                ConfigError::AddressOutOfRange,
            ),
            r is Ok <==> length > 0 && address <= MAX_REGISTER_ADDRESS,
            r matches Ok(g) ==> {
                &&& g.spec_address() as u64 == address
                &&& g.spec_size() == length as nat
                &&& g.spec_readable() == true
                &&& g.spec_writable() == false
            },
    {
        match RegisterDescriptor::new(address, length, true, false) {
            Ok(descriptor) => Ok(ReadOnlyRegister { descriptor }),
            Err(e) => Err(e),
        }
    }

    /// The descriptor this register was declared with.
    pub fn descriptor(&self) -> (r: RegisterDescriptor)
        ensures
            r.spec_address() == self.spec_address(),
            r.spec_size() == self.spec_size(),
            r.spec_readable() == self.spec_readable(),
            r.spec_writable() == self.spec_writable(),
    {
        proof {
            use_type_invariant(self);
        }
        self.descriptor
    }
}

impl Register for ReadOnlyRegister {
    closed spec fn spec_address(&self) -> u8 {
        self.descriptor.spec_address()
    }

    closed spec fn spec_size(&self) -> nat {
        self.descriptor.spec_size()
    }

    closed spec fn spec_readable(&self) -> bool {
        true
    }

    closed spec fn spec_writable(&self) -> bool {
        false
    }

    fn address(&self) -> (r: u8) {
        self.descriptor.address()
    }

    fn size(&self) -> (r: usize) {
        self.descriptor.size()
    }

    fn readable(&self) -> (r: bool) {
        proof {
            use_type_invariant(self);
        }
        self.descriptor.readable()
    }

    fn writable(&self) -> (r: bool) {
        proof {
            use_type_invariant(self);
        }
        self.descriptor.writable()
    }
}

impl I2cReadRegister for ReadOnlyRegister {
    fn i2c_read<B: bus::WriteRead<Error = E>, E>(
        &self,
        i2c: &mut bus::Recorded<B, E>,
        device_address: u8,
    ) -> (r: Result<Vec<u8>, E>) {
        self.descriptor.read_transaction(i2c, device_address)
    }
}

/// A register that can only be written: it has no read operation.
#[derive(Debug, Clone, Copy)]
pub struct WriteOnlyRegister {
    descriptor: RegisterDescriptor,
}

impl WriteOnlyRegister {
    #[verifier::type_invariant]
    pub closed spec fn wf(self) -> bool {
        self.descriptor.spec_access() == Access::WriteOnly
    }

    /// Declares the register; fails as `RegisterDescriptor::new` does.
    pub fn new(address: u64, length: usize) -> (r: Result<WriteOnlyRegister, ConfigError>)
        ensures
            length == 0 ==> r == Err::<WriteOnlyRegister, ConfigError>(ConfigError::ZeroLength),
            length > 0 && address > MAX_REGISTER_ADDRESS ==> r == Err::<WriteOnlyRegister, ConfigError>(
                ConfigError::AddressOutOfRange,
            ),
            r is Ok <==> length > 0 && address <= MAX_REGISTER_ADDRESS,
            r matches Ok(g) ==> {
                &&& g.spec_address() as u64 == address
                &&& g.spec_size() == length as nat
                &&& g.spec_readable() == false
                &&& g.spec_writable() == true
            },
    {
        match RegisterDescriptor::new(address, length, false, true) {
            Ok(descriptor) => Ok(WriteOnlyRegister { descriptor }),
            Err(e) => Err(e),
        }
    }

    /// The descriptor this register was declared with.
    pub fn descriptor(&self) -> (r: RegisterDescriptor)
        ensures
            r.spec_address() == self.spec_address(),
            r.spec_size() == self.spec_size(),
            r.spec_readable() == self.spec_readable(),
            r.spec_writable() == self.spec_writable(),
    {
        proof {
            use_type_invariant(self);
        }
        self.descriptor
    }
}

impl Register for WriteOnlyRegister {
    closed spec fn spec_address(&self) -> u8 {
        self.descriptor.spec_address()
    }

    closed spec fn spec_size(&self) -> nat {
        self.descriptor.spec_size()
    }

    closed spec fn spec_readable(&self) -> bool {
        false
    }

    closed spec fn spec_writable(&self) -> bool {
        true
    }

    fn address(&self) -> (r: u8) {
        self.descriptor.address()
    }

    fn size(&self) -> (r: usize) {
        self.descriptor.size()
    }

    fn readable(&self) -> (r: bool) {
        proof {
            use_type_invariant(self);
        }
        self.descriptor.readable()
    }

    fn writable(&self) -> (r: bool) {
        proof {
            use_type_invariant(self);
        }
        self.descriptor.writable()
    }
}

impl I2cWriteRegister for WriteOnlyRegister {
    fn i2c_write<B: bus::Write<Error = E>, E>(
        &self,
        i2c: &mut bus::Recorded<B, E>,
        device_address: u8,
        raw: &[u8],
    ) -> (r: Result<(), E>) {
        self.descriptor.write_transaction(i2c, device_address, raw)
    }
}

/// A register that can be both read and written, at the same address and width.
#[derive(Debug, Clone, Copy)]
pub struct ReadWriteRegister {
    descriptor: RegisterDescriptor,
}

impl ReadWriteRegister {
    #[verifier::type_invariant]
    pub closed spec fn wf(self) -> bool {
        self.descriptor.spec_access() == Access::ReadWrite
    }

    /// Declares the register; fails as `RegisterDescriptor::new` does.
    pub fn new(address: u64, length: usize) -> (r: Result<ReadWriteRegister, ConfigError>)
        ensures
            length == 0 ==> r == Err::<ReadWriteRegister, ConfigError>(ConfigError::ZeroLength),
            length > 0 && address > MAX_REGISTER_ADDRESS ==> r == Err::<ReadWriteRegister, ConfigError>(
                ConfigError::AddressOutOfRange,
            ),
            r is Ok <==> length > 0 && address <= MAX_REGISTER_ADDRESS,
            r matches Ok(g) ==> {
                &&& g.spec_address() as u64 == address
                &&& g.spec_size() == length as nat
                &&& g.spec_readable() == true
                &&& g.spec_writable() == true
            },
    {
        match RegisterDescriptor::new(address, length, true, true) {
            Ok(descriptor) => Ok(ReadWriteRegister { descriptor }),
            Err(e) => Err(e),
        }
    }

    /// The descriptor this register was declared with.
    pub fn descriptor(&self) -> (r: RegisterDescriptor)
        ensures
            r.spec_address() == self.spec_address(),
            r.spec_size() == self.spec_size(),
            r.spec_readable() == self.spec_readable(),
            r.spec_writable() == self.spec_writable(),
    {
        proof {
            use_type_invariant(self);
        }
        self.descriptor
    }
}

impl Register for ReadWriteRegister {
    closed spec fn spec_address(&self) -> u8 {
        self.descriptor.spec_address()
    }

    closed spec fn spec_size(&self) -> nat {
        self.descriptor.spec_size()
    }

    closed spec fn spec_readable(&self) -> bool {
        true
    }

    closed spec fn spec_writable(&self) -> bool {
        true
    }

    fn address(&self) -> (r: u8) {
        self.descriptor.address()
    }

    fn size(&self) -> (r: usize) {
        self.descriptor.size()
    }

    fn readable(&self) -> (r: bool) {
        proof {
            use_type_invariant(self);
        }
        self.descriptor.readable()
    }

    fn writable(&self) -> (r: bool) {
        proof {
            use_type_invariant(self);
        }
        self.descriptor.writable()
    }
}

impl I2cReadRegister for ReadWriteRegister {
    fn i2c_read<B: bus::WriteRead<Error = E>, E>(
        &self,
        i2c: &mut bus::Recorded<B, E>,
        device_address: u8,
    ) -> (r: Result<Vec<u8>, E>) {
        self.descriptor.read_transaction(i2c, device_address)
    }
}

impl I2cWriteRegister for ReadWriteRegister {
    fn i2c_write<B: bus::Write<Error = E>, E>(
        &self,
        i2c: &mut bus::Recorded<B, E>,
        device_address: u8,
        raw: &[u8],
    ) -> (r: Result<(), E>) {
        self.descriptor.write_transaction(i2c, device_address, raw)
    }
}

} // verus!
