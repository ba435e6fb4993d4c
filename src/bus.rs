//! The two blocking bus primitives that register access is built on, and a
//! wrapper that records the transactions made through them.
//!
//! The traits have the shape of the blocking I2C traits of `embedded-hal`; a
//! bus driver is adapted to them by a thin impl that forwards each call.

use vstd::prelude::*;

verus! {

/// Combined write-then-read in one bus transaction.
pub trait WriteRead {
    /// What the bus reports on failure; handed back to callers unchanged.
    type Error;

    /// Writes `bytes` to the device at `address`, then fills `buffer` from it,
    /// with no other bus operation in between.
    ///
    /// The one promise made of every impl, that `buffer` keeps its length, is
    /// one that Rust itself keeps: a slice cannot be resized through `&mut`.
    fn write_read(&mut self, address: u8, bytes: &[u8], buffer: &mut [u8]) -> (r: Result<
        (),
        Self::Error,
    >)
        ensures
            final(buffer)@.len() == old(buffer)@.len(),
    ;
}

/// Write-only bus transaction.
pub trait Write {
    /// What the bus reports on failure; handed back to callers unchanged.
    type Error;

    /// Writes `bytes` to the device at `address` in one transaction.
    fn write(&mut self, address: u8, bytes: &[u8]) -> (r: Result<(), Self::Error>);
}

/// One combined write-then-read transaction as it was made.
pub struct ReadTransfer<E> {
    /// The device addressed.
    pub device: u8,
    /// The bytes written ahead of the read.
    pub command: Seq<u8>,
    /// The buffer as the bus left it.
    pub reply: Seq<u8>,
    /// What the bus reported.
    pub outcome: Result<(), E>,
}

/// One write transaction as it was made.
pub struct WriteTransfer<E> {
    /// The device addressed.
    pub device: u8,
    /// The bytes written.
    pub bytes: Seq<u8>,
    /// What the bus reported.
    pub outcome: Result<(), E>,
}

/// A bus whose transactions are recorded, in specifications only: what was
/// sent, what came back and what the bus reported, oldest first.
pub struct Recorded<B, E> {
    /// The bus driver itself.
    pub bus: B,
    transfers: Ghost<Seq<ReadTransfer<E>>>,
    writes: Ghost<Seq<WriteTransfer<E>>>,
}

impl<B, E> Recorded<B, E> {
    /// Combined transactions made through this wrapper.
    pub closed spec fn transfers(&self) -> Seq<ReadTransfer<E>> {
        self.transfers@
    }

    /// Write transactions made through this wrapper.
    pub closed spec fn writes(&self) -> Seq<WriteTransfer<E>> {
        self.writes@
    }

    /// Wraps `bus`, with nothing recorded yet.
    pub fn new(bus: B) -> (r: Self)
        ensures
            r.transfers() == Seq::<ReadTransfer<E>>::empty(),
            r.writes() == Seq::<WriteTransfer<E>>::empty(),
    {
        Recorded { bus, transfers: Ghost(Seq::empty()), writes: Ghost(Seq::empty()) }
    }

    /// Makes one combined transaction on the bus and records it.
    pub fn write_read(&mut self, address: u8, bytes: &[u8], buffer: &mut [u8]) -> (r: Result<
        (),
        E,
    >) where B: WriteRead<Error = E>
        ensures
            final(buffer)@.len() == old(buffer)@.len(),
            final(self).writes() == old(self).writes(),
            final(self).transfers() == old(self).transfers().push(
                ReadTransfer { device: address, command: bytes@, reply: final(buffer)@, outcome: r },
            ),
    {
        let r = self.bus.write_read(address, bytes, buffer);
        self.transfers = Ghost(
            self.transfers@.push(
                ReadTransfer { device: address, command: bytes@, reply: buffer@, outcome: r },
            ),
        );
        r
    }

    /// Makes one write transaction on the bus and records it.
    pub fn write(&mut self, address: u8, bytes: &[u8]) -> (r: Result<(), E>) where
        B: Write<Error = E>,
        ensures
            final(self).transfers() == old(self).transfers(),
            final(self).writes() == old(self).writes().push(
                WriteTransfer { device: address, bytes: bytes@, outcome: r },
            ),
    {
        let r = self.bus.write(address, bytes);
        self.writes = Ghost(
            self.writes@.push(WriteTransfer { device: address, bytes: bytes@, outcome: r }),
        );
        r
    }
}

} // verus!
