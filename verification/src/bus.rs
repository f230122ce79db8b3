//! The two-wire bus transport the driver runs on, and the byte-level model of
//! its transactions.
//!
//! The driver never touches a bus directly: it goes through [`I2cBus`], whose
//! contract maintains a ghost log of the transactions performed so far. Every
//! register-level guarantee of the driver is stated over that log, so a
//! caller can tell, from the contracts alone, exactly which bytes each
//! operation puts on the wire.

use vstd::prelude::*;

verus! {

/// One completed bus transaction, as the driver's contracts see it.
pub enum Transaction {
    /// A plain write: the device address, then the bytes sent.
    Write { device: u8, bytes: Seq<u8> },
    /// A write of command bytes followed by a read, without a stop condition
    /// in between: the device address, the command bytes sent, and the bytes
    /// received.
    WriteRead { device: u8, command: Seq<u8>, response: Seq<u8> },
}

/// The two big-endian bytes of a 16-bit register value.
pub open spec fn be_bytes(value: u16) -> Seq<u8> {
    seq![(value >> 8) as u8, (value & 0xFF) as u8]
}

/// The 16-bit register value composed from its two big-endian bytes.
pub open spec fn be_value(high: u8, low: u8) -> u16 {
    ((high as u16) << 8) | (low as u16)
}

/// The transaction that writes `value` to the 16-bit register `register` of
/// the device at `device`: the register address byte, then the value
/// big-endian.
pub open spec fn write_txn(device: u8, register: u8, value: u16) -> Transaction {
    Transaction::Write { device, bytes: seq![register] + be_bytes(value) }
}

/// The transaction that reads `value` from the 16-bit register `register` of
/// the device at `device`: the register address byte out, then two big-endian
/// value bytes in.
pub open spec fn read_txn(device: u8, register: u8, value: u16) -> Transaction {
    Transaction::WriteRead { device, command: seq![register], response: be_bytes(value) }
}

/// A synchronous two-wire bus master.
///
/// This is the interface the host must supply to drive a sensor; the driver
/// assumes of it exactly what the contracts below state:
///
/// - a transaction that reports success was performed as given, and is
///   appended to the log;
/// - a transaction that reports an error did not reach the device, and the
///   log is unchanged.
///
/// Nothing is assumed about which outcome occurs or about the bytes a read
/// returns: those are the bus's and the device's to decide.
pub trait I2cBus: Sized {
    /// The transport's error type.
    type Error;

    /// The transactions this bus has completed so far, oldest first.
    ///
    /// The default keeps implementations outside the verifier, which cannot
    /// write a `spec` function, compilable; an implementation verified
    /// against this trait overrides it with its own log.
    open spec fn transactions(&self) -> Seq<Transaction> {
        Seq::empty()
    }

    /// Perform one write transaction: select the device at `address`, send
    /// `bytes`, stop.
    fn write(&mut self, address: u8, bytes: &[u8]) -> (res: Result<(), Self::Error>)
        ensures
            res is Ok ==> final(self).transactions() == old(self).transactions().push(
                Transaction::Write { device: address, bytes: bytes@ },
            ),
            res is Err ==> final(self).transactions() == old(self).transactions(),
    ;

    /// Perform one write-then-read transaction: select the device at
    /// `address`, send `command`, read two bytes, stop.
    fn write_read(&mut self, address: u8, command: &[u8]) -> (res: Result<[u8; 2], Self::Error>)
        ensures
            res matches Ok(data) ==> final(self).transactions() == old(self).transactions().push(
                Transaction::WriteRead { device: address, command: command@, response: data@ },
            ),
            res is Err ==> final(self).transactions() == old(self).transactions(),
    ;
}

} // verus!
