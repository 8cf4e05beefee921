//! The bus capability the driver consumes: write bytes to a device address,
//! and write bytes then read some back, both of which may fail.
//!
//! The contract models the bus as a growing history of transactions. A
//! successful call appends exactly one transaction recording the address and
//! every byte that crossed the bus; a failed call appends nothing. The
//! driver's own contracts are stated over this history, so what a driver
//! operation puts on the bus is pinned for every implementation.

use vstd::prelude::*;

verus! {

/// One bus transaction: a plain write, or a write followed by a read,
/// with the device address and the bytes moved in each direction.
pub enum Transaction {
    /// A write of `data` to the device at `addr`.
    Write { addr: u8, data: Seq<u8> },
    /// A write of `data` to the device at `addr`, then a read that
    /// returned `read`.
    WriteRead { addr: u8, data: Seq<u8>, read: Seq<u8> },
}

/// The transaction a successful `write` call appends.
pub open spec fn write_transaction(addr: u8, data: Seq<u8>) -> Transaction {
    Transaction::Write { addr, data }
}

/// The transaction a successful `write_then_read` call appends.
pub open spec fn write_read_transaction(addr: u8, data: Seq<u8>, read: Seq<u8>) -> Transaction {
    Transaction::WriteRead { addr, data, read }
}

/// A synchronous, blocking two-wire bus.
///
/// Implementations supply the real transport (or a test double); the driver
/// is verified against this contract alone. Each call blocks until the bus
/// completes or fails, and a failure leaves the history unchanged: a failed
/// transaction is not recorded.
pub trait Transport: Sized {
    /// The transport's own error value, propagated verbatim to the caller.
    type BusError;

    /// The transactions completed so far, oldest first.
    ///
    /// The default is the empty history; an implementation the verified
    /// code reasons about supplies its own.
    open spec fn history(&self) -> Seq<Transaction> {
        Seq::empty()
    }

    /// Writes the bytes to the device at the given address.
    fn write(&mut self, addr: u8, bytes: &[u8]) -> (result: Result<(), Self::BusError>)
        ensures
            match result {
                Ok(()) => final(self).history() == old(self).history().push(
                    write_transaction(addr, bytes@),
                ),
                Err(_) => final(self).history() == old(self).history(),
            },
    ;

    /// Writes the bytes to the device at the given address, then reads
    /// `read_len` bytes back from it.
    fn write_then_read(&mut self, addr: u8, bytes: &[u8], read_len: usize) -> (result: Result<
        Vec<u8>,
        Self::BusError,
    >)
        ensures
            match result {
                Ok(data) => data@.len() == read_len && final(self).history() == old(
                    self,
                ).history().push(write_read_transaction(addr, bytes@, data@)),
                Err(_) => final(self).history() == old(self).history(),
            },
    ;
}

} // verus!
