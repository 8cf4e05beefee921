//! A simulated bus: serves reads from a caller-supplied byte queue and
//! records what was last written, so tests can check every transaction the
//! driver issues without hardware.

use vstd::prelude::*;
use vstd::slice::slice_to_vec;

use crate::transport::write_read_transaction;
use crate::transport::write_transaction;
use crate::transport::Transaction;
use crate::transport::Transport;

verus! {

/// The simulated bus's error value: reported when a read asks for more
/// bytes than the queue still holds.
#[derive(Debug, Clone, Copy, PartialEq, Eq)]
pub struct BusFault;

/// A bus double that answers reads from a fixed queue of bytes and keeps the
/// address and payload of the most recent transaction.
pub struct RecordingTransport {
    read_data: Vec<u8>,
    read_pos: usize,
    last_addr: Option<u8>,
    last_write: Vec<u8>,
    hist: Ghost<Seq<Transaction>>,
}

impl RecordingTransport {
    /// The bytes the bus hands out on reads, in order.
    pub closed spec fn read_queue(&self) -> Seq<u8> {
        self.read_data@
    }

    /// How many bytes of the read queue have been served.
    pub closed spec fn reads_served(&self) -> int {
        self.read_pos as int
    }

    /// The device address of the most recent transaction, if any.
    pub closed spec fn last_address_spec(&self) -> Option<u8> {
        self.last_addr
    }

    /// The bytes written by the most recent transaction.
    pub closed spec fn write_data_spec(&self) -> Seq<u8> {
        self.last_write@
    }

    /// Creates a bus with an empty read queue and no recorded transaction.
    pub fn new() -> (bus: Self)
        ensures
            bus.history() == Seq::<Transaction>::empty(),
            bus.read_queue() == Seq::<u8>::empty(),
            bus.reads_served() == 0,
            bus.last_address_spec() is None,
            bus.write_data_spec() == Seq::<u8>::empty(),
    {
        RecordingTransport {
            read_data: Vec::new(),
            read_pos: 0,
            last_addr: None,
            last_write: Vec::new(),
            hist: Ghost(Seq::empty()),
        }
    }

    /// Replaces the read queue and starts serving it from its beginning.
    pub fn set_read_data(&mut self, read_data: Vec<u8>)
        ensures
            final(self).read_queue() == read_data@,
            final(self).reads_served() == 0,
            final(self).history() == old(self).history(),
            final(self).last_address_spec() == old(self).last_address_spec(),
            final(self).write_data_spec() == old(self).write_data_spec(),
    {
        self.read_data = read_data;
        self.read_pos = 0;
    }

    /// The device address of the most recent transaction, if any.
    pub fn get_last_address(&self) -> (addr: Option<u8>)
        ensures
            addr == self.last_address_spec(),
    {
        self.last_addr
    }

    /// The bytes written by the most recent transaction.
    pub fn get_write_data(&self) -> (data: &Vec<u8>)
        ensures
            data@ == self.write_data_spec(),
    {
        &self.last_write
    }
}

impl Transport for RecordingTransport {
    type BusError = BusFault;

    closed spec fn history(&self) -> Seq<Transaction> {
        self.hist@
    }

    fn write(&mut self, addr: u8, bytes: &[u8]) -> (result: Result<(), BusFault>)
        ensures
            result is Ok,
            final(self).read_queue() == old(self).read_queue(),
            final(self).reads_served() == old(self).reads_served(),
            final(self).last_address_spec() == (Some(addr)),
            final(self).write_data_spec() == bytes@,
    {
        self.last_addr = Some(addr);
        self.last_write = slice_to_vec(bytes);
        self.hist = Ghost(self.hist@.push(write_transaction(addr, bytes@)));
        Ok(())
    }

    fn write_then_read(&mut self, addr: u8, bytes: &[u8], read_len: usize) -> (result: Result<
        Vec<u8>,
        BusFault,
    >)
        ensures
            old(self).reads_served() + read_len <= old(self).read_queue().len() ==> result is Ok
                && (result matches Ok(data) ==> data@ == old(self).read_queue().subrange(
                old(self).reads_served(),
                old(self).reads_served() + read_len,
            )) && final(self).read_queue() == old(self).read_queue() && final(self).reads_served()
                == old(self).reads_served() + read_len && final(self).last_address_spec() == (Some(
                addr,
            )) && final(self).write_data_spec() == bytes@,
            old(self).reads_served() + read_len > old(self).read_queue().len() ==> result is Err
                && *final(self) == *old(self),
    {
        if self.read_pos > self.read_data.len() || read_len > self.read_data.len()
            - self.read_pos {
            return Err(BusFault);
        }
        let end: usize = self.read_pos + read_len;
        let mut data: Vec<u8> = Vec::new();
        let mut i: usize = 0;
        while i < read_len
            invariant
                i <= read_len,
                end == self.read_pos + read_len,
                end <= self.read_data@.len(),
                data@ == self.read_data@.subrange(
                    self.read_pos as int,
                    self.read_pos + i as int,
                ),
            decreases read_len - i,
        {
            data.push(self.read_data[self.read_pos + i]);
            proof {
                assert(self.read_data@.subrange(
                    self.read_pos as int,
                    self.read_pos + i as int,
                ).push(self.read_data@[self.read_pos + i as int]) =~= self.read_data@.subrange(
                    self.read_pos as int,
                    self.read_pos + (i + 1) as int,
                ));
            }
            i = i + 1;
        }
        self.read_pos = self.read_pos + read_len;
        self.last_addr = Some(addr);
        self.last_write = slice_to_vec(bytes);
        self.hist = Ghost(self.hist@.push(write_read_transaction(addr, bytes@, data@)));
        Ok(data)
    }
}

} // verus!
