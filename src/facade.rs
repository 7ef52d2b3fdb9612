//! Host-side logic of the I2C bus façade: each bus operation becomes one
//! remote endpoint call, numbered by a sequence counter, and each outcome of
//! that call becomes one of three distinct errors or success.

use vstd::prelude::*;
use crate::icd::{
    copy_bytes, Endpoint, I2cError, ReadCommand, ReadData, ReadResult, WriteCommand,
    WriteReadCommand, WriteResult,
};

verus! {

/// What the façade reports when a bus operation fails.
#[derive(Debug, Clone, Copy, PartialEq, Eq)]
pub enum HostI2CError {
    /// The request never reached the device, or its reply never came back.
    ConnectionError,
    /// The device reported that its I2C operation failed.
    DeviceError,
    /// The operation shape cannot be expressed as one remote call.
    NotYetSupported,
}

/// The transport could not deliver a request or did not receive its reply.
#[derive(Debug, Clone, Copy, PartialEq, Eq)]
pub struct TransportFailure;

/// One operation of a bus transaction, by direction.
#[derive(Debug, Clone, Copy, PartialEq, Eq)]
pub enum OpKind {
    Read,
    Write,
}

/// The transaction shapes that one remote call can carry.
#[derive(Debug, Clone, Copy, PartialEq, Eq)]
pub enum TransactionShape {
    Empty,
    Read,
    Write,
    WriteRead,
}

/// A request envelope: the device's serial number, the call's sequence
/// number, the endpoint and the payload.
#[derive(Debug, Clone, PartialEq, Eq)]
pub struct Request<T> {
    pub serial: u64,
    pub seq: u32,
    pub endpoint: Endpoint,
    pub body: T,
}

/// A bus façade for one remote device.
#[derive(Debug)]
pub struct I2cDev {
    serial: u64,
    counter: u32,
}

/// The sequence number that follows `s`, wrapping on overflow.
pub open spec fn next_seq(s: u32) -> u32 {
    if s == u32::MAX {
        0
    } else {
        (s + 1) as u32
    }
}

/// The shape of a list of operations, if one remote call can carry it.
pub open spec fn shape_of(ops: Seq<OpKind>) -> Option<TransactionShape> {
    if ops.len() == 0 {
        Some(TransactionShape::Empty)
    } else if ops.len() == 1 && ops[0] == OpKind::Read {
        Some(TransactionShape::Read)
    } else if ops.len() == 1 && ops[0] == OpKind::Write {
        Some(TransactionShape::Write)
    } else if ops.len() == 2 && ops[0] == OpKind::Write && ops[1] == OpKind::Read {
        Some(TransactionShape::WriteRead)
    } else {
        None
    }
}

/// What the façade makes of the outcome of a read or write-then-read call.
pub open spec fn read_outcome_spec(res: Result<ReadResult, TransportFailure>) -> Result<
    Seq<u8>,
    HostI2CError,
> {
    match res {
        Ok(Ok(d)) => Ok(d.data@),
        Ok(Err(_)) => Err(HostI2CError::DeviceError),
        Err(_) => Err(HostI2CError::ConnectionError),
    }
}

/// What the façade makes of the outcome of a write call.
pub open spec fn write_outcome_spec(res: Result<WriteResult, TransportFailure>) -> Result<
    (),
    HostI2CError,
> {
    match res {
        Ok(Ok(())) => Ok(()),
        Ok(Err(_)) => Err(HostI2CError::DeviceError),
        Err(_) => Err(HostI2CError::ConnectionError),
    }
}

impl I2cDev {
    /// The sequence number that the next call will carry.
    pub closed spec fn pending_seq(self) -> u32 {
        self.counter
    }

    /// The serial number of the device that the façade talks to.
    pub closed spec fn device_serial(self) -> u64 {
        self.serial
    }

    /// The serial number of the device that the façade talks to.
    pub fn serial(&self) -> (r: u64)
        ensures
            r == self.device_serial(),
    {
        self.serial
    }

    /// `after` is `before` once a call numbered `seq` has been issued.
    pub open spec fn issued(before: I2cDev, seq: u32, after: I2cDev) -> bool {
        &&& seq == before.pending_seq()
        &&& after.pending_seq() == next_seq(seq)
        &&& after.device_serial() == before.device_serial()
    }

    /// A façade for the device with this serial number; its first call is
    /// numbered 0.
    pub fn new(serial: u64) -> (r: I2cDev)
        ensures
            r.device_serial() == serial,
            r.pending_seq() == 0,
    {
        I2cDev { serial, counter: 0 }
    }

    /// Takes the next sequence number.
    pub fn ctr(&mut self) -> (r: u32)
        ensures
            I2cDev::issued(*old(self), r, *final(self)),
    {
        let r = self.counter;
        self.counter = if r == u32::MAX {
            0
        } else {
            r + 1
        };
        r
    }

    /// The request that reads `len` bytes from the peripheral at `address`.
    pub fn read_request(&mut self, address: u8, len: usize) -> (r: Request<ReadCommand>)
        requires
            len <= u32::MAX,
        ensures
            I2cDev::issued(*old(self), r.seq, *final(self)),
            r.serial == old(self).device_serial(),
            r.endpoint == Endpoint::I2cRead,
            r.body == (ReadCommand { addr: address, len: len as u32 }),
    {
        let seq = self.ctr();
        Request {
            serial: self.serial,
            seq,
            endpoint: Endpoint::I2cRead,
            body: ReadCommand { addr: address, len: len as u32 },
        }
    }

    /// The request that writes `data` to the peripheral at `address`.
    pub fn write_request(&mut self, address: u8, data: &[u8]) -> (r: Request<WriteCommand>)
        ensures
            I2cDev::issued(*old(self), r.seq, *final(self)),
            r.serial == old(self).device_serial(),
            r.endpoint == Endpoint::I2cWrite,
            r.body.addr == address,
            r.body.data@ == data@,
    {
        let seq = self.ctr();
        Request {
            serial: self.serial,
            seq,
            endpoint: Endpoint::I2cWrite,
            body: WriteCommand { addr: address, data: copy_bytes(data) },
        }
    }

    /// The request that writes `write` to the peripheral at `address` and
    /// then reads `read_len` bytes from it, in one transaction.
    pub fn write_read_request(&mut self, address: u8, write: &[u8], read_len: usize) -> (r: Request<
        WriteReadCommand,
    >)
        requires
            read_len <= u32::MAX,
        ensures
            I2cDev::issued(*old(self), r.seq, *final(self)),
            r.serial == old(self).device_serial(),
            r.endpoint == Endpoint::I2cWriteRead,
            r.body.addr == address,
            r.body.tx_data@ == write@,
            r.body.rx_len == read_len,
    {
        let seq = self.ctr();
        Request {
            serial: self.serial,
            seq,
            endpoint: Endpoint::I2cWriteRead,
            body: WriteReadCommand {
                addr: address,
                tx_data: copy_bytes(write),
                rx_len: read_len as u32,
            },
        }
    }
}

/// Maps the outcome of a read or write-then-read call: the bytes the device
/// returned, `DeviceError` when the device failed, `ConnectionError` when
/// the transport did.
pub fn read_outcome(res: Result<ReadResult, TransportFailure>) -> (r: Result<
    Vec<u8>,
    HostI2CError,
>)
    ensures
        match r {
            Ok(v) => read_outcome_spec(res) == Ok::<Seq<u8>, HostI2CError>(v@),
            Err(e) => read_outcome_spec(res) == Err::<Seq<u8>, HostI2CError>(e),
        },
{
    match res {
        Ok(Ok(d)) => Ok(d.data),
        Ok(Err(I2cError)) => Err(HostI2CError::DeviceError),
        Err(TransportFailure) => Err(HostI2CError::ConnectionError),
    }
}

/// Maps the outcome of a write call: `DeviceError` when the device failed,
/// `ConnectionError` when the transport did.
pub fn write_outcome(res: Result<WriteResult, TransportFailure>) -> (r: Result<(), HostI2CError>)
    ensures
        r == write_outcome_spec(res),
{
    match res {
        Ok(Ok(())) => Ok(()),
        Ok(Err(I2cError)) => Err(HostI2CError::DeviceError),
        Err(TransportFailure) => Err(HostI2CError::ConnectionError),
    }
}

/// Classifies the operations of a transaction: empty, a single read, a
/// single write, or a write followed by a read. Any other list fails with
/// `NotYetSupported`.
pub fn transaction_shape(ops: &[OpKind]) -> (r: Result<TransactionShape, HostI2CError>)
    ensures
        match shape_of(ops@) {
            Some(s) => r == Ok::<TransactionShape, HostI2CError>(s),
            None => r == Err::<TransactionShape, HostI2CError>(HostI2CError::NotYetSupported),
        },
{
    let n = ops.len();
    if n == 0 {
        Ok(TransactionShape::Empty)
    } else if n == 1 {
        match ops[0] {
            OpKind::Read => Ok(TransactionShape::Read),
            OpKind::Write => Ok(TransactionShape::Write),
        }
    } else if n == 2 {
        match (ops[0], ops[1]) {
            (OpKind::Write, OpKind::Read) => Ok(TransactionShape::WriteRead),
            _ => Err(HostI2CError::NotYetSupported),
        }
    } else {
        Err(HostI2CError::NotYetSupported)
    }
}

/// Consecutive calls on one façade carry sequence numbers that differ by
/// exactly one (wrapping on overflow). Only the request-building step moves
/// the counter, so whether a call succeeded plays no part.
pub proof fn lemma_consecutive_sequences(d0: I2cDev, s1: u32, d1: I2cDev, s2: u32, d2: I2cDev)
    requires
        I2cDev::issued(d0, s1, d1),
        I2cDev::issued(d1, s2, d2),
    ensures
        s2 == next_seq(s1),
        s1 < u32::MAX ==> s2 == s1 + 1,
        s1 == u32::MAX ==> s2 == 0,
        d2.pending_seq() == next_seq(s2),
{
}

} // verus!
