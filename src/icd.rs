//! Request and response payloads shared by the host and the device, and the
//! table of endpoints that carries them.

use vstd::prelude::*;

verus! {

/// Asks the device to sleep for a number of milliseconds.
#[derive(Debug, Clone, Copy, PartialEq, Eq)]
pub struct SleepMillis {
    pub millis: u16,
}

/// How long the device slept.
#[derive(Debug, Clone, Copy, PartialEq, Eq)]
pub struct SleptMillis {
    pub millis: u16,
}

/// The state of the device's status LED.
#[derive(Debug, Clone, Copy, PartialEq, Eq)]
pub enum LedState {
    Off,
    On,
}

/// Read `len` bytes from the peripheral at `addr`.
#[derive(Debug, Clone, Copy, PartialEq, Eq)]
pub struct ReadCommand {
    pub addr: u8,
    pub len: u32,
}

/// Bytes read from a peripheral.
#[derive(Debug, Clone, PartialEq, Eq)]
pub struct ReadData {
    pub data: Vec<u8>,
}

/// Write `data` to the peripheral at `addr`.
#[derive(Debug, Clone, PartialEq, Eq)]
pub struct WriteCommand {
    pub addr: u8,
    pub data: Vec<u8>,
}

/// Write `tx_data` to the peripheral at `addr`, then read `rx_len` bytes
/// from it, as one bus transaction.
#[derive(Debug, Clone, PartialEq, Eq)]
pub struct WriteReadCommand {
    pub addr: u8,
    pub tx_data: Vec<u8>,
    pub rx_len: u32,
}

/// The request reached the device, but the I2C operation there failed.
#[derive(Debug, Clone, Copy, PartialEq, Eq)]
pub struct I2cError;

/// The device's answer to a read or a write-then-read.
pub type ReadResult = Result<ReadData, I2cError>;

/// The device's answer to a write.
pub type WriteResult = Result<(), I2cError>;

/// The endpoints that the device serves.
#[derive(Debug, Clone, Copy, PartialEq, Eq)]
pub enum Endpoint {
    GetUniqueId,
    RebootToPicoBoot,
    Sleep,
    SetLed,
    GetLed,
    I2cRead,
    I2cWrite,
    I2cWriteRead,
}

/// The stable path by which each endpoint is addressed.
pub open spec fn endpoint_path(e: Endpoint) -> Seq<char> {
    match e {
        Endpoint::GetUniqueId => "poststation/unique_id/get"@,
        Endpoint::RebootToPicoBoot => "i2c-passthru/picoboot/reset"@,
        Endpoint::Sleep => "i2c-passthru/sleep"@,
        Endpoint::SetLed => "i2c-passthru/led/set"@,
        Endpoint::GetLed => "i2c-passthru/led/get"@,
        Endpoint::I2cRead => "jig/sb/i2c/read"@,
        Endpoint::I2cWrite => "jig/sb/i2c/write"@,
        Endpoint::I2cWriteRead => "jig/sb/i2c/write-read"@,
    }
}

impl Endpoint {
    /// The endpoint's path.
    pub fn path(&self) -> (r: &'static str)
        ensures
            r@ == endpoint_path(*self),
    {
        match self {
            Endpoint::GetUniqueId => "poststation/unique_id/get",
            Endpoint::RebootToPicoBoot => "i2c-passthru/picoboot/reset",
            Endpoint::Sleep => "i2c-passthru/sleep",
            Endpoint::SetLed => "i2c-passthru/led/set",
            Endpoint::GetLed => "i2c-passthru/led/get",
            Endpoint::I2cRead => "jig/sb/i2c/read",
            Endpoint::I2cWrite => "jig/sb/i2c/write",
            Endpoint::I2cWriteRead => "jig/sb/i2c/write-read",
        }
    }
}

/// A copy of a byte slice.
pub fn copy_bytes(s: &[u8]) -> (r: Vec<u8>)
    ensures
        r@ == s@,
{
    let mut r: Vec<u8> = Vec::new();
    let mut i: usize = 0;
    while i < s.len()
        invariant
            i <= s@.len(),
            r@ == s@.subrange(0, i as int),
        decreases s@.len() - i,
    {
        r.push(s[i]);
        i = i + 1;
        assert(r@ =~= s@.subrange(0, i as int));
    }
    assert(r@ =~= s@);
    r
}

} // verus!
