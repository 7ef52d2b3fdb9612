//! Device-side dispatch of I2C requests. Each handler first checks the
//! requested lengths against the scratch buffer's fixed capacity and either
//! replies at once or asks for one hardware operation; the hardware's outcome
//! then becomes the reply, built in the scratch buffer.

use vstd::prelude::*;
use crate::icd::{
    copy_bytes, I2cError, LedState, SleptMillis, ReadCommand, ReadData, ReadResult, WriteCommand, WriteReadCommand,
    WriteResult,
};

verus! {

/// A request that the dispatcher routes to an I2C handler.
#[derive(Debug, Clone, PartialEq, Eq)]
pub enum DeviceRequest {
    Read(ReadCommand),
    Write(WriteCommand),
    WriteRead(WriteReadCommand),
}

/// A reply of an I2C handler.
#[derive(Debug, PartialEq, Eq)]
pub enum DeviceResponse {
    Read(ReadResult),
    Write(WriteResult),
}

/// One hardware I2C operation that a handler asks for.
#[derive(Debug, Clone, PartialEq, Eq)]
pub enum HardwareOp {
    Read { addr: u8, len: usize },
    Write { addr: u8, data: Vec<u8> },
    WriteRead { addr: u8, tx: Vec<u8>, len: usize },
}

/// What the hardware did: the bytes it read (none for a write), or a fault.
#[derive(Debug, Clone, PartialEq, Eq)]
pub enum HardwareOutcome {
    Done(Vec<u8>),
    Failed,
}

/// What a handler does next: reply at once, or run a hardware operation.
#[derive(Debug, PartialEq, Eq)]
pub enum Step {
    Reply(DeviceResponse),
    Hardware(HardwareOp),
}

/// The scratch buffer's capacity on the jig.
pub const SCRATCH_CAPACITY: usize = 256;

/// How many sleep requests may run at once on the jig.
pub const SLEEP_POOL_SIZE: usize = 3;

/// Drops requests that repeat the sequence number of the one before: under
/// the host's one-call-at-a-time discipline such a request is a duplicate.
#[derive(Debug)]
pub struct SeqFilter {
    last: Option<u32>,
}

impl SeqFilter {
    /// The sequence number of the last request seen, if any.
    pub closed spec fn last_seen(self) -> Option<u32> {
        self.last
    }

    /// A filter that has seen no request.
    pub fn new() -> (r: SeqFilter)
        ensures
            r.last_seen() is None,
    {
        SeqFilter { last: None }
    }

    /// Whether a request numbered `seq` is to be served: false exactly when
    /// it repeats the last one seen.
    pub fn accept(&mut self, seq: u32) -> (r: bool)
        ensures
            r == (old(self).last_seen() != Some(seq)),
            final(self).last_seen() == Some(seq),
    {
        let fresh = match self.last {
            Some(s) => s != seq,
            None => true,
        };
        self.last = Some(seq);
        fresh
    }
}

/// Dispatches I2C requests, with a scratch buffer of fixed capacity that is
/// reused by every call.
#[derive(Debug)]
pub struct Dispatcher {
    scratch: Vec<u8>,
}

/// The number of bytes that a hardware operation reads.
pub open spec fn read_len(op: HardwareOp) -> int {
    match op {
        HardwareOp::Read { len, .. } => len as int,
        HardwareOp::Write { .. } => 0,
        HardwareOp::WriteRead { len, .. } => len as int,
    }
}

/// Whether a hardware operation reads.
pub open spec fn is_read_op(op: HardwareOp) -> bool {
    !(op is Write)
}

/// The reply to a hardware operation with this outcome, when it failed or
/// was a write; `None` for a read that succeeded, whose reply carries data.
pub open spec fn plain_reply(op: HardwareOp, done: bool) -> Option<DeviceResponse> {
    match op {
        HardwareOp::Write { .. } => if done {
            Some(DeviceResponse::Write(Ok(())))
        } else {
            Some(DeviceResponse::Write(Err(I2cError)))
        },
        _ => if done {
            None
        } else {
            Some(DeviceResponse::Read(Err(I2cError)))
        },
    }
}

/// A reply that carries exactly these bytes.
pub open spec fn replies_with(r: DeviceResponse, bytes: Seq<u8>) -> bool {
    match r {
        DeviceResponse::Read(Ok(d)) => d.data@ == bytes,
        _ => false,
    }
}

impl Dispatcher {
    /// The scratch buffer's capacity.
    pub closed spec fn cap(self) -> nat {
        self.scratch@.len()
    }

    /// Whether an operation fits the scratch buffer.
    pub open spec fn fits(self, op: HardwareOp) -> bool {
        match op {
            HardwareOp::Read { len, .. } => len <= self.cap(),
            HardwareOp::Write { data, .. } => data@.len() <= self.cap(),
            HardwareOp::WriteRead { tx, len, .. } => tx@.len() <= self.cap() && len <= self.cap(),
        }
    }

    /// `r` is the step for a read: a reply of `I2cError` when the length is
    /// over capacity, else a hardware read of exactly that length.
    pub open spec fn read_step(self, c: ReadCommand, r: Step) -> bool {
        if c.len > self.cap() {
            r == Step::Reply(DeviceResponse::Read(Err(I2cError)))
        } else {
            r == Step::Hardware(HardwareOp::Read { addr: c.addr, len: c.len as usize })
        }
    }

    /// `r` is the step for a write: a reply of `I2cError` when the data is
    /// longer than the capacity, else a hardware write of all of it.
    pub open spec fn write_step(self, c: WriteCommand, r: Step) -> bool {
        if c.data@.len() > self.cap() {
            r == Step::Reply(DeviceResponse::Write(Err(I2cError)))
        } else {
            r matches Step::Hardware(HardwareOp::Write { addr, data }) && addr == c.addr && data@
                == c.data@
        }
    }

    /// `r` is the step for a write-then-read: a reply of `I2cError` when
    /// either length is over capacity, else one hardware transaction that
    /// writes all of `tx_data` and reads exactly `rx_len` bytes.
    pub open spec fn write_read_step(self, c: WriteReadCommand, r: Step) -> bool {
        if c.tx_data@.len() > self.cap() || c.rx_len > self.cap() {
            r == Step::Reply(DeviceResponse::Read(Err(I2cError)))
        } else {
            r matches Step::Hardware(HardwareOp::WriteRead { addr, tx, len }) && addr == c.addr
                && tx@ == c.tx_data@ && len == c.rx_len
        }
    }

    /// `r` is the step for a request.
    pub open spec fn handles(self, req: DeviceRequest, r: Step) -> bool {
        match req {
            DeviceRequest::Read(c) => self.read_step(c, r),
            DeviceRequest::Write(c) => self.write_step(c, r),
            DeviceRequest::WriteRead(c) => self.write_read_step(c, r),
        }
    }

    /// Whether a request asks for more bytes than the scratch buffer holds.
    pub open spec fn oversize(self, req: DeviceRequest) -> bool {
        match req {
            DeviceRequest::Read(c) => c.len > self.cap(),
            DeviceRequest::Write(c) => c.data@.len() > self.cap(),
            DeviceRequest::WriteRead(c) => c.tx_data@.len() > self.cap() || c.rx_len > self.cap(),
        }
    }

    /// A dispatcher whose scratch buffer holds `capacity` bytes.
    pub fn new(capacity: usize) -> (r: Dispatcher)
        ensures
            r.cap() == capacity,
    {
        let mut scratch: Vec<u8> = Vec::new();
        let mut i: usize = 0;
        while i < capacity
            invariant
                i <= capacity,
                scratch@.len() == i,
            decreases capacity - i,
        {
            scratch.push(0);
            i = i + 1;
        }
        Dispatcher { scratch }
    }

    /// The scratch buffer's capacity.
    pub fn capacity(&self) -> (r: usize)
        ensures
            r == self.cap(),
    {
        self.scratch.len()
    }

    /// Handles a read: a length over capacity is refused at once, without
    /// touching the hardware; otherwise the hardware reads exactly `len`
    /// bytes.
    pub fn i2c_read(&self, arg: &ReadCommand) -> (r: Step)
        ensures
            self.read_step(*arg, r),
    {
        let len = arg.len as usize;
        if arg.len as u64 > self.scratch.len() as u64 {
            return Step::Reply(DeviceResponse::Read(Err(I2cError)));
        }
        Step::Hardware(HardwareOp::Read { addr: arg.addr, len })
    }

    /// Handles a write: data longer than the capacity is refused at once,
    /// without touching the hardware; otherwise the hardware writes all of it.
    pub fn i2c_write(&self, arg: &WriteCommand) -> (r: Step)
        ensures
            self.write_step(*arg, r),
    {
        if arg.data.len() > self.scratch.len() {
            return Step::Reply(DeviceResponse::Write(Err(I2cError)));
        }
        Step::Hardware(HardwareOp::Write { addr: arg.addr, data: copy_bytes(arg.data.as_slice()) })
    }

    /// Handles a write-then-read: when either length is over capacity it is
    /// refused at once, without touching the hardware; otherwise the hardware
    /// writes all of `tx_data`, then reads exactly `rx_len` bytes, in one
    /// transaction.
    pub fn i2c_write_read(&self, arg: &WriteReadCommand) -> (r: Step)
        ensures
            self.write_read_step(*arg, r),
    {
        if arg.tx_data.len() > self.scratch.len() || arg.rx_len as u64 > self.scratch.len() as u64 {
            return Step::Reply(DeviceResponse::Read(Err(I2cError)));
        }
        Step::Hardware(
            HardwareOp::WriteRead {
                addr: arg.addr,
                tx: copy_bytes(arg.tx_data.as_slice()),
                len: arg.rx_len as usize,
            },
        )
    }

    /// Routes a request to its handler.
    pub fn dispatch(&self, req: &DeviceRequest) -> (r: Step)
        ensures
            self.handles(*req, r),
    {
        match req {
            DeviceRequest::Read(c) => self.i2c_read(c),
            DeviceRequest::Write(c) => self.i2c_write(c),
            DeviceRequest::WriteRead(c) => self.i2c_write_read(c),
        }
    }

    /// Builds the reply to a hardware operation from its outcome. The bytes
    /// of a successful read pass through the scratch buffer and come back
    /// unchanged.
    pub fn finish(&mut self, op: &HardwareOp, hw: HardwareOutcome) -> (r: DeviceResponse)
        requires
            old(self).fits(*op),
            is_read_op(*op) ==> (hw matches HardwareOutcome::Done(b) ==> b@.len() == read_len(
                *op,
            )),
        ensures
            final(self).cap() == old(self).cap(),
            match plain_reply(*op, hw is Done) {
                Some(p) => r == p,
                None => hw matches HardwareOutcome::Done(b) && replies_with(r, b@),
            },
    {
        match (op, hw) {
            (HardwareOp::Write { .. }, HardwareOutcome::Done(_)) => DeviceResponse::Write(Ok(())),
            (HardwareOp::Write { .. }, HardwareOutcome::Failed) => DeviceResponse::Write(
                Err(I2cError),
            ),
            (_, HardwareOutcome::Failed) => DeviceResponse::Read(Err(I2cError)),
            (_, HardwareOutcome::Done(bytes)) => {
                let n = bytes.len();
                let mut i: usize = 0;
                while i < n
                    invariant
                        n == bytes@.len(),
                        n <= self.scratch@.len(),
                        self.scratch@.len() == old(self).scratch@.len(),
                        i <= n,
                        forall|j: int| 0 <= j < i ==> self.scratch@[j] == bytes@[j],
                    decreases n - i,
                {
                    self.scratch.set(i, bytes[i]);
                    i = i + 1;
                }
                let mut data: Vec<u8> = Vec::new();
                let mut k: usize = 0;
                while k < n
                    invariant
                        n == bytes@.len(),
                        n <= self.scratch@.len(),
                        k <= n,
                        forall|j: int| 0 <= j < n ==> self.scratch@[j] == bytes@[j],
                        data@ == bytes@.subrange(0, k as int),
                    decreases n - k,
                {
                    data.push(self.scratch[k]);
                    k = k + 1;
                    assert(data@ =~= bytes@.subrange(0, k as int));
                }
                assert(data@ =~= bytes@);
                DeviceResponse::Read(Ok(ReadData { data }))
            },
        }
    }
}

/// The level to drive the status LED's pin to: high for on, low for off.
pub fn set_led(state: LedState) -> (r: bool)
    ensures
        r == (state == LedState::On),
{
    match state {
        LedState::Off => false,
        LedState::On => true,
    }
}

/// The LED state that a pin level shows: off when the pin is low.
pub fn get_led(is_low: bool) -> (r: LedState)
    ensures
        r == (if is_low {
            LedState::Off
        } else {
            LedState::On
        }),
{
    if is_low {
        LedState::Off
    } else {
        LedState::On
    }
}

/// The reply to a sleep request that took `elapsed_ms` milliseconds, kept
/// to the reply's 16 bits by truncation.
pub fn sleep_handler(elapsed_ms: u64) -> (r: SleptMillis)
    ensures
        r.millis == elapsed_ms % 0x1_0000,
{
    SleptMillis { millis: (elapsed_ms % 0x1_0000) as u16 }
}

/// A request over capacity is answered with `I2cError` at once: the step is a
/// reply, never a hardware operation.
pub proof fn lemma_oversize_refused(d: Dispatcher, req: DeviceRequest, step: Step)
    requires
        d.handles(req, step),
        d.oversize(req),
    ensures
        step matches Step::Reply(DeviceResponse::Read(Err(_)))
            || step matches Step::Reply(DeviceResponse::Write(Err(_))),
{
}

/// A read within capacity asks the hardware for exactly the requested
/// length, fits the scratch buffer, and, once the hardware has read those
/// bytes, its reply is built from them (`finish` then carries them
/// unchanged).
pub proof fn lemma_read_within_capacity(d: Dispatcher, c: ReadCommand, step: Step)
    requires
        c.len <= d.cap(),
        d.read_step(c, step),
    ensures
        step matches Step::Hardware(op) && d.fits(op) && is_read_op(op) && read_len(op) == c.len
            && plain_reply(op, true) is None,
{
}

} // verus!
