//! The host side of the bus, and the record of the operations the driver
//! issues on it.
use vstd::prelude::*;

verus! {

use crate::error::{Error, SensorError};
use crate::field::{lemma_mask_preservation, merged};
use crate::register::{Bank0, Register};

/// Number of polls of the clock-ready register after which an extended-bank
/// access gives up.
pub const MCLK_POLL_LIMIT: u32 = 1000;

/// Time, in microseconds, that the window registers need to settle.
pub const WINDOW_SETTLE_US: u32 = 10;

/// A transaction handed to the bus, with what the transport returned.
pub enum Transfer<E> {
    /// `reg` was written to the device at `dev`, then one byte read back;
    /// `result` is what the transport returned.
    Read { dev: u8, reg: u8, result: Result<u8, E> },
    /// `[reg, value]` was written to the device at `dev`; `outcome` is what
    /// the transport returned.
    Write { dev: u8, reg: u8, value: u8, outcome: Result<(), E> },
}

/// A byte-exchange bus to the device, such as the host end of an I²C link.
pub trait RegisterBus {
    /// The error that the transport reports.
    type Error;

    /// Write `register` to the device at `address`, then read one byte back,
    /// as a single transaction.
    fn write_read(&mut self, address: u8, register: u8) -> Result<u8, Self::Error>;

    /// Write `[register, value]` to the device at `address` as a single
    /// transaction.
    fn write(&mut self, address: u8, register: u8, value: u8) -> Result<(), Self::Error>;
}

/// A source of blocking delays.
pub trait DelayUs {
    /// Suspend for at least `us` microseconds.
    fn delay_us(&mut self, us: u32);
}

/// A transport result as the driver returns it: an error of the transport is
/// passed on unchanged, as a bus error.
pub open spec fn lifted<T, E>(result: Result<T, E>) -> Result<T, Error<E>> {
    match result {
        Ok(v) => Ok(v),
        Err(e) => Err(Error::BusError(e)),
    }
}

/// `after` holds every transaction of `before`, at the same place.
pub open spec fn log_extends<E>(before: Seq<Transfer<E>>, after: Seq<Transfer<E>>) -> bool {
    &&& before.len() <= after.len()
    &&& forall|i: int| 0 <= i < before.len() ==> #[trigger] after[i] == before[i]
}

/// The transaction `t` is the bus operation `op`, sent to the device at `dev`.
pub open spec fn corresponds<E>(t: Transfer<E>, op: BusOp, dev: u8) -> bool {
    match t {
        Transfer::Read { dev: d, reg, result } => {
            &&& d == dev
            &&& op == (BusOp::Read {
                reg,
                byte: match result {
                    Ok(b) => Some(b),
                    Err(_) => None,
                },
            })
        },
        Transfer::Write { dev: d, reg, value, outcome } => {
            &&& d == dev
            &&& op == (BusOp::Write { reg, value, acked: outcome is Ok })
        },
    }
}

/// The operations of `ops` that went over the bus, that is all but the delays.
pub open spec fn transfers(ops: Seq<BusOp>) -> Seq<BusOp>
    decreases ops.len(),
{
    if ops.len() == 0 {
        ops
    } else if ops.last() is Delay {
        transfers(ops.drop_last())
    } else {
        transfers(ops.drop_last()).push(ops.last())
    }
}

/// Appending one operation to a trace appends it to its transfers, unless it
/// is a delay.
pub proof fn lemma_push_op(ops: Seq<BusOp>, op: BusOp)
    ensures
        transfers(ops.push(op)) == if op is Delay {
            transfers(ops)
        } else {
            transfers(ops).push(op)
        },
{
    assert(ops.push(op).drop_last() =~= ops);
}

/// The transfers of two traces one after the other are those of each, in
/// order.
pub proof fn lemma_transfers_concat(a: Seq<BusOp>, b: Seq<BusOp>)
    ensures
        transfers(a + b) == transfers(a) + transfers(b),
    decreases b.len(),
{
    if b.len() == 0 {
        assert(a + b =~= a);
        assert(transfers(a) + transfers(b) =~= transfers(a));
    } else {
        lemma_transfers_concat(a, b.drop_last());
        assert((a + b).drop_last() =~= a + b.drop_last());
        assert((a + b).last() == b.last());
        if b.last() is Delay {
            assert(transfers(a) + transfers(b) =~= transfers(a) + transfers(b.drop_last()));
        } else {
            assert(transfers(a) + transfers(b) =~= (transfers(a) + transfers(b.drop_last())).push(b.last()));
        }
    }
}

/// The transactions `sent` and the result `r` of a read-modify-write that
/// merges `bits` under `mask` into the register at `reg` of the device at
/// `dev`.
///
/// A read-only register is refused before any transaction. Otherwise the
/// register is read; where the read succeeds the merged byte is written back.
/// An error of the transport is passed on unchanged.
pub open spec fn update_sent<E>(
    sent: Seq<Transfer<E>>,
    dev: u8,
    reg: u8,
    read_only: bool,
    mask: u8,
    bits: u8,
    r: Result<(), Error<E>>,
) -> bool {
    if read_only {
        sent.len() == 0 && sensor_failure(r, SensorError::WriteToReadOnly)
    } else {
        &&& sent.len() >= 1
        &&& sent[0] matches Transfer::Read { dev: d, reg: a, result }
        &&& d == dev
        &&& a == reg
        &&& match result {
            Err(e) => sent.len() == 1 && r == Err::<(), Error<E>>(Error::BusError(e)),
            Ok(current) => {
                &&& sent.len() == 2
                &&& sent[1] matches Transfer::Write { dev: d2, reg: a2, value, outcome }
                &&& d2 == dev
                &&& a2 == reg
                &&& value == merged(current, mask, bits)
                &&& r == lifted(outcome)
            },
        }
    }
}

/// One operation that the driver issued, with its outcome.
pub enum BusOp {
    /// A read of the register at `reg`; `byte` is the byte read, or `None`
    /// where the transport failed.
    Read { reg: u8, byte: Option<u8> },
    /// A write of `value` to the register at `reg`; `acked` tells whether the
    /// transport reported success.
    Write { reg: u8, value: u8, acked: bool },
    /// A delay of `us` microseconds.
    Delay { us: u32 },
}

impl BusOp {
    /// The transport reported a failure for this operation.
    pub open spec fn failed(self) -> bool {
        ||| self matches BusOp::Read { byte: None, .. }
        ||| self matches BusOp::Write { acked: false, .. }
    }

    /// A read of `reg` that returned `value`.
    pub open spec fn is_read_of(self, reg: u8, value: u8) -> bool {
        self == (BusOp::Read { reg, byte: Some(value) })
    }

    /// A write of `value` to `reg`, whatever its outcome.
    pub open spec fn is_write_of(self, reg: u8, value: u8) -> bool {
        self matches BusOp::Write { reg: r, value: v, .. } && r == reg && v == value
    }
}

/// `after` is `before` with more operations appended.
pub open spec fn extends(before: Seq<BusOp>, after: Seq<BusOp>) -> bool {
    before.len() <= after.len() && after.take(before.len() as int) == before
}

/// The operations that `after` holds beyond `before`.
pub open spec fn appended(before: Seq<BusOp>, after: Seq<BusOp>) -> Seq<BusOp> {
    after.skip(before.len() as int)
}

/// The result failed with an error of the transport.
pub open spec fn bus_failure<T, E>(r: Result<T, Error<E>>) -> bool {
    r matches Err(e) && e is BusError
}

/// The result is the given sensor error.
pub open spec fn sensor_failure<T, E>(r: Result<T, Error<E>>, err: SensorError) -> bool {
    r matches Err(e) && e == Error::<E>::SensorError(err)
}

/// The operations `ops` and the result `r` of a read-modify-write that merges
/// `bits` under `mask` into the register at `reg`.
///
/// A read-only register is refused before any operation. Otherwise the
/// register is read; where the read succeeds the merged byte is written back,
/// and the result is that of the write.
pub open spec fn update_ops<E>(
    ops: Seq<BusOp>,
    reg: u8,
    read_only: bool,
    mask: u8,
    bits: u8,
    r: Result<(), Error<E>>,
) -> bool {
    if read_only {
        ops.len() == 0 && sensor_failure(r, SensorError::WriteToReadOnly)
    } else {
        &&& ops.len() >= 1
        &&& ops[0] matches BusOp::Read { reg: a, byte }
        &&& a == reg
        &&& match byte {
            None => ops.len() == 1 && bus_failure(r),
            Some(current) => {
                &&& ops.len() == 2
                &&& ops[1] == (BusOp::Write { reg, value: merged(current, mask, bits), acked: r is Ok })
                &&& r is Err ==> bus_failure(r)
            },
        }
    }
}

/// A read-modify-write of one field writes back, under the mask of every
/// other field disjoint from it, exactly the bits it read.
pub proof fn lemma_update_preserves_other_fields<E>(
    ops: Seq<BusOp>,
    reg: u8,
    mask: u8,
    bits: u8,
    other_mask: u8,
    r: Result<(), Error<E>>,
)
    requires
        update_ops(ops, reg, false, mask, bits, r),
        ops.len() == 2,
        mask & other_mask == 0,
    ensures
        ops[0] matches BusOp::Read { byte: Some(current), .. } && ops[1] matches BusOp::Write {
            value,
            ..
        } && value & other_mask == current & other_mask,
{
    let current = ops[0]->Read_byte->0;
    lemma_mask_preservation(current, mask, bits, other_mask);
}

/// The operations `ops` read the high byte at `hi`, then the low byte at
/// `lo`, and `sample` is the signed big-endian value they form.
pub open spec fn sample_ops(ops: Seq<BusOp>, hi: u8, lo: u8, sample: i16) -> bool {
    &&& ops.len() == 2
    &&& ops[0] matches BusOp::Read { reg: a, byte: Some(h) }
    &&& ops[1] matches BusOp::Read { reg: b, byte: Some(l) }
    &&& a == hi
    &&& b == lo
    &&& sample as int == sample_value(h, l)
}

/// The two's-complement value of the big-endian byte pair `hi`, `lo`.
pub open spec fn sample_value(hi: u8, lo: u8) -> int {
    let u = hi as int * 256 + lo as int;
    if u >= 0x8000 {
        u - 0x10000
    } else {
        u
    }
}

/// The operations issued before a failure: none failed but the last.
pub open spec fn failed_last(ops: Seq<BusOp>) -> bool {
    &&& ops.len() >= 1
    &&& ops.last().failed()
    &&& forall|i: int| 0 <= i < ops.len() - 1 ==> !(#[trigger] ops[i]).failed()
}

/// `after` extends `middle`, which extends `before`: the operations appended
/// to `before` are those appended up to `middle`, then those after it.
pub proof fn lemma_appended_concat(before: Seq<BusOp>, middle: Seq<BusOp>, after: Seq<BusOp>)
    requires
        extends(before, middle),
        extends(middle, after),
    ensures
        extends(before, after),
        appended(before, after) == appended(before, middle) + appended(middle, after),
{
    assert(after.take(before.len() as int) =~= middle.take(before.len() as int));
    assert(appended(before, after) =~= appended(before, middle) + appended(middle, after));
}

/// Appending one operation extends a trace by exactly that operation.
pub proof fn lemma_appended_push(before: Seq<BusOp>, middle: Seq<BusOp>, op: BusOp)
    requires
        extends(before, middle),
    ensures
        extends(before, middle.push(op)),
        appended(before, middle.push(op)) == appended(before, middle).push(op),
{
    assert(middle.push(op).take(before.len() as int) =~= middle.take(before.len() as int));
    assert(appended(before, middle.push(op)) =~= appended(before, middle).push(op));
}

/// `after` is `before` followed by the operations and result `r` of a
/// read-modify-write that merges `bits` under `mask` into `reg`.
pub open spec fn field_update<E>(
    before: Seq<BusOp>,
    after: Seq<BusOp>,
    reg: Bank0,
    mask: u8,
    bits: u8,
    r: Result<(), Error<E>>,
) -> bool {
    &&& extends(before, after)
    &&& update_ops(appended(before, after), reg.address(), reg.is_read_only(), mask, bits, r)
}

/// `after` is `before` followed by one read of `reg`.
pub open spec fn one_read(before: Seq<BusOp>, after: Seq<BusOp>, reg: Bank0) -> bool {
    &&& after.len() == before.len() + 1
    &&& after.drop_last() == before
    &&& after.last() matches BusOp::Read { reg: a, .. }
    &&& a == reg.address()
}

/// The result `r` of decoding, with `decode`, the byte that the read `op`
/// returned: a failed read is an error of the transport, a byte that decodes
/// to nothing an invalid discriminant.
pub open spec fn read_decoded<T, E>(op: BusOp, decode: spec_fn(u8) -> Option<T>, r: Result<T, Error<E>>) -> bool {
    match op {
        BusOp::Read { byte: Some(b), .. } => match decode(b) {
            Some(v) => r == Ok::<T, Error<E>>(v),
            None => sensor_failure(r, SensorError::InvalidDiscriminant),
        },
        _ => bus_failure(r),
    }
}

/// The operations `ops` read three samples, each high byte first, from the
/// register pairs `regs`, and `x`, `y`, `z` are those samples.
pub open spec fn axes_ops(ops: Seq<BusOp>, regs: Seq<Bank0>, x: i16, y: i16, z: i16) -> bool {
    &&& ops.len() == 6
    &&& regs.len() == 6
    &&& sample_ops(ops.subrange(0, 2), regs[0].address(), regs[1].address(), x)
    &&& sample_ops(ops.subrange(2, 4), regs[2].address(), regs[3].address(), y)
    &&& sample_ops(ops.subrange(4, 6), regs[4].address(), regs[5].address(), z)
}

/// A read of the clock-ready register that found the clock not running.
pub open spec fn not_ready(op: BusOp) -> bool {
    op matches BusOp::Read { reg, byte: Some(v) } && reg == Bank0::MCLK_RDY.address() && v != 1
}

/// `ops` polled the clock-ready register until it read 1, within the limit.
pub open spec fn clock_ready_ops(ops: Seq<BusOp>) -> bool {
    &&& 1 <= ops.len() <= MCLK_POLL_LIMIT
    &&& forall|i: int| 0 <= i < ops.len() - 1 ==> not_ready(#[trigger] ops[i])
    &&& ops.last().is_read_of(Bank0::MCLK_RDY.address(), 1)
}

/// The operations `ops` and the result `r` of waiting for the clock: reads of
/// the clock-ready register until one reads 1, one fails, or the limit of
/// reads that found the clock stopped is reached.
pub open spec fn clock_poll_ops<E>(ops: Seq<BusOp>, r: Result<(), Error<E>>) -> bool {
    match r {
        Ok(_) => clock_ready_ops(ops),
        Err(e) => {
            ||| {
                &&& e is BusError
                &&& 1 <= ops.len() <= MCLK_POLL_LIMIT
                &&& forall|i: int| 0 <= i < ops.len() - 1 ==> not_ready(#[trigger] ops[i])
                &&& ops.last() == (BusOp::Read { reg: Bank0::MCLK_RDY.address(), byte: None })
            }
            ||| {
                &&& e == Error::<E>::SensorError(SensorError::ClockNotReady)
                &&& ops.len() == MCLK_POLL_LIMIT
                &&& forall|i: int| 0 <= i < ops.len() ==> not_ready(#[trigger] ops[i])
            }
        },
    }
}

/// Both block selectors were written with zero, read side first, as the last
/// two operations of `ops`.
pub open spec fn window_reset(ops: Seq<BusOp>) -> bool {
    &&& ops.len() >= 2
    &&& ops[ops.len() - 2].is_write_of(Bank0::BLK_SEL_R.address(), 0)
    &&& ops[ops.len() - 1].is_write_of(Bank0::BLK_SEL_W.address(), 0)
}

/// A write to `reg` of `value` that succeeded.
pub open spec fn acked_write(reg: Bank0, value: u8) -> BusOp {
    BusOp::Write { reg: reg.address(), value, acked: true }
}

/// The window steps of a read of the register at `addr` in the bank selected
/// by `block` that returned `value`, and the reset that follows them.
pub open spec fn window_read_steps(block: u8, addr: u8, value: u8) -> Seq<BusOp> {
    seq![
        acked_write(Bank0::BLK_SEL_R, block),
        acked_write(Bank0::MADDR_R, addr),
        BusOp::Delay { us: WINDOW_SETTLE_US },
        BusOp::Read { reg: Bank0::M_R.address(), byte: Some(value) },
        BusOp::Delay { us: WINDOW_SETTLE_US },
        acked_write(Bank0::BLK_SEL_R, 0),
        acked_write(Bank0::BLK_SEL_W, 0),
    ]
}

/// The window steps of a write of `value` to the register at `addr` in the
/// bank selected by `block`, and the reset that follows them.
pub open spec fn window_write_steps(block: u8, addr: u8, value: u8) -> Seq<BusOp> {
    seq![
        acked_write(Bank0::BLK_SEL_W, block),
        acked_write(Bank0::MADDR_W, addr),
        acked_write(Bank0::M_W, value),
        BusOp::Delay { us: WINDOW_SETTLE_US },
        acked_write(Bank0::BLK_SEL_R, 0),
        acked_write(Bank0::BLK_SEL_W, 0),
    ]
}

/// The operations `ops` of an extended-bank access that succeeded: the clock
/// was found running, then come exactly the window steps `steps`.
pub open spec fn indirect_success(ops: Seq<BusOp>, steps: Seq<BusOp>) -> bool {
    exists|k: int| 1 <= k <= ops.len() && #[trigger] clock_ready_ops(ops.take(k)) && ops.skip(k) == steps
}

/// An extended-bank access that failed did so because an operation in `ops`
/// failed, or because the clock was never found running.
pub open spec fn indirect_failure<T, E>(ops: Seq<BusOp>, r: Result<T, Error<E>>) -> bool {
    r matches Err(e) ==> {
        ||| e is BusError && exists|i: int| 0 <= i < ops.len() && #[trigger] ops[i].failed()
        ||| {
            &&& e == Error::<E>::SensorError(SensorError::ClockNotReady)
            &&& ops.len() >= MCLK_POLL_LIMIT
            &&& forall|i: int| 0 <= i < MCLK_POLL_LIMIT ==> not_ready(#[trigger] ops[i])
        }
    }
}

} // verus!
