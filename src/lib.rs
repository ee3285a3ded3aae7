//! A driver for the ICM-42670 6-axis IMU from InvenSense.
//!
//! The ICM-42670 combines a 3-axis accelerometer with a 3-axis gyroscope into a
//! single package. The driver reaches the device through a [`RegisterBus`].
//! Every transaction it hands to the bus is recorded, with the device address,
//! register and value passed and what the bus returned, in a ghost log; the
//! operations, settle delays included, are recorded in a ghost trace. The
//! driver's invariant ties the two, and the contracts below speak of both.
use vstd::prelude::*;

pub mod bus;
pub mod config;
pub mod error;
pub mod field;
pub mod register;

verus! {

pub use crate::bus::{BusOp, DelayUs, RegisterBus, Transfer};
pub use crate::config::{
    AccLpAvg,
    AccelDlpfBw,
    AccelOdr,
    AccelRange,
    Address,
    GyroLpFiltBw,
    GyroOdr,
    GyroRange,
    PowerMode,
    SoftReset,
    TempDlpfBw,
};
pub use crate::error::{Error, SensorError};
pub use crate::register::{Bank0, Mreg1, Mreg2, Mreg3, Register, RegisterBank};

use crate::bus::{
    acked_write,
    appended,
    axes_ops,
    bus_failure,
    clock_poll_ops,
    corresponds,
    extends,
    failed_last,
    field_update,
    indirect_failure,
    indirect_success,
    lemma_appended_concat,
    lemma_appended_push,
    lemma_push_op,
    lemma_transfers_concat,
    lifted,
    log_extends,
    not_ready,
    one_read,
    read_decoded,
    sample_ops,
    sample_value,
    sensor_failure,
    transfers,
    update_ops,
    update_sent,
    window_read_steps,
    window_reset,
    window_write_steps,
    MCLK_POLL_LIMIT,
    WINDOW_SETTLE_US,
};
use crate::field::{extract_bits, extracted, merge_bits, merged};

/// Device id of the ICM-42607, the mass-production version of the ICM-42670.
pub const ICM42607_DEVICE_ID: u8 = 0x60;

/// Device id of the ICM-42670.
pub const ICM42670_DEVICE_ID: u8 = 0x67;

/// The identity codes that the driver accepts.
pub open spec fn is_device_id(id: u8) -> bool {
    id == ICM42607_DEVICE_ID || id == ICM42670_DEVICE_ID
}

/// Whether `id` is the identity code of a supported device
pub fn is_known_device_id(id: u8) -> (r: bool)
    ensures
        r == is_device_id(id),
{
    id == ICM42607_DEVICE_ID || id == ICM42670_DEVICE_ID
}

/// Accept the identity code of a supported device, or refuse it with
/// `BadChip`.
pub fn check_identity(id: u8) -> (r: Result<(), SensorError>)
    ensures
        r is Ok <==> is_device_id(id),
        r is Err ==> r == Err::<(), SensorError>(SensorError::BadChip),
{
    if is_known_device_id(id) {
        Ok(())
    } else {
        Err(SensorError::BadChip)
    }
}

/// The read-modify-writes `ops` of bringing up an identified device, all
/// acknowledged: both ranges back to their defaults, then both sensors on in
/// low-noise mode.
pub open spec fn init_writes<E>(ops: Seq<BusOp>) -> bool {
    &&& ops.len() == 6
    &&& update_ops(
        ops.subrange(0, 2),
        AccelRange::REGISTER.address(),
        false,
        AccelRange::BITMASK,
        AccelRange::G16.pattern(),
        Ok::<(), Error<E>>(()),
    )
    &&& update_ops(
        ops.subrange(2, 4),
        GyroRange::REGISTER.address(),
        false,
        GyroRange::BITMASK,
        GyroRange::Deg2000.pattern(),
        Ok::<(), Error<E>>(()),
    )
    &&& update_ops(
        ops.subrange(4, 6),
        PowerMode::REGISTER.address(),
        false,
        PowerMode::BITMASK,
        PowerMode::SixAxisLowNoise.pattern(),
        Ok::<(), Error<E>>(()),
    )
}

/// The operations `ops` and the result `r` of bringing up the device.
///
/// The identity register is read first. A device of another identity is
/// refused before anything is written; an accepted one gets the writes of
/// `init_writes`, stopping at the first that fails.
pub open spec fn init_ops<E>(ops: Seq<BusOp>, r: Result<(), Error<E>>) -> bool {
    &&& ops.len() >= 1
    &&& ops[0] matches BusOp::Read { reg, byte }
    &&& reg == Bank0::WHO_AM_I.address()
    &&& match byte {
        None => ops.len() == 1 && bus_failure(r),
        Some(id) => if !is_device_id(id) {
            ops.len() == 1 && sensor_failure(r, SensorError::BadChip)
        } else {
            &&& r is Ok ==> init_writes::<E>(ops.skip(1))
            &&& r is Err ==> bus_failure(r) && 2 <= ops.len() <= 7 && ops.last().failed()
        },
    }
}

/// Three signed samples, one for each axis.
#[derive(Debug, Clone, Copy, PartialEq, Eq, Structural)]
pub struct I16x3 {
    pub x: i16,
    pub y: i16,
    pub z: i16,
}

/// Combine a big-endian byte pair into a signed 16-bit value.
pub fn sample_from_bytes(hi: u8, lo: u8) -> (r: i16)
    ensures
        r as int == sample_value(hi, lo),
{
    let u: u16 = hi as u16 * 256 + lo as u16;
    if u >= 0x8000 {
        (u as i32 - 0x10000) as i16
    } else {
        u as i16
    }
}

/// ICM-42670 driver
#[derive(Clone, Copy)]
pub struct Icm42670<I2C: RegisterBus> {
    /// Underlying I²C peripheral
    i2c: I2C,
    /// I²C slave address to use
    address: Address,
    /// The operations issued on the bus so far, oldest first
    ops: Ghost<Seq<BusOp>>,
    /// The transactions handed to the bus so far, oldest first
    sent: Ghost<Seq<Transfer<I2C::Error>>>,
}

impl<I2C: RegisterBus> Icm42670<I2C> {
    /// The operations issued on the bus since the driver was created, oldest
    /// first, delays included.
    pub closed spec fn trace(&self) -> Seq<BusOp> {
        self.ops@
    }

    /// The transactions handed to the bus since the driver was created,
    /// oldest first: the device address, register and value passed to the
    /// bus, and what the bus returned.
    pub closed spec fn sent(&self) -> Seq<Transfer<I2C::Error>> {
        self.sent@
    }

    /// The bus address of the device.
    pub closed spec fn device_address(&self) -> Address {
        self.address
    }

    /// The underlying bus.
    pub closed spec fn bus(&self) -> I2C {
        self.i2c
    }

    /// The transactions handed to the bus are, one for one, the operations of
    /// the trace other than delays, each sent to the driver's device.
    pub open spec fn wf(&self) -> bool {
        &&& self.sent().len() == transfers(self.trace()).len()
        &&& forall|i: int|
            0 <= i < self.sent().len() ==> corresponds(
                #[trigger] self.sent()[i],
                transfers(self.trace())[i],
                self.device_address().value(),
            )
    }

    /// `self` is `before` after further operations: the same device, and the
    /// transactions of `before` kept as they were.
    pub open spec fn continues(&self, before: &Self) -> bool {
        &&& self.wf()
        &&& self.device_address() == before.device_address()
        &&& log_extends(before.sent(), self.sent())
    }

    /// The transactions a call handed to the bus are, one for one, the
    /// operations other than delays that it appended to the trace, each sent
    /// to the driver's device.
    pub proof fn lemma_call_transactions(before: &Self, after: &Self)
        requires
            before.wf(),
            after.continues(before),
            extends(before.trace(), after.trace()),
        ensures
            after.sent().len() == before.sent().len() + transfers(appended(before.trace(), after.trace())).len(),
            forall|i: int|
                0 <= i < transfers(appended(before.trace(), after.trace())).len() ==> corresponds(
                    #[trigger] after.sent()[before.sent().len() + i],
                    transfers(appended(before.trace(), after.trace()))[i],
                    after.device_address().value(),
                ),
    {
        let new_ops = appended(before.trace(), after.trace());
        assert(after.trace() =~= before.trace() + new_ops);
        lemma_transfers_concat(before.trace(), new_ops);
        assert forall|i: int| 0 <= i < transfers(new_ops).len() implies corresponds(
            #[trigger] after.sent()[before.sent().len() + i],
            transfers(new_ops)[i],
            after.device_address().value(),
        ) by {
            assert(transfers(after.trace())[before.sent().len() + i] == transfers(new_ops)[i]);
        }
    }

    /// Return the raw interface to the underlying `I2C` instance
    pub fn free(self) -> (r: I2C)
        ensures
            r == self.bus(),
    {
        self.i2c
    }

    /// Instantiate a new instance of the driver and initialize the device
    ///
    /// The device's identity is checked first; a device that is not an
    /// ICM-42607 or ICM-42670 is refused with `BadChip` before anything is
    /// written to it.
    pub fn new(i2c: I2C, address: Address) -> (r: Result<Self, Error<I2C::Error>>)
        ensures
            r matches Ok(d) ==> {
                &&& d.wf()
                &&& d.device_address() == address
                &&& init_ops(d.trace(), Ok::<(), Error<I2C::Error>>(()))
            },
            r matches Err(e) ==> e is BusError || e == Error::<I2C::Error>::SensorError(SensorError::BadChip),
    {
        let mut me = Icm42670 { i2c, address, ops: Ghost(Seq::empty()), sent: Ghost(Seq::empty()) };
        assert(transfers(me.trace()) =~= Seq::<BusOp>::empty());
        match me.init() {
            Ok(()) => {
                assert(appended(Seq::<BusOp>::empty(), me.trace()) =~= me.trace());
                Ok(me)
            },
            Err(e) => Err(e),
        }
    }

    /// Check the device's identity, restore the default ranges and switch
    /// both sensors on.
    ///
    /// A device that is not an ICM-42607 or ICM-42670 is refused with
    /// `BadChip` after the one read of its identity, before anything is
    /// written to it.
    pub fn init(&mut self) -> (r: Result<(), Error<I2C::Error>>)
        requires
            old(self).wf(),
        ensures
            final(self).continues(old(self)),
            extends(old(self).trace(), final(self).trace()),
            init_ops(appended(old(self).trace(), final(self).trace()), r),
    {
        let ghost t0 = self.trace();
        let id = self.device_id();
        let ghost t1 = self.trace();
        proof {
            assert(t1.take(t0.len() as int) =~= t0);
            assert(appended(t0, t1) =~= seq![t1.last()]);
        }
        let id = match id {
            Ok(id) => id,
            Err(e) => return Err(e),
        };
        if let Err(e) = check_identity(id) {
            return Err(Error::from(e));
        }
        // Make sure that any configuration has been restored to the default values when
        // initializing the driver.
        let accel = self.set_accel_range(AccelRange::default());
        let ghost t2 = self.trace();
        proof {
            lemma_appended_concat(t0, t1, t2);
        }
        if let Err(e) = accel {
            return Err(e);
        }
        let gyro = self.set_gyro_range(GyroRange::default());
        let ghost t3 = self.trace();
        proof {
            lemma_appended_concat(t0, t2, t3);
        }
        if let Err(e) = gyro {
            return Err(e);
        }
        // The IMU uses `PowerMode::Sleep` by default, which disables both the accel and
        // gyro, so we enable them both during driver initialization.
        let power = self.set_power_mode(PowerMode::SixAxisLowNoise);
        proof {
            lemma_appended_concat(t0, t3, self.trace());
            if power is Ok {
                let ops = appended(t0, self.trace());
                assert(ops.skip(1).subrange(0, 2) =~= appended(t1, t2));
                assert(ops.skip(1).subrange(2, 4) =~= appended(t2, t3));
                assert(ops.skip(1).subrange(4, 6) =~= appended(t3, self.trace()));
            }
        }
        power
    }

    /// Read a register at the provided address.
    ///
    /// One transaction goes to the device: the register's address is
    /// written, then one byte read back. An error of the transport is passed
    /// on unchanged.
    pub fn read_reg<R: Register>(&mut self, reg: &R) -> (r: Result<u8, Error<I2C::Error>>)
        requires
            old(self).wf(),
        ensures
            final(self).continues(old(self)),
            final(self).sent().len() == old(self).sent().len() + 1,
            final(self).sent().last() matches Transfer::Read { dev, reg: a, result } && dev == old(
                self,
            ).device_address().value() && a == reg.address() && r == lifted(result),
            final(self).trace() == old(self).trace().push(
                BusOp::Read {
                    reg: reg.address(),
                    byte: match r {
                        Ok(b) => Some(b),
                        Err(_) => None,
                    },
                },
            ),
            final(self).trace().drop_last() == old(self).trace(),
            r is Err ==> bus_failure(r),
    {
        let ghost before = self.trace();
        let dev = self.address.as_u8();
        let reg_addr = reg.addr();
        let result = self.i2c.write_read(dev, reg_addr);
        let ghost transfer = Transfer::Read { dev, reg: reg_addr, result };
        let r = match result {
            Ok(b) => {
                self.ops = Ghost(self.ops@.push(BusOp::Read { reg: reg_addr, byte: Some(b) }));
                Ok(b)
            },
            Err(e) => {
                self.ops = Ghost(self.ops@.push(BusOp::Read { reg: reg_addr, byte: None }));
                Err(Error::BusError(e))
            },
        };
        self.sent = Ghost(self.sent@.push(transfer));
        proof {
            lemma_push_op(before, self.trace().last());
            assert(self.trace() == before.push(self.trace().last()));
        }
        assert(self.trace().drop_last() =~= before);
        r
    }

    /// Set a register at the provided address to a given value.
    ///
    /// A read-only register is refused before anything is sent. Otherwise one
    /// transaction writes the register's address and the value to the device;
    /// an error of the transport is passed on unchanged.
    pub fn write_reg<R: Register>(&mut self, reg: &R, value: u8) -> (r: Result<(), Error<I2C::Error>>)
        requires
            old(self).wf(),
        ensures
            final(self).continues(old(self)),
            reg.is_read_only() ==> {
                &&& final(self).trace() == old(self).trace()
                &&& final(self).sent() == old(self).sent()
                &&& sensor_failure(r, SensorError::WriteToReadOnly)
            },
            !reg.is_read_only() ==> {
                &&& final(self).trace() == old(self).trace().push(
                    BusOp::Write { reg: reg.address(), value, acked: r is Ok },
                )
                &&& final(self).sent().len() == old(self).sent().len() + 1
                &&& final(self).sent().last() matches Transfer::Write { dev, reg: a, value: v, outcome }
                &&& dev == old(self).device_address().value()
                &&& a == reg.address()
                &&& v == value
                &&& r == lifted(outcome)
                &&& r is Err ==> bus_failure(r)
            },
    {
        if reg.read_only() {
            Err(Error::SensorError(SensorError::WriteToReadOnly))
        } else {
            let ghost before = self.trace();
            let dev = self.address.as_u8();
            let reg_addr = reg.addr();
            let outcome = self.i2c.write(dev, reg_addr, value);
            let ghost transfer = Transfer::Write { dev, reg: reg_addr, value, outcome };
            let r = match outcome {
                Ok(()) => {
                    self.ops = Ghost(self.ops@.push(BusOp::Write { reg: reg_addr, value, acked: true }));
                    Ok(())
                },
                Err(e) => {
                    self.ops = Ghost(self.ops@.push(BusOp::Write { reg: reg_addr, value, acked: false }));
                    Err(Error::BusError(e))
                },
            };
            self.sent = Ghost(self.sent@.push(transfer));
            proof {
                lemma_push_op(before, self.trace().last());
                assert(self.trace() == before.push(self.trace().last()));
            }
            r
        }
    }

    /// Update the register at the provided address.
    ///
    /// Rather than overwriting any active bits in the register, we first read
    /// in its current value and then update it accordingly using the given
    /// value and mask before writing back the desired value.
    pub fn update_reg<R: Register>(&mut self, reg: &R, mask: u8, bits: u8) -> (r: Result<(), Error<I2C::Error>>)
        requires
            old(self).wf(),
        ensures
            final(self).continues(old(self)),
            extends(old(self).trace(), final(self).trace()),
            update_ops(appended(old(self).trace(), final(self).trace()), reg.address(), reg.is_read_only(), mask, bits, r),
            update_sent(
                final(self).sent().skip(old(self).sent().len() as int),
                old(self).device_address().value(),
                reg.address(),
                reg.is_read_only(),
                mask,
                bits,
                r,
            ),
    {
        let ghost before = self.trace();
        if reg.read_only() {
            assert(appended(before, self.trace()) =~= Seq::<BusOp>::empty());
            assert(self.trace().take(before.len() as int) =~= before);
            Err(Error::SensorError(SensorError::WriteToReadOnly))
        } else {
            match self.read_reg(reg) {
                Ok(current) => {
                    let r = self.write_reg(reg, merge_bits(current, mask, bits));
                    assert(appended(before, self.trace()) =~= seq![
                        BusOp::Read { reg: reg.address(), byte: Some(current) },
                        BusOp::Write { reg: reg.address(), value: merged(current, mask, bits), acked: r is Ok },
                    ]);
                    assert(self.trace().take(before.len() as int) =~= before);
                    r
                },
                Err(e) => {
                    assert(appended(before, self.trace()) =~= seq![BusOp::Read { reg: reg.address(), byte: None }]);
                    assert(self.trace().take(before.len() as int) =~= before);
                    Err(e)
                },
            }
        }
    }

    /// Read two registers and combine them into a single value.
    pub fn read_reg_i16<R: Register>(&mut self, reg_hi: &R, reg_lo: &R) -> (r: Result<i16, Error<I2C::Error>>)
        requires
            old(self).wf(),
        ensures
            final(self).continues(old(self)),
            extends(old(self).trace(), final(self).trace()),
            r matches Ok(s) ==> sample_ops(appended(old(self).trace(), final(self).trace()), reg_hi.address(), reg_lo.address(), s),
            r is Err ==> bus_failure(r) && failed_last(appended(old(self).trace(), final(self).trace()))
                && appended(old(self).trace(), final(self).trace()).len() <= 2,
    {
        let ghost before = self.trace();
        let data_hi = match self.read_reg(reg_hi) {
            Ok(b) => b,
            Err(e) => {
                assert(appended(before, self.trace()) =~= seq![BusOp::Read { reg: reg_hi.address(), byte: None }]);
                assert(self.trace().take(before.len() as int) =~= before);
                return Err(e);
            },
        };
        let data_lo = match self.read_reg(reg_lo) {
            Ok(b) => b,
            Err(e) => {
                assert(appended(before, self.trace()) =~= seq![
                    BusOp::Read { reg: reg_hi.address(), byte: Some(data_hi) },
                    BusOp::Read { reg: reg_lo.address(), byte: None },
                ]);
                assert(self.trace().take(before.len() as int) =~= before);
                return Err(e);
            },
        };
        assert(appended(before, self.trace()) =~= seq![
            BusOp::Read { reg: reg_hi.address(), byte: Some(data_hi) },
            BusOp::Read { reg: reg_lo.address(), byte: Some(data_lo) },
        ]);
        assert(self.trace().take(before.len() as int) =~= before);
        Ok(sample_from_bytes(data_hi, data_lo))
    }

    /// Perform a software-reset on the device
    pub fn soft_reset(&mut self) -> (r: Result<(), Error<I2C::Error>>)
        requires
            old(self).wf(),
        ensures
            final(self).continues(old(self)),
            field_update(old(self).trace(), final(self).trace(), SoftReset::REGISTER, SoftReset::BITMASK, SoftReset::Enabled.pattern(), r),
            update_sent(
                final(self).sent().skip(old(self).sent().len() as int),
                old(self).device_address().value(),
                SoftReset::REGISTER.address(),
                SoftReset::REGISTER.is_read_only(),
                SoftReset::BITMASK,
                SoftReset::Enabled.pattern(),
                r,
            ),
    {
        self.update_reg(&SoftReset::REGISTER, SoftReset::BITMASK, SoftReset::Enabled.bits())
    }
    /// Sets the bandwidth of the temperature signal DLPF (Digital Low Pass
    /// Filter)
    ///
    /// This field can be changed on the fly even if the sensor is
    /// on
    pub fn set_temp_dlpf(&mut self, freq: TempDlpfBw) -> (r: Result<(), Error<I2C::Error>>)
        requires
            old(self).wf(),
        ensures
            final(self).continues(old(self)),
            field_update(old(self).trace(), final(self).trace(), TempDlpfBw::REGISTER, TempDlpfBw::BITMASK, freq.pattern(), r),
            update_sent(
                final(self).sent().skip(old(self).sent().len() as int),
                old(self).device_address().value(),
                TempDlpfBw::REGISTER.address(),
                TempDlpfBw::REGISTER.is_read_only(),
                TempDlpfBw::BITMASK,
                freq.pattern(),
                r,
            ),
    {
        self.update_reg(&TempDlpfBw::REGISTER, TempDlpfBw::BITMASK, freq.bits())
    }
    /// Set the power mode of the IMU
    pub fn set_power_mode(&mut self, mode: PowerMode) -> (r: Result<(), Error<I2C::Error>>)
        requires
            old(self).wf(),
        ensures
            final(self).continues(old(self)),
            field_update(old(self).trace(), final(self).trace(), PowerMode::REGISTER, PowerMode::BITMASK, mode.pattern(), r),
            update_sent(
                final(self).sent().skip(old(self).sent().len() as int),
                old(self).device_address().value(),
                PowerMode::REGISTER.address(),
                PowerMode::REGISTER.is_read_only(),
                PowerMode::BITMASK,
                mode.pattern(),
                r,
            ),
    {
        self.update_reg(&PowerMode::REGISTER, PowerMode::BITMASK, mode.bits())
    }
    /// Set the range of the accelerometer
    pub fn set_accel_range(&mut self, range: AccelRange) -> (r: Result<(), Error<I2C::Error>>)
        requires
            old(self).wf(),
        ensures
            final(self).continues(old(self)),
            field_update(old(self).trace(), final(self).trace(), AccelRange::REGISTER, AccelRange::BITMASK, range.pattern(), r),
            update_sent(
                final(self).sent().skip(old(self).sent().len() as int),
                old(self).device_address().value(),
                AccelRange::REGISTER.address(),
                AccelRange::REGISTER.is_read_only(),
                AccelRange::BITMASK,
                range.pattern(),
                r,
            ),
    {
        self.update_reg(&AccelRange::REGISTER, AccelRange::BITMASK, range.bits())
    }
    /// Set acceleration low-power averaging value.
    ///
    /// This field cannot be changed when the accel sensor is in LPM
    /// (LowPowerMode)
    pub fn set_accel_low_power_avg(&mut self, avg_val: AccLpAvg) -> (r: Result<(), Error<I2C::Error>>)
        requires
            old(self).wf(),
        ensures
            final(self).continues(old(self)),
            field_update(old(self).trace(), final(self).trace(), AccLpAvg::REGISTER, AccLpAvg::BITMASK, avg_val.pattern(), r),
            update_sent(
                final(self).sent().skip(old(self).sent().len() as int),
                old(self).device_address().value(),
                AccLpAvg::REGISTER.address(),
                AccLpAvg::REGISTER.is_read_only(),
                AccLpAvg::BITMASK,
                avg_val.pattern(),
                r,
            ),
    {
        self.update_reg(&AccLpAvg::REGISTER, AccLpAvg::BITMASK, avg_val.bits())
    }
    /// Set the range of the gyro
    pub fn set_gyro_range(&mut self, range: GyroRange) -> (r: Result<(), Error<I2C::Error>>)
        requires
            old(self).wf(),
        ensures
            final(self).continues(old(self)),
            field_update(old(self).trace(), final(self).trace(), GyroRange::REGISTER, GyroRange::BITMASK, range.pattern(), r),
            update_sent(
                final(self).sent().skip(old(self).sent().len() as int),
                old(self).device_address().value(),
                GyroRange::REGISTER.address(),
                GyroRange::REGISTER.is_read_only(),
                GyroRange::BITMASK,
                range.pattern(),
                r,
            ),
    {
        self.update_reg(&GyroRange::REGISTER, GyroRange::BITMASK, range.bits())
    }
    /// Selects GYRO UI low pass filter bandwidth
    ///
    /// This field can be changed on the fly even if gyro sensor is on
    pub fn set_gyro_lp_filter_bandwidth(&mut self, freq: GyroLpFiltBw) -> (r: Result<(), Error<I2C::Error>>)
        requires
            old(self).wf(),
        ensures
            final(self).continues(old(self)),
            field_update(old(self).trace(), final(self).trace(), GyroLpFiltBw::REGISTER, GyroLpFiltBw::BITMASK, freq.pattern(), r),
            update_sent(
                final(self).sent().skip(old(self).sent().len() as int),
                old(self).device_address().value(),
                GyroLpFiltBw::REGISTER.address(),
                GyroLpFiltBw::REGISTER.is_read_only(),
                GyroLpFiltBw::BITMASK,
                freq.pattern(),
                r,
            ),
    {
        self.update_reg(&GyroLpFiltBw::REGISTER, GyroLpFiltBw::BITMASK, freq.bits())
    }
    /// Set the output data rate of the accelerometer
    pub fn set_accel_odr(&mut self, odr: AccelOdr) -> (r: Result<(), Error<I2C::Error>>)
        requires
            old(self).wf(),
        ensures
            final(self).continues(old(self)),
            field_update(old(self).trace(), final(self).trace(), AccelOdr::REGISTER, AccelOdr::BITMASK, odr.pattern(), r),
            update_sent(
                final(self).sent().skip(old(self).sent().len() as int),
                old(self).device_address().value(),
                AccelOdr::REGISTER.address(),
                AccelOdr::REGISTER.is_read_only(),
                AccelOdr::BITMASK,
                odr.pattern(),
                r,
            ),
    {
        self.update_reg(&AccelOdr::REGISTER, AccelOdr::BITMASK, odr.bits())
    }
    /// Selects ACCEL UI low pass filter bandwidth
    ///
    /// This field can be changed on-the-fly even if accel sensor is on
    pub fn set_accel_dlpf_bw(&mut self, dlpf: AccelDlpfBw) -> (r: Result<(), Error<I2C::Error>>)
        requires
            old(self).wf(),
        ensures
            final(self).continues(old(self)),
            field_update(old(self).trace(), final(self).trace(), AccelDlpfBw::REGISTER, AccelDlpfBw::BITMASK, dlpf.pattern(), r),
            update_sent(
                final(self).sent().skip(old(self).sent().len() as int),
                old(self).device_address().value(),
                AccelDlpfBw::REGISTER.address(),
                AccelDlpfBw::REGISTER.is_read_only(),
                AccelDlpfBw::BITMASK,
                dlpf.pattern(),
                r,
            ),
    {
        self.update_reg(&AccelDlpfBw::REGISTER, AccelDlpfBw::BITMASK, dlpf.bits())
    }
    /// Set the output data rate of the gyroscope
    pub fn set_gyro_odr(&mut self, odr: GyroOdr) -> (r: Result<(), Error<I2C::Error>>)
        requires
            old(self).wf(),
        ensures
            final(self).continues(old(self)),
            field_update(old(self).trace(), final(self).trace(), GyroOdr::REGISTER, GyroOdr::BITMASK, odr.pattern(), r),
            update_sent(
                final(self).sent().skip(old(self).sent().len() as int),
                old(self).device_address().value(),
                GyroOdr::REGISTER.address(),
                GyroOdr::REGISTER.is_read_only(),
                GyroOdr::BITMASK,
                odr.pattern(),
                r,
            ),
    {
        self.update_reg(&GyroOdr::REGISTER, GyroOdr::BITMASK, odr.bits())
    }
    /// Return the currently configured power mode
    pub fn power_mode(&mut self) -> (r: Result<PowerMode, Error<I2C::Error>>)
        requires
            old(self).wf(),
        ensures
            final(self).continues(old(self)),
            one_read(old(self).trace(), final(self).trace(), PowerMode::REGISTER),
            final(self).sent().len() == old(self).sent().len() + 1,
            final(self).sent().last() matches Transfer::Read { dev, reg: a, result } && dev == old(
                self,
            ).device_address().value() && a == PowerMode::REGISTER.address() && (result matches Err(e) ==> r is Err
                && r->Err_0 == Error::<I2C::Error>::BusError(e)),
            read_decoded(
                final(self).trace().last(),
                |b: u8| PowerMode::from_code(extracted(b, PowerMode::BITMASK, PowerMode::SHIFT)),
                r,
            ),
    {
        let byte = match self.read_reg(&PowerMode::REGISTER) {
            Ok(b) => b,
            Err(e) => return Err(e),
        };
        match PowerMode::try_from(extract_bits(byte, PowerMode::BITMASK, PowerMode::SHIFT)) {
            Ok(v) => Ok(v),
            Err(e) => Err(Error::from(e)),
        }
    }
    /// Return the currently configured accelerometer range
    pub fn accel_range(&mut self) -> (r: Result<AccelRange, Error<I2C::Error>>)
        requires
            old(self).wf(),
        ensures
            final(self).continues(old(self)),
            one_read(old(self).trace(), final(self).trace(), AccelRange::REGISTER),
            final(self).sent().len() == old(self).sent().len() + 1,
            final(self).sent().last() matches Transfer::Read { dev, reg: a, result } && dev == old(
                self,
            ).device_address().value() && a == AccelRange::REGISTER.address() && (result matches Err(e) ==> r is Err
                && r->Err_0 == Error::<I2C::Error>::BusError(e)),
            read_decoded(
                final(self).trace().last(),
                |b: u8| AccelRange::from_code(extracted(b, AccelRange::BITMASK, AccelRange::SHIFT)),
                r,
            ),
    {
        let byte = match self.read_reg(&AccelRange::REGISTER) {
            Ok(b) => b,
            Err(e) => return Err(e),
        };
        match AccelRange::try_from(extract_bits(byte, AccelRange::BITMASK, AccelRange::SHIFT)) {
            Ok(v) => Ok(v),
            Err(e) => Err(Error::from(e)),
        }
    }
    /// Return the currently configured gyroscope range
    pub fn gyro_range(&mut self) -> (r: Result<GyroRange, Error<I2C::Error>>)
        requires
            old(self).wf(),
        ensures
            final(self).continues(old(self)),
            one_read(old(self).trace(), final(self).trace(), GyroRange::REGISTER),
            final(self).sent().len() == old(self).sent().len() + 1,
            final(self).sent().last() matches Transfer::Read { dev, reg: a, result } && dev == old(
                self,
            ).device_address().value() && a == GyroRange::REGISTER.address() && (result matches Err(e) ==> r is Err
                && r->Err_0 == Error::<I2C::Error>::BusError(e)),
            read_decoded(
                final(self).trace().last(),
                |b: u8| GyroRange::from_code(extracted(b, GyroRange::BITMASK, GyroRange::SHIFT)),
                r,
            ),
    {
        let byte = match self.read_reg(&GyroRange::REGISTER) {
            Ok(b) => b,
            Err(e) => return Err(e),
        };
        match GyroRange::try_from(extract_bits(byte, GyroRange::BITMASK, GyroRange::SHIFT)) {
            Ok(v) => Ok(v),
            Err(e) => Err(Error::from(e)),
        }
    }
    /// Return the currently configured output data rate for the accelerometer
    pub fn accel_odr(&mut self) -> (r: Result<AccelOdr, Error<I2C::Error>>)
        requires
            old(self).wf(),
        ensures
            final(self).continues(old(self)),
            one_read(old(self).trace(), final(self).trace(), AccelOdr::REGISTER),
            final(self).sent().len() == old(self).sent().len() + 1,
            final(self).sent().last() matches Transfer::Read { dev, reg: a, result } && dev == old(
                self,
            ).device_address().value() && a == AccelOdr::REGISTER.address() && (result matches Err(e) ==> r is Err
                && r->Err_0 == Error::<I2C::Error>::BusError(e)),
            read_decoded(
                final(self).trace().last(),
                |b: u8| AccelOdr::from_code(extracted(b, AccelOdr::BITMASK, AccelOdr::SHIFT)),
                r,
            ),
    {
        let byte = match self.read_reg(&AccelOdr::REGISTER) {
            Ok(b) => b,
            Err(e) => return Err(e),
        };
        match AccelOdr::try_from(extract_bits(byte, AccelOdr::BITMASK, AccelOdr::SHIFT)) {
            Ok(v) => Ok(v),
            Err(e) => Err(Error::from(e)),
        }
    }
    /// Return the currently configured output data rate for the gyroscope
    pub fn gyro_odr(&mut self) -> (r: Result<GyroOdr, Error<I2C::Error>>)
        requires
            old(self).wf(),
        ensures
            final(self).continues(old(self)),
            one_read(old(self).trace(), final(self).trace(), GyroOdr::REGISTER),
            final(self).sent().len() == old(self).sent().len() + 1,
            final(self).sent().last() matches Transfer::Read { dev, reg: a, result } && dev == old(
                self,
            ).device_address().value() && a == GyroOdr::REGISTER.address() && (result matches Err(e) ==> r is Err
                && r->Err_0 == Error::<I2C::Error>::BusError(e)),
            read_decoded(
                final(self).trace().last(),
                |b: u8| GyroOdr::from_code(extracted(b, GyroOdr::BITMASK, GyroOdr::SHIFT)),
                r,
            ),
    {
        let byte = match self.read_reg(&GyroOdr::REGISTER) {
            Ok(b) => b,
            Err(e) => return Err(e),
        };
        match GyroOdr::try_from(extract_bits(byte, GyroOdr::BITMASK, GyroOdr::SHIFT)) {
            Ok(v) => Ok(v),
            Err(e) => Err(Error::from(e)),
        }
    }
    /// Read the ID of the connected device
    pub fn device_id(&mut self) -> (r: Result<u8, Error<I2C::Error>>)
        requires
            old(self).wf(),
        ensures
            final(self).continues(old(self)),
            one_read(old(self).trace(), final(self).trace(), Bank0::WHO_AM_I),
            final(self).sent().len() == old(self).sent().len() + 1,
            final(self).sent().last() matches Transfer::Read { dev, reg: a, result } && dev == old(
                self,
            ).device_address().value() && a == Bank0::WHO_AM_I.address() && (result matches Err(e) ==> r is Err
                && r->Err_0 == Error::<I2C::Error>::BusError(e)),
            read_decoded(final(self).trace().last(), |b: u8| Some(b), r),
    {
        self.read_reg(&Bank0::WHO_AM_I)
    }

    /// Read the raw data from the built-in temperature sensor
    pub fn temperature_raw(&mut self) -> (r: Result<i16, Error<I2C::Error>>)
        requires
            old(self).wf(),
        ensures
            final(self).continues(old(self)),
            extends(old(self).trace(), final(self).trace()),
            r matches Ok(s) ==> sample_ops(
                appended(old(self).trace(), final(self).trace()),
                Bank0::TEMP_DATA1.address(),
                Bank0::TEMP_DATA0.address(),
                s,
            ),
            r is Err ==> bus_failure(r) && failed_last(appended(old(self).trace(), final(self).trace())),
    {
        self.read_reg_i16(&Bank0::TEMP_DATA1, &Bank0::TEMP_DATA0)
    }

    /// Read three samples, each from a pair of registers, high byte first.
    fn read_axes(&mut self, regs: [Bank0; 6]) -> (r: Result<I16x3, Error<I2C::Error>>)
        requires
            old(self).wf(),
        ensures
            final(self).continues(old(self)),
            extends(old(self).trace(), final(self).trace()),
            r matches Ok(v) ==> axes_ops(appended(old(self).trace(), final(self).trace()), regs@, v.x, v.y, v.z),
            r is Err ==> bus_failure(r) && appended(old(self).trace(), final(self).trace()).len() >= 1
                && appended(old(self).trace(), final(self).trace()).last().failed(),
    {
        let ghost t0 = self.trace();
        let x = self.read_reg_i16(&regs[0], &regs[1]);
        let ghost t1 = self.trace();
        let x = match x {
            Ok(x) => x,
            Err(e) => return Err(e),
        };
        let y = self.read_reg_i16(&regs[2], &regs[3]);
        let ghost t2 = self.trace();
        proof {
            lemma_appended_concat(t0, t1, t2);
        }
        let y = match y {
            Ok(y) => y,
            Err(e) => return Err(e),
        };
        let z = self.read_reg_i16(&regs[4], &regs[5]);
        proof {
            lemma_appended_concat(t0, t2, self.trace());
        }
        let z = match z {
            Ok(z) => z,
            Err(e) => return Err(e),
        };
        proof {
            let ops = appended(t0, self.trace());
            assert(ops.subrange(0, 2) =~= appended(t0, t1));
            assert(ops.subrange(2, 4) =~= appended(t1, t2));
            assert(ops.subrange(4, 6) =~= appended(t2, self.trace()));
        }
        Ok(I16x3 { x, y, z })
    }

    /// Read the raw gyro data for each of the three axes
    pub fn gyro_raw(&mut self) -> (r: Result<I16x3, Error<I2C::Error>>)
        requires
            old(self).wf(),
        ensures
            final(self).continues(old(self)),
            extends(old(self).trace(), final(self).trace()),
            r matches Ok(v) ==> axes_ops(
                appended(old(self).trace(), final(self).trace()),
                seq![
                    Bank0::GYRO_DATA_X1,
                    Bank0::GYRO_DATA_X0,
                    Bank0::GYRO_DATA_Y1,
                    Bank0::GYRO_DATA_Y0,
                    Bank0::GYRO_DATA_Z1,
                    Bank0::GYRO_DATA_Z0,
                ],
                v.x,
                v.y,
                v.z,
            ),
            r is Err ==> bus_failure(r) && appended(old(self).trace(), final(self).trace()).len() >= 1
                && appended(old(self).trace(), final(self).trace()).last().failed(),
    {
        let regs = [
            Bank0::GYRO_DATA_X1,
            Bank0::GYRO_DATA_X0,
            Bank0::GYRO_DATA_Y1,
            Bank0::GYRO_DATA_Y0,
            Bank0::GYRO_DATA_Z1,
            Bank0::GYRO_DATA_Z0,
        ];
        let r = self.read_axes(regs);
        assert(regs@ =~= seq![
            Bank0::GYRO_DATA_X1,
            Bank0::GYRO_DATA_X0,
            Bank0::GYRO_DATA_Y1,
            Bank0::GYRO_DATA_Y0,
            Bank0::GYRO_DATA_Z1,
            Bank0::GYRO_DATA_Z0,
        ]);
        r
    }

    /// Read the raw accelerometer data for each of the three axes
    pub fn accel_raw(&mut self) -> (r: Result<I16x3, Error<I2C::Error>>)
        requires
            old(self).wf(),
        ensures
            final(self).continues(old(self)),
            extends(old(self).trace(), final(self).trace()),
            r matches Ok(v) ==> axes_ops(
                appended(old(self).trace(), final(self).trace()),
                seq![
                    Bank0::ACCEL_DATA_X1,
                    Bank0::ACCEL_DATA_X0,
                    Bank0::ACCEL_DATA_Y1,
                    Bank0::ACCEL_DATA_Y0,
                    Bank0::ACCEL_DATA_Z1,
                    Bank0::ACCEL_DATA_Z0,
                ],
                v.x,
                v.y,
                v.z,
            ),
            r is Err ==> bus_failure(r) && appended(old(self).trace(), final(self).trace()).len() >= 1
                && appended(old(self).trace(), final(self).trace()).last().failed(),
    {
        let regs = [
            Bank0::ACCEL_DATA_X1,
            Bank0::ACCEL_DATA_X0,
            Bank0::ACCEL_DATA_Y1,
            Bank0::ACCEL_DATA_Y0,
            Bank0::ACCEL_DATA_Z1,
            Bank0::ACCEL_DATA_Z0,
        ];
        let r = self.read_axes(regs);
        assert(regs@ =~= seq![
            Bank0::ACCEL_DATA_X1,
            Bank0::ACCEL_DATA_X0,
            Bank0::ACCEL_DATA_Y1,
            Bank0::ACCEL_DATA_Y0,
            Bank0::ACCEL_DATA_Z1,
            Bank0::ACCEL_DATA_Z0,
        ]);
        r
    }

    /// Read a register of an extended bank through the bank-0 window.
    ///
    /// Once the internal clock runs, the bank and the address are selected,
    /// and the value is read between two settle delays. Both block selectors
    /// are then written back to zero, whatever happened before.
    ///
    /// Sleep mode and the accelerometer's low-power mode with the wake-up
    /// oscillator do not support access to the extended banks.
    pub fn read_mreg<D: DelayUs, R: Register>(&mut self, delay: &mut D, bank: RegisterBank, reg: &R) -> (r: Result<
        u8,
        Error<I2C::Error>,
    >)
        requires
            old(self).wf(),
        ensures
            final(self).continues(old(self)),
            extends(old(self).trace(), final(self).trace()),
            window_reset(appended(old(self).trace(), final(self).trace())),
            r matches Ok(v) ==> indirect_success(
                appended(old(self).trace(), final(self).trace()),
                window_read_steps(bank.block_select(), reg.address(), v),
            ),
            indirect_failure(appended(old(self).trace(), final(self).trace()), r),
    {
        let ghost before = self.trace();
        let ready = self.wait_for_clock();
        let ghost polled = self.trace();
        let result = match ready {
            Ok(()) => self.read_window(delay, bank, reg.addr()),
            Err(e) => Err(e),
        };
        let ghost windowed = self.trace();
        let reset = self.reset_window();
        proof {
            if ready is Err {
                assert(windowed.take(polled.len() as int) =~= polled);
            }
            lemma_appended_concat(before, polled, windowed);
            lemma_appended_concat(before, windowed, self.trace());
            self.lemma_indirect_outcome(before, polled, windowed, ready, result, reset);
            if result is Ok && reset is Ok {
                let ops = appended(before, self.trace());
                let k = appended(before, polled).len() as int;
                assert(ops.take(k) =~= appended(before, polled));
                assert(ops.skip(k) =~= window_read_steps(bank.block_select(), reg.address(), result->Ok_0));
            }
        }
        match result {
            Ok(v) => match reset {
                Ok(()) => Ok(v),
                Err(e) => Err(e),
            },
            Err(e) => Err(e),
        }
    }

    /// Write a register of an extended bank through the bank-0 window.
    ///
    /// A read-only register is refused before anything is sent. Otherwise,
    /// once the internal clock runs, the bank and the address are selected,
    /// the value is written and left to settle. Both block selectors are then
    /// written back to zero, whatever happened before.
    ///
    /// Sleep mode and the accelerometer's low-power mode with the wake-up
    /// oscillator do not support access to the extended banks.
    pub fn write_mreg<D: DelayUs, R: Register>(
        &mut self,
        delay: &mut D,
        bank: RegisterBank,
        reg: &R,
        value: u8,
    ) -> (r: Result<(), Error<I2C::Error>>)
        requires
            old(self).wf(),
        ensures
            final(self).continues(old(self)),
            reg.is_read_only() ==> final(self).trace() == old(self).trace() && sensor_failure(
                r,
                SensorError::WriteToReadOnly,
            ),
            !reg.is_read_only() ==> {
                &&& extends(old(self).trace(), final(self).trace())
                &&& window_reset(appended(old(self).trace(), final(self).trace()))
                &&& r is Ok ==> indirect_success(
                    appended(old(self).trace(), final(self).trace()),
                    window_write_steps(bank.block_select(), reg.address(), value),
                )
                &&& indirect_failure(appended(old(self).trace(), final(self).trace()), r)
            },
    {
        if reg.read_only() {
            return Err(Error::SensorError(SensorError::WriteToReadOnly));
        }
        let ghost before = self.trace();
        let ready = self.wait_for_clock();
        let ghost polled = self.trace();
        let result = match ready {
            Ok(()) => self.write_window(delay, bank, reg.addr(), value),
            Err(e) => Err(e),
        };
        let ghost windowed = self.trace();
        let reset = self.reset_window();
        proof {
            if ready is Err {
                assert(windowed.take(polled.len() as int) =~= polled);
            }
            lemma_appended_concat(before, polled, windowed);
            lemma_appended_concat(before, windowed, self.trace());
            self.lemma_indirect_outcome(before, polled, windowed, ready, result, reset);
            if result is Ok && reset is Ok {
                let ops = appended(before, self.trace());
                let k = appended(before, polled).len() as int;
                assert(ops.take(k) =~= appended(before, polled));
                assert(ops.skip(k) =~= window_write_steps(bank.block_select(), reg.address(), value));
            }
        }
        match result {
            Ok(()) => reset,
            Err(e) => Err(e),
        }
    }

    /// The outcome of an extended-bank access, put together from its poll,
    /// its window steps and its reset.
    proof fn lemma_indirect_outcome<T>(
        &self,
        before: Seq<BusOp>,
        polled: Seq<BusOp>,
        windowed: Seq<BusOp>,
        ready: Result<(), Error<I2C::Error>>,
        result: Result<T, Error<I2C::Error>>,
        reset: Result<(), Error<I2C::Error>>,
    )
        requires
            extends(before, polled),
            extends(polled, windowed),
            extends(windowed, self.trace()),
            appended(before, self.trace()) == appended(before, polled) + appended(polled, windowed)
                + appended(windowed, self.trace()),
            clock_poll_ops(appended(before, polled), ready),
            ready is Err ==> windowed == polled && result == Err::<T, Error<I2C::Error>>(ready->Err_0),
            ready is Ok ==> (result is Err ==> bus_failure(result) && appended(polled, windowed).len() >= 1
                && appended(polled, windowed).last().failed()),
            appended(windowed, self.trace()).len() == 2,
            window_reset(appended(windowed, self.trace())),
            reset is Err ==> bus_failure(reset) && (appended(windowed, self.trace())[0].failed()
                || appended(windowed, self.trace())[1].failed()),
        ensures
            window_reset(appended(before, self.trace())),
            indirect_failure(
                appended(before, self.trace()),
                match result {
                    Ok(v) => match reset {
                        Ok(()) => Ok::<T, Error<I2C::Error>>(v),
                        Err(e) => Err(e),
                    },
                    Err(e) => Err(e),
                },
            ),
    {
        let ops = appended(before, self.trace());
        let p = appended(before, polled);
        let w = appended(polled, windowed);
        let z = appended(windowed, self.trace());
        assert(ops[ops.len() - 2] == z[0]);
        assert(ops[ops.len() - 1] == z[1]);
        if ready is Err {
            assert(w =~= Seq::<BusOp>::empty());
            if ready->Err_0 is BusError {
                assert(ops[p.len() - 1] == p.last());
                assert(ops[p.len() - 1].failed());
            } else {
                assert forall|i: int| 0 <= i < MCLK_POLL_LIMIT implies not_ready(#[trigger] ops[i]) by {
                    assert(ops[i] == p[i]);
                }
            }
        } else if result is Err {
            assert(ops[p.len() + w.len() - 1] == w.last());
            assert(ops[p.len() + w.len() - 1].failed());
        } else if reset is Err {
            if z[0].failed() {
                assert(ops[ops.len() - 2].failed());
            } else {
                assert(ops[ops.len() - 1].failed());
            }
        }
    }

    /// Wait the settle time of the window registers.
    fn settle<D: DelayUs>(&mut self, delay: &mut D)
        requires
            old(self).wf(),
        ensures
            final(self).continues(old(self)),
            final(self).trace() == old(self).trace().push(BusOp::Delay { us: WINDOW_SETTLE_US }),
    {
        let ghost before = self.trace();
        delay.delay_us(WINDOW_SETTLE_US);
        self.ops = Ghost(self.ops@.push(BusOp::Delay { us: WINDOW_SETTLE_US }));
        proof {
            lemma_push_op(before, BusOp::Delay { us: WINDOW_SETTLE_US });
        }
    }

    /// Poll the clock-ready register until the internal clock runs, at most
    /// `MCLK_POLL_LIMIT` times.
    fn wait_for_clock(&mut self) -> (r: Result<(), Error<I2C::Error>>)
        requires
            old(self).wf(),
        ensures
            final(self).continues(old(self)),
            extends(old(self).trace(), final(self).trace()),
            clock_poll_ops(appended(old(self).trace(), final(self).trace()), r),
    {
        let ghost before = self.trace();
        let mut polls: u32 = 0;
        assert(appended(before, self.trace()) =~= Seq::<BusOp>::empty());
        assert(self.trace().take(before.len() as int) =~= before);
        while polls < MCLK_POLL_LIMIT
            invariant
                polls <= MCLK_POLL_LIMIT,
                before == old(self).trace(),
                self.continues(old(self)),
                extends(before, self.trace()),
                appended(before, self.trace()).len() == polls,
                forall|i: int| 0 <= i < polls ==> not_ready(#[trigger] appended(before, self.trace())[i]),
            decreases MCLK_POLL_LIMIT - polls,
        {
            let ghost prev = self.trace();
            let res = self.read_reg(&Bank0::MCLK_RDY);
            proof {
                lemma_appended_push(before, prev, self.trace().last());
                assert(self.trace() == prev.push(self.trace().last()));
            }
            match res {
                Ok(v) => {
                    if v == 1 {
                        return Ok(());
                    }
                },
                Err(e) => {
                    return Err(e);
                },
            }
            polls = polls + 1;
        }
        Err(Error::SensorError(SensorError::ClockNotReady))
    }

    /// Write both block selectors back to zero, read side first; the second
    /// write is attempted whatever became of the first.
    fn reset_window(&mut self) -> (r: Result<(), Error<I2C::Error>>)
        requires
            old(self).wf(),
        ensures
            final(self).continues(old(self)),
            extends(old(self).trace(), final(self).trace()),
            appended(old(self).trace(), final(self).trace()).len() == 2,
            window_reset(appended(old(self).trace(), final(self).trace())),
            r is Ok ==> appended(old(self).trace(), final(self).trace()) == seq![
                acked_write(Bank0::BLK_SEL_R, 0),
                acked_write(Bank0::BLK_SEL_W, 0),
            ],
            r is Err ==> bus_failure(r) && (appended(old(self).trace(), final(self).trace())[0].failed()
                || appended(old(self).trace(), final(self).trace())[1].failed()),
    {
        let ghost before = self.trace();
        let read_side = self.write_reg(&Bank0::BLK_SEL_R, 0);
        let write_side = self.write_reg(&Bank0::BLK_SEL_W, 0);
        assert(self.trace().take(before.len() as int) =~= before);
        assert(appended(before, self.trace()) =~= seq![
            BusOp::Write { reg: Bank0::BLK_SEL_R.address(), value: 0, acked: read_side is Ok },
            BusOp::Write { reg: Bank0::BLK_SEL_W.address(), value: 0, acked: write_side is Ok },
        ]);
        match read_side {
            Err(e) => Err(e),
            Ok(()) => write_side,
        }
    }

    /// The window steps of an extended-bank read: select the bank and the
    /// address, let the window settle, read, and settle again.
    fn read_window<D: DelayUs>(&mut self, delay: &mut D, bank: RegisterBank, addr: u8) -> (r: Result<u8, Error<I2C::Error>>)
        requires
            old(self).wf(),
        ensures
            final(self).continues(old(self)),
            extends(old(self).trace(), final(self).trace()),
            r matches Ok(v) ==> appended(old(self).trace(), final(self).trace()) == window_read_steps(bank.block_select(), addr, v).take(5),
            r is Err ==> bus_failure(r) && appended(old(self).trace(), final(self).trace()).len() >= 1
                && appended(old(self).trace(), final(self).trace()).last().failed(),
    {
        let ghost before = self.trace();
        let selected = self.write_reg(&Bank0::BLK_SEL_R, bank.blk_sel());
        if let Err(e) = selected {
            assert(self.trace().take(before.len() as int) =~= before);
            assert(appended(before, self.trace()) =~= seq![self.trace().last()]);
            return Err(e);
        }
        let addressed = self.write_reg(&Bank0::MADDR_R, addr);
        if let Err(e) = addressed {
            assert(self.trace().take(before.len() as int) =~= before);
            assert(appended(before, self.trace()) =~= seq![acked_write(Bank0::BLK_SEL_R, bank.block_select()), self.trace().last()]);
            return Err(e);
        }
        self.settle(delay);
        let value = match self.read_reg(&Bank0::M_R) {
            Ok(v) => v,
            Err(e) => {
                assert(self.trace().take(before.len() as int) =~= before);
                assert(appended(before, self.trace()) =~= seq![
                    acked_write(Bank0::BLK_SEL_R, bank.block_select()),
                    acked_write(Bank0::MADDR_R, addr),
                    BusOp::Delay { us: WINDOW_SETTLE_US },
                    self.trace().last(),
                ]);
                return Err(e);
            },
        };
        self.settle(delay);
        assert(self.trace().take(before.len() as int) =~= before);
        assert(appended(before, self.trace()) =~= window_read_steps(bank.block_select(), addr, value).take(5));
        Ok(value)
    }

    /// The window steps of an extended-bank write: select the bank and the
    /// address, write the value, and let the window settle.
    fn write_window<D: DelayUs>(&mut self, delay: &mut D, bank: RegisterBank, addr: u8, value: u8) -> (r: Result<(), Error<I2C::Error>>)
        requires
            old(self).wf(),
        ensures
            final(self).continues(old(self)),
            extends(old(self).trace(), final(self).trace()),
            r is Ok ==> appended(old(self).trace(), final(self).trace()) == window_write_steps(bank.block_select(), addr, value).take(4),
            r is Err ==> bus_failure(r) && appended(old(self).trace(), final(self).trace()).len() >= 1
                && appended(old(self).trace(), final(self).trace()).last().failed(),
    {
        let ghost before = self.trace();
        let selected = self.write_reg(&Bank0::BLK_SEL_W, bank.blk_sel());
        if let Err(e) = selected {
            assert(self.trace().take(before.len() as int) =~= before);
            assert(appended(before, self.trace()) =~= seq![self.trace().last()]);
            return Err(e);
        }
        let addressed = self.write_reg(&Bank0::MADDR_W, addr);
        if let Err(e) = addressed {
            assert(self.trace().take(before.len() as int) =~= before);
            assert(appended(before, self.trace()) =~= seq![acked_write(Bank0::BLK_SEL_W, bank.block_select()), self.trace().last()]);
            return Err(e);
        }
        let written = self.write_reg(&Bank0::M_W, value);
        if let Err(e) = written {
            assert(self.trace().take(before.len() as int) =~= before);
            assert(appended(before, self.trace()) =~= seq![
                acked_write(Bank0::BLK_SEL_W, bank.block_select()),
                acked_write(Bank0::MADDR_W, addr),
                self.trace().last(),
            ]);
            return Err(e);
        }
        self.settle(delay);
        assert(self.trace().take(before.len() as int) =~= before);
        assert(appended(before, self.trace()) =~= window_write_steps(bank.block_select(), addr, value).take(4));
        Ok(())
    }
}

} // verus!
