use std::cell::RefCell;
use std::rc::Rc;

use icm42670::register::{Bank0, Mreg1, Mreg3, RegisterBank};
use icm42670::{
    sample_from_bytes, AccLpAvg, AccelDlpfBw, AccelOdr, AccelRange, Address, DelayUs, Error,
    GyroLpFiltBw, GyroOdr, GyroRange, Icm42670, PowerMode, RegisterBus, SensorError, TempDlpfBw,
};

#[derive(Debug, Clone, Copy, PartialEq)]
enum Op {
    WriteRead(u8, u8),
    Write(u8, u8, u8),
}

#[derive(Debug)]
struct BusFault;

struct State {
    regs: [u8; 256],
    ext: [[u8; 256]; 3],
    log: Vec<Op>,
    fail_read_of: Option<u8>,
    fail_write_of: Option<u8>,
}

#[derive(Clone)]
struct SimBus(Rc<RefCell<State>>);

fn bank_index(code: u8) -> usize {
    match code {
        0x00 => 0,
        0x28 => 1,
        0x50 => 2,
        _ => panic!("unknown block select code {code:#x}"),
    }
}

impl SimBus {
    fn new(id: u8) -> SimBus {
        let mut regs = [0u8; 256];
        regs[0x75] = id;
        regs[0x00] = 1;
        SimBus(Rc::new(RefCell::new(State {
            regs,
            ext: [[0u8; 256]; 3],
            log: Vec::new(),
            fail_read_of: None,
            fail_write_of: None,
        })))
    }

    fn log(&self) -> Vec<Op> {
        self.0.borrow().log.clone()
    }

    fn clear_log(&self) {
        self.0.borrow_mut().log.clear();
    }

    fn reg(&self, addr: u8) -> u8 {
        self.0.borrow().regs[addr as usize]
    }

    fn set_reg(&self, addr: u8, value: u8) {
        self.0.borrow_mut().regs[addr as usize] = value;
    }
}

impl RegisterBus for SimBus {
    type Error = BusFault;

    fn write_read(&mut self, address: u8, register: u8) -> Result<u8, BusFault> {
        let mut s = self.0.borrow_mut();
        s.log.push(Op::WriteRead(address, register));
        if s.fail_read_of == Some(register) {
            return Err(BusFault);
        }
        if register == 0x7E {
            let bank = bank_index(s.regs[0x7C]);
            let addr = s.regs[0x7D] as usize;
            return Ok(s.ext[bank][addr]);
        }
        Ok(s.regs[register as usize])
    }

    fn write(&mut self, address: u8, register: u8, value: u8) -> Result<(), BusFault> {
        let mut s = self.0.borrow_mut();
        s.log.push(Op::Write(address, register, value));
        if s.fail_write_of == Some(register) {
            return Err(BusFault);
        }
        if register == 0x7B {
            let bank = bank_index(s.regs[0x79]);
            let addr = s.regs[0x7A] as usize;
            s.ext[bank][addr] = value;
        } else {
            s.regs[register as usize] = value;
        }
        Ok(())
    }
}

struct CountingDelay(Vec<u32>);

impl DelayUs for CountingDelay {
    fn delay_us(&mut self, us: u32) {
        self.0.push(us);
    }
}

fn device(bus: &SimBus) -> Icm42670<SimBus> {
    let dev = Icm42670::new(bus.clone(), Address::Primary).unwrap();
    bus.clear_log();
    dev
}

#[test]
fn construction_rejects_unknown_identity() {
    let bus = SimBus::new(0x42);
    let result = Icm42670::new(bus.clone(), Address::Primary);
    assert!(matches!(result, Err(Error::SensorError(SensorError::BadChip))));
    assert_eq!(bus.log(), vec![Op::WriteRead(0x68, 0x75)]);
}

#[test]
fn construction_accepts_both_identities() {
    for id in [0x60u8, 0x67u8] {
        let bus = SimBus::new(id);
        assert!(Icm42670::new(bus.clone(), Address::Secondary).is_ok());
        assert_eq!(bus.log()[0], Op::WriteRead(0x69, 0x75));
    }
}

#[test]
fn construction_restores_defaults_and_enables_sensors() {
    let bus = SimBus::new(0x67);
    bus.set_reg(0x21, 0b0110_0110);
    bus.set_reg(0x20, 0b0100_0111);
    bus.set_reg(0x1F, 0b1010_0000);
    let _dev = Icm42670::new(bus.clone(), Address::Primary).unwrap();
    assert_eq!(bus.reg(0x21), 0b0000_0110);
    assert_eq!(bus.reg(0x20), 0b0000_0111);
    assert_eq!(bus.reg(0x1F), 0b1010_1111);
    assert_eq!(
        bus.log(),
        vec![
            Op::WriteRead(0x68, 0x75),
            Op::WriteRead(0x68, 0x21),
            Op::Write(0x68, 0x21, 0b0000_0110),
            Op::WriteRead(0x68, 0x20),
            Op::Write(0x68, 0x20, 0b0000_0111),
            Op::WriteRead(0x68, 0x1F),
            Op::Write(0x68, 0x1F, 0b1010_1111),
        ]
    );
}

#[test]
fn construction_reports_bus_failure() {
    let bus = SimBus::new(0x67);
    bus.0.borrow_mut().fail_read_of = Some(0x75);
    let result = Icm42670::new(bus.clone(), Address::Primary);
    assert!(matches!(result, Err(Error::BusError(BusFault))));
}

#[test]
fn accel_range_round_trip_uses_one_read_and_one_write() {
    let bus = SimBus::new(0x67);
    let mut dev = device(&bus);
    dev.set_accel_range(AccelRange::G2).unwrap();
    assert_eq!(
        bus.log(),
        vec![Op::WriteRead(0x68, 0x21), Op::Write(0x68, 0x21, bus.reg(0x21))]
    );
    assert_eq!(dev.accel_range().unwrap(), AccelRange::G2);
}

#[test]
fn setting_range_keeps_output_data_rate() {
    let bus = SimBus::new(0x67);
    let mut dev = device(&bus);
    dev.set_accel_odr(AccelOdr::Hz25).unwrap();
    dev.set_accel_range(AccelRange::G4).unwrap();
    assert_eq!(dev.accel_odr().unwrap(), AccelOdr::Hz25);
    assert_eq!(dev.accel_range().unwrap(), AccelRange::G4);
    dev.set_accel_odr(AccelOdr::Hz1_5625).unwrap();
    assert_eq!(dev.accel_range().unwrap(), AccelRange::G4);
    assert_eq!(bus.reg(0x21), 0b0100_1111);
}

#[test]
fn gyro_settings_share_register_without_interference() {
    let bus = SimBus::new(0x60);
    let mut dev = device(&bus);
    dev.set_gyro_odr(GyroOdr::Hz12_5).unwrap();
    dev.set_gyro_range(GyroRange::Deg250).unwrap();
    assert_eq!(dev.gyro_odr().unwrap(), GyroOdr::Hz12_5);
    assert_eq!(dev.gyro_range().unwrap(), GyroRange::Deg250);
    assert_eq!(bus.reg(0x20), 0b0110_1100);
}

#[test]
fn filter_settings_preserve_sibling_fields() {
    let bus = SimBus::new(0x67);
    let mut dev = device(&bus);
    bus.set_reg(0x24, 0b1000_0000);
    dev.set_accel_low_power_avg(AccLpAvg::X64).unwrap();
    dev.set_accel_dlpf_bw(AccelDlpfBw::Hz16).unwrap();
    assert_eq!(bus.reg(0x24), 0b1101_0111);
    dev.set_accel_low_power_avg(AccLpAvg::X2).unwrap();
    assert_eq!(bus.reg(0x24), 0b1000_0111);

    bus.set_reg(0x22, 0b1000_1111);
    dev.set_temp_dlpf(TempDlpfBw::Hz4).unwrap();
    assert_eq!(bus.reg(0x22), 0b1110_1111);

    bus.set_reg(0x23, 0b1111_1000);
    dev.set_gyro_lp_filter_bandwidth(GyroLpFiltBw::Hz73).unwrap();
    assert_eq!(bus.reg(0x23), 0b1111_1011);
}

#[test]
fn power_mode_round_trip() {
    let bus = SimBus::new(0x67);
    let mut dev = device(&bus);
    assert_eq!(dev.power_mode().unwrap(), PowerMode::SixAxisLowNoise);
    dev.set_power_mode(PowerMode::AccelLowPower).unwrap();
    assert_eq!(dev.power_mode().unwrap(), PowerMode::AccelLowPower);
    dev.set_power_mode(PowerMode::Sleep).unwrap();
    assert_eq!(dev.power_mode().unwrap(), PowerMode::Sleep);
}

#[test]
fn power_mode_rejects_undefined_pattern() {
    let bus = SimBus::new(0x67);
    let mut dev = device(&bus);
    bus.set_reg(0x1F, 0b0000_0001);
    assert!(matches!(
        dev.power_mode(),
        Err(Error::SensorError(SensorError::InvalidDiscriminant))
    ));
}

#[test]
fn odr_getters_reject_undefined_pattern() {
    let bus = SimBus::new(0x67);
    let mut dev = device(&bus);
    bus.set_reg(0x21, 0b0000_0011);
    assert!(matches!(
        dev.accel_odr(),
        Err(Error::SensorError(SensorError::InvalidDiscriminant))
    ));
    bus.set_reg(0x20, 0b0000_1101);
    assert!(matches!(
        dev.gyro_odr(),
        Err(Error::SensorError(SensorError::InvalidDiscriminant))
    ));
}

#[test]
fn range_getter_ignores_bits_outside_its_field() {
    let bus = SimBus::new(0x67);
    let mut dev = device(&bus);
    bus.set_reg(0x21, 0b1010_0000);
    assert_eq!(dev.accel_range().unwrap(), AccelRange::G8);
}

#[test]
fn write_to_read_only_issues_nothing() {
    let bus = SimBus::new(0x67);
    let mut dev = device(&bus);
    assert!(matches!(
        dev.write_reg(&Bank0::WHO_AM_I, 0x12),
        Err(Error::SensorError(SensorError::WriteToReadOnly))
    ));
    assert!(matches!(
        dev.update_reg(&Bank0::TEMP_DATA1, 0xFF, 0x01),
        Err(Error::SensorError(SensorError::WriteToReadOnly))
    ));
    let mut delay = CountingDelay(Vec::new());
    assert!(matches!(
        dev.write_mreg(&mut delay, RegisterBank::MReg3, &Mreg3::XA_ST_DATA, 7),
        Err(Error::SensorError(SensorError::WriteToReadOnly))
    ));
    assert!(bus.log().is_empty());
    assert!(delay.0.is_empty());
}

#[test]
fn write_reg_sends_address_and_value() {
    let bus = SimBus::new(0x67);
    let mut dev = device(&bus);
    dev.write_reg(&Bank0::INT_CONFIG, 0x5A).unwrap();
    assert_eq!(bus.log(), vec![Op::Write(0x68, 0x06, 0x5A)]);
}

#[test]
fn read_i16_assembles_big_endian() {
    let bus = SimBus::new(0x67);
    let mut dev = device(&bus);
    bus.set_reg(0x09, 0x01);
    bus.set_reg(0x0A, 0x00);
    assert_eq!(dev.read_reg_i16(&Bank0::TEMP_DATA1, &Bank0::TEMP_DATA0).unwrap(), 256);
    assert_eq!(bus.log(), vec![Op::WriteRead(0x68, 0x09), Op::WriteRead(0x68, 0x0A)]);
    bus.set_reg(0x09, 0xFF);
    bus.set_reg(0x0A, 0xFF);
    assert_eq!(dev.temperature_raw().unwrap(), -1);
}

#[test]
fn sample_from_bytes_values() {
    assert_eq!(sample_from_bytes(0x01, 0x00), 256);
    assert_eq!(sample_from_bytes(0xFF, 0xFF), -1);
    assert_eq!(sample_from_bytes(0x80, 0x00), i16::MIN);
    assert_eq!(sample_from_bytes(0x7F, 0xFF), i16::MAX);
    assert_eq!(sample_from_bytes(0x12, 0x34), 0x1234);
}

#[test]
fn raw_axes_read_in_order() {
    let bus = SimBus::new(0x67);
    let mut dev = device(&bus);
    for (i, addr) in (0x0Bu8..=0x16).enumerate() {
        bus.set_reg(addr, i as u8 + 1);
    }
    let accel = dev.accel_raw().unwrap();
    assert_eq!((accel.x, accel.y, accel.z), (0x0102, 0x0304, 0x0506));
    let gyro = dev.gyro_raw().unwrap();
    assert_eq!((gyro.x, gyro.y, gyro.z), (0x0708, 0x090A, 0x0B0C));
    let reads: Vec<Op> = (0x0Bu8..=0x16).map(|a| Op::WriteRead(0x68, a)).collect();
    assert_eq!(bus.log(), reads);
}

#[test]
fn raw_axes_stop_at_bus_failure() {
    let bus = SimBus::new(0x67);
    let mut dev = device(&bus);
    bus.0.borrow_mut().fail_read_of = Some(0x14);
    assert!(matches!(dev.gyro_raw(), Err(Error::BusError(BusFault))));
    assert_eq!(bus.log().len(), 4);
}

#[test]
fn device_id_reads_identity() {
    let bus = SimBus::new(0x60);
    let mut dev = device(&bus);
    assert_eq!(dev.device_id().unwrap(), 0x60);
}

#[test]
fn soft_reset_clears_its_bit_only() {
    let bus = SimBus::new(0x67);
    let mut dev = device(&bus);
    bus.set_reg(0x02, 0b0001_0100);
    dev.soft_reset().unwrap();
    assert_eq!(bus.reg(0x02), 0b0000_0100);
}

#[test]
fn update_reg_propagates_write_failure() {
    let bus = SimBus::new(0x67);
    let mut dev = device(&bus);
    bus.0.borrow_mut().fail_write_of = Some(0x21);
    assert!(matches!(dev.set_accel_range(AccelRange::G8), Err(Error::BusError(BusFault))));
    assert_eq!(bus.log().len(), 2);
}

#[test]
fn read_mreg_follows_window_protocol() {
    let bus = SimBus::new(0x67);
    let mut dev = device(&bus);
    bus.0.borrow_mut().ext[0][0x14] = 0xA5;
    let mut delay = CountingDelay(Vec::new());
    let value = dev.read_mreg(&mut delay, RegisterBank::MReg1, &Mreg1::SELFTEST).unwrap();
    assert_eq!(value, 0xA5);
    assert_eq!(
        bus.log(),
        vec![
            Op::WriteRead(0x68, 0x00),
            Op::Write(0x68, 0x7C, 0x00),
            Op::Write(0x68, 0x7D, 0x14),
            Op::WriteRead(0x68, 0x7E),
            Op::Write(0x68, 0x7C, 0x00),
            Op::Write(0x68, 0x79, 0x00),
        ]
    );
    assert_eq!(delay.0, vec![10, 10]);
}

#[test]
fn write_mreg_follows_window_protocol() {
    let bus = SimBus::new(0x67);
    let mut dev = device(&bus);
    let mut delay = CountingDelay(Vec::new());
    dev.write_mreg(&mut delay, RegisterBank::MReg3, &Mreg1::INT_CONFIG0, 0x3C).unwrap();
    assert_eq!(bus.0.borrow().ext[2][0x04], 0x3C);
    assert_eq!(
        bus.log(),
        vec![
            Op::WriteRead(0x68, 0x00),
            Op::Write(0x68, 0x79, 0x50),
            Op::Write(0x68, 0x7A, 0x04),
            Op::Write(0x68, 0x7B, 0x3C),
            Op::Write(0x68, 0x7C, 0x00),
            Op::Write(0x68, 0x79, 0x00),
        ]
    );
    assert_eq!(delay.0, vec![10]);
}

#[test]
fn window_is_reset_after_failed_read() {
    let bus = SimBus::new(0x67);
    let mut dev = device(&bus);
    bus.0.borrow_mut().fail_read_of = Some(0x7E);
    let mut delay = CountingDelay(Vec::new());
    let result = dev.read_mreg(&mut delay, RegisterBank::MReg2, &Mreg1::FSYNC_CONFIG);
    assert!(matches!(result, Err(Error::BusError(BusFault))));
    let log = bus.log();
    assert_eq!(log[log.len() - 2], Op::Write(0x68, 0x7C, 0x00));
    assert_eq!(log[log.len() - 1], Op::Write(0x68, 0x79, 0x00));
    assert_eq!(bus.reg(0x7C), 0x00);
}

#[test]
fn window_is_reset_after_failed_write() {
    let bus = SimBus::new(0x67);
    let mut dev = device(&bus);
    bus.0.borrow_mut().fail_write_of = Some(0x7B);
    let mut delay = CountingDelay(Vec::new());
    let result = dev.write_mreg(&mut delay, RegisterBank::MReg2, &Mreg1::FSYNC_CONFIG, 1);
    assert!(matches!(result, Err(Error::BusError(BusFault))));
    let log = bus.log();
    assert_eq!(log[log.len() - 2], Op::Write(0x68, 0x7C, 0x00));
    assert_eq!(log[log.len() - 1], Op::Write(0x68, 0x79, 0x00));
    assert_eq!(bus.reg(0x79), 0x00);
}

#[test]
fn clock_poll_gives_up_and_still_resets_window() {
    let bus = SimBus::new(0x67);
    let mut dev = device(&bus);
    bus.set_reg(0x00, 0);
    let mut delay = CountingDelay(Vec::new());
    let result = dev.read_mreg(&mut delay, RegisterBank::MReg1, &Mreg1::SELFTEST);
    assert!(matches!(result, Err(Error::SensorError(SensorError::ClockNotReady))));
    let log = bus.log();
    assert_eq!(log.len(), 1000 + 2);
    assert!(log[..1000].iter().all(|op| *op == Op::WriteRead(0x68, 0x00)));
    assert_eq!(log[1000], Op::Write(0x68, 0x7C, 0x00));
    assert_eq!(log[1001], Op::Write(0x68, 0x79, 0x00));
    assert!(delay.0.is_empty());
}

#[test]
fn free_returns_bus() {
    let bus = SimBus::new(0x67);
    let dev = device(&bus);
    let returned = dev.free();
    assert!(Rc::ptr_eq(&returned.0, &bus.0));
}

#[test]
fn init_refuses_replaced_chip_without_writing() {
    let bus = SimBus::new(0x67);
    let mut dev = device(&bus);
    bus.set_reg(0x75, 0x12);
    bus.set_reg(0x21, 0b0110_0101);
    assert!(matches!(dev.init(), Err(Error::SensorError(SensorError::BadChip))));
    assert_eq!(bus.log(), vec![Op::WriteRead(0x68, 0x75)]);
    assert_eq!(bus.reg(0x21), 0b0110_0101);
}

#[test]
fn init_restores_defaults_on_running_device() {
    let bus = SimBus::new(0x60);
    let mut dev = device(&bus);
    dev.set_accel_range(AccelRange::G2).unwrap();
    dev.set_gyro_range(GyroRange::Deg250).unwrap();
    dev.set_power_mode(PowerMode::Sleep).unwrap();
    dev.init().unwrap();
    assert_eq!(dev.accel_range().unwrap(), AccelRange::G16);
    assert_eq!(dev.gyro_range().unwrap(), GyroRange::Deg2000);
    assert_eq!(dev.power_mode().unwrap(), PowerMode::SixAxisLowNoise);
}

#[test]
fn secondary_address_is_used_for_every_transaction() {
    let bus = SimBus::new(0x67);
    let mut dev = Icm42670::new(bus.clone(), Address::Secondary).unwrap();
    dev.set_accel_odr(AccelOdr::Hz50).unwrap();
    let mut delay = CountingDelay(Vec::new());
    dev.read_mreg(&mut delay, RegisterBank::MReg1, &Mreg1::SELFTEST).unwrap();
    for op in bus.log() {
        match op {
            Op::WriteRead(a, _) | Op::Write(a, _, _) => assert_eq!(a, 0x69),
        }
    }
}
