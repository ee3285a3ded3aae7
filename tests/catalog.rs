use icm42670::register::{Bank0, Mreg1, Mreg2, Mreg3, Register, RegisterBank};
use icm42670::{
    check_identity, is_known_device_id, AccLpAvg, AccelDlpfBw, AccelOdr, AccelRange, Address, Error,
    GyroLpFiltBw, GyroOdr, GyroRange, PowerMode, SensorError, SoftReset, TempDlpfBw,
};

#[test]
fn accel_range_codes_round_trip() {
    for r in [AccelRange::G2, AccelRange::G4, AccelRange::G8, AccelRange::G16] {
        let bits = r.bits();
        assert_eq!(bits & !AccelRange::BITMASK, 0);
        assert_eq!(AccelRange::try_from(bits >> 5), Ok(r));
    }
    assert_eq!(AccelRange::G2.bits(), 0b0110_0000);
    assert_eq!(AccelRange::G16.bits(), 0);
    assert_eq!(AccelRange::try_from(4), Err(SensorError::InvalidDiscriminant));
}

#[test]
fn gyro_range_codes_round_trip() {
    for r in [GyroRange::Deg250, GyroRange::Deg500, GyroRange::Deg1000, GyroRange::Deg2000] {
        assert_eq!(GyroRange::try_from(r.bits() >> 5), Ok(r));
    }
    assert_eq!(GyroRange::Deg500.bits(), 0b0100_0000);
    assert_eq!(GyroRange::try_from(7), Err(SensorError::InvalidDiscriminant));
}

#[test]
fn power_mode_codes_round_trip() {
    let all = [
        PowerMode::Sleep,
        PowerMode::Standby,
        PowerMode::AccelLowPower,
        PowerMode::AccelLowNoise,
        PowerMode::GyroLowNoise,
        PowerMode::SixAxisLowNoise,
    ];
    for m in all {
        assert_eq!(PowerMode::try_from(m.bits()), Ok(m));
    }
    assert_eq!(PowerMode::Standby.bits(), 0b0100);
    for undefined in [1u8, 5, 6, 7, 8, 9, 10, 11, 13, 14, 16, 255] {
        assert_eq!(PowerMode::try_from(undefined), Err(SensorError::InvalidDiscriminant));
    }
}

#[test]
fn odr_codes_round_trip() {
    for code in 0u8..=255 {
        match AccelOdr::try_from(code) {
            Ok(odr) => assert_eq!(odr.bits(), code),
            Err(e) => {
                assert_eq!(e, SensorError::InvalidDiscriminant);
                assert!(code < 5 || code > 15);
            }
        }
        match GyroOdr::try_from(code) {
            Ok(odr) => assert_eq!(odr.bits(), code),
            Err(e) => {
                assert_eq!(e, SensorError::InvalidDiscriminant);
                assert!(code < 5 || code > 12);
            }
        }
    }
    assert_eq!(AccelOdr::try_from(0b1100), Ok(AccelOdr::Hz12_5));
    assert_eq!(GyroOdr::try_from(0b0101), Ok(GyroOdr::Hz1600));
}

#[test]
fn shifted_fields_stay_in_their_masks() {
    assert_eq!(AccLpAvg::X64.bits(), 0b0101_0000);
    assert_eq!(AccelDlpfBw::Hz16.bits(), 0b0000_0111);
    assert_eq!(TempDlpfBw::Hz4.bits(), 0b0110_0000);
    assert_eq!(GyroLpFiltBw::Hz180.bits(), 0b0000_0001);
    assert_eq!(SoftReset::Enabled.bits(), 0);
    assert_eq!(SoftReset::Disabled.bits(), 0b0001_0000);
    assert_eq!(AccLpAvg::BITMASK & AccelDlpfBw::BITMASK, 0);
}

#[test]
fn defaults() {
    assert_eq!(AccelRange::default(), AccelRange::G16);
    assert_eq!(GyroRange::default(), GyroRange::Deg2000);
    assert_eq!(PowerMode::default(), PowerMode::Sleep);
    assert_eq!(AccelOdr::default(), AccelOdr::Hz800);
    assert_eq!(GyroOdr::default(), GyroOdr::Hz800);
}

#[test]
fn addresses_and_identities() {
    assert_eq!(Address::Primary.as_u8(), 0x68);
    assert_eq!(Address::Secondary.as_u8(), 0x69);
    assert!(is_known_device_id(0x60));
    assert!(is_known_device_id(0x67));
    assert!(!is_known_device_id(0x68));
}

#[test]
fn block_select_codes() {
    assert_eq!(RegisterBank::MReg1.blk_sel(), 0x00);
    assert_eq!(RegisterBank::MReg2.blk_sel(), 0x28);
    assert_eq!(RegisterBank::MReg3.blk_sel(), 0x50);
}

#[test]
fn register_catalog() {
    assert_eq!(Bank0::WHO_AM_I.addr(), 0x75);
    assert!(Bank0::WHO_AM_I.read_only());
    assert_eq!(Bank0::PWR_MGMT0.addr(), 0x1F);
    assert!(!Bank0::PWR_MGMT0.read_only());
    assert_eq!(Bank0::M_R.addr(), 0x7E);
    assert!(Bank0::MCLK_RDY.read_only());
    assert!(!Bank0::BLK_SEL_W.read_only());
    assert_eq!(Mreg1::APEX_CONFIG12.addr(), 0x67);
    assert!(Mreg1::ST_STATUS2.read_only());
    assert!(!Mreg1::SELFTEST.read_only());
    assert_eq!(Mreg2::OTP_CTRL7.addr(), 0x06);
    assert!(!Mreg2::OTP_CTRL7.read_only());
    assert_eq!(Mreg3::ZG_ST_DATA.addr(), 0x05);
    assert!(Mreg3::XA_ST_DATA.read_only());
}

#[test]
fn sensor_error_converts() {
    let e: Error<()> = Error::from(SensorError::BadChip);
    assert!(matches!(e, Error::SensorError(SensorError::BadChip)));
}

#[test]
fn identity_check_names_bad_chip() {
    assert_eq!(check_identity(0x60), Ok(()));
    assert_eq!(check_identity(0x67), Ok(()));
    assert_eq!(check_identity(0x00), Err(SensorError::BadChip));
    assert_eq!(check_identity(0x69), Err(SensorError::BadChip));
}
