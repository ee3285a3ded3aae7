//! The catalog of configuration fields: for each enumerated setting, the
//! register that holds it, its mask, and its raw code.
use vstd::prelude::*;

verus! {

use crate::error::SensorError;
use crate::field::{extracted, field_mask, lemma_code_in_field, merged};
use crate::register::Bank0;

/// The masks of the catalog's fields, by position and width.
pub proof fn lemma_catalog_masks()
    ensures
        field_mask(5, 2) == 0b0110_0000,
        field_mask(0, 4) == 0b0000_1111,
        field_mask(4, 3) == 0b0111_0000,
        field_mask(0, 3) == 0b0000_0111,
        field_mask(3, 3) == 0b0011_1000,
        field_mask(4, 1) == 0b0001_0000,
        field_mask(3, 1) == 0b0000_1000,
        field_mask(2, 1) == 0b0000_0100,
        field_mask(0, 1) == 0b0000_0001,
        field_mask(0, 2) == 0b0000_0011,
{
    assert(field_mask(5, 2) == 0b0110_0000 && field_mask(0, 4) == 0b0000_1111
        && field_mask(4, 3) == 0b0111_0000 && field_mask(0, 3) == 0b0000_0111
        && field_mask(3, 3) == 0b0011_1000 && field_mask(4, 1) == 0b0001_0000
        && field_mask(3, 1) == 0b0000_1000 && field_mask(2, 1) == 0b0000_0100
        && field_mask(0, 1) == 0b0000_0001 && field_mask(0, 2) == 0b0000_0011) by (bit_vector);
}

/// The fields that share a register occupy disjoint bits of it.
pub proof fn lemma_shared_registers_disjoint()
    ensures
        AccelRange::REGISTER == AccelOdr::REGISTER && AccelRange::BITMASK & AccelOdr::BITMASK == 0,
        GyroRange::REGISTER == GyroOdr::REGISTER && GyroRange::BITMASK & GyroOdr::BITMASK == 0,
        AccLpAvg::REGISTER == AccelDlpfBw::REGISTER && AccLpAvg::BITMASK & AccelDlpfBw::BITMASK == 0,
        SpiWireCount::REGISTER == SpiMode::REGISTER && SpiWireCount::BITMASK & SpiMode::BITMASK == 0,
        I3CDdrSlewRate::REGISTER == I3CSdrSlewRate::REGISTER && I3CDdrSlewRate::BITMASK & I3CSdrSlewRate::BITMASK == 0,
        I2CSlewRate::REGISTER == AllSlewRate::REGISTER && I2CSlewRate::BITMASK & AllSlewRate::BITMASK == 0,
        I2CSlewRate::REGISTER == SpiSlewRate::REGISTER && I2CSlewRate::BITMASK & SpiSlewRate::BITMASK == 0,
{
    assert(0b0110_0000u8 & 0b0000_1111u8 == 0 && 0b0111_0000u8 & 0b0000_0111u8 == 0 && 0b0000_0100u8
        & 0b0000_0001u8 == 0 && 0b0011_1000u8 & 0b0000_0111u8 == 0) by (bit_vector);
}

/// I²C slave addresses, determined by the logic level of pin `AP_AD0`
#[derive(Clone, Copy, Debug, PartialEq, Eq, Structural)]
pub enum Address {
    /// `AP_AD0` pin == 0
    Primary,
    /// `AP_AD0` pin == 1
    Secondary,
}

impl Address {
    /// The 7-bit bus address.
    pub open spec fn value(self) -> u8 {
        match self {
            Address::Primary => 0x68,
            Address::Secondary => 0x69,
        }
    }

    /// The 7-bit bus address.
    pub fn as_u8(self) -> (r: u8)
        ensures
            r == self.value(),
    {
        match self {
            Address::Primary => 0x68,
            Address::Secondary => 0x69,
        }
    }
}

/// Configurable ranges of the Accelerometer
#[derive(Clone, Copy, Debug, PartialEq, Eq, Structural)]
pub enum AccelRange {
    /// ±2G
    G2,
    /// ±4G
    G4,
    /// ±8G
    G8,
    /// ±16G
    G16,
}

impl AccelRange {
    /// The field's bits within its register
    pub const BITMASK: u8 = 0b0110_0000;
    /// The position of the field's lowest bit
    pub const SHIFT: u8 = 5;
    /// The register that holds the field
    pub const REGISTER: Bank0 = Bank0::ACCEL_CONFIG0;

    /// The raw code of the setting, before it is shifted into place
    pub open spec fn code(self) -> u8 {
        match self {
            AccelRange::G2 => 3,
            AccelRange::G4 => 2,
            AccelRange::G8 => 1,
            AccelRange::G16 => 0,
        }
    }

    /// The setting's bit pattern, shifted into its register position
    pub open spec fn pattern(self) -> u8 {
        (self.code() << Self::SHIFT) as u8
    }

    /// Bit value of a discriminant, shifted to the correct position
    pub fn bits(self) -> (r: u8)
        ensures
            r == self.pattern(),
            r & !Self::BITMASK == 0,
    {
        let code: u8 = match self {
            AccelRange::G2 => 3,
            AccelRange::G4 => 2,
            AccelRange::G8 => 1,
            AccelRange::G16 => 0,
        };
        proof {
            lemma_catalog_masks();
            lemma_code_in_field(0, code, 5, 2);
        }
        code << 5u8
    }

    /// The setting whose code is `code`, if there is one
    pub open spec fn from_code(code: u8) -> Option<Self> {
        if code == 3 {
            Some(AccelRange::G2)
        } else if code == 2 {
            Some(AccelRange::G4)
        } else if code == 1 {
            Some(AccelRange::G8)
        } else if code == 0 {
            Some(AccelRange::G16)
        } else {
            None
        }
    }

    /// Decode a raw code into a setting
    pub fn try_from(value: u8) -> (r: Result<Self, SensorError>)
        ensures
            match Self::from_code(value) {
                Some(v) => r == Ok::<Self, SensorError>(v),
                None => r == Err::<Self, SensorError>(SensorError::InvalidDiscriminant),
            },
    {
        match value {
            3 => Ok(AccelRange::G2),
            2 => Ok(AccelRange::G4),
            1 => Ok(AccelRange::G8),
            0 => Ok(AccelRange::G16),
            _ => Err(SensorError::InvalidDiscriminant),
        }
    }
}

/// Encoding any setting and decoding its field back from any register byte it
/// was merged into gives the setting again; a code that no setting has is
/// decoded to nothing.
pub proof fn lemma_accel_range_codec(v: AccelRange, current: u8, code: u8)
    ensures
        AccelRange::from_code(extracted(merged(current, AccelRange::BITMASK, v.pattern()), AccelRange::BITMASK, AccelRange::SHIFT)) == Some(v),
        AccelRange::from_code(code) matches Some(d) ==> d.code() == code,
        (forall|d: AccelRange| d.code() != code) ==> AccelRange::from_code(code) is None,
{
    lemma_catalog_masks();
    lemma_code_in_field(current, v.code(), 5, 2);
    if AccelRange::from_code(code) is Some {
        let d = AccelRange::from_code(code)->0;
        assert(d.code() == code);
    }
}

impl Default for AccelRange {
    fn default() -> (r: Self)
        ensures
            r == AccelRange::G16,
    {
        AccelRange::G16
    }
}

/// Configurable ranges of the Gyroscope
#[derive(Clone, Copy, Debug, PartialEq, Eq, Structural)]
pub enum GyroRange {
    /// ±250 deg/sec
    Deg250,
    /// ±500 deg/sec
    Deg500,
    /// ±1000 deg/sec
    Deg1000,
    /// ±2000 deg/sec
    Deg2000,
}

impl GyroRange {
    /// The field's bits within its register
    pub const BITMASK: u8 = 0b0110_0000;
    /// The position of the field's lowest bit
    pub const SHIFT: u8 = 5;
    /// The register that holds the field
    pub const REGISTER: Bank0 = Bank0::GYRO_CONFIG0;

    /// The raw code of the setting, before it is shifted into place
    pub open spec fn code(self) -> u8 {
        match self {
            GyroRange::Deg250 => 3,
            GyroRange::Deg500 => 2,
            GyroRange::Deg1000 => 1,
            GyroRange::Deg2000 => 0,
        }
    }

    /// The setting's bit pattern, shifted into its register position
    pub open spec fn pattern(self) -> u8 {
        (self.code() << Self::SHIFT) as u8
    }

    /// Bit value of a discriminant, shifted to the correct position
    pub fn bits(self) -> (r: u8)
        ensures
            r == self.pattern(),
            r & !Self::BITMASK == 0,
    {
        let code: u8 = match self {
            GyroRange::Deg250 => 3,
            GyroRange::Deg500 => 2,
            GyroRange::Deg1000 => 1,
            GyroRange::Deg2000 => 0,
        };
        proof {
            lemma_catalog_masks();
            lemma_code_in_field(0, code, 5, 2);
        }
        code << 5u8
    }

    /// The setting whose code is `code`, if there is one
    pub open spec fn from_code(code: u8) -> Option<Self> {
        if code == 3 {
            Some(GyroRange::Deg250)
        } else if code == 2 {
            Some(GyroRange::Deg500)
        } else if code == 1 {
            Some(GyroRange::Deg1000)
        } else if code == 0 {
            Some(GyroRange::Deg2000)
        } else {
            None
        }
    }

    /// Decode a raw code into a setting
    pub fn try_from(value: u8) -> (r: Result<Self, SensorError>)
        ensures
            match Self::from_code(value) {
                Some(v) => r == Ok::<Self, SensorError>(v),
                None => r == Err::<Self, SensorError>(SensorError::InvalidDiscriminant),
            },
    {
        match value {
            3 => Ok(GyroRange::Deg250),
            2 => Ok(GyroRange::Deg500),
            1 => Ok(GyroRange::Deg1000),
            0 => Ok(GyroRange::Deg2000),
            _ => Err(SensorError::InvalidDiscriminant),
        }
    }
}

/// Encoding any setting and decoding its field back from any register byte it
/// was merged into gives the setting again; a code that no setting has is
/// decoded to nothing.
pub proof fn lemma_gyro_range_codec(v: GyroRange, current: u8, code: u8)
    ensures
        GyroRange::from_code(extracted(merged(current, GyroRange::BITMASK, v.pattern()), GyroRange::BITMASK, GyroRange::SHIFT)) == Some(v),
        GyroRange::from_code(code) matches Some(d) ==> d.code() == code,
        (forall|d: GyroRange| d.code() != code) ==> GyroRange::from_code(code) is None,
{
    lemma_catalog_masks();
    lemma_code_in_field(current, v.code(), 5, 2);
    if GyroRange::from_code(code) is Some {
        let d = GyroRange::from_code(code)->0;
        assert(d.code() == code);
    }
}

impl Default for GyroRange {
    fn default() -> (r: Self)
        ensures
            r == GyroRange::Deg2000,
    {
        GyroRange::Deg2000
    }
}

/// Configurable power modes of the IMU; `GYRO_MODE` occupies bits 3:2 and `ACCEL_MODE` bits 1:0
#[derive(Clone, Copy, Debug, PartialEq, Eq, Structural)]
pub enum PowerMode {
    /// Gyroscope: OFF, Accelerometer: OFF
    Sleep,
    /// Gyroscope: DRIVE ON, Accelerometer: OFF
    Standby,
    /// Gyroscope: OFF, Accelerometer: DUTY-CYCLED
    AccelLowPower,
    /// Gyroscope: OFF, Accelerometer: ON
    AccelLowNoise,
    /// Gyroscope: ON, Accelerometer: OFF
    GyroLowNoise,
    /// Gyroscope: ON, Accelerometer: ON
    SixAxisLowNoise,
}

impl PowerMode {
    /// The field's bits within its register
    pub const BITMASK: u8 = 0b0000_1111;
    /// The position of the field's lowest bit
    pub const SHIFT: u8 = 0;
    /// The register that holds the field
    pub const REGISTER: Bank0 = Bank0::PWR_MGMT0;

    /// The raw code of the setting, before it is shifted into place
    pub open spec fn code(self) -> u8 {
        match self {
            PowerMode::Sleep => 0,
            PowerMode::Standby => 4,
            PowerMode::AccelLowPower => 2,
            PowerMode::AccelLowNoise => 3,
            PowerMode::GyroLowNoise => 12,
            PowerMode::SixAxisLowNoise => 15,
        }
    }

    /// The setting's bit pattern, shifted into its register position
    pub open spec fn pattern(self) -> u8 {
        (self.code() << Self::SHIFT) as u8
    }

    /// Bit value of a discriminant, shifted to the correct position
    pub fn bits(self) -> (r: u8)
        ensures
            r == self.pattern(),
            r & !Self::BITMASK == 0,
    {
        let code: u8 = match self {
            PowerMode::Sleep => 0,
            PowerMode::Standby => 4,
            PowerMode::AccelLowPower => 2,
            PowerMode::AccelLowNoise => 3,
            PowerMode::GyroLowNoise => 12,
            PowerMode::SixAxisLowNoise => 15,
        };
        proof {
            lemma_catalog_masks();
            lemma_code_in_field(0, code, 0, 4);
        }
        code << 0u8
    }

    /// The setting whose code is `code`, if there is one
    pub open spec fn from_code(code: u8) -> Option<Self> {
        if code == 0 {
            Some(PowerMode::Sleep)
        } else if code == 4 {
            Some(PowerMode::Standby)
        } else if code == 2 {
            Some(PowerMode::AccelLowPower)
        } else if code == 3 {
            Some(PowerMode::AccelLowNoise)
        } else if code == 12 {
            Some(PowerMode::GyroLowNoise)
        } else if code == 15 {
            Some(PowerMode::SixAxisLowNoise)
        } else {
            None
        }
    }

    /// Decode a raw code into a setting
    pub fn try_from(value: u8) -> (r: Result<Self, SensorError>)
        ensures
            match Self::from_code(value) {
                Some(v) => r == Ok::<Self, SensorError>(v),
                None => r == Err::<Self, SensorError>(SensorError::InvalidDiscriminant),
            },
    {
        match value {
            0 => Ok(PowerMode::Sleep),
            4 => Ok(PowerMode::Standby),
            2 => Ok(PowerMode::AccelLowPower),
            3 => Ok(PowerMode::AccelLowNoise),
            12 => Ok(PowerMode::GyroLowNoise),
            15 => Ok(PowerMode::SixAxisLowNoise),
            _ => Err(SensorError::InvalidDiscriminant),
        }
    }
}

/// Encoding any setting and decoding its field back from any register byte it
/// was merged into gives the setting again; a code that no setting has is
/// decoded to nothing.
pub proof fn lemma_power_mode_codec(v: PowerMode, current: u8, code: u8)
    ensures
        PowerMode::from_code(extracted(merged(current, PowerMode::BITMASK, v.pattern()), PowerMode::BITMASK, PowerMode::SHIFT)) == Some(v),
        PowerMode::from_code(code) matches Some(d) ==> d.code() == code,
        (forall|d: PowerMode| d.code() != code) ==> PowerMode::from_code(code) is None,
{
    lemma_catalog_masks();
    lemma_code_in_field(current, v.code(), 0, 4);
    if PowerMode::from_code(code) is Some {
        let d = PowerMode::from_code(code)->0;
        assert(d.code() == code);
    }
}

impl Default for PowerMode {
    fn default() -> (r: Self)
        ensures
            r == PowerMode::Sleep,
    {
        PowerMode::Sleep
    }
}

/// Accelerometer ODR selection values
#[derive(Clone, Copy, Debug, PartialEq, Eq, Structural)]
pub enum AccelOdr {
    /// 1.6 kHz (LN mode)
    Hz1600,
    /// 800 Hz (LN mode)
    Hz800,
    /// 400 Hz (LP or LN mode)
    Hz400,
    /// 200 Hz (LP or LN mode)
    Hz200,
    /// 100 Hz (LP or LN mode)
    Hz100,
    /// 50 Hz (LP or LN mode)
    Hz50,
    /// 25 Hz (LP or LN mode)
    Hz25,
    /// 12.5 Hz (LP or LN mode)
    Hz12_5,
    /// 6.25 Hz (LP mode)
    Hz6_25,
    /// 3.125 Hz (LP mode)
    Hz3_125,
    /// 1.5625 Hz (LP mode)
    Hz1_5625,
}

impl AccelOdr {
    /// The field's bits within its register
    pub const BITMASK: u8 = 0b0000_1111;
    /// The position of the field's lowest bit
    pub const SHIFT: u8 = 0;
    /// The register that holds the field
    pub const REGISTER: Bank0 = Bank0::ACCEL_CONFIG0;

    /// The raw code of the setting, before it is shifted into place
    pub open spec fn code(self) -> u8 {
        match self {
            AccelOdr::Hz1600 => 5,
            AccelOdr::Hz800 => 6,
            AccelOdr::Hz400 => 7,
            AccelOdr::Hz200 => 8,
            AccelOdr::Hz100 => 9,
            AccelOdr::Hz50 => 10,
            AccelOdr::Hz25 => 11,
            AccelOdr::Hz12_5 => 12,
            AccelOdr::Hz6_25 => 13,
            AccelOdr::Hz3_125 => 14,
            AccelOdr::Hz1_5625 => 15,
        }
    }

    /// The setting's bit pattern, shifted into its register position
    pub open spec fn pattern(self) -> u8 {
        (self.code() << Self::SHIFT) as u8
    }

    /// Bit value of a discriminant, shifted to the correct position
    pub fn bits(self) -> (r: u8)
        ensures
            r == self.pattern(),
            r & !Self::BITMASK == 0,
    {
        let code: u8 = match self {
            AccelOdr::Hz1600 => 5,
            AccelOdr::Hz800 => 6,
            AccelOdr::Hz400 => 7,
            AccelOdr::Hz200 => 8,
            AccelOdr::Hz100 => 9,
            AccelOdr::Hz50 => 10,
            AccelOdr::Hz25 => 11,
            AccelOdr::Hz12_5 => 12,
            AccelOdr::Hz6_25 => 13,
            AccelOdr::Hz3_125 => 14,
            AccelOdr::Hz1_5625 => 15,
        };
        proof {
            lemma_catalog_masks();
            lemma_code_in_field(0, code, 0, 4);
        }
        code << 0u8
    }

    /// The setting whose code is `code`, if there is one
    pub open spec fn from_code(code: u8) -> Option<Self> {
        if code == 5 {
            Some(AccelOdr::Hz1600)
        } else if code == 6 {
            Some(AccelOdr::Hz800)
        } else if code == 7 {
            Some(AccelOdr::Hz400)
        } else if code == 8 {
            Some(AccelOdr::Hz200)
        } else if code == 9 {
            Some(AccelOdr::Hz100)
        } else if code == 10 {
            Some(AccelOdr::Hz50)
        } else if code == 11 {
            Some(AccelOdr::Hz25)
        } else if code == 12 {
            Some(AccelOdr::Hz12_5)
        } else if code == 13 {
            Some(AccelOdr::Hz6_25)
        } else if code == 14 {
            Some(AccelOdr::Hz3_125)
        } else if code == 15 {
            Some(AccelOdr::Hz1_5625)
        } else {
            None
        }
    }

    /// Decode a raw code into a setting
    pub fn try_from(value: u8) -> (r: Result<Self, SensorError>)
        ensures
            match Self::from_code(value) {
                Some(v) => r == Ok::<Self, SensorError>(v),
                None => r == Err::<Self, SensorError>(SensorError::InvalidDiscriminant),
            },
    {
        match value {
            5 => Ok(AccelOdr::Hz1600),
            6 => Ok(AccelOdr::Hz800),
            7 => Ok(AccelOdr::Hz400),
            8 => Ok(AccelOdr::Hz200),
            9 => Ok(AccelOdr::Hz100),
            10 => Ok(AccelOdr::Hz50),
            11 => Ok(AccelOdr::Hz25),
            12 => Ok(AccelOdr::Hz12_5),
            13 => Ok(AccelOdr::Hz6_25),
            14 => Ok(AccelOdr::Hz3_125),
            15 => Ok(AccelOdr::Hz1_5625),
            _ => Err(SensorError::InvalidDiscriminant),
        }
    }
}

/// Encoding any setting and decoding its field back from any register byte it
/// was merged into gives the setting again; a code that no setting has is
/// decoded to nothing.
pub proof fn lemma_accel_odr_codec(v: AccelOdr, current: u8, code: u8)
    ensures
        AccelOdr::from_code(extracted(merged(current, AccelOdr::BITMASK, v.pattern()), AccelOdr::BITMASK, AccelOdr::SHIFT)) == Some(v),
        AccelOdr::from_code(code) matches Some(d) ==> d.code() == code,
        (forall|d: AccelOdr| d.code() != code) ==> AccelOdr::from_code(code) is None,
{
    lemma_catalog_masks();
    lemma_code_in_field(current, v.code(), 0, 4);
    if AccelOdr::from_code(code) is Some {
        let d = AccelOdr::from_code(code)->0;
        assert(d.code() == code);
    }
}

impl Default for AccelOdr {
    fn default() -> (r: Self)
        ensures
            r == AccelOdr::Hz800,
    {
        AccelOdr::Hz800
    }
}

/// Acceleration Low Power Averaging
#[derive(Clone, Copy, Debug, PartialEq, Eq, Structural)]
pub enum AccLpAvg {
    X2,
    X4,
    X8,
    X16,
    X32,
    X64,
}

impl AccLpAvg {
    /// The field's bits within its register
    pub const BITMASK: u8 = 0b0111_0000;
    /// The position of the field's lowest bit
    pub const SHIFT: u8 = 4;
    /// The register that holds the field
    pub const REGISTER: Bank0 = Bank0::ACCEL_CONFIG1;

    /// The raw code of the setting, before it is shifted into place
    pub open spec fn code(self) -> u8 {
        match self {
            AccLpAvg::X2 => 0,
            AccLpAvg::X4 => 1,
            AccLpAvg::X8 => 2,
            AccLpAvg::X16 => 3,
            AccLpAvg::X32 => 4,
            AccLpAvg::X64 => 5,
        }
    }

    /// The setting's bit pattern, shifted into its register position
    pub open spec fn pattern(self) -> u8 {
        (self.code() << Self::SHIFT) as u8
    }

    /// Bit value of a discriminant, shifted to the correct position
    pub fn bits(self) -> (r: u8)
        ensures
            r == self.pattern(),
            r & !Self::BITMASK == 0,
    {
        let code: u8 = match self {
            AccLpAvg::X2 => 0,
            AccLpAvg::X4 => 1,
            AccLpAvg::X8 => 2,
            AccLpAvg::X16 => 3,
            AccLpAvg::X32 => 4,
            AccLpAvg::X64 => 5,
        };
        proof {
            lemma_catalog_masks();
            lemma_code_in_field(0, code, 4, 3);
        }
        code << 4u8
    }
}

/// Acceleration Digital Low Pass Filter options
#[derive(Clone, Copy, Debug, PartialEq, Eq, Structural)]
pub enum AccelDlpfBw {
    Bypassed,
    Hz180,
    Hz121,
    Hz73,
    Hz53,
    Hz34,
    Hz25,
    Hz16,
}

impl AccelDlpfBw {
    /// The field's bits within its register
    pub const BITMASK: u8 = 0b0000_0111;
    /// The position of the field's lowest bit
    pub const SHIFT: u8 = 0;
    /// The register that holds the field
    pub const REGISTER: Bank0 = Bank0::ACCEL_CONFIG1;

    /// The raw code of the setting, before it is shifted into place
    pub open spec fn code(self) -> u8 {
        match self {
            AccelDlpfBw::Bypassed => 0,
            AccelDlpfBw::Hz180 => 1,
            AccelDlpfBw::Hz121 => 2,
            AccelDlpfBw::Hz73 => 3,
            AccelDlpfBw::Hz53 => 4,
            AccelDlpfBw::Hz34 => 5,
            AccelDlpfBw::Hz25 => 6,
            AccelDlpfBw::Hz16 => 7,
        }
    }

    /// The setting's bit pattern, shifted into its register position
    pub open spec fn pattern(self) -> u8 {
        (self.code() << Self::SHIFT) as u8
    }

    /// Bit value of a discriminant, shifted to the correct position
    pub fn bits(self) -> (r: u8)
        ensures
            r == self.pattern(),
            r & !Self::BITMASK == 0,
    {
        let code: u8 = match self {
            AccelDlpfBw::Bypassed => 0,
            AccelDlpfBw::Hz180 => 1,
            AccelDlpfBw::Hz121 => 2,
            AccelDlpfBw::Hz73 => 3,
            AccelDlpfBw::Hz53 => 4,
            AccelDlpfBw::Hz34 => 5,
            AccelDlpfBw::Hz25 => 6,
            AccelDlpfBw::Hz16 => 7,
        };
        proof {
            lemma_catalog_masks();
            lemma_code_in_field(0, code, 0, 3);
        }
        code << 0u8
    }
}

/// Temperature DLPF (Digital Low Pass Filter) Bandwidth
#[derive(Clone, Copy, Debug, PartialEq, Eq, Structural)]
pub enum TempDlpfBw {
    Bypassed,
    Hz180,
    Hz72,
    Hz34,
    Hz16,
    Hz8,
    Hz4,
}

impl TempDlpfBw {
    /// The field's bits within its register
    pub const BITMASK: u8 = 0b0111_0000;
    /// The position of the field's lowest bit
    pub const SHIFT: u8 = 4;
    /// The register that holds the field
    pub const REGISTER: Bank0 = Bank0::TEMP_CONFIG0;

    /// The raw code of the setting, before it is shifted into place
    pub open spec fn code(self) -> u8 {
        match self {
            TempDlpfBw::Bypassed => 0,
            TempDlpfBw::Hz180 => 1,
            TempDlpfBw::Hz72 => 2,
            TempDlpfBw::Hz34 => 3,
            TempDlpfBw::Hz16 => 4,
            TempDlpfBw::Hz8 => 5,
            TempDlpfBw::Hz4 => 6,
        }
    }

    /// The setting's bit pattern, shifted into its register position
    pub open spec fn pattern(self) -> u8 {
        (self.code() << Self::SHIFT) as u8
    }

    /// Bit value of a discriminant, shifted to the correct position
    pub fn bits(self) -> (r: u8)
        ensures
            r == self.pattern(),
            r & !Self::BITMASK == 0,
    {
        let code: u8 = match self {
            TempDlpfBw::Bypassed => 0,
            TempDlpfBw::Hz180 => 1,
            TempDlpfBw::Hz72 => 2,
            TempDlpfBw::Hz34 => 3,
            TempDlpfBw::Hz16 => 4,
            TempDlpfBw::Hz8 => 5,
            TempDlpfBw::Hz4 => 6,
        };
        proof {
            lemma_catalog_masks();
            lemma_code_in_field(0, code, 4, 3);
        }
        code << 4u8
    }
}

/// Gyroscope UI low pass filter bandwidth
#[derive(Clone, Copy, Debug, PartialEq, Eq, Structural)]
pub enum GyroLpFiltBw {
    Bypassed,
    Hz180,
    Hz121,
    Hz73,
    Hz53,
    Hz34,
    Hz25,
    Hz16,
}

impl GyroLpFiltBw {
    /// The field's bits within its register
    pub const BITMASK: u8 = 0b0000_0111;
    /// The position of the field's lowest bit
    pub const SHIFT: u8 = 0;
    /// The register that holds the field
    pub const REGISTER: Bank0 = Bank0::GYRO_CONFIG1;

    /// The raw code of the setting, before it is shifted into place
    pub open spec fn code(self) -> u8 {
        match self {
            GyroLpFiltBw::Bypassed => 0,
            GyroLpFiltBw::Hz180 => 1,
            GyroLpFiltBw::Hz121 => 2,
            GyroLpFiltBw::Hz73 => 3,
            GyroLpFiltBw::Hz53 => 4,
            GyroLpFiltBw::Hz34 => 5,
            GyroLpFiltBw::Hz25 => 6,
            GyroLpFiltBw::Hz16 => 7,
        }
    }

    /// The setting's bit pattern, shifted into its register position
    pub open spec fn pattern(self) -> u8 {
        (self.code() << Self::SHIFT) as u8
    }

    /// Bit value of a discriminant, shifted to the correct position
    pub fn bits(self) -> (r: u8)
        ensures
            r == self.pattern(),
            r & !Self::BITMASK == 0,
    {
        let code: u8 = match self {
            GyroLpFiltBw::Bypassed => 0,
            GyroLpFiltBw::Hz180 => 1,
            GyroLpFiltBw::Hz121 => 2,
            GyroLpFiltBw::Hz73 => 3,
            GyroLpFiltBw::Hz53 => 4,
            GyroLpFiltBw::Hz34 => 5,
            GyroLpFiltBw::Hz25 => 6,
            GyroLpFiltBw::Hz16 => 7,
        };
        proof {
            lemma_catalog_masks();
            lemma_code_in_field(0, code, 0, 3);
        }
        code << 0u8
    }
}

/// Gyroscope ODR selection values
#[derive(Clone, Copy, Debug, PartialEq, Eq, Structural)]
pub enum GyroOdr {
    /// 1.6k Hz
    Hz1600,
    /// 800 Hz
    Hz800,
    /// 400 Hz
    Hz400,
    /// 200 Hz
    Hz200,
    /// 100 Hz
    Hz100,
    /// 50 Hz
    Hz50,
    /// 25 Hz
    Hz25,
    /// 12.5 Hz
    Hz12_5,
}

impl GyroOdr {
    /// The field's bits within its register
    pub const BITMASK: u8 = 0b0000_1111;
    /// The position of the field's lowest bit
    pub const SHIFT: u8 = 0;
    /// The register that holds the field
    pub const REGISTER: Bank0 = Bank0::GYRO_CONFIG0;

    /// The raw code of the setting, before it is shifted into place
    pub open spec fn code(self) -> u8 {
        match self {
            GyroOdr::Hz1600 => 5,
            GyroOdr::Hz800 => 6,
            GyroOdr::Hz400 => 7,
            GyroOdr::Hz200 => 8,
            GyroOdr::Hz100 => 9,
            GyroOdr::Hz50 => 10,
            GyroOdr::Hz25 => 11,
            GyroOdr::Hz12_5 => 12,
        }
    }

    /// The setting's bit pattern, shifted into its register position
    pub open spec fn pattern(self) -> u8 {
        (self.code() << Self::SHIFT) as u8
    }

    /// Bit value of a discriminant, shifted to the correct position
    pub fn bits(self) -> (r: u8)
        ensures
            r == self.pattern(),
            r & !Self::BITMASK == 0,
    {
        let code: u8 = match self {
            GyroOdr::Hz1600 => 5,
            GyroOdr::Hz800 => 6,
            GyroOdr::Hz400 => 7,
            GyroOdr::Hz200 => 8,
            GyroOdr::Hz100 => 9,
            GyroOdr::Hz50 => 10,
            GyroOdr::Hz25 => 11,
            GyroOdr::Hz12_5 => 12,
        };
        proof {
            lemma_catalog_masks();
            lemma_code_in_field(0, code, 0, 4);
        }
        code << 0u8
    }

    /// The setting whose code is `code`, if there is one
    pub open spec fn from_code(code: u8) -> Option<Self> {
        if code == 5 {
            Some(GyroOdr::Hz1600)
        } else if code == 6 {
            Some(GyroOdr::Hz800)
        } else if code == 7 {
            Some(GyroOdr::Hz400)
        } else if code == 8 {
            Some(GyroOdr::Hz200)
        } else if code == 9 {
            Some(GyroOdr::Hz100)
        } else if code == 10 {
            Some(GyroOdr::Hz50)
        } else if code == 11 {
            Some(GyroOdr::Hz25)
        } else if code == 12 {
            Some(GyroOdr::Hz12_5)
        } else {
            None
        }
    }

    /// Decode a raw code into a setting
    pub fn try_from(value: u8) -> (r: Result<Self, SensorError>)
        ensures
            match Self::from_code(value) {
                Some(v) => r == Ok::<Self, SensorError>(v),
                None => r == Err::<Self, SensorError>(SensorError::InvalidDiscriminant),
            },
    {
        match value {
            5 => Ok(GyroOdr::Hz1600),
            6 => Ok(GyroOdr::Hz800),
            7 => Ok(GyroOdr::Hz400),
            8 => Ok(GyroOdr::Hz200),
            9 => Ok(GyroOdr::Hz100),
            10 => Ok(GyroOdr::Hz50),
            11 => Ok(GyroOdr::Hz25),
            12 => Ok(GyroOdr::Hz12_5),
            _ => Err(SensorError::InvalidDiscriminant),
        }
    }
}

/// Encoding any setting and decoding its field back from any register byte it
/// was merged into gives the setting again; a code that no setting has is
/// decoded to nothing.
pub proof fn lemma_gyro_odr_codec(v: GyroOdr, current: u8, code: u8)
    ensures
        GyroOdr::from_code(extracted(merged(current, GyroOdr::BITMASK, v.pattern()), GyroOdr::BITMASK, GyroOdr::SHIFT)) == Some(v),
        GyroOdr::from_code(code) matches Some(d) ==> d.code() == code,
        (forall|d: GyroOdr| d.code() != code) ==> GyroOdr::from_code(code) is None,
{
    lemma_catalog_masks();
    lemma_code_in_field(current, v.code(), 0, 4);
    if GyroOdr::from_code(code) is Some {
        let d = GyroOdr::from_code(code)->0;
        assert(d.code() == code);
    }
}

impl Default for GyroOdr {
    fn default() -> (r: Self)
        ensures
            r == GyroOdr::Hz800,
    {
        GyroOdr::Hz800
    }
}

/// Software reset of the device
#[derive(Clone, Copy, Debug, PartialEq, Eq, Structural)]
pub enum SoftReset {
    Enabled,
    Disabled,
}

impl SoftReset {
    /// The field's bits within its register
    pub const BITMASK: u8 = 0b0001_0000;
    /// The position of the field's lowest bit
    pub const SHIFT: u8 = 4;
    /// The register that holds the field
    pub const REGISTER: Bank0 = Bank0::SIGNAL_PATH_RESET;

    /// The raw code of the setting, before it is shifted into place
    pub open spec fn code(self) -> u8 {
        match self {
            SoftReset::Enabled => 0,
            SoftReset::Disabled => 1,
        }
    }

    /// The setting's bit pattern, shifted into its register position
    pub open spec fn pattern(self) -> u8 {
        (self.code() << Self::SHIFT) as u8
    }

    /// Bit value of a discriminant, shifted to the correct position
    pub fn bits(self) -> (r: u8)
        ensures
            r == self.pattern(),
            r & !Self::BITMASK == 0,
    {
        let code: u8 = match self {
            SoftReset::Enabled => 0,
            SoftReset::Disabled => 1,
        };
        proof {
            lemma_catalog_masks();
            lemma_code_in_field(0, code, 4, 1);
        }
        code << 4u8
    }
}

/// Whether the internal clock is running
#[derive(Clone, Copy, Debug, PartialEq, Eq, Structural)]
pub enum MClkReady {
    Running,
    NotRunning,
}

impl MClkReady {
    /// The field's bits within its register
    pub const BITMASK: u8 = 0b0000_1000;
    /// The position of the field's lowest bit
    pub const SHIFT: u8 = 3;
    /// The register that holds the field
    pub const REGISTER: Bank0 = Bank0::MCLK_RDY;

    /// The raw code of the setting, before it is shifted into place
    pub open spec fn code(self) -> u8 {
        match self {
            MClkReady::Running => 0,
            MClkReady::NotRunning => 1,
        }
    }

    /// The setting's bit pattern, shifted into its register position
    pub open spec fn pattern(self) -> u8 {
        (self.code() << Self::SHIFT) as u8
    }

    /// Bit value of a discriminant, shifted to the correct position
    pub fn bits(self) -> (r: u8)
        ensures
            r == self.pattern(),
            r & !Self::BITMASK == 0,
    {
        let code: u8 = match self {
            MClkReady::Running => 0,
            MClkReady::NotRunning => 1,
        };
        proof {
            lemma_catalog_masks();
            lemma_code_in_field(0, code, 3, 1);
        }
        code << 3u8
    }
}

/// SPI interface wire count
#[derive(Clone, Copy, Debug, PartialEq, Eq, Structural)]
pub enum SpiWireCount {
    ThreeWire,
    FourWire,
}

impl SpiWireCount {
    /// The field's bits within its register
    pub const BITMASK: u8 = 0b0000_0100;
    /// The position of the field's lowest bit
    pub const SHIFT: u8 = 2;
    /// The register that holds the field
    pub const REGISTER: Bank0 = Bank0::DEVICE_CONFIG;

    /// The raw code of the setting, before it is shifted into place
    pub open spec fn code(self) -> u8 {
        match self {
            SpiWireCount::ThreeWire => 0,
            SpiWireCount::FourWire => 1,
        }
    }

    /// The setting's bit pattern, shifted into its register position
    pub open spec fn pattern(self) -> u8 {
        (self.code() << Self::SHIFT) as u8
    }

    /// Bit value of a discriminant, shifted to the correct position
    pub fn bits(self) -> (r: u8)
        ensures
            r == self.pattern(),
            r & !Self::BITMASK == 0,
    {
        let code: u8 = match self {
            SpiWireCount::ThreeWire => 0,
            SpiWireCount::FourWire => 1,
        };
        proof {
            lemma_catalog_masks();
            lemma_code_in_field(0, code, 2, 1);
        }
        code << 2u8
    }
}

/// SPI mode selection
#[derive(Clone, Copy, Debug, PartialEq, Eq, Structural)]
pub enum SpiMode {
    Mode0And3,
    Mode1And2,
}

impl SpiMode {
    /// The field's bits within its register
    pub const BITMASK: u8 = 0b0000_0001;
    /// The position of the field's lowest bit
    pub const SHIFT: u8 = 0;
    /// The register that holds the field
    pub const REGISTER: Bank0 = Bank0::DEVICE_CONFIG;

    /// The raw code of the setting, before it is shifted into place
    pub open spec fn code(self) -> u8 {
        match self {
            SpiMode::Mode0And3 => 0,
            SpiMode::Mode1And2 => 1,
        }
    }

    /// The setting's bit pattern, shifted into its register position
    pub open spec fn pattern(self) -> u8 {
        (self.code() << Self::SHIFT) as u8
    }

    /// Bit value of a discriminant, shifted to the correct position
    pub fn bits(self) -> (r: u8)
        ensures
            r == self.pattern(),
            r & !Self::BITMASK == 0,
    {
        let code: u8 = match self {
            SpiMode::Mode0And3 => 0,
            SpiMode::Mode1And2 => 1,
        };
        proof {
            lemma_catalog_masks();
            lemma_code_in_field(0, code, 0, 1);
        }
        code << 0u8
    }
}

/// Slew rate for output pin 14 in I3CSM DDR protocol
#[derive(Clone, Copy, Debug, PartialEq, Eq, Structural)]
pub enum I3CDdrSlewRate {
    /// Min 20ns; Typ 40ns; Max 60ns
    M20T40M60,
    /// Min 12ns; Typ 24ns; Max 36ns
    M12T24M36,
    /// Min 6ns; Typ 12ns; Max 19ns
    M6T12M19,
    /// Min 4ns; Typ 8ns; Max 14ns
    M4T8M14,
    /// Min 2ns; Typ 4ns; Max 8ns
    M2T4M8,
    /// Max 2ns
    M2,
}

impl I3CDdrSlewRate {
    /// The field's bits within its register
    pub const BITMASK: u8 = 0b0011_1000;
    /// The position of the field's lowest bit
    pub const SHIFT: u8 = 3;
    /// The register that holds the field
    pub const REGISTER: Bank0 = Bank0::DRIVE_CONFIG1;

    /// The raw code of the setting, before it is shifted into place
    pub open spec fn code(self) -> u8 {
        match self {
            I3CDdrSlewRate::M20T40M60 => 0,
            I3CDdrSlewRate::M12T24M36 => 1,
            I3CDdrSlewRate::M6T12M19 => 2,
            I3CDdrSlewRate::M4T8M14 => 3,
            I3CDdrSlewRate::M2T4M8 => 4,
            I3CDdrSlewRate::M2 => 5,
        }
    }

    /// The setting's bit pattern, shifted into its register position
    pub open spec fn pattern(self) -> u8 {
        (self.code() << Self::SHIFT) as u8
    }

    /// Bit value of a discriminant, shifted to the correct position
    pub fn bits(self) -> (r: u8)
        ensures
            r == self.pattern(),
            r & !Self::BITMASK == 0,
    {
        let code: u8 = match self {
            I3CDdrSlewRate::M20T40M60 => 0,
            I3CDdrSlewRate::M12T24M36 => 1,
            I3CDdrSlewRate::M6T12M19 => 2,
            I3CDdrSlewRate::M4T8M14 => 3,
            I3CDdrSlewRate::M2T4M8 => 4,
            I3CDdrSlewRate::M2 => 5,
        };
        proof {
            lemma_catalog_masks();
            lemma_code_in_field(0, code, 3, 3);
        }
        code << 3u8
    }
}

/// Slew rate for output pin 14 in I3CSM SDR protocol
#[derive(Clone, Copy, Debug, PartialEq, Eq, Structural)]
pub enum I3CSdrSlewRate {
    /// Min 20ns; Typ 40ns; Max 60ns
    M20T40M60,
    /// Min 12ns; Typ 24ns; Max 36ns
    M12T24M36,
    /// Min 6ns; Typ 12ns; Max 19ns
    M6T12M19,
    /// Min 4ns; Typ 8ns; Max 14ns
    M4T8M14,
    /// Min 2ns; Typ 4ns; Max 8ns
    M2T4M8,
    /// Max 2ns
    M2,
}

impl I3CSdrSlewRate {
    /// The field's bits within its register
    pub const BITMASK: u8 = 0b0000_0111;
    /// The position of the field's lowest bit
    pub const SHIFT: u8 = 0;
    /// The register that holds the field
    pub const REGISTER: Bank0 = Bank0::DRIVE_CONFIG1;

    /// The raw code of the setting, before it is shifted into place
    pub open spec fn code(self) -> u8 {
        match self {
            I3CSdrSlewRate::M20T40M60 => 0,
            I3CSdrSlewRate::M12T24M36 => 1,
            I3CSdrSlewRate::M6T12M19 => 2,
            I3CSdrSlewRate::M4T8M14 => 3,
            I3CSdrSlewRate::M2T4M8 => 4,
            I3CSdrSlewRate::M2 => 5,
        }
    }

    /// The setting's bit pattern, shifted into its register position
    pub open spec fn pattern(self) -> u8 {
        (self.code() << Self::SHIFT) as u8
    }

    /// Bit value of a discriminant, shifted to the correct position
    pub fn bits(self) -> (r: u8)
        ensures
            r == self.pattern(),
            r & !Self::BITMASK == 0,
    {
        let code: u8 = match self {
            I3CSdrSlewRate::M20T40M60 => 0,
            I3CSdrSlewRate::M12T24M36 => 1,
            I3CSdrSlewRate::M6T12M19 => 2,
            I3CSdrSlewRate::M4T8M14 => 3,
            I3CSdrSlewRate::M2T4M8 => 4,
            I3CSdrSlewRate::M2 => 5,
        };
        proof {
            lemma_catalog_masks();
            lemma_code_in_field(0, code, 0, 3);
        }
        code << 0u8
    }
}

/// Slew rate for output pin 14 in I2C mode
#[derive(Clone, Copy, Debug, PartialEq, Eq, Structural)]
pub enum I2CSlewRate {
    /// Min 20ns; Typ 40ns; Max 60ns
    M20T40M60,
    /// Min 12ns; Typ 24ns; Max 36ns
    M12T24M36,
    /// Min 6ns; Typ 12ns; Max 19ns
    M6T12M19,
    /// Min 4ns; Typ 8ns; Max 14ns
    M4T8M14,
    /// Min 2ns; Typ 4ns; Max 8ns
    M2T4M8,
    /// Max 2ns
    M2,
}

impl I2CSlewRate {
    /// The field's bits within its register
    pub const BITMASK: u8 = 0b0011_1000;
    /// The position of the field's lowest bit
    pub const SHIFT: u8 = 3;
    /// The register that holds the field
    pub const REGISTER: Bank0 = Bank0::DRIVE_CONFIG2;

    /// The raw code of the setting, before it is shifted into place
    pub open spec fn code(self) -> u8 {
        match self {
            I2CSlewRate::M20T40M60 => 0,
            I2CSlewRate::M12T24M36 => 1,
            I2CSlewRate::M6T12M19 => 2,
            I2CSlewRate::M4T8M14 => 3,
            I2CSlewRate::M2T4M8 => 4,
            I2CSlewRate::M2 => 5,
        }
    }

    /// The setting's bit pattern, shifted into its register position
    pub open spec fn pattern(self) -> u8 {
        (self.code() << Self::SHIFT) as u8
    }

    /// Bit value of a discriminant, shifted to the correct position
    pub fn bits(self) -> (r: u8)
        ensures
            r == self.pattern(),
            r & !Self::BITMASK == 0,
    {
        let code: u8 = match self {
            I2CSlewRate::M20T40M60 => 0,
            I2CSlewRate::M12T24M36 => 1,
            I2CSlewRate::M6T12M19 => 2,
            I2CSlewRate::M4T8M14 => 3,
            I2CSlewRate::M2T4M8 => 4,
            I2CSlewRate::M2 => 5,
        };
        proof {
            lemma_catalog_masks();
            lemma_code_in_field(0, code, 3, 3);
        }
        code << 3u8
    }
}

/// Drive strength for all output pins but pin 14, in all modes
#[derive(Clone, Copy, Debug, PartialEq, Eq, Structural)]
pub enum AllSlewRate {
    /// Min 20ns; Typ 40ns; Max 60ns
    M20T40M60,
    /// Min 12ns; Typ 24ns; Max 36ns
    M12T24M36,
    /// Min 6ns; Typ 12ns; Max 19ns
    M6T12M19,
    /// Min 4ns; Typ 8ns; Max 14ns
    M4T8M14,
    /// Min 2ns; Typ 4ns; Max 8ns
    M2T4M8,
    /// Max 2ns
    M2,
}

impl AllSlewRate {
    /// The field's bits within its register
    pub const BITMASK: u8 = 0b0000_0111;
    /// The position of the field's lowest bit
    pub const SHIFT: u8 = 0;
    /// The register that holds the field
    pub const REGISTER: Bank0 = Bank0::DRIVE_CONFIG2;

    /// The raw code of the setting, before it is shifted into place
    pub open spec fn code(self) -> u8 {
        match self {
            AllSlewRate::M20T40M60 => 0,
            AllSlewRate::M12T24M36 => 1,
            AllSlewRate::M6T12M19 => 2,
            AllSlewRate::M4T8M14 => 3,
            AllSlewRate::M2T4M8 => 4,
            AllSlewRate::M2 => 5,
        }
    }

    /// The setting's bit pattern, shifted into its register position
    pub open spec fn pattern(self) -> u8 {
        (self.code() << Self::SHIFT) as u8
    }

    /// Bit value of a discriminant, shifted to the correct position
    pub fn bits(self) -> (r: u8)
        ensures
            r == self.pattern(),
            r & !Self::BITMASK == 0,
    {
        let code: u8 = match self {
            AllSlewRate::M20T40M60 => 0,
            AllSlewRate::M12T24M36 => 1,
            AllSlewRate::M6T12M19 => 2,
            AllSlewRate::M4T8M14 => 3,
            AllSlewRate::M2T4M8 => 4,
            AllSlewRate::M2 => 5,
        };
        proof {
            lemma_catalog_masks();
            lemma_code_in_field(0, code, 0, 3);
        }
        code << 0u8
    }
}

/// Slew rate for output pin 14 in SPI 3-wire mode (pin 1 in SPI 4-wire mode)
#[derive(Clone, Copy, Debug, PartialEq, Eq, Structural)]
pub enum SpiSlewRate {
    /// Min 20ns; Typ 40ns; Max 60ns
    M20T40M60,
    /// Min 12ns; Typ 24ns; Max 36ns
    M12T24M36,
    /// Min 6ns; Typ 12ns; Max 19ns
    M6T12M19,
    /// Min 4ns; Typ 8ns; Max 14ns
    M4T8M14,
    /// Min 2ns; Typ 4ns; Max 8ns
    M2T4M8,
    /// Max 2ns
    M2,
}

impl SpiSlewRate {
    /// The field's bits within its register
    pub const BITMASK: u8 = 0b0000_0111;
    /// The position of the field's lowest bit
    pub const SHIFT: u8 = 0;
    /// The register that holds the field
    pub const REGISTER: Bank0 = Bank0::DRIVE_CONFIG2;

    /// The raw code of the setting, before it is shifted into place
    pub open spec fn code(self) -> u8 {
        match self {
            SpiSlewRate::M20T40M60 => 0,
            SpiSlewRate::M12T24M36 => 1,
            SpiSlewRate::M6T12M19 => 2,
            SpiSlewRate::M4T8M14 => 3,
            SpiSlewRate::M2T4M8 => 4,
            SpiSlewRate::M2 => 5,
        }
    }

    /// The setting's bit pattern, shifted into its register position
    pub open spec fn pattern(self) -> u8 {
        (self.code() << Self::SHIFT) as u8
    }

    /// Bit value of a discriminant, shifted to the correct position
    pub fn bits(self) -> (r: u8)
        ensures
            r == self.pattern(),
            r & !Self::BITMASK == 0,
    {
        let code: u8 = match self {
            SpiSlewRate::M20T40M60 => 0,
            SpiSlewRate::M12T24M36 => 1,
            SpiSlewRate::M6T12M19 => 2,
            SpiSlewRate::M4T8M14 => 3,
            SpiSlewRate::M2T4M8 => 4,
            SpiSlewRate::M2 => 5,
        };
        proof {
            lemma_catalog_masks();
            lemma_code_in_field(0, code, 0, 3);
        }
        code << 0u8
    }
}

} // verus!
