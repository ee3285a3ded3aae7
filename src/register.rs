use vstd::prelude::*;

verus! {

/// One of the three extended register banks.
///
/// Only user bank 0 is directly addressable; the extended banks are reached
/// through the bank-0 window registers, selecting a bank by its block-select
/// code.
#[derive(Debug, Clone, Copy, PartialEq, Eq, Structural)]
pub enum RegisterBank {
    MReg1,
    MReg2,
    MReg3,
}

impl RegisterBank {
    /// The block-select code of the bank.
    pub open spec fn block_select(self) -> u8 {
        match self {
            RegisterBank::MReg1 => 0x00,
            RegisterBank::MReg2 => 0x28,
            RegisterBank::MReg3 => 0x50,
        }
    }

    /// The block selection value for a given register bank
    pub fn blk_sel(self) -> (r: u8)
        ensures
            r == self.block_select(),
    {
        match self {
            RegisterBank::MReg1 => 0x00,
            RegisterBank::MReg2 => 0x28,
            RegisterBank::MReg3 => 0x50,
        }
    }
}

/// A byte-wide register of the device.
pub trait Register {
    /// The address of the register within its bank.
    spec fn address(&self) -> u8;

    /// Whether the register rejects writes.
    spec fn is_read_only(&self) -> bool;

    /// Get the address of the register
    fn addr(&self) -> (r: u8)
        ensures
            r == self.address(),
    ;

    /// Is the register read-only?
    fn read_only(&self) -> (r: bool)
        ensures
            r == self.is_read_only(),
    ;
}

/// Registers of user bank 0, the directly addressable bank.
#[allow(non_camel_case_types)]
#[derive(Debug, Clone, Copy, PartialEq, Eq, Structural)]
pub enum Bank0 {
    MCLK_RDY,
    DEVICE_CONFIG,
    SIGNAL_PATH_RESET,
    DRIVE_CONFIG1,
    DRIVE_CONFIG2,
    DRIVE_CONFIG3,
    INT_CONFIG,
    TEMP_DATA1,
    TEMP_DATA0,
    ACCEL_DATA_X1,
    ACCEL_DATA_X0,
    ACCEL_DATA_Y1,
    ACCEL_DATA_Y0,
    ACCEL_DATA_Z1,
    ACCEL_DATA_Z0,
    GYRO_DATA_X1,
    GYRO_DATA_X0,
    GYRO_DATA_Y1,
    GYRO_DATA_Y0,
    GYRO_DATA_Z1,
    GYRO_DATA_Z0,
    TMST_FSYNCH,
    TMST_FSYNCL,
    APEX_DATA4,
    APEX_DATA5,
    PWR_MGMT0,
    GYRO_CONFIG0,
    ACCEL_CONFIG0,
    TEMP_CONFIG0,
    GYRO_CONFIG1,
    ACCEL_CONFIG1,
    APEX_CONFIG0,
    APEX_CONFIG1,
    WOM_CONFIG,
    FIFO_CONFIG1,
    FIFO_CONFIG2,
    FIFO_CONFIG3,
    INT_SOURCE0,
    INT_SOURCE1,
    INT_SOURCE3,
    INT_SOURCE4,
    FIFO_LOST_PKT0,
    FIFO_LOST_PKT1,
    APEX_DATA0,
    APEX_DATA1,
    APEX_DATA2,
    APEX_DATA3,
    INTF_CONFIG0,
    INTF_CONFIG1,
    INT_STATUS_DRDY,
    INT_STATUS,
    INT_STATUS2,
    INT_STATUS3,
    FIFO_COUNTH,
    FIFO_COUNTL,
    FIFO_DATA,
    WHO_AM_I,
    BLK_SEL_W,
    MADDR_W,
    M_W,
    BLK_SEL_R,
    MADDR_R,
    M_R,
}

impl Register for Bank0 {
    open spec fn address(&self) -> u8 {
        match self {
            Bank0::MCLK_RDY => 0x00,
            Bank0::DEVICE_CONFIG => 0x01,
            Bank0::SIGNAL_PATH_RESET => 0x02,
            Bank0::DRIVE_CONFIG1 => 0x03,
            Bank0::DRIVE_CONFIG2 => 0x04,
            Bank0::DRIVE_CONFIG3 => 0x05,
            Bank0::INT_CONFIG => 0x06,
            Bank0::TEMP_DATA1 => 0x09,
            Bank0::TEMP_DATA0 => 0x0A,
            Bank0::ACCEL_DATA_X1 => 0x0B,
            Bank0::ACCEL_DATA_X0 => 0x0C,
            Bank0::ACCEL_DATA_Y1 => 0x0D,
            Bank0::ACCEL_DATA_Y0 => 0x0E,
            Bank0::ACCEL_DATA_Z1 => 0x0F,
            Bank0::ACCEL_DATA_Z0 => 0x10,
            Bank0::GYRO_DATA_X1 => 0x11,
            Bank0::GYRO_DATA_X0 => 0x12,
            Bank0::GYRO_DATA_Y1 => 0x13,
            Bank0::GYRO_DATA_Y0 => 0x14,
            Bank0::GYRO_DATA_Z1 => 0x15,
            Bank0::GYRO_DATA_Z0 => 0x16,
            Bank0::TMST_FSYNCH => 0x17,
            Bank0::TMST_FSYNCL => 0x18,
            Bank0::APEX_DATA4 => 0x1D,
            Bank0::APEX_DATA5 => 0x1E,
            Bank0::PWR_MGMT0 => 0x1F,
            Bank0::GYRO_CONFIG0 => 0x20,
            Bank0::ACCEL_CONFIG0 => 0x21,
            Bank0::TEMP_CONFIG0 => 0x22,
            Bank0::GYRO_CONFIG1 => 0x23,
            Bank0::ACCEL_CONFIG1 => 0x24,
            Bank0::APEX_CONFIG0 => 0x25,
            Bank0::APEX_CONFIG1 => 0x26,
            Bank0::WOM_CONFIG => 0x27,
            Bank0::FIFO_CONFIG1 => 0x28,
            Bank0::FIFO_CONFIG2 => 0x29,
            Bank0::FIFO_CONFIG3 => 0x2A,
            Bank0::INT_SOURCE0 => 0x2B,
            Bank0::INT_SOURCE1 => 0x2C,
            Bank0::INT_SOURCE3 => 0x2D,
            Bank0::INT_SOURCE4 => 0x2E,
            Bank0::FIFO_LOST_PKT0 => 0x2F,
            Bank0::FIFO_LOST_PKT1 => 0x30,
            Bank0::APEX_DATA0 => 0x31,
            Bank0::APEX_DATA1 => 0x32,
            Bank0::APEX_DATA2 => 0x33,
            Bank0::APEX_DATA3 => 0x34,
            Bank0::INTF_CONFIG0 => 0x35,
            Bank0::INTF_CONFIG1 => 0x36,
            Bank0::INT_STATUS_DRDY => 0x39,
            Bank0::INT_STATUS => 0x3A,
            Bank0::INT_STATUS2 => 0x3B,
            Bank0::INT_STATUS3 => 0x3C,
            Bank0::FIFO_COUNTH => 0x3D,
            Bank0::FIFO_COUNTL => 0x3E,
            Bank0::FIFO_DATA => 0x3F,
            Bank0::WHO_AM_I => 0x75,
            Bank0::BLK_SEL_W => 0x79,
            Bank0::MADDR_W => 0x7A,
            Bank0::M_W => 0x7B,
            Bank0::BLK_SEL_R => 0x7C,
            Bank0::MADDR_R => 0x7D,
            Bank0::M_R => 0x7E,
        }
    }

    open spec fn is_read_only(&self) -> bool {
        match self {
            Bank0::MCLK_RDY => true,
            Bank0::TEMP_DATA1 => true,
            Bank0::TEMP_DATA0 => true,
            Bank0::ACCEL_DATA_X1 => true,
            Bank0::ACCEL_DATA_X0 => true,
            Bank0::ACCEL_DATA_Y1 => true,
            Bank0::ACCEL_DATA_Y0 => true,
            Bank0::ACCEL_DATA_Z1 => true,
            Bank0::ACCEL_DATA_Z0 => true,
            Bank0::GYRO_DATA_X1 => true,
            Bank0::GYRO_DATA_X0 => true,
            Bank0::GYRO_DATA_Y1 => true,
            Bank0::GYRO_DATA_Y0 => true,
            Bank0::GYRO_DATA_Z1 => true,
            Bank0::GYRO_DATA_Z0 => true,
            Bank0::TMST_FSYNCH => true,
            Bank0::TMST_FSYNCL => true,
            Bank0::APEX_DATA4 => true,
            Bank0::APEX_DATA5 => true,
            Bank0::FIFO_LOST_PKT0 => true,
            Bank0::FIFO_LOST_PKT1 => true,
            Bank0::APEX_DATA0 => true,
            Bank0::APEX_DATA1 => true,
            Bank0::APEX_DATA2 => true,
            Bank0::APEX_DATA3 => true,
            Bank0::FIFO_COUNTH => true,
            Bank0::FIFO_COUNTL => true,
            Bank0::FIFO_DATA => true,
            Bank0::WHO_AM_I => true,
            _ => false,
        }
    }

    fn addr(&self) -> (r: u8) {
        match self {
            Bank0::MCLK_RDY => 0x00,
            Bank0::DEVICE_CONFIG => 0x01,
            Bank0::SIGNAL_PATH_RESET => 0x02,
            Bank0::DRIVE_CONFIG1 => 0x03,
            Bank0::DRIVE_CONFIG2 => 0x04,
            Bank0::DRIVE_CONFIG3 => 0x05,
            Bank0::INT_CONFIG => 0x06,
            Bank0::TEMP_DATA1 => 0x09,
            Bank0::TEMP_DATA0 => 0x0A,
            Bank0::ACCEL_DATA_X1 => 0x0B,
            Bank0::ACCEL_DATA_X0 => 0x0C,
            Bank0::ACCEL_DATA_Y1 => 0x0D,
            Bank0::ACCEL_DATA_Y0 => 0x0E,
            Bank0::ACCEL_DATA_Z1 => 0x0F,
            Bank0::ACCEL_DATA_Z0 => 0x10,
            Bank0::GYRO_DATA_X1 => 0x11,
            Bank0::GYRO_DATA_X0 => 0x12,
            Bank0::GYRO_DATA_Y1 => 0x13,
            Bank0::GYRO_DATA_Y0 => 0x14,
            Bank0::GYRO_DATA_Z1 => 0x15,
            Bank0::GYRO_DATA_Z0 => 0x16,
            Bank0::TMST_FSYNCH => 0x17,
            Bank0::TMST_FSYNCL => 0x18,
            Bank0::APEX_DATA4 => 0x1D,
            Bank0::APEX_DATA5 => 0x1E,
            Bank0::PWR_MGMT0 => 0x1F,
            Bank0::GYRO_CONFIG0 => 0x20,
            Bank0::ACCEL_CONFIG0 => 0x21,
            Bank0::TEMP_CONFIG0 => 0x22,
            Bank0::GYRO_CONFIG1 => 0x23,
            Bank0::ACCEL_CONFIG1 => 0x24,
            Bank0::APEX_CONFIG0 => 0x25,
            Bank0::APEX_CONFIG1 => 0x26,
            Bank0::WOM_CONFIG => 0x27,
            Bank0::FIFO_CONFIG1 => 0x28,
            Bank0::FIFO_CONFIG2 => 0x29,
            Bank0::FIFO_CONFIG3 => 0x2A,
            Bank0::INT_SOURCE0 => 0x2B,
            Bank0::INT_SOURCE1 => 0x2C,
            Bank0::INT_SOURCE3 => 0x2D,
            Bank0::INT_SOURCE4 => 0x2E,
            Bank0::FIFO_LOST_PKT0 => 0x2F,
            Bank0::FIFO_LOST_PKT1 => 0x30,
            Bank0::APEX_DATA0 => 0x31,
            Bank0::APEX_DATA1 => 0x32,
            Bank0::APEX_DATA2 => 0x33,
            Bank0::APEX_DATA3 => 0x34,
            Bank0::INTF_CONFIG0 => 0x35,
            Bank0::INTF_CONFIG1 => 0x36,
            Bank0::INT_STATUS_DRDY => 0x39,
            Bank0::INT_STATUS => 0x3A,
            Bank0::INT_STATUS2 => 0x3B,
            Bank0::INT_STATUS3 => 0x3C,
            Bank0::FIFO_COUNTH => 0x3D,
            Bank0::FIFO_COUNTL => 0x3E,
            Bank0::FIFO_DATA => 0x3F,
            Bank0::WHO_AM_I => 0x75,
            Bank0::BLK_SEL_W => 0x79,
            Bank0::MADDR_W => 0x7A,
            Bank0::M_W => 0x7B,
            Bank0::BLK_SEL_R => 0x7C,
            Bank0::MADDR_R => 0x7D,
            Bank0::M_R => 0x7E,
        }
    }

    fn read_only(&self) -> (r: bool) {
        match self {
            Bank0::MCLK_RDY => true,
            Bank0::TEMP_DATA1 => true,
            Bank0::TEMP_DATA0 => true,
            Bank0::ACCEL_DATA_X1 => true,
            Bank0::ACCEL_DATA_X0 => true,
            Bank0::ACCEL_DATA_Y1 => true,
            Bank0::ACCEL_DATA_Y0 => true,
            Bank0::ACCEL_DATA_Z1 => true,
            Bank0::ACCEL_DATA_Z0 => true,
            Bank0::GYRO_DATA_X1 => true,
            Bank0::GYRO_DATA_X0 => true,
            Bank0::GYRO_DATA_Y1 => true,
            Bank0::GYRO_DATA_Y0 => true,
            Bank0::GYRO_DATA_Z1 => true,
            Bank0::GYRO_DATA_Z0 => true,
            Bank0::TMST_FSYNCH => true,
            Bank0::TMST_FSYNCL => true,
            Bank0::APEX_DATA4 => true,
            Bank0::APEX_DATA5 => true,
            Bank0::FIFO_LOST_PKT0 => true,
            Bank0::FIFO_LOST_PKT1 => true,
            Bank0::APEX_DATA0 => true,
            Bank0::APEX_DATA1 => true,
            Bank0::APEX_DATA2 => true,
            Bank0::APEX_DATA3 => true,
            Bank0::FIFO_COUNTH => true,
            Bank0::FIFO_COUNTL => true,
            Bank0::FIFO_DATA => true,
            Bank0::WHO_AM_I => true,
            _ => false,
        }
    }
}

/// Registers of the extended bank MREG1.
#[allow(non_camel_case_types)]
#[derive(Debug, Clone, Copy, PartialEq, Eq, Structural)]
pub enum Mreg1 {
    TMST_CONFIG1,
    FIFO_CONFIG5,
    FIFO_CONFIG6,
    FSYNC_CONFIG,
    INT_CONFIG0,
    INT_CONFIG1,
    SENSOR_CONFIG3,
    ST_CONFIG,
    SELFTEST,
    INTF_CONFIG6,
    INTF_CONFIG10,
    INTF_CONFIG7,
    OTP_CONFIG,
    INT_SOURCE6,
    INT_SOURCE7,
    INT_SOURCE8,
    INT_SOURCE9,
    INT_SOURCE10,
    APEX_CONFIG2,
    APEX_CONFIG3,
    APEX_CONFIG4,
    APEX_CONFIG5,
    APEX_CONFIG9,
    APEX_CONFIG10,
    APEX_CONFIG11,
    ACCEL_WOM_X_THR,
    ACCEL_WOM_Y_THR,
    ACCEL_WOM_Z_THR,
    OFFSET_USER0,
    OFFSET_USER1,
    OFFSET_USER2,
    OFFSET_USER3,
    OFFSET_USER4,
    OFFSET_USER5,
    OFFSET_USER6,
    OFFSET_USER7,
    OFFSET_USER8,
    ST_STATUS1,
    ST_STATUS2,
    FDR_CONFIG,
    APEX_CONFIG12,
}

impl Register for Mreg1 {
    open spec fn address(&self) -> u8 {
        match self {
            Mreg1::TMST_CONFIG1 => 0x00,
            Mreg1::FIFO_CONFIG5 => 0x01,
            Mreg1::FIFO_CONFIG6 => 0x02,
            Mreg1::FSYNC_CONFIG => 0x03,
            Mreg1::INT_CONFIG0 => 0x04,
            Mreg1::INT_CONFIG1 => 0x05,
            Mreg1::SENSOR_CONFIG3 => 0x06,
            Mreg1::ST_CONFIG => 0x13,
            Mreg1::SELFTEST => 0x14,
            Mreg1::INTF_CONFIG6 => 0x23,
            Mreg1::INTF_CONFIG10 => 0x25,
            Mreg1::INTF_CONFIG7 => 0x28,
            Mreg1::OTP_CONFIG => 0x2B,
            Mreg1::INT_SOURCE6 => 0x2F,
            Mreg1::INT_SOURCE7 => 0x30,
            Mreg1::INT_SOURCE8 => 0x31,
            Mreg1::INT_SOURCE9 => 0x32,
            Mreg1::INT_SOURCE10 => 0x33,
            Mreg1::APEX_CONFIG2 => 0x44,
            Mreg1::APEX_CONFIG3 => 0x45,
            Mreg1::APEX_CONFIG4 => 0x46,
            Mreg1::APEX_CONFIG5 => 0x47,
            Mreg1::APEX_CONFIG9 => 0x48,
            Mreg1::APEX_CONFIG10 => 0x49,
            Mreg1::APEX_CONFIG11 => 0x4A,
            Mreg1::ACCEL_WOM_X_THR => 0x4B,
            Mreg1::ACCEL_WOM_Y_THR => 0x4C,
            Mreg1::ACCEL_WOM_Z_THR => 0x4D,
            Mreg1::OFFSET_USER0 => 0x4E,
            Mreg1::OFFSET_USER1 => 0x4F,
            Mreg1::OFFSET_USER2 => 0x50,
            Mreg1::OFFSET_USER3 => 0x51,
            Mreg1::OFFSET_USER4 => 0x52,
            Mreg1::OFFSET_USER5 => 0x53,
            Mreg1::OFFSET_USER6 => 0x54,
            Mreg1::OFFSET_USER7 => 0x55,
            Mreg1::OFFSET_USER8 => 0x56,
            Mreg1::ST_STATUS1 => 0x63,
            Mreg1::ST_STATUS2 => 0x64,
            Mreg1::FDR_CONFIG => 0x66,
            Mreg1::APEX_CONFIG12 => 0x67,
        }
    }

    open spec fn is_read_only(&self) -> bool {
        match self {
            Mreg1::ST_STATUS1 => true,
            Mreg1::ST_STATUS2 => true,
            _ => false,
        }
    }

    fn addr(&self) -> (r: u8) {
        match self {
            Mreg1::TMST_CONFIG1 => 0x00,
            Mreg1::FIFO_CONFIG5 => 0x01,
            Mreg1::FIFO_CONFIG6 => 0x02,
            Mreg1::FSYNC_CONFIG => 0x03,
            Mreg1::INT_CONFIG0 => 0x04,
            Mreg1::INT_CONFIG1 => 0x05,
            Mreg1::SENSOR_CONFIG3 => 0x06,
            Mreg1::ST_CONFIG => 0x13,
            Mreg1::SELFTEST => 0x14,
            Mreg1::INTF_CONFIG6 => 0x23,
            Mreg1::INTF_CONFIG10 => 0x25,
            Mreg1::INTF_CONFIG7 => 0x28,
            Mreg1::OTP_CONFIG => 0x2B,
            Mreg1::INT_SOURCE6 => 0x2F,
            Mreg1::INT_SOURCE7 => 0x30,
            Mreg1::INT_SOURCE8 => 0x31,
            Mreg1::INT_SOURCE9 => 0x32,
            Mreg1::INT_SOURCE10 => 0x33,
            Mreg1::APEX_CONFIG2 => 0x44,
            Mreg1::APEX_CONFIG3 => 0x45,
            Mreg1::APEX_CONFIG4 => 0x46,
            Mreg1::APEX_CONFIG5 => 0x47,
            Mreg1::APEX_CONFIG9 => 0x48,
            Mreg1::APEX_CONFIG10 => 0x49,
            Mreg1::APEX_CONFIG11 => 0x4A,
            Mreg1::ACCEL_WOM_X_THR => 0x4B,
            Mreg1::ACCEL_WOM_Y_THR => 0x4C,
            Mreg1::ACCEL_WOM_Z_THR => 0x4D,
            Mreg1::OFFSET_USER0 => 0x4E,
            Mreg1::OFFSET_USER1 => 0x4F,
            Mreg1::OFFSET_USER2 => 0x50,
            Mreg1::OFFSET_USER3 => 0x51,
            Mreg1::OFFSET_USER4 => 0x52,
            Mreg1::OFFSET_USER5 => 0x53,
            Mreg1::OFFSET_USER6 => 0x54,
            Mreg1::OFFSET_USER7 => 0x55,
            Mreg1::OFFSET_USER8 => 0x56,
            Mreg1::ST_STATUS1 => 0x63,
            Mreg1::ST_STATUS2 => 0x64,
            Mreg1::FDR_CONFIG => 0x66,
            Mreg1::APEX_CONFIG12 => 0x67,
        }
    }

    fn read_only(&self) -> (r: bool) {
        match self {
            Mreg1::ST_STATUS1 => true,
            Mreg1::ST_STATUS2 => true,
            _ => false,
        }
    }
}

/// Registers of the extended bank MREG2.
#[allow(non_camel_case_types)]
#[derive(Debug, Clone, Copy, PartialEq, Eq, Structural)]
pub enum Mreg2 {
    OTP_CTRL7,
}

impl Register for Mreg2 {
    open spec fn address(&self) -> u8 {
        match self {
            Mreg2::OTP_CTRL7 => 0x06,
        }
    }

    open spec fn is_read_only(&self) -> bool {
        false
    }

    fn addr(&self) -> (r: u8) {
        match self {
            Mreg2::OTP_CTRL7 => 0x06,
        }
    }

    fn read_only(&self) -> (r: bool) {
        false
    }
}

/// Registers of the extended bank MREG3; all of them hold self-test data and are read-only.
#[allow(non_camel_case_types)]
#[derive(Debug, Clone, Copy, PartialEq, Eq, Structural)]
pub enum Mreg3 {
    XA_ST_DATA,
    YA_ST_DATA,
    ZA_ST_DATA,
    XG_ST_DATA,
    YG_ST_DATA,
    ZG_ST_DATA,
}

impl Register for Mreg3 {
    open spec fn address(&self) -> u8 {
        match self {
            Mreg3::XA_ST_DATA => 0x00,
            Mreg3::YA_ST_DATA => 0x01,
            Mreg3::ZA_ST_DATA => 0x02,
            Mreg3::XG_ST_DATA => 0x03,
            Mreg3::YG_ST_DATA => 0x04,
            Mreg3::ZG_ST_DATA => 0x05,
        }
    }

    open spec fn is_read_only(&self) -> bool {
        true
    }

    fn addr(&self) -> (r: u8) {
        match self {
            Mreg3::XA_ST_DATA => 0x00,
            Mreg3::YA_ST_DATA => 0x01,
            Mreg3::ZA_ST_DATA => 0x02,
            Mreg3::XG_ST_DATA => 0x03,
            Mreg3::YG_ST_DATA => 0x04,
            Mreg3::ZG_ST_DATA => 0x05,
        }
    }

    fn read_only(&self) -> (r: bool) {
        true
    }
}

} // verus!
