//! Register map of the sensor and the bit layout of each control register.
use vstd::prelude::*;

use crate::config::{
    accel_gyro::{
        AccelBandWidth, AccelDecimation, AccelFullScale, AccelGyroSamplingRate, AccelLowpassCutoff,
        AccelSamplingRate, GyroFullScale,
    },
    magnetometer::{FullScale, OperatingMode, PerformanceMode, SamplingRate},
    Endianness, InterruptPinMode, SPIMode,
};

verus! {

/// Register address of a sensor component.
#[derive(Clone, Copy, Debug, PartialEq, Eq, Structural)]
pub enum ComponentAddress {
    /// Accelerometer + gyroscope (also temperature).
    Ag(u8),
    /// Magnetometer.
    M(u8),
}

/// Device registers.
#[allow(non_camel_case_types)]
#[derive(Clone, Copy, Debug, PartialEq, Eq, Structural)]
pub enum Register {
    ACT_THS,
    ACT_DUR,
    INT_GEN_CFG_XL,
    INT_GEN_THS_X_XL,
    INT_GEN_THS_Y_XL,
    INT_GEN_THS_Z_XL,
    INT_GEN_DUR_XL,
    REFERENCE_G,
    INT1_CTRL,
    INT2_CTRL,
    WHO_AM_I,
    CTRL_REG1_G,
    CTRL_REG2_G,
    CTRL_REG3_G,
    ORIENT_CFG_G,
    INT_GEN_SRC_G,
    OUT_TEMP_L,
    OUT_TEMP_H,
    STATUS_REG_G,
    OUT_X_L_G,
    OUT_X_H_G,
    OUT_Y_L_G,
    OUT_Y_H_G,
    OUT_Z_L_G,
    OUT_Z_H_G,
    CTRL_REG4,
    /// Mapped to 0xf1, which lies outside the 0x04..=0x37 range of the other registers of
    /// its component, between CTRL_REG4 at 0x1e and CTRL_REG6_XL at 0x20. It is likely a
    /// defect (0x1f would fit): confirm against the datasheet before relying on writes to it.
    CTRL_REG5_XL,
    CTRL_REG6_XL,
    CTRL_REG7_XL,
    CTRL_REG8,
    CTRL_REG9,
    CTRL_REG10,
    INT_GEN_SRC_XL,
    STATUS_REG_A,
    OUT_X_L_XL,
    OUT_X_H_XL,
    OUT_Y_L_XL,
    OUT_Y_H_XL,
    OUT_Z_L_XL,
    OUT_Z_H_XL,
    FIFO_CTRL,
    FIFO_SRC,
    INT_GEN_CFG_G,
    INT_GEN_THS_XH_G,
    INT_GEN_THS_XL_G,
    INT_GEN_THS_YH_G,
    INT_GEN_THS_YL_G,
    INT_GEN_THS_ZH_G,
    INT_GEN_THS_ZL_G,
    INT_GEN_DUR_G,
    OFFSET_X_REG_L_M,
    OFFSET_X_REG_H_M,
    OFFSET_Y_REG_L_M,
    OFFSET_Y_REG_H_M,
    OFFSET_Z_REG_L_M,
    OFFSET_Z_REG_H_M,
    WHO_AM_I_M,
    CTRL_REG1_M,
    CTRL_REG2_M,
    CTRL_REG3_M,
    CTRL_REG4_M,
    CTRL_REG5_M,
    STATUS_REG_M,
    OUT_X_L_M,
    OUT_X_H_M,
    OUT_Y_L_M,
    OUT_Y_H_M,
    OUT_Z_L_M,
    OUT_Z_H_M,
    INT_CFG_M,
    INT_SRC_M,
    INT_THS_L_M,
    INT_THS_H_M,
}

impl Register {
    /// The component that owns the register, and the register's address there.
    pub open spec fn spec_addr(self) -> ComponentAddress {
        match self {
            Register::ACT_THS => ComponentAddress::Ag(0x04),
            Register::ACT_DUR => ComponentAddress::Ag(0x05),
            Register::INT_GEN_CFG_XL => ComponentAddress::Ag(0x06),
            Register::INT_GEN_THS_X_XL => ComponentAddress::Ag(0x07),
            Register::INT_GEN_THS_Y_XL => ComponentAddress::Ag(0x08),
            Register::INT_GEN_THS_Z_XL => ComponentAddress::Ag(0x09),
            Register::INT_GEN_DUR_XL => ComponentAddress::Ag(0x0a),
            Register::REFERENCE_G => ComponentAddress::Ag(0x0b),
            Register::INT1_CTRL => ComponentAddress::Ag(0x0c),
            Register::INT2_CTRL => ComponentAddress::Ag(0x0d),
            Register::WHO_AM_I => ComponentAddress::Ag(0x0f),
            Register::CTRL_REG1_G => ComponentAddress::Ag(0x10),
            Register::CTRL_REG2_G => ComponentAddress::Ag(0x11),
            Register::CTRL_REG3_G => ComponentAddress::Ag(0x12),
            Register::ORIENT_CFG_G => ComponentAddress::Ag(0x13),
            Register::INT_GEN_SRC_G => ComponentAddress::Ag(0x14),
            Register::OUT_TEMP_L => ComponentAddress::Ag(0x15),
            Register::OUT_TEMP_H => ComponentAddress::Ag(0x16),
            Register::STATUS_REG_G => ComponentAddress::Ag(0x17),
            Register::OUT_X_L_G => ComponentAddress::Ag(0x18),
            Register::OUT_X_H_G => ComponentAddress::Ag(0x19),
            Register::OUT_Y_L_G => ComponentAddress::Ag(0x1a),
            Register::OUT_Y_H_G => ComponentAddress::Ag(0x1b),
            Register::OUT_Z_L_G => ComponentAddress::Ag(0x1c),
            Register::OUT_Z_H_G => ComponentAddress::Ag(0x1d),
            Register::CTRL_REG4 => ComponentAddress::Ag(0x1e),
            // See the note on CTRL_REG5_XL: 0xf1 is likely a defect.
            Register::CTRL_REG5_XL => ComponentAddress::Ag(0xf1),
            Register::CTRL_REG6_XL => ComponentAddress::Ag(0x20),
            Register::CTRL_REG7_XL => ComponentAddress::Ag(0x21),
            Register::CTRL_REG8 => ComponentAddress::Ag(0x22),
            Register::CTRL_REG9 => ComponentAddress::Ag(0x23),
            Register::CTRL_REG10 => ComponentAddress::Ag(0x24),
            Register::INT_GEN_SRC_XL => ComponentAddress::Ag(0x26),
            Register::STATUS_REG_A => ComponentAddress::Ag(0x27),
            Register::OUT_X_L_XL => ComponentAddress::Ag(0x28),
            Register::OUT_X_H_XL => ComponentAddress::Ag(0x29),
            Register::OUT_Y_L_XL => ComponentAddress::Ag(0x2a),
            Register::OUT_Y_H_XL => ComponentAddress::Ag(0x2b),
            Register::OUT_Z_L_XL => ComponentAddress::Ag(0x2c),
            Register::OUT_Z_H_XL => ComponentAddress::Ag(0x2d),
            Register::FIFO_CTRL => ComponentAddress::Ag(0x2e),
            Register::FIFO_SRC => ComponentAddress::Ag(0x2f),
            Register::INT_GEN_CFG_G => ComponentAddress::Ag(0x30),
            Register::INT_GEN_THS_XH_G => ComponentAddress::Ag(0x31),
            Register::INT_GEN_THS_XL_G => ComponentAddress::Ag(0x32),
            Register::INT_GEN_THS_YH_G => ComponentAddress::Ag(0x33),
            Register::INT_GEN_THS_YL_G => ComponentAddress::Ag(0x34),
            Register::INT_GEN_THS_ZH_G => ComponentAddress::Ag(0x35),
            Register::INT_GEN_THS_ZL_G => ComponentAddress::Ag(0x36),
            Register::INT_GEN_DUR_G => ComponentAddress::Ag(0x37),
            Register::OFFSET_X_REG_L_M => ComponentAddress::M(0x05),
            Register::OFFSET_X_REG_H_M => ComponentAddress::M(0x06),
            Register::OFFSET_Y_REG_L_M => ComponentAddress::M(0x07),
            Register::OFFSET_Y_REG_H_M => ComponentAddress::M(0x08),
            Register::OFFSET_Z_REG_L_M => ComponentAddress::M(0x09),
            Register::OFFSET_Z_REG_H_M => ComponentAddress::M(0x0a),
            Register::WHO_AM_I_M => ComponentAddress::M(0x0f),
            Register::CTRL_REG1_M => ComponentAddress::M(0x20),
            Register::CTRL_REG2_M => ComponentAddress::M(0x21),
            Register::CTRL_REG3_M => ComponentAddress::M(0x22),
            Register::CTRL_REG4_M => ComponentAddress::M(0x23),
            Register::CTRL_REG5_M => ComponentAddress::M(0x24),
            Register::STATUS_REG_M => ComponentAddress::M(0x27),
            Register::OUT_X_L_M => ComponentAddress::M(0x28),
            Register::OUT_X_H_M => ComponentAddress::M(0x29),
            Register::OUT_Y_L_M => ComponentAddress::M(0x2a),
            Register::OUT_Y_H_M => ComponentAddress::M(0x2b),
            Register::OUT_Z_L_M => ComponentAddress::M(0x2c),
            Register::OUT_Z_H_M => ComponentAddress::M(0x2d),
            Register::INT_CFG_M => ComponentAddress::M(0x30),
            Register::INT_SRC_M => ComponentAddress::M(0x31),
            Register::INT_THS_L_M => ComponentAddress::M(0x32),
            Register::INT_THS_H_M => ComponentAddress::M(0x33),
        }
    }

    /// Get sensor component the register belongs to, and the register address.
    pub fn addr(self) -> (r: ComponentAddress)
        ensures
            r == self.spec_addr(),
    {
        match self {
            Register::ACT_THS => ComponentAddress::Ag(0x04),
            Register::ACT_DUR => ComponentAddress::Ag(0x05),
            Register::INT_GEN_CFG_XL => ComponentAddress::Ag(0x06),
            Register::INT_GEN_THS_X_XL => ComponentAddress::Ag(0x07),
            Register::INT_GEN_THS_Y_XL => ComponentAddress::Ag(0x08),
            Register::INT_GEN_THS_Z_XL => ComponentAddress::Ag(0x09),
            Register::INT_GEN_DUR_XL => ComponentAddress::Ag(0x0a),
            Register::REFERENCE_G => ComponentAddress::Ag(0x0b),
            Register::INT1_CTRL => ComponentAddress::Ag(0x0c),
            Register::INT2_CTRL => ComponentAddress::Ag(0x0d),
            Register::WHO_AM_I => ComponentAddress::Ag(0x0f),
            Register::CTRL_REG1_G => ComponentAddress::Ag(0x10),
            Register::CTRL_REG2_G => ComponentAddress::Ag(0x11),
            Register::CTRL_REG3_G => ComponentAddress::Ag(0x12),
            Register::ORIENT_CFG_G => ComponentAddress::Ag(0x13),
            Register::INT_GEN_SRC_G => ComponentAddress::Ag(0x14),
            Register::OUT_TEMP_L => ComponentAddress::Ag(0x15),
            Register::OUT_TEMP_H => ComponentAddress::Ag(0x16),
            Register::STATUS_REG_G => ComponentAddress::Ag(0x17),
            Register::OUT_X_L_G => ComponentAddress::Ag(0x18),
            Register::OUT_X_H_G => ComponentAddress::Ag(0x19),
            Register::OUT_Y_L_G => ComponentAddress::Ag(0x1a),
            Register::OUT_Y_H_G => ComponentAddress::Ag(0x1b),
            Register::OUT_Z_L_G => ComponentAddress::Ag(0x1c),
            Register::OUT_Z_H_G => ComponentAddress::Ag(0x1d),
            Register::CTRL_REG4 => ComponentAddress::Ag(0x1e),
            // See the note on CTRL_REG5_XL: 0xf1 is likely a defect.
            Register::CTRL_REG5_XL => ComponentAddress::Ag(0xf1),
            Register::CTRL_REG6_XL => ComponentAddress::Ag(0x20),
            Register::CTRL_REG7_XL => ComponentAddress::Ag(0x21),
            Register::CTRL_REG8 => ComponentAddress::Ag(0x22),
            Register::CTRL_REG9 => ComponentAddress::Ag(0x23),
            Register::CTRL_REG10 => ComponentAddress::Ag(0x24),
            Register::INT_GEN_SRC_XL => ComponentAddress::Ag(0x26),
            Register::STATUS_REG_A => ComponentAddress::Ag(0x27),
            Register::OUT_X_L_XL => ComponentAddress::Ag(0x28),
            Register::OUT_X_H_XL => ComponentAddress::Ag(0x29),
            Register::OUT_Y_L_XL => ComponentAddress::Ag(0x2a),
            Register::OUT_Y_H_XL => ComponentAddress::Ag(0x2b),
            Register::OUT_Z_L_XL => ComponentAddress::Ag(0x2c),
            Register::OUT_Z_H_XL => ComponentAddress::Ag(0x2d),
            Register::FIFO_CTRL => ComponentAddress::Ag(0x2e),
            Register::FIFO_SRC => ComponentAddress::Ag(0x2f),
            Register::INT_GEN_CFG_G => ComponentAddress::Ag(0x30),
            Register::INT_GEN_THS_XH_G => ComponentAddress::Ag(0x31),
            Register::INT_GEN_THS_XL_G => ComponentAddress::Ag(0x32),
            Register::INT_GEN_THS_YH_G => ComponentAddress::Ag(0x33),
            Register::INT_GEN_THS_YL_G => ComponentAddress::Ag(0x34),
            Register::INT_GEN_THS_ZH_G => ComponentAddress::Ag(0x35),
            Register::INT_GEN_THS_ZL_G => ComponentAddress::Ag(0x36),
            Register::INT_GEN_DUR_G => ComponentAddress::Ag(0x37),
            Register::OFFSET_X_REG_L_M => ComponentAddress::M(0x05),
            Register::OFFSET_X_REG_H_M => ComponentAddress::M(0x06),
            Register::OFFSET_Y_REG_L_M => ComponentAddress::M(0x07),
            Register::OFFSET_Y_REG_H_M => ComponentAddress::M(0x08),
            Register::OFFSET_Z_REG_L_M => ComponentAddress::M(0x09),
            Register::OFFSET_Z_REG_H_M => ComponentAddress::M(0x0a),
            Register::WHO_AM_I_M => ComponentAddress::M(0x0f),
            Register::CTRL_REG1_M => ComponentAddress::M(0x20),
            Register::CTRL_REG2_M => ComponentAddress::M(0x21),
            Register::CTRL_REG3_M => ComponentAddress::M(0x22),
            Register::CTRL_REG4_M => ComponentAddress::M(0x23),
            Register::CTRL_REG5_M => ComponentAddress::M(0x24),
            Register::STATUS_REG_M => ComponentAddress::M(0x27),
            Register::OUT_X_L_M => ComponentAddress::M(0x28),
            Register::OUT_X_H_M => ComponentAddress::M(0x29),
            Register::OUT_Y_L_M => ComponentAddress::M(0x2a),
            Register::OUT_Y_H_M => ComponentAddress::M(0x2b),
            Register::OUT_Z_L_M => ComponentAddress::M(0x2c),
            Register::OUT_Z_H_M => ComponentAddress::M(0x2d),
            Register::INT_CFG_M => ComponentAddress::M(0x30),
            Register::INT_SRC_M => ComponentAddress::M(0x31),
            Register::INT_THS_L_M => ComponentAddress::M(0x32),
            Register::INT_THS_H_M => ComponentAddress::M(0x33),
        }
    }
}

// Field codes, as the datasheet assigns them.

/// A single-bit flag.
pub open spec fn flag(b: bool) -> int {
    if b {
        1
    } else {
        0
    }
}

pub open spec fn accel_gyro_rate_code(rate: AccelGyroSamplingRate) -> int {
    match rate {
        AccelGyroSamplingRate::PowerDown => 0b000,
        AccelGyroSamplingRate::_14p9Hz => 0b001,
        AccelGyroSamplingRate::_59p5Hz => 0b010,
        AccelGyroSamplingRate::_119Hz => 0b011,
        AccelGyroSamplingRate::_238Hz => 0b100,
        AccelGyroSamplingRate::_476Hz => 0b101,
        AccelGyroSamplingRate::_952Hz => 0b110,
    }
}

pub open spec fn gyro_scale_code(scale: GyroFullScale) -> int {
    match scale {
        GyroFullScale::_245dps => 0b00,
        GyroFullScale::_500dps => 0b01,
        GyroFullScale::_2000dps => 0b11,
    }
}

pub open spec fn accel_rate_code(rate: AccelSamplingRate) -> int {
    match rate {
        AccelSamplingRate::PowerDown => 0b000,
        AccelSamplingRate::_10Hz => 0b001,
        AccelSamplingRate::_50Hz => 0b010,
        AccelSamplingRate::_119Hz => 0b011,
        AccelSamplingRate::_238Hz => 0b100,
        AccelSamplingRate::_476Hz => 0b101,
        AccelSamplingRate::_952Hz => 0b110,
    }
}

/// The accelerometer's scale codes do not follow the order of magnitude.
pub open spec fn accel_scale_code(scale: AccelFullScale) -> int {
    match scale {
        AccelFullScale::PlusMinus2g => 0b00,
        AccelFullScale::PlusMinus4g => 0b10,
        AccelFullScale::PlutMinus8g => 0b11,
        AccelFullScale::PlusMinus16g => 0b01,
    }
}

pub open spec fn decimation_code(decimation: AccelDecimation) -> int {
    match decimation {
        AccelDecimation::NoDecimation => 0b00,
        AccelDecimation::Half => 0b01,
        AccelDecimation::Quarter => 0b10,
        AccelDecimation::Eighth => 0b11,
    }
}

pub open spec fn bandwidth_code(bandwidth: AccelBandWidth) -> int {
    match bandwidth {
        AccelBandWidth::Auto => 0b000,
        AccelBandWidth::_408Hz => 0b100,
        AccelBandWidth::_211Hz => 0b101,
        AccelBandWidth::_105Hz => 0b110,
        AccelBandWidth::_50Hz => 0b111,
    }
}

pub open spec fn lowpass_cutoff_code(cutoff: AccelLowpassCutoff) -> int {
    match cutoff {
        AccelLowpassCutoff::_ODRby9 => 0b10,
        AccelLowpassCutoff::_ODRBy50 => 0b00,
        AccelLowpassCutoff::_ODRBy100 => 0b01,
        AccelLowpassCutoff::_ODRBy400 => 0b11,
    }
}

pub open spec fn pin_mode_code(mode: InterruptPinMode) -> int {
    match mode {
        InterruptPinMode::PushPull => 0,
        InterruptPinMode::OpenDrain => 1,
    }
}

pub open spec fn spi_mode_code(mode: SPIMode) -> int {
    match mode {
        SPIMode::FourWire => 0,
        SPIMode::ThreeWire => 1,
    }
}

pub open spec fn endianness_code(endianness: Endianness) -> int {
    match endianness {
        Endianness::BigEndian => 0,
        Endianness::LittleEndian => 1,
    }
}

pub open spec fn performance_code(mode: PerformanceMode) -> int {
    match mode {
        PerformanceMode::LowPower => 0b00,
        PerformanceMode::MediumPerformance => 0b01,
        PerformanceMode::HighPerformance => 0b10,
        PerformanceMode::UtraHighPerformance => 0b11,
    }
}

pub open spec fn mag_rate_code(rate: SamplingRate) -> int {
    match rate {
        SamplingRate::_0p625Hz => 0b000,
        SamplingRate::_1p25Hz => 0b001,
        SamplingRate::_2p5Hz => 0b010,
        SamplingRate::_5Hz => 0b011,
        SamplingRate::_10Hz => 0b100,
        SamplingRate::_20Hz => 0b101,
        SamplingRate::_40Hz => 0b110,
        SamplingRate::_80Hz => 0b111,
    }
}

pub open spec fn mag_scale_code(scale: FullScale) -> int {
    match scale {
        FullScale::PlusMinus4Gauss => 0b00,
        FullScale::PlusMinus8Gauss => 0b01,
        FullScale::PlusMinus12Gauss => 0b10,
        FullScale::PlusMinus16Gauss => 0b11,
    }
}

pub open spec fn operating_mode_code(mode: OperatingMode) -> int {
    match mode {
        OperatingMode::ContinuousConversion => 0b00,
        OperatingMode::SingleConversion => 0b01,
        OperatingMode::PowerDown => 0b10,
    }
}

// Register bytes: each field's code weighted by the position of its lowest bit.

/// CTRL_REG1_G: rate in bits 7..5, full scale in bits 4..3, bandwidth 0.
#[verifier::opaque]
pub open spec fn ctrl_reg_1_g_byte(rate: AccelGyroSamplingRate, scale: GyroFullScale) -> u8 {
    (
        32 * accel_gyro_rate_code(rate) + 8 * gyro_scale_code(scale)
    ) as u8
}

/// CTRL_REG2_G: output selection in bits 1..0; the low pass path wins over the high pass one.
#[verifier::opaque]
pub open spec fn ctrl_reg_2_g_byte(high_pass: bool, low_pass: bool) -> u8 {
    if low_pass {
        0b10
    } else if high_pass {
        0b01
    } else {
        0b00
    }
}

/// CTRL_REG3_G: low power in bit 7, high pass enable in bit 6, cutoff 0.
#[verifier::opaque]
pub open spec fn ctrl_reg_3_g_byte(low_power: bool, high_pass: bool) -> u8 {
    (
        128 * flag(low_power) + 64 * flag(high_pass)
    ) as u8
}

/// CTRL_REG4: gyroscope axis enables, X in bit 3, Y in bit 4, Z in bit 5.
#[verifier::opaque]
pub open spec fn ctrl_reg_4_byte(x: bool, y: bool, z: bool) -> u8 {
    (
        8 * flag(x) + 16 * flag(y) + 32 * flag(z)
    ) as u8
}

/// CTRL_REG5_XL: decimation in bits 7..6, X enable in bit 3, Y enable in bit 4,
/// and in bit 5 a Z flag that is set when Z is disabled.
#[verifier::opaque]
pub open spec fn ctrl_reg_5_xl_byte(decimation: AccelDecimation, x: bool, y: bool, z: bool) -> u8 {
    (
        64 * decimation_code(decimation) + 8 * flag(x) + 16 * flag(y) + 32 * flag(!z)
    ) as u8
}

/// CTRL_REG6_XL: rate in bits 7..5, full scale in bits 4..3, bandwidth in bits 2..0.
#[verifier::opaque]
pub open spec fn ctrl_reg_6_xl_byte(
    rate: AccelSamplingRate,
    scale: AccelFullScale,
    bandwidth: AccelBandWidth,
) -> u8 {
    (
        32 * accel_rate_code(rate) + 8 * accel_scale_code(scale) + bandwidth_code(bandwidth)
    ) as u8
}

/// CTRL_REG7_XL: high resolution in bit 7, cutoff in bits 6..5, filter enable in bit 2.
#[verifier::opaque]
pub open spec fn ctrl_reg_7_xl_byte(
    high_resolution: bool,
    cutoff: AccelLowpassCutoff,
    filter: bool,
) -> u8 {
    (
        128 * flag(high_resolution) + 32 * lowpass_cutoff_code(cutoff) + 4 * flag(filter)
    ) as u8
}

/// CTRL_REG8: one field per bit, from reboot in bit 7 down to reset in bit 0.
#[verifier::opaque]
pub open spec fn ctrl_reg8_byte(
    reboot: bool,
    block_data_update: bool,
    interrupt_active_low: bool,
    pin_mode: InterruptPinMode,
    spi_mode: SPIMode,
    register_increment: bool,
    endianness: Endianness,
    reset: bool,
) -> u8 {
    (
        128 * flag(reboot) + 64 * flag(block_data_update) + 32 * flag(interrupt_active_low) + 16
            * pin_mode_code(pin_mode) + 8 * spi_mode_code(spi_mode) + 4 * flag(register_increment) + 2
            * endianness_code(endianness) + flag(reset)
    ) as u8
}

/// CTRL_REG1_M: temperature compensation in bit 7, XY performance in bits 6..5,
/// rate in bits 4..2, fast rate in bit 1, self test in bit 0.
#[verifier::opaque]
pub open spec fn ctrl_reg_1_m_byte(
    temperature_compensation: bool,
    xy_performance: PerformanceMode,
    rate: SamplingRate,
    fast_sampling: bool,
    self_test: bool,
) -> u8 {
    (
        128 * flag(temperature_compensation) + 32 * performance_code(xy_performance) + 4
            * mag_rate_code(rate) + 2 * flag(fast_sampling) + flag(self_test)
    ) as u8
}

/// CTRL_REG2_M: full scale in bits 6..5.
#[verifier::opaque]
pub open spec fn ctrl_reg_2_m_byte(scale: FullScale) -> u8 {
    (
        32 * mag_scale_code(scale)
    ) as u8
}

/// CTRL_REG3_M: I2C disable in bit 7, low power in bit 5, SPI read access in bit 2,
/// operating mode in bits 1..0.
#[verifier::opaque]
pub open spec fn ctrl_reg_3_m_byte(
    i2c_disabled: bool,
    low_power: bool,
    spi_write_only: bool,
    mode: OperatingMode,
) -> u8 {
    (
        128 * flag(i2c_disabled) + 32 * flag(low_power) + 4 * flag(!spi_write_only)
            + operating_mode_code(mode)
    ) as u8
}

/// CTRL_REG4_M: Z performance in bits 3..2, endianness in bit 1.
#[verifier::opaque]
pub open spec fn ctrl_reg_4_m_byte(z_performance: PerformanceMode, endianness: Endianness) -> u8 {
    (
        4 * performance_code(z_performance) + 2 * endianness_code(endianness)
    ) as u8
}

/// CTRL_REG5_M: fast read in bit 7, block data update in bit 6.
#[verifier::opaque]
pub open spec fn ctrl_reg_5_m_byte(fast_read: bool, block_data_update: bool) -> u8 {
    (
        128 * flag(fast_read) + 64 * flag(block_data_update)
    ) as u8
}

// Encoders: each packs the fields of one control register.

pub fn ctrl_reg8(
    reboot_memory_content: bool,
    block_data_update: bool,
    interrupt_active_low: bool,
    interrupt_pin_mode: InterruptPinMode,
    spi_mode: SPIMode,
    register_increment: bool,
    accel_gyro_endianness: Endianness,
    reset: bool,
) -> (r: u8)
    ensures
        r == ctrl_reg8_byte(
            reboot_memory_content,
            block_data_update,
            interrupt_active_low,
            interrupt_pin_mode,
            spi_mode,
            register_increment,
            accel_gyro_endianness,
            reset,
        ),
{
    reveal(ctrl_reg8_byte);
    let boot: u8 = if reboot_memory_content { 0b1 } else { 0b0 };
    let bdu: u8 = if block_data_update { 0b1 } else { 0b0 };
    let active_low: u8 = if interrupt_active_low { 0b1 } else { 0b0 };
    let pin_mode: u8 = match interrupt_pin_mode {
        InterruptPinMode::PushPull => 0b0,
        InterruptPinMode::OpenDrain => 0b1,
    };
    let sim: u8 = match spi_mode {
        SPIMode::FourWire => 0b0,
        SPIMode::ThreeWire => 0b1,
    };
    let increment: u8 = if register_increment { 0b1 } else { 0b0 };
    let ble: u8 = match accel_gyro_endianness {
        Endianness::BigEndian => 0b0,
        Endianness::LittleEndian => 0b1,
    };
    let sw_reset: u8 = if reset { 0b1 } else { 0b0 };
    let r: u8 = (boot << 7) | (bdu << 6) | (active_low << 5) | (pin_mode << 4) | (sim << 3) | (
    increment << 2) | (ble << 1) | sw_reset;
    assert(r == 128 * boot + 64 * bdu + 32 * active_low + 16 * pin_mode + 8 * sim + 4 * increment
        + 2 * ble + sw_reset) by (bit_vector)
        requires
            r == (boot << 7) | (bdu << 6) | (active_low << 5) | (pin_mode << 4) | (sim << 3) | (
            increment << 2) | (ble << 1) | sw_reset,
            boot < 2,
            bdu < 2,
            active_low < 2,
            pin_mode < 2,
            sim < 2,
            increment < 2,
            ble < 2,
            sw_reset < 2,
    ;
    r
}

pub fn ctrl_reg_6_xl(
    accel_only_sampling_rate: AccelSamplingRate,
    accel_full_scale: AccelFullScale,
    accel_bandwidth: AccelBandWidth,
) -> (r: u8)
    ensures
        r == ctrl_reg_6_xl_byte(accel_only_sampling_rate, accel_full_scale, accel_bandwidth),
{
    reveal(ctrl_reg_6_xl_byte);
    let rate: u8 = match accel_only_sampling_rate {
        AccelSamplingRate::PowerDown => 0b000,
        AccelSamplingRate::_10Hz => 0b001,
        AccelSamplingRate::_50Hz => 0b010,
        AccelSamplingRate::_119Hz => 0b011,
        AccelSamplingRate::_238Hz => 0b100,
        AccelSamplingRate::_476Hz => 0b101,
        AccelSamplingRate::_952Hz => 0b110,
    };
    let scale: u8 = match accel_full_scale {
        AccelFullScale::PlusMinus2g => 0b00,
        AccelFullScale::PlusMinus4g => 0b10,
        AccelFullScale::PlutMinus8g => 0b11,
        AccelFullScale::PlusMinus16g => 0b01,
    };
    let bandwidth: u8 = match accel_bandwidth {
        AccelBandWidth::Auto => 0b000,
        AccelBandWidth::_408Hz => 0b100,
        AccelBandWidth::_211Hz => 0b101,
        AccelBandWidth::_105Hz => 0b110,
        AccelBandWidth::_50Hz => 0b111,
    };
    let r: u8 = (rate << 5) | (scale << 3) | bandwidth;
    assert(r == 32 * rate + 8 * scale + bandwidth) by (bit_vector)
        requires
            r == (rate << 5) | (scale << 3) | bandwidth,
            rate < 8,
            scale < 4,
            bandwidth < 8,
    ;
    r
}

pub fn ctrl_reg_1_m(
    temperature_compensation: bool,
    xy_performance_mode: PerformanceMode,
    sampling_rate: SamplingRate,
    fast_sampling: bool,
    self_test: bool,
) -> (r: u8)
    ensures
        r == ctrl_reg_1_m_byte(
            temperature_compensation,
            xy_performance_mode,
            sampling_rate,
            fast_sampling,
            self_test,
        ),
{
    reveal(ctrl_reg_1_m_byte);
    let temp_comp: u8 = if temperature_compensation { 1 } else { 0 };
    let performance: u8 = match xy_performance_mode {
        PerformanceMode::LowPower => 0b00,
        PerformanceMode::MediumPerformance => 0b01,
        PerformanceMode::HighPerformance => 0b10,
        PerformanceMode::UtraHighPerformance => 0b11,
    };
    let rate: u8 = match sampling_rate {
        SamplingRate::_0p625Hz => 0b000,
        SamplingRate::_1p25Hz => 0b001,
        SamplingRate::_2p5Hz => 0b010,
        SamplingRate::_5Hz => 0b011,
        SamplingRate::_10Hz => 0b100,
        SamplingRate::_20Hz => 0b101,
        SamplingRate::_40Hz => 0b110,
        SamplingRate::_80Hz => 0b111,
    };
    let fast_odr: u8 = if fast_sampling { 1 } else { 0 };
    let st: u8 = if self_test { 1 } else { 0 };
    let r: u8 = (temp_comp << 7) | (performance << 5) | (rate << 2) | (fast_odr << 1) | st;
    assert(r == 128 * temp_comp + 32 * performance + 4 * rate + 2 * fast_odr + st) by (bit_vector)
        requires
            r == (temp_comp << 7) | (performance << 5) | (rate << 2) | (fast_odr << 1) | st,
            temp_comp < 2,
            performance < 4,
            rate < 8,
            fast_odr < 2,
            st < 2,
    ;
    r
}

pub fn ctrl_reg_1_g(
    accel_gyro_sampling_rate: AccelGyroSamplingRate,
    gyro_full_scale: GyroFullScale,
) -> (r: u8)
    ensures
        r == ctrl_reg_1_g_byte(accel_gyro_sampling_rate, gyro_full_scale),
{
    reveal(ctrl_reg_1_g_byte);
    let rate: u8 = match accel_gyro_sampling_rate {
        AccelGyroSamplingRate::PowerDown => 0b000,
        AccelGyroSamplingRate::_14p9Hz => 0b001,
        AccelGyroSamplingRate::_59p5Hz => 0b010,
        AccelGyroSamplingRate::_119Hz => 0b011,
        AccelGyroSamplingRate::_238Hz => 0b100,
        AccelGyroSamplingRate::_476Hz => 0b101,
        AccelGyroSamplingRate::_952Hz => 0b110,
    };
    let scale: u8 = match gyro_full_scale {
        GyroFullScale::_245dps => 0b00,
        GyroFullScale::_500dps => 0b01,
        GyroFullScale::_2000dps => 0b11,
    };
    // The bandwidth field (bits 1..0) stays at its default.
    let r: u8 = (rate << 5) | (scale << 3);
    assert(r == 32 * rate + 8 * scale) by (bit_vector)
        requires
            r == (rate << 5) | (scale << 3),
            rate < 8,
            scale < 4,
    ;
    r
}

pub fn ctrl_reg_2_g(gyro_high_pass_filter: bool, gyro_low_pass_filter: bool) -> (r: u8)
    ensures
        r == ctrl_reg_2_g_byte(gyro_high_pass_filter, gyro_low_pass_filter),
{
    reveal(ctrl_reg_2_g_byte);
    match (gyro_high_pass_filter, gyro_low_pass_filter) {
        (false, false) => 0b00,
        (true, false) => 0b01,
        (_, true) => 0b10,
    }
}

pub fn ctrl_reg_3_g(gyro_low_power_mode: bool, gyro_high_pass_filter: bool) -> (r: u8)
    ensures
        r == ctrl_reg_3_g_byte(gyro_low_power_mode, gyro_high_pass_filter),
{
    reveal(ctrl_reg_3_g_byte);
    let high_pass: u8 = if gyro_high_pass_filter { 0b1 } else { 0b0 };
    let low_power: u8 = if gyro_low_power_mode { 0b1 } else { 0b0 };
    // The high pass cutoff field (bits 3..0) stays at its default.
    let r: u8 = (low_power << 7) | (high_pass << 6);
    assert(r == 128 * low_power + 64 * high_pass) by (bit_vector)
        requires
            r == (low_power << 7) | (high_pass << 6),
            low_power < 2,
            high_pass < 2,
    ;
    r
}

pub fn ctrl_reg_4(
    gyro_x_axis_enabled: bool,
    gyro_y_axis_enabled: bool,
    gyro_z_axis_enabled: bool,
) -> (r: u8)
    ensures
        r == ctrl_reg_4_byte(gyro_x_axis_enabled, gyro_y_axis_enabled, gyro_z_axis_enabled),
{
    reveal(ctrl_reg_4_byte);
    let x: u8 = if gyro_x_axis_enabled { 0b1 } else { 0b0 };
    let y: u8 = if gyro_y_axis_enabled { 0b1 } else { 0b0 };
    let z: u8 = if gyro_z_axis_enabled { 0b1 } else { 0b0 };
    let r: u8 = (x << 3) | (y << 4) | (z << 5);
    assert(r == 8 * x + 16 * y + 32 * z) by (bit_vector)
        requires
            r == (x << 3) | (y << 4) | (z << 5),
            x < 2,
            y < 2,
            z < 2,
    ;
    r
}

/// The Z flag is written inverted, unlike X and Y: it is set when the Z axis is disabled.
pub fn ctrl_reg_5_xl(
    accel_decimation: AccelDecimation,
    accel_x_axis_enabled: bool,
    accel_y_axis_enabled: bool,
    accel_z_axis_enabled: bool,
) -> (r: u8)
    ensures
        r == ctrl_reg_5_xl_byte(
            accel_decimation,
            accel_x_axis_enabled,
            accel_y_axis_enabled,
            accel_z_axis_enabled,
        ),
{
    reveal(ctrl_reg_5_xl_byte);
    let decimation: u8 = match accel_decimation {
        AccelDecimation::NoDecimation => 0b00,
        AccelDecimation::Half => 0b01,
        AccelDecimation::Quarter => 0b10,
        AccelDecimation::Eighth => 0b11,
    };
    let x: u8 = if accel_x_axis_enabled { 0b1 } else { 0b0 };
    let y: u8 = if accel_y_axis_enabled { 0b1 } else { 0b0 };
    let z: u8 = if accel_z_axis_enabled { 0b0 } else { 0b1 };
    let r: u8 = (decimation << 6) | (x << 3) | (y << 4) | (z << 5);
    assert(r == 64 * decimation + 8 * x + 16 * y + 32 * z) by (bit_vector)
        requires
            r == (decimation << 6) | (x << 3) | (y << 4) | (z << 5),
            decimation < 4,
            x < 2,
            y < 2,
            z < 2,
    ;
    r
}

pub fn ctrl_reg_7_xl(
    accel_high_resolution: bool,
    accel_low_pass_cutoff: AccelLowpassCutoff,
    accel_filter_enabled: bool,
) -> (r: u8)
    ensures
        r == ctrl_reg_7_xl_byte(accel_high_resolution, accel_low_pass_cutoff, accel_filter_enabled),
{
    reveal(ctrl_reg_7_xl_byte);
    let high_res: u8 = if accel_high_resolution { 0b1 } else { 0b0 };
    let cutoff: u8 = match accel_low_pass_cutoff {
        AccelLowpassCutoff::_ODRby9 => 0b10,
        AccelLowpassCutoff::_ODRBy50 => 0b00,
        AccelLowpassCutoff::_ODRBy100 => 0b01,
        AccelLowpassCutoff::_ODRBy400 => 0b11,
    };
    let filter: u8 = if accel_filter_enabled { 0b1 } else { 0b0 };
    let r: u8 = (high_res << 7) | (cutoff << 5) | (filter << 2);
    assert(r == 128 * high_res + 32 * cutoff + 4 * filter) by (bit_vector)
        requires
            r == (high_res << 7) | (cutoff << 5) | (filter << 2),
            high_res < 2,
            cutoff < 4,
            filter < 2,
    ;
    r
}

pub fn ctrl_reg_2_m(full_scale: FullScale) -> (r: u8)
    ensures
        r == ctrl_reg_2_m_byte(full_scale),
{
    reveal(ctrl_reg_2_m_byte);
    let scale: u8 = match full_scale {
        FullScale::PlusMinus4Gauss => 0b00,
        FullScale::PlusMinus8Gauss => 0b01,
        FullScale::PlusMinus12Gauss => 0b10,
        FullScale::PlusMinus16Gauss => 0b11,
    };
    let r: u8 = scale << 5;
    assert(r == 32 * scale) by (bit_vector)
        requires
            r == scale << 5,
            scale < 4,
    ;
    r
}

pub fn ctrl_rg_3_m(
    i2c_disabled: bool,
    low_power_mode: bool,
    spi_write_only: bool,
    operating_mode: OperatingMode,
) -> (r: u8)
    ensures
        r == ctrl_reg_3_m_byte(i2c_disabled, low_power_mode, spi_write_only, operating_mode),
{
    reveal(ctrl_reg_3_m_byte);
    let i2c_off: u8 = if i2c_disabled { 1 } else { 0 };
    let low_power: u8 = if low_power_mode { 1 } else { 0 };
    let spi_read: u8 = if spi_write_only { 0 } else { 1 };
    let mode: u8 = match operating_mode {
        OperatingMode::ContinuousConversion => 0b00,
        OperatingMode::SingleConversion => 0b01,
        OperatingMode::PowerDown => 0b10,
    };
    let r: u8 = (i2c_off << 7) | (low_power << 5) | (spi_read << 2) | mode;
    assert(r == 128 * i2c_off + 32 * low_power + 4 * spi_read + mode) by (bit_vector)
        requires
            r == (i2c_off << 7) | (low_power << 5) | (spi_read << 2) | mode,
            i2c_off < 2,
            low_power < 2,
            spi_read < 2,
            mode < 4,
    ;
    r
}

pub fn ctrl_reg_4_m(z_performance_mode: PerformanceMode, data_endianness: Endianness) -> (r: u8)
    ensures
        r == ctrl_reg_4_m_byte(z_performance_mode, data_endianness),
{
    reveal(ctrl_reg_4_m_byte);
    let performance: u8 = match z_performance_mode {
        PerformanceMode::LowPower => 0b00,
        PerformanceMode::MediumPerformance => 0b01,
        PerformanceMode::HighPerformance => 0b10,
        PerformanceMode::UtraHighPerformance => 0b11,
    };
    let ble: u8 = match data_endianness {
        Endianness::BigEndian => 0b0,
        Endianness::LittleEndian => 0b1,
    };
    let r: u8 = (performance << 2) | (ble << 1);
    assert(r == 4 * performance + 2 * ble) by (bit_vector)
        requires
            r == (performance << 2) | (ble << 1),
            performance < 4,
            ble < 2,
    ;
    r
}

pub fn ctrl_reg_5_m(fast_read: bool, block_data_update: bool) -> (r: u8)
    ensures
        r == ctrl_reg_5_m_byte(fast_read, block_data_update),
{
    reveal(ctrl_reg_5_m_byte);
    let fast: u8 = if fast_read { 1 } else { 0 };
    let bdu: u8 = if block_data_update { 1 } else { 0 };
    let r: u8 = (fast << 7) | (bdu << 6);
    assert(r == 128 * fast + 64 * bdu) by (bit_vector)
        requires
            r == (fast << 7) | (bdu << 6),
            fast < 2,
            bdu < 2,
    ;
    r
}

// Laws of the rate and full-scale fields.

/// The 3-bit rate field (bits 7..5) of CTRL_REG1_G and of CTRL_REG6_XL holds the
/// position of the selected rate in ascending order, 0 being power-down, for both rate
/// enumerations.
pub proof fn lemma_rate_field_is_ordinal(
    accel_gyro_rate: AccelGyroSamplingRate,
    gyro_scale: GyroFullScale,
    accel_rate: AccelSamplingRate,
    accel_scale: AccelFullScale,
    bandwidth: AccelBandWidth,
)
    ensures
        ctrl_reg_1_g_byte(accel_gyro_rate, gyro_scale) / 32 == accel_gyro_rate.ordinal(),
        ctrl_reg_6_xl_byte(accel_rate, accel_scale, bandwidth) / 32 == accel_rate.ordinal(),
{
    reveal(ctrl_reg_1_g_byte);
    reveal(ctrl_reg_6_xl_byte);
}

/// The 2-bit full-scale field (bits 4..3) of CTRL_REG1_G reads 0b00 for 245 dps, 0b01 for
/// 500 dps and 0b11 for 2000 dps; it never reads the reserved 0b10.
pub proof fn lemma_gyro_scale_field(rate: AccelGyroSamplingRate, scale: GyroFullScale)
    ensures
        scale == GyroFullScale::_245dps ==> (ctrl_reg_1_g_byte(rate, scale) / 8) % 4 == 0b00,
        scale == GyroFullScale::_500dps ==> (ctrl_reg_1_g_byte(rate, scale) / 8) % 4 == 0b01,
        scale == GyroFullScale::_2000dps ==> (ctrl_reg_1_g_byte(rate, scale) / 8) % 4 == 0b11,
        (ctrl_reg_1_g_byte(rate, scale) / 8) % 4 != 0b10,
{
    reveal(ctrl_reg_1_g_byte);
}

/// The 2-bit full-scale field (bits 4..3) of CTRL_REG6_XL follows the chip's permuted
/// table: 0b00 for 2 g, 0b10 for 4 g, 0b11 for 8 g and 0b01 for 16 g.
pub proof fn lemma_accel_scale_field(
    rate: AccelSamplingRate,
    scale: AccelFullScale,
    bandwidth: AccelBandWidth,
)
    ensures
        scale == AccelFullScale::PlusMinus2g ==> (ctrl_reg_6_xl_byte(rate, scale, bandwidth) / 8)
            % 4 == 0b00,
        scale == AccelFullScale::PlusMinus4g ==> (ctrl_reg_6_xl_byte(rate, scale, bandwidth) / 8)
            % 4 == 0b10,
        scale == AccelFullScale::PlutMinus8g ==> (ctrl_reg_6_xl_byte(rate, scale, bandwidth) / 8)
            % 4 == 0b11,
        scale == AccelFullScale::PlusMinus16g ==> (ctrl_reg_6_xl_byte(rate, scale, bandwidth) / 8)
            % 4 == 0b01,
{
    reveal(ctrl_reg_6_xl_byte);
}

} // verus!
