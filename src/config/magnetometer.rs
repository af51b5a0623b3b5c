//! Settings of the magnetometer component.
use vstd::prelude::*;

use super::Endianness;
use crate::registers::{
    self, ctrl_reg_1_m_byte, ctrl_reg_2_m_byte, ctrl_reg_3_m_byte, ctrl_reg_4_m_byte,
    ctrl_reg_5_m_byte, Register,
};

verus! {

/// Power/performance trade-off of a magnetometer axis group.
#[derive(Clone, Copy, Debug, PartialEq, Eq, Structural)]
pub enum PerformanceMode {
    LowPower,
    MediumPerformance,
    HighPerformance,
    UtraHighPerformance,
}

/// Output data rate of the magnetometer.
#[derive(Clone, Copy, Debug, PartialEq, Eq, Structural)]
pub enum SamplingRate {
    _0p625Hz,
    _1p25Hz,
    _2p5Hz,
    _5Hz,
    _10Hz,
    _20Hz,
    _40Hz,
    _80Hz,
}

/// Measurement range of the magnetometer, in Gauss.
#[derive(Clone, Copy, Debug, PartialEq, Eq, Structural)]
pub enum FullScale {
    PlusMinus4Gauss,
    PlusMinus8Gauss,
    PlusMinus12Gauss,
    PlusMinus16Gauss,
}

impl FullScale {
    pub open spec fn spec_upper_bound(self) -> u16 {
        match self {
            FullScale::PlusMinus4Gauss => 4,
            FullScale::PlusMinus8Gauss => 8,
            FullScale::PlusMinus12Gauss => 12,
            FullScale::PlusMinus16Gauss => 16,
        }
    }

    /// Largest measurable field strength, in Gauss.
    pub fn upper_bound(self) -> (r: u16)
        ensures
            r == self.spec_upper_bound(),
    {
        match self {
            FullScale::PlusMinus4Gauss => 4,
            FullScale::PlusMinus8Gauss => 8,
            FullScale::PlusMinus12Gauss => 12,
            FullScale::PlusMinus16Gauss => 16,
        }
    }
}

/// Conversion mode of the magnetometer.
#[derive(Clone, Copy, Debug, PartialEq, Eq, Structural)]
pub enum OperatingMode {
    ContinuousConversion,
    SingleConversion,
    PowerDown,
}

/// Magnetometer configuration.
pub struct MagnetometerConfig {
    /// Whether magnetometer component is enabled.
    pub enabled: bool,
    /// Enable internal temperature compensation.
    pub temperature_compensation: bool,
    /// Performance/power mode used for XY-axis measurement.
    pub xy_performance_mode: PerformanceMode,
    /// Performance/power mode used for Z-axis measurement.
    pub z_performance_mode: PerformanceMode,
    /// Sample rate.
    pub sampling_rate: SamplingRate,
    /// Enables sampling rates higher than 80Hz.
    pub fast_sampling: bool,
    /// Self test enable.
    pub self_test: bool,
    /// Data scale configuration. Determines the dynamic range of the sensor.
    pub full_scale: FullScale,
    /// Disable I2C interface.
    pub i2c_disabled: bool,
    /// Low power mode. If this is set to true, sampling rate is set to 0.625Hz and the system
    /// performs, for each channel, the minimum number of averages.
    pub low_power_mode: bool,
    /// Set SPI interface to write only.
    pub spi_write_only: bool,
    /// Operating mode.
    pub operating_mode: OperatingMode,
    /// Endianness of data returned in data registers.
    pub data_endianness: Endianness,
    /// Allows reading only high parts of data registers to increase reading efficiency.
    pub fast_read: bool,
    /// Block data updates until current data has been read.
    pub block_data_update: bool,
}

impl MagnetometerConfig {
    /// The power-on settings: powered down, low power performance, narrowest range.
    pub open spec fn spec_default() -> MagnetometerConfig {
        MagnetometerConfig {
            enabled: false,
            temperature_compensation: false,
            xy_performance_mode: PerformanceMode::LowPower,
            z_performance_mode: PerformanceMode::LowPower,
            sampling_rate: SamplingRate::_10Hz,
            fast_sampling: false,
            self_test: false,
            full_scale: FullScale::PlusMinus4Gauss,
            i2c_disabled: false,
            low_power_mode: false,
            spi_write_only: true,
            operating_mode: OperatingMode::PowerDown,
            data_endianness: Endianness::BigEndian,
            fast_read: false,
            block_data_update: false,
        }
    }

    /// The control registers of the component with the values these settings give,
    /// in the order they are written.
    pub open spec fn plan(self) -> Seq<(Register, u8)> {
        seq![
            (Register::CTRL_REG1_M, ctrl_reg_1_m_byte(self.temperature_compensation, self.xy_performance_mode, self.sampling_rate, self.fast_sampling, self.self_test)),
            (Register::CTRL_REG2_M, ctrl_reg_2_m_byte(self.full_scale)),
            (Register::CTRL_REG3_M, ctrl_reg_3_m_byte(self.i2c_disabled, self.low_power_mode, self.spi_write_only, self.operating_mode)),
            (Register::CTRL_REG4_M, ctrl_reg_4_m_byte(self.z_performance_mode, self.data_endianness)),
            (Register::CTRL_REG5_M, ctrl_reg_5_m_byte(self.fast_read, self.block_data_update)),
        ]
    }

    pub fn all_registers(&self) -> (r: [(Register, u8); 5])
        ensures
            r@ == self.plan(),
    {
        let ctrl_reg_1 = registers::ctrl_reg_1_m(
            self.temperature_compensation,
            self.xy_performance_mode,
            self.sampling_rate,
            self.fast_sampling,
            self.self_test,
        );
        let ctrl_reg_2 = registers::ctrl_reg_2_m(self.full_scale);
        let ctrl_reg_3 = registers::ctrl_rg_3_m(
            self.i2c_disabled,
            self.low_power_mode,
            self.spi_write_only,
            self.operating_mode,
        );
        let ctrl_reg_4 = registers::ctrl_reg_4_m(self.z_performance_mode, self.data_endianness);
        let ctrl_reg_5 = registers::ctrl_reg_5_m(self.fast_read, self.block_data_update);
        let r = [
            (Register::CTRL_REG1_M, ctrl_reg_1),
            (Register::CTRL_REG2_M, ctrl_reg_2),
            (Register::CTRL_REG3_M, ctrl_reg_3),
            (Register::CTRL_REG4_M, ctrl_reg_4),
            (Register::CTRL_REG5_M, ctrl_reg_5),
        ];
        assert(r@ =~= self.plan());
        r
    }
}

impl Default for MagnetometerConfig {
    fn default() -> (r: Self)
        ensures
            r == MagnetometerConfig::spec_default(),
    {
        Self {
            enabled: false,
            temperature_compensation: false,
            xy_performance_mode: PerformanceMode::LowPower,
            z_performance_mode: PerformanceMode::LowPower,
            sampling_rate: SamplingRate::_10Hz,
            fast_sampling: false,
            self_test: false,
            full_scale: FullScale::PlusMinus4Gauss,
            i2c_disabled: false,
            low_power_mode: false,
            spi_write_only: true,
            operating_mode: OperatingMode::PowerDown,
            data_endianness: Endianness::BigEndian,
            fast_read: false,
            block_data_update: false,
        }
    }
}

} // verus!
