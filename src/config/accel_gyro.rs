//! Settings of the accelerometer/gyroscope component.
use vstd::prelude::*;

use super::Endianness;
use crate::registers::{
    self, ctrl_reg_1_g_byte, ctrl_reg_2_g_byte, ctrl_reg_3_g_byte, ctrl_reg_4_byte,
    ctrl_reg_5_xl_byte, ctrl_reg_6_xl_byte, ctrl_reg_7_xl_byte, Register,
};

verus! {

/// Output data rate while both accelerometer and gyroscope are active.
#[derive(Clone, Copy, Debug, PartialEq, Eq, Structural)]
pub enum AccelGyroSamplingRate {
    PowerDown,
    _14p9Hz,
    _59p5Hz,
    _119Hz,
    _238Hz,
    _476Hz,
    _952Hz,
}

impl AccelGyroSamplingRate {
    /// Position of the rate in ascending order, power-down first.
    pub open spec fn ordinal(self) -> int {
        match self {
            AccelGyroSamplingRate::PowerDown => 0,
            AccelGyroSamplingRate::_14p9Hz => 1,
            AccelGyroSamplingRate::_59p5Hz => 2,
            AccelGyroSamplingRate::_119Hz => 3,
            AccelGyroSamplingRate::_238Hz => 4,
            AccelGyroSamplingRate::_476Hz => 5,
            AccelGyroSamplingRate::_952Hz => 6,
        }
    }
}

/// Output data rate while only the accelerometer is active.
#[derive(Clone, Copy, Debug, PartialEq, Eq, Structural)]
pub enum AccelSamplingRate {
    PowerDown,
    _10Hz,
    _50Hz,
    _119Hz,
    _238Hz,
    _476Hz,
    _952Hz,
}

impl AccelSamplingRate {
    /// Position of the rate in ascending order, power-down first.
    pub open spec fn ordinal(self) -> int {
        match self {
            AccelSamplingRate::PowerDown => 0,
            AccelSamplingRate::_10Hz => 1,
            AccelSamplingRate::_50Hz => 2,
            AccelSamplingRate::_119Hz => 3,
            AccelSamplingRate::_238Hz => 4,
            AccelSamplingRate::_476Hz => 5,
            AccelSamplingRate::_952Hz => 6,
        }
    }
}

/// Measurement range of the gyroscope, in degrees per second.
#[derive(Clone, Copy, Debug, PartialEq, Eq, Structural)]
pub enum GyroFullScale {
    _245dps,
    _500dps,
    _2000dps,
}

impl GyroFullScale {
    pub open spec fn spec_upper_bound(self) -> u16 {
        match self {
            GyroFullScale::_245dps => 245,
            GyroFullScale::_500dps => 500,
            GyroFullScale::_2000dps => 2000,
        }
    }

    /// Largest measurable angular rate, in degrees per second.
    pub fn upper_bound(self) -> (r: u16)
        ensures
            r == self.spec_upper_bound(),
    {
        match self {
            GyroFullScale::_245dps => 245,
            GyroFullScale::_500dps => 500,
            GyroFullScale::_2000dps => 2000,
        }
    }
}

/// Measurement range of the accelerometer, in g.
#[derive(Clone, Copy, Debug, PartialEq, Eq, Structural)]
pub enum AccelFullScale {
    PlusMinus2g,
    PlusMinus4g,
    PlutMinus8g,
    PlusMinus16g,
}

impl AccelFullScale {
    pub open spec fn spec_upper_bound(self) -> u16 {
        match self {
            AccelFullScale::PlusMinus2g => 2,
            AccelFullScale::PlusMinus4g => 4,
            AccelFullScale::PlutMinus8g => 8,
            AccelFullScale::PlusMinus16g => 16,
        }
    }

    /// Largest measurable acceleration, in g.
    pub fn upper_bound(self) -> (r: u16)
        ensures
            r == self.spec_upper_bound(),
    {
        match self {
            AccelFullScale::PlusMinus2g => 2,
            AccelFullScale::PlusMinus4g => 4,
            AccelFullScale::PlutMinus8g => 8,
            AccelFullScale::PlusMinus16g => 16,
        }
    }
}

/// Decimation of accelerometer samples.
#[derive(Clone, Copy, Debug, PartialEq, Eq, Structural)]
pub enum AccelDecimation {
    NoDecimation,
    Half,
    Quarter,
    Eighth,
}

/// Anti-aliasing bandwidth of the accelerometer.
#[derive(Clone, Copy, Debug, PartialEq, Eq, Structural)]
pub enum AccelBandWidth {
    Auto,
    _408Hz,
    _211Hz,
    _105Hz,
    _50Hz,
}

/// Cutoff of the accelerometer's low pass filter, relative to the data rate.
#[derive(Clone, Copy, Debug, PartialEq, Eq, Structural)]
pub enum AccelLowpassCutoff {
    _ODRby9,
    _ODRBy50,
    _ODRBy100,
    _ODRBy400,
}

/// Configuration of Accelerometer/Gyroscope component.
pub struct AccelGyroConfig {
    /// Sampling rate if both accelerometer and gyroscope are active.
    pub accel_gyro_sampling_rate: AccelGyroSamplingRate,
    /// Sampling rate of only accelerometer is active.
    pub accel_only_sampling_rate: AccelSamplingRate,
    /// Data scale of gyroscope. Determines the dynamic range.
    pub gyro_full_scale: GyroFullScale,
    /// Apply high pass filter to gyroscope data
    pub gyro_high_pass_filter: bool,
    /// Apply low pass filter to gyroscope data.
    pub gyro_low_pass_filter: bool,
    /// Enable low power mode.
    pub gyro_low_power_mode: bool,
    /// Enable X-axis gyroscope data.
    pub gyro_x_axis_enabled: bool,
    /// Enable Y-Axis gyroscope data.
    pub gyro_y_axis_enabled: bool,
    /// Enable Z-Axis gyroscope data.
    pub gyro_z_axis_enabled: bool,
    /// Decimation of accelerometer data.
    pub accel_decimation: AccelDecimation,
    /// Enable X-Axis accelerometer data.
    pub accel_x_axis_enabled: bool,
    /// Enable Y-Axis accelerometer data.
    pub accel_y_axis_enabled: bool,
    /// Enable Z-Axis accelerometer data.
    pub accel_z_axis_enabled: bool,
    /// Data scale of accelerometer. Determines the dynamic range.
    pub accel_full_scale: AccelFullScale,
    /// Accelerometer bandwidth.
    pub accel_bandwidth: AccelBandWidth,
    /// Accelerometer high resolution mode.
    pub accel_high_resolution: bool,
    /// Accelerometer low pass cutoff frequency.
    pub accel_low_pass_cutoff: AccelLowpassCutoff,
    /// Enable internal digital filter (high pass and low pass) for accelerometer.
    pub accel_filter_enabled: bool,
    /// Endianness of data output.
    pub endianness: Endianness,
}

impl AccelGyroConfig {
    /// The power-on settings: slowest rates, narrowest ranges, filters off, all axes on.
    pub open spec fn spec_default() -> AccelGyroConfig {
        AccelGyroConfig {
            accel_gyro_sampling_rate: AccelGyroSamplingRate::_14p9Hz,
            accel_only_sampling_rate: AccelSamplingRate::_10Hz,
            gyro_full_scale: GyroFullScale::_245dps,
            gyro_high_pass_filter: false,
            gyro_low_pass_filter: false,
            gyro_low_power_mode: false,
            gyro_x_axis_enabled: true,
            gyro_y_axis_enabled: true,
            gyro_z_axis_enabled: true,
            accel_decimation: AccelDecimation::NoDecimation,
            accel_x_axis_enabled: true,
            accel_y_axis_enabled: true,
            accel_z_axis_enabled: true,
            accel_full_scale: AccelFullScale::PlusMinus2g,
            accel_bandwidth: AccelBandWidth::Auto,
            accel_high_resolution: false,
            accel_low_pass_cutoff: AccelLowpassCutoff::_ODRBy50,
            accel_filter_enabled: false,
            endianness: Endianness::BigEndian,
        }
    }

    /// The control registers of the component with the values these settings give,
    /// in the order they are written.
    pub open spec fn plan(self) -> Seq<(Register, u8)> {
        seq![
            (Register::CTRL_REG1_G, ctrl_reg_1_g_byte(self.accel_gyro_sampling_rate, self.gyro_full_scale)),
            (Register::CTRL_REG2_G, ctrl_reg_2_g_byte(self.gyro_high_pass_filter, self.gyro_low_pass_filter)),
            (Register::CTRL_REG3_G, ctrl_reg_3_g_byte(self.gyro_low_power_mode, self.gyro_high_pass_filter)),
            (Register::CTRL_REG4, ctrl_reg_4_byte(self.gyro_x_axis_enabled, self.gyro_y_axis_enabled, self.gyro_z_axis_enabled)),
            (Register::CTRL_REG5_XL, ctrl_reg_5_xl_byte(self.accel_decimation, self.accel_x_axis_enabled, self.accel_y_axis_enabled, self.accel_z_axis_enabled)),
            (Register::CTRL_REG6_XL, ctrl_reg_6_xl_byte(self.accel_only_sampling_rate, self.accel_full_scale, self.accel_bandwidth)),
            (Register::CTRL_REG7_XL, ctrl_reg_7_xl_byte(self.accel_high_resolution, self.accel_low_pass_cutoff, self.accel_filter_enabled)),
        ]
    }

    pub fn all_registers(&self) -> (r: [(Register, u8); 7])
        ensures
            r@ == self.plan(),
    {
        let ctrl_reg_1_g = registers::ctrl_reg_1_g(
            self.accel_gyro_sampling_rate,
            self.gyro_full_scale,
        );
        let ctrl_reg_2_g = registers::ctrl_reg_2_g(
            self.gyro_high_pass_filter,
            self.gyro_low_pass_filter,
        );
        let ctrl_reg_3_g = registers::ctrl_reg_3_g(
            self.gyro_low_power_mode,
            self.gyro_high_pass_filter,
        );
        let ctrl_reg_4 = registers::ctrl_reg_4(
            self.gyro_x_axis_enabled,
            self.gyro_y_axis_enabled,
            self.gyro_z_axis_enabled,
        );
        let ctrl_reg_5_xl = registers::ctrl_reg_5_xl(
            self.accel_decimation,
            self.accel_x_axis_enabled,
            self.accel_y_axis_enabled,
            self.accel_z_axis_enabled,
        );
        let ctrl_reg_6_xl = registers::ctrl_reg_6_xl(
            self.accel_only_sampling_rate,
            self.accel_full_scale,
            self.accel_bandwidth,
        );
        let ctrl_reg_7_xl = registers::ctrl_reg_7_xl(
            self.accel_high_resolution,
            self.accel_low_pass_cutoff,
            self.accel_filter_enabled,
        );
        let r = [
            (Register::CTRL_REG1_G, ctrl_reg_1_g),
            (Register::CTRL_REG2_G, ctrl_reg_2_g),
            (Register::CTRL_REG3_G, ctrl_reg_3_g),
            (Register::CTRL_REG4, ctrl_reg_4),
            (Register::CTRL_REG5_XL, ctrl_reg_5_xl),
            (Register::CTRL_REG6_XL, ctrl_reg_6_xl),
            (Register::CTRL_REG7_XL, ctrl_reg_7_xl),
        ];
        assert(r@ =~= self.plan());
        r
    }
}

impl Default for AccelGyroConfig {
    fn default() -> (r: Self)
        ensures
            r == AccelGyroConfig::spec_default(),
    {
        Self {
            accel_gyro_sampling_rate: AccelGyroSamplingRate::_14p9Hz,
            accel_only_sampling_rate: AccelSamplingRate::_10Hz,
            gyro_full_scale: GyroFullScale::_245dps,
            gyro_high_pass_filter: false,
            gyro_low_pass_filter: false,
            gyro_low_power_mode: false,
            gyro_x_axis_enabled: true,
            gyro_y_axis_enabled: true,
            gyro_z_axis_enabled: true,
            accel_decimation: AccelDecimation::NoDecimation,
            accel_x_axis_enabled: true,
            accel_y_axis_enabled: true,
            accel_z_axis_enabled: true,
            accel_full_scale: AccelFullScale::PlusMinus2g,
            accel_bandwidth: AccelBandWidth::Auto,
            accel_high_resolution: false,
            accel_low_pass_cutoff: AccelLowpassCutoff::_ODRBy50,
            accel_filter_enabled: false,
            endianness: Endianness::BigEndian,
        }
    }
}

} // verus!
