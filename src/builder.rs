//! Fluent construction of a device configuration.
use vstd::prelude::*;

use crate::config::{
    accel_gyro::{AccelGyroSamplingRate, AccelSamplingRate, GyroFullScale},
    mag_mode_for, magnetometer, DeviceConfig,
};
use crate::interface::{succeeded_writes, Interface};
use crate::Lsm9ds1;
use crate::Lsm9ds1Error as Error;

verus! {

/// Builder for LSM9DS1 sensor.
pub struct Lsm9ds1Builder {
    config: DeviceConfig,
}

impl View for Lsm9ds1Builder {
    type V = DeviceConfig;

    /// The configuration built so far.
    closed spec fn view(&self) -> DeviceConfig {
        self.config
    }
}

impl Default for Lsm9ds1Builder {
    fn default() -> (r: Self)
        ensures
            r@ == DeviceConfig::spec_default(),
    {
        Lsm9ds1Builder { config: DeviceConfig::default() }
    }
}

impl Lsm9ds1Builder {
    /// A builder that starts from the power-on-safe configuration.
    pub fn new() -> (r: Self)
        ensures
            r@ == DeviceConfig::spec_default(),
    {
        Self::default()
    }

    /// A builder that starts from `config`.
    pub fn with_config(&mut self, config: DeviceConfig) -> (r: Self)
        ensures
            r@ == config,
            final(self)@ == old(self)@,
    {
        Self { config }
    }

    /// Apply the configuration to the sensor on `interface`: every register of the plan is
    /// written in order, stopping at the first write that fails.
    pub fn init_on<I: Interface>(self, interface: I) -> (r: Result<Lsm9ds1<I>, Error>)
        ensures
            r matches Ok(device) ==> {
                &&& device.spec_config() == self@
                &&& device.writes() == interface.spec_writes() + succeeded_writes(self@.plan())
                &&& device.reads() == interface.spec_reads()
            },
    {
        let mut device = Lsm9ds1::<I>::new(interface, self.config);
        match device.init() {
            Ok(()) => Ok(device),
            Err(e) => Err(e),
        }
    }

    pub fn with_accelerometer_enabled(self, enabled: bool) -> (r: Self)
        ensures
            r@ == self@.with_accel_axes(enabled),
    {
        let mut builder = self;
        builder.config.accel_gyro.accel_x_axis_enabled = enabled;
        builder.config.accel_gyro.accel_y_axis_enabled = enabled;
        builder.config.accel_gyro.accel_z_axis_enabled = enabled;
        builder
    }

    pub fn with_gyroscope_enabled(self, enabled: bool) -> (r: Self)
        ensures
            r@ == self@.with_gyro_axes(enabled),
    {
        let mut builder = self;
        builder.config.accel_gyro.gyro_x_axis_enabled = enabled;
        builder.config.accel_gyro.gyro_y_axis_enabled = enabled;
        builder.config.accel_gyro.gyro_z_axis_enabled = enabled;
        builder
    }

    pub fn with_magnetometer_enabled(self, enabled: bool) -> (r: Self)
        ensures
            r@ == self@.with_mag_operating_mode(mag_mode_for(enabled)),
    {
        let mut builder = self;
        builder.config.magnetometer.operating_mode = if enabled {
            magnetometer::OperatingMode::ContinuousConversion
        } else {
            magnetometer::OperatingMode::PowerDown
        };
        builder
    }

    pub fn with_accel_gyro_sampling_rate(self, rate: AccelGyroSamplingRate) -> (r: Self)
        ensures
            r@ == self@.with_accel_gyro_rate(rate),
    {
        let mut builder = self;
        builder.config.accel_gyro.accel_gyro_sampling_rate = rate;
        builder
    }

    pub fn with_accel_sampling_rate(self, rate: AccelSamplingRate) -> (r: Self)
        ensures
            r@ == self@.with_accel_rate(rate),
    {
        let mut builder = self;
        builder.config.accel_gyro.accel_only_sampling_rate = rate;
        builder
    }

    pub fn with_magnetometer_sampling_rate(self, rate: magnetometer::SamplingRate) -> (r:
        Self)
        ensures
            r@ == self@.with_mag_rate(rate),
    {
        let mut builder = self;
        builder.config.magnetometer.sampling_rate = rate;
        builder
    }

    /// Sets the magnetometer's full scale, as `with_magnetometer_scale` does.
    pub fn with_accelerometer_scale(self, scale: magnetometer::FullScale) -> (r: Self)
        ensures
            r@ == self@.with_mag_scale(scale),
    {
        let mut builder = self;
        builder.config.magnetometer.full_scale = scale;
        builder
    }

    pub fn with_gyroscope_scale(self, scale: GyroFullScale) -> (r: Self)
        ensures
            r@ == self@.with_gyro_scale(scale),
    {
        let mut builder = self;
        builder.config.accel_gyro.gyro_full_scale = scale;
        builder
    }

    pub fn with_magnetometer_scale(self, scale: magnetometer::FullScale) -> (r: Self)
        ensures
            r@ == self@.with_mag_scale(scale),
    {
        let mut builder = self;
        builder.config.magnetometer.full_scale = scale;
        builder
    }
}

} // verus!
