//! Driver for an LSM9DS1 inertial measurement unit: register encoding of the
//! configuration, and decoding of raw samples.
use vstd::prelude::*;

use embedded_hal::i2c;

use config::accel_gyro::{AccelGyroSamplingRate, AccelSamplingRate};
use config::magnetometer::OperatingMode;
use config::{mag_mode_for, plan_as_slice, DeviceConfig};
use interface::{byte_record, succeeded_writes, Interface, ReadRecord, WriteRecord};
use measurement::lane_value;
use registers::{
    ctrl_reg_1_g_byte, ctrl_reg_3_m_byte, ctrl_reg_4_byte, ctrl_reg_5_xl_byte, ctrl_reg_6_xl_byte,
    Register,
};

pub mod builder;
pub mod config;
pub mod interface;
pub mod measurement;
pub mod registers;

pub use builder::Lsm9ds1Builder;

verus! {

/// Driver Errors.
#[derive(Debug)]
pub enum Lsm9ds1Error {
    /// Error during I2C communication.
    I2cError(i2c::ErrorKind),
}

/// `r` is what a read of the three data register pairs gives for the record `rec`: the
/// three signed samples of the six bytes read, or the read's error.
pub open spec fn triple_read(
    r: Result<(i16, i16, i16), Lsm9ds1Error>,
    rec: Result<Seq<u8>, Lsm9ds1Error>,
) -> bool {
    match rec {
        Ok(d) => {
            &&& d.len() == 6
            &&& r matches Ok(t)
            &&& t.0 == lane_value(d[0], d[1])
            &&& t.1 == lane_value(d[2], d[3])
            &&& t.2 == lane_value(d[4], d[5])
        },
        Err(e) => r == Err::<(i16, i16, i16), Lsm9ds1Error>(e),
    }
}

/// `after` is `before` with the reads of the temperature pair, low byte first, and `r` is
/// what they give: the signed sample, or the first read's error. A failed read of the low
/// byte ends the sequence.
pub open spec fn temperature_read(
    r: Result<i16, Lsm9ds1Error>,
    before: Seq<ReadRecord>,
    after: Seq<ReadRecord>,
) -> bool {
    let n = before.len() as int;
    &&& after.len() > n
    &&& after.take(n) == before
    &&& after[n].0 == Register::OUT_TEMP_L
    &&& match after[n].1 {
        Err(e) => after.len() == n + 1 && r == Err::<i16, Lsm9ds1Error>(e),
        Ok(lo) => {
            &&& lo.len() == 1
            &&& after.len() == n + 2
            &&& after[n + 1].0 == Register::OUT_TEMP_H
            &&& match after[n + 1].1 {
                Err(e) => r == Err::<i16, Lsm9ds1Error>(e),
                Ok(hi) => hi.len() == 1 && (r matches Ok(t) && t == lane_value(lo[0], hi[0])),
            }
        },
    }
}

/// An LSM9DS1 sensor.
pub struct Lsm9ds1<I: Interface> {
    interface: I,
    config: DeviceConfig,
}

impl<I: Interface> Lsm9ds1<I> {
    /// The settings last commanded to the sensor.
    pub closed spec fn spec_config(&self) -> DeviceConfig {
        self.config
    }

    /// The interface through which the sensor is reached.
    pub closed spec fn spec_interface(&self) -> I {
        self.interface
    }

    /// Every write asked of the interface, with its outcome.
    pub open spec fn writes(&self) -> Seq<WriteRecord> {
        self.spec_interface().spec_writes()
    }

    /// Every read asked of the interface, with its outcome.
    pub open spec fn reads(&self) -> Seq<ReadRecord> {
        self.spec_interface().spec_reads()
    }

    /// A device on `interface` with settings `config`, not yet written to it.
    pub(crate) fn new(interface: I, config: DeviceConfig) -> (r: Self)
        ensures
            r.spec_interface() == interface,
            r.spec_config() == config,
    {
        Lsm9ds1 { interface, config }
    }

    /// The settings last commanded to the sensor.
    pub fn config(&self) -> (r: &DeviceConfig)
        ensures
            *r == self.spec_config(),
    {
        &self.config
    }

    /// The interface through which the sensor is reached.
    pub fn interface(&self) -> (r: &I)
        ensures
            *r == self.spec_interface(),
    {
        &self.interface
    }

    /// Initialize the device by applying all settings: writes every register of the plan
    /// in order, and stops at the first write that fails, returning its error.
    pub fn init(&mut self) -> (r: Result<(), Lsm9ds1Error>)
        ensures
            final(self).spec_config() == old(self).spec_config(),
            final(self).reads() == old(self).reads(),
            r is Ok ==> final(self).writes() == old(self).writes() + succeeded_writes(
                old(self).spec_config().plan(),
            ),
            r matches Err(e) ==> exists|k: int|
                {
                    &&& 0 <= k < old(self).spec_config().plan().len()
                    &&& final(self).writes() == (old(self).writes() + #[trigger] succeeded_writes(
                        old(self).spec_config().plan().take(k),
                    )).push(
                        (
                            old(self).spec_config().plan()[k].0,
                            old(self).spec_config().plan()[k].1,
                            Err(e),
                        ),
                    )
                },
    {
        let register_values = self.config.all_registers();
        let entries = plan_as_slice(&register_values);
        let mut i: usize = 0;
        while i < entries.len()
            invariant
                entries@ == old(self).spec_config().plan(),
                self.config == old(self).config,
                0 <= i <= entries@.len(),
                self.reads() == old(self).reads(),
                self.writes() == old(self).writes() + succeeded_writes(entries@.take(i as int)),
            decreases entries@.len() - i,
        {
            let (reg, value) = entries[i];
            let written = self.interface.write(reg, value);
            match written {
                Ok(u) => assert(u == ()),
                Err(e) => {
                    assert(entries@[i as int] == (reg, value));
                    return Err(e);
                },
            }
            assert(succeeded_writes(entries@.take(i + 1)) =~= succeeded_writes(
                entries@.take(i as int),
            ).push((reg, value, Ok(()))));
            assert(self.writes() =~= old(self).writes() + succeeded_writes(entries@.take(i + 1)));
            i = i + 1;
        }
        assert(entries@.take(i as int) =~= entries@);
        Ok(())
    }

    /// Enable or disable the accelerometer: one write of CTRL_REG5_XL, whose outcome is
    /// returned; the settings change only when it succeeds.
    pub fn set_accelerometer_enabled(&mut self, enabled: bool) -> (r: Result<(), Lsm9ds1Error>)
        ensures
            final(self).writes() == old(self).writes().push(
                (
                    Register::CTRL_REG5_XL,
                    ctrl_reg_5_xl_byte(
                        old(self).spec_config().accel_gyro.accel_decimation,
                        enabled,
                        enabled,
                        enabled,
                    ),
                    r,
                ),
            ),
            final(self).reads() == old(self).reads(),
            r is Ok ==> final(self).spec_config() == old(self).spec_config().with_accel_axes(enabled),
            r is Err ==> final(self).spec_config() == old(self).spec_config(),
    {
        let ctrl_reg_5_xl = registers::ctrl_reg_5_xl(
            self.config.accel_gyro.accel_decimation,
            enabled,
            enabled,
            enabled,
        );
        let ghost before = self.config;
        let written = self.interface.write(Register::CTRL_REG5_XL, ctrl_reg_5_xl);
        if written.is_err() {
            return written;
        }
        self.config.accel_gyro.accel_x_axis_enabled = enabled;
        self.config.accel_gyro.accel_y_axis_enabled = enabled;
        self.config.accel_gyro.accel_z_axis_enabled = enabled;
        assert(self.config == before.with_accel_axes(enabled));
        written
    }

    /// Enable or disable the gyroscope: one write of CTRL_REG4, whose outcome is returned;
    /// the settings change only when it succeeds.
    pub fn set_gyroscope_enabled(&mut self, enabled: bool) -> (r: Result<(), Lsm9ds1Error>)
        ensures
            final(self).writes() == old(self).writes().push(
                (Register::CTRL_REG4, ctrl_reg_4_byte(enabled, enabled, enabled), r),
            ),
            final(self).reads() == old(self).reads(),
            r is Ok ==> final(self).spec_config() == old(self).spec_config().with_gyro_axes(enabled),
            r is Err ==> final(self).spec_config() == old(self).spec_config(),
    {
        let ctrl_reg_4 = registers::ctrl_reg_4(enabled, enabled, enabled);
        let ghost before = self.config;
        let written = self.interface.write(Register::CTRL_REG4, ctrl_reg_4);
        if written.is_err() {
            return written;
        }
        self.config.accel_gyro.gyro_x_axis_enabled = enabled;
        self.config.accel_gyro.gyro_y_axis_enabled = enabled;
        self.config.accel_gyro.gyro_z_axis_enabled = enabled;
        assert(self.config == before.with_gyro_axes(enabled));
        written
    }

    /// Enable or disable the magnetometer, continuous conversion when enabled and
    /// power-down otherwise: one write of CTRL_REG3_M, whose outcome is returned; the
    /// settings change only when it succeeds.
    #[verifier::rlimit(60)]
    pub fn set_magnetometer_enabled(&mut self, enabled: bool) -> (r: Result<(), Lsm9ds1Error>)
        ensures
            final(self).writes() == old(self).writes().push(
                (
                    Register::CTRL_REG3_M,
                    ctrl_reg_3_m_byte(
                        old(self).spec_config().magnetometer.i2c_disabled,
                        old(self).spec_config().magnetometer.low_power_mode,
                        old(self).spec_config().magnetometer.spi_write_only,
                        mag_mode_for(enabled),
                    ),
                    r,
                ),
            ),
            final(self).reads() == old(self).reads(),
            r is Ok ==> final(self).spec_config() == old(self).spec_config().with_mag_operating_mode(
                mag_mode_for(enabled),
            ),
            r is Err ==> final(self).spec_config() == old(self).spec_config(),
    {
        let operating_mode = if enabled {
            OperatingMode::ContinuousConversion
        } else {
            OperatingMode::PowerDown
        };
        assert(operating_mode == mag_mode_for(enabled));
        let ctrl_reg_3_m = registers::ctrl_rg_3_m(
            self.config.magnetometer.i2c_disabled,
            self.config.magnetometer.low_power_mode,
            self.config.magnetometer.spi_write_only,
            operating_mode,
        );
        let ghost before = self.config;
        let written = self.interface.write(Register::CTRL_REG3_M, ctrl_reg_3_m);
        if written.is_err() {
            return written;
        }
        self.config.magnetometer.operating_mode = operating_mode;
        assert(self.config == before.with_mag_operating_mode(operating_mode));
        written
    }

    /// Set the sampling rate for the accelerometer and gyroscope: one write of CTRL_REG1_G,
    /// whose outcome is returned; the settings change only when it succeeds.
    pub fn set_accel_gyro_sampling_rate(&mut self, rate: AccelGyroSamplingRate) -> (r: Result<
        (),
        Lsm9ds1Error,
    >)
        ensures
            final(self).writes() == old(self).writes().push(
                (
                    Register::CTRL_REG1_G,
                    ctrl_reg_1_g_byte(rate, old(self).spec_config().accel_gyro.gyro_full_scale),
                    r,
                ),
            ),
            final(self).reads() == old(self).reads(),
            r is Ok ==> final(self).spec_config() == old(self).spec_config().with_accel_gyro_rate(
                rate,
            ),
            r is Err ==> final(self).spec_config() == old(self).spec_config(),
    {
        let ctrl_reg_1_g = registers::ctrl_reg_1_g(rate, self.config.accel_gyro.gyro_full_scale);
        let ghost before = self.config;
        let written = self.interface.write(Register::CTRL_REG1_G, ctrl_reg_1_g);
        if written.is_err() {
            return written;
        }
        self.config.accel_gyro.accel_gyro_sampling_rate = rate;
        assert(self.config == before.with_accel_gyro_rate(rate));
        written
    }

    /// Set the sampling rate for the accelerometer (if gyro is disabled): one write of
    /// CTRL_REG6_XL, whose outcome is returned; the settings change only when it succeeds.
    pub fn set_accel_sampling_rate(&mut self, rate: AccelSamplingRate) -> (r: Result<
        (),
        Lsm9ds1Error,
    >)
        ensures
            final(self).writes() == old(self).writes().push(
                (
                    Register::CTRL_REG6_XL,
                    ctrl_reg_6_xl_byte(
                        rate,
                        old(self).spec_config().accel_gyro.accel_full_scale,
                        old(self).spec_config().accel_gyro.accel_bandwidth,
                    ),
                    r,
                ),
            ),
            final(self).reads() == old(self).reads(),
            r is Ok ==> final(self).spec_config() == old(self).spec_config().with_accel_rate(rate),
            r is Err ==> final(self).spec_config() == old(self).spec_config(),
    {
        let ctrl_reg_6_xl = registers::ctrl_reg_6_xl(
            rate,
            self.config.accel_gyro.accel_full_scale,
            self.config.accel_gyro.accel_bandwidth,
        );
        let ghost before = self.config;
        let written = self.interface.write(Register::CTRL_REG6_XL, ctrl_reg_6_xl);
        if written.is_err() {
            return written;
        }
        self.config.accel_gyro.accel_only_sampling_rate = rate;
        assert(self.config == before.with_accel_rate(rate));
        written
    }

    /// Read out raw gyroscope samples, X, Y and Z, from one read of six registers. One unit
    /// is the gyroscope's full scale divided by 32767.
    pub fn gyroscope_raw(&mut self) -> (r: Result<(i16, i16, i16), Lsm9ds1Error>)
        ensures
            final(self).spec_config() == old(self).spec_config(),
            final(self).writes() == old(self).writes(),
            final(self).reads() == old(self).reads().push(
                (Register::OUT_X_L_G, final(self).reads().last().1),
            ),
            triple_read(r, final(self).reads().last().1),
    {
        self.read_triple(Register::OUT_X_L_G)
    }

    /// Read out raw accelerometer samples, X, Y and Z, from one read of six registers. One
    /// unit is the accelerometer's full scale divided by 32767.
    pub fn accelerometer_raw(&mut self) -> (r: Result<(i16, i16, i16), Lsm9ds1Error>)
        ensures
            final(self).spec_config() == old(self).spec_config(),
            final(self).writes() == old(self).writes(),
            final(self).reads() == old(self).reads().push(
                (Register::OUT_X_L_XL, final(self).reads().last().1),
            ),
            triple_read(r, final(self).reads().last().1),
    {
        self.read_triple(Register::OUT_X_L_XL)
    }

    /// Read out raw magnetometer samples, X, Y and Z, from one read of six registers. One
    /// unit is the magnetometer's full scale divided by 32767.
    pub fn magnetometer_raw(&mut self) -> (r: Result<(i16, i16, i16), Lsm9ds1Error>)
        ensures
            final(self).spec_config() == old(self).spec_config(),
            final(self).writes() == old(self).writes(),
            final(self).reads() == old(self).reads().push(
                (Register::OUT_X_L_M, final(self).reads().last().1),
            ),
            triple_read(r, final(self).reads().last().1),
    {
        self.read_triple(Register::OUT_X_L_M)
    }

    /// One read of the six data registers from `start` on, split into three samples.
    fn read_triple(&mut self, start: Register) -> (r: Result<(i16, i16, i16), Lsm9ds1Error>)
        ensures
            final(self).spec_config() == old(self).spec_config(),
            final(self).writes() == old(self).writes(),
            final(self).reads() == old(self).reads().push((start, final(self).reads().last().1)),
            triple_read(r, final(self).reads().last().1),
    {
        let mut data: [u8; 6] = [0; 6];
        let read = self.interface.read_multiple(start, &mut data);
        match read {
            Ok(()) => Ok(measurement::raw_triple(&data)),
            Err(e) => Err(e),
        }
    }

    /// Read out the raw temperature sample, low byte then high byte: 0 at 25 degrees
    /// Celsius, 16 per degree.
    pub fn temperature_raw(&mut self) -> (r: Result<i16, Lsm9ds1Error>)
        ensures
            final(self).spec_config() == old(self).spec_config(),
            final(self).writes() == old(self).writes(),
            temperature_read(r, old(self).reads(), final(self).reads()),
    {
        let temp_l = match self.interface.read(Register::OUT_TEMP_L) {
            Ok(v) => v,
            Err(e) => {
                assert(self.reads().take(old(self).reads().len() as int) =~= old(self).reads());
                return Err(e);
            },
        };
        let temp_h = self.interface.read(Register::OUT_TEMP_H);
        assert(self.reads().take(old(self).reads().len() as int) =~= old(self).reads());
        match temp_h {
            Ok(h) => Ok(measurement::lane(temp_l, h)),
            Err(e) => Err(e),
        }
    }

    /// Read out chip identification for the accelerometer and gyroscope.
    pub fn who_am_i_ag(&mut self) -> (r: Result<u8, Lsm9ds1Error>)
        ensures
            final(self).spec_config() == old(self).spec_config(),
            final(self).writes() == old(self).writes(),
            final(self).reads() == old(self).reads().push((Register::WHO_AM_I, byte_record(r))),
    {
        self.interface.read(Register::WHO_AM_I)
    }

    /// Read out chip identification for the magnetometer.
    pub fn who_am_i_m(&mut self) -> (r: Result<u8, Lsm9ds1Error>)
        ensures
            final(self).spec_config() == old(self).spec_config(),
            final(self).writes() == old(self).writes(),
            final(self).reads() == old(self).reads().push((Register::WHO_AM_I_M, byte_record(r))),
    {
        self.interface.read(Register::WHO_AM_I_M)
    }

    /// Apply software reset: reads CTRL_REG8 and writes it back with the reset bit set. A
    /// failed read is returned and nothing is written; else the write's outcome is returned.
    /// The in-memory settings are left as they are.
    pub fn reset(&mut self) -> (r: Result<(), Lsm9ds1Error>)
        ensures
            final(self).spec_config() == old(self).spec_config(),
            final(self).reads() == old(self).reads().push(
                (Register::CTRL_REG8, final(self).reads().last().1),
            ),
            match final(self).reads().last().1 {
                Ok(d) => d.len() == 1 && final(self).writes() == old(self).writes().push(
                    (Register::CTRL_REG8, d[0] | 1, r),
                ),
                Err(e) => r == Err::<(), Lsm9ds1Error>(e) && final(self).writes() == old(
                    self,
                ).writes(),
            },
    {
        match self.interface.read(Register::CTRL_REG8) {
            Ok(ctrl_reg) => self.interface.write(Register::CTRL_REG8, ctrl_reg | 0b1),
            Err(e) => Err(e),
        }
    }
}

} // verus!
