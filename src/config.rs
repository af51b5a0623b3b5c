//! Typed model of every setting the driver programs into the sensor.
use vstd::prelude::*;

use crate::registers::{
    self, ctrl_reg8_byte, ctrl_reg_1_g_byte, ctrl_reg_3_m_byte, ctrl_reg_4_byte, ctrl_reg_5_xl_byte,
    ctrl_reg_6_xl_byte, Register,
};

pub mod accel_gyro;
pub mod magnetometer;

pub use accel_gyro::AccelGyroConfig;
pub use magnetometer::MagnetometerConfig;

use accel_gyro::{AccelGyroSamplingRate, AccelSamplingRate, GyroFullScale};
use magnetometer::{FullScale, OperatingMode, SamplingRate};

verus! {

/// Output driver of the interrupt pins.
#[derive(Clone, Copy, Debug, PartialEq, Eq, Structural)]
pub enum InterruptPinMode {
    PushPull,
    OpenDrain,
}

/// Wiring of the SPI bus.
#[derive(Clone, Copy, Debug, PartialEq, Eq, Structural)]
pub enum SPIMode {
    ThreeWire,
    FourWire,
}

/// Byte order of the data registers.
#[derive(Clone, Copy, Debug, PartialEq, Eq, Structural)]
pub enum Endianness {
    BigEndian,
    LittleEndian,
}

/// heapless's fixed-capacity vector, which holds a register plan.
#[verifier::external_type_specification]
#[verifier::external_body]
#[verifier::reject_recursive_types(T)]
pub struct ExHeaplessVec<T, const N: usize>(heapless::Vec<T, N>);

/// What a register plan holds, in order.
pub uninterp spec fn plan_entries(v: heapless::Vec<(Register, u8), 16>) -> Seq<(Register, u8)>;

/// Relies on heapless::Vec::new: the new vector is empty.
#[verifier::external_body]
fn empty_plan() -> (r: heapless::Vec<(Register, u8), 16>)
    ensures
        plan_entries(r) == Seq::<(Register, u8)>::empty(),
{
    heapless::Vec::new()
}

/// Relies on heapless::Vec::extend_from_slice: where the items fit in the capacity of 16
/// they are appended in order, else the call fails and the vector is left as it was.
#[verifier::external_body]
fn extend_plan(v: &mut heapless::Vec<(Register, u8), 16>, items: &[(Register, u8)]) -> (r: Result<
    (),
    (),
>)
    ensures
        plan_entries(*old(v)).len() + items@.len() <= 16 ==> r is Ok && plan_entries(*final(v))
            == plan_entries(*old(v)) + items@,
        plan_entries(*old(v)).len() + items@.len() > 16 ==> r is Err && plan_entries(*final(v))
            == plan_entries(*old(v)),
{
    v.extend_from_slice(items)
}

/// Relies on heapless::Vec::as_slice: the slice holds the vector's items in order.
#[verifier::external_body]
pub(crate) fn plan_as_slice(v: &heapless::Vec<(Register, u8), 16>) -> (r: &[(Register, u8)])
    ensures
        r@ == plan_entries(*v),
{
    v.as_slice()
}

/// Configuration of the whole device.
pub struct DeviceConfig {
    /// Reboot memory content.
    pub reboot_memory_content: bool,
    /// Block data updates of the accelerometer/gyroscope until current data has been read.
    pub block_data_update: bool,
    /// Interrupt pins are active low.
    pub interrupt_active_low: bool,
    /// Output driver of the interrupt pins.
    pub interrupt_pin_mode: InterruptPinMode,
    /// Wiring of the SPI bus.
    pub spi_mode: SPIMode,
    /// Advance the register address on multi-byte access.
    pub register_increment: bool,
    /// Magnetometer settings.
    pub magnetometer: MagnetometerConfig,
    /// Accelerometer/gyroscope settings.
    pub accel_gyro: AccelGyroConfig,
}

impl DeviceConfig {
    /// The power-on-safe configuration.
    pub open spec fn spec_default() -> DeviceConfig {
        DeviceConfig {
            reboot_memory_content: false,
            block_data_update: false,
            interrupt_active_low: false,
            interrupt_pin_mode: InterruptPinMode::PushPull,
            spi_mode: SPIMode::FourWire,
            register_increment: true,
            magnetometer: MagnetometerConfig::spec_default(),
            accel_gyro: AccelGyroConfig::spec_default(),
        }
    }

    /// The byte of the master control register CTRL_REG8 for these settings, reset bit clear.
    pub open spec fn ctrl_reg8_value(self) -> u8 {
        ctrl_reg8_byte(
            self.reboot_memory_content,
            self.block_data_update,
            self.interrupt_active_low,
            self.interrupt_pin_mode,
            self.spi_mode,
            self.register_increment,
            self.accel_gyro.endianness,
            false,
        )
    }

    /// Every control register with its value, in the order of writing: the master control
    /// register, then the accelerometer/gyroscope block, then the magnetometer block.
    #[verifier::opaque]
    pub open spec fn plan(self) -> Seq<(Register, u8)> {
        seq![(Register::CTRL_REG8, self.ctrl_reg8_value())] + self.accel_gyro.plan()
            + self.magnetometer.plan()
    }

    pub fn all_registers(&self) -> (r: heapless::Vec<(Register, u8), 16>)
        ensures
            plan_entries(r) == self.plan(),
    {
        reveal(DeviceConfig::plan);
        let mut all_registers = empty_plan();
        let ctrl_register_8 = registers::ctrl_reg8(
            self.reboot_memory_content,
            self.block_data_update,
            self.interrupt_active_low,
            self.interrupt_pin_mode,
            self.spi_mode,
            self.register_increment,
            self.accel_gyro.endianness,
            false,
        );
        let master = [(Register::CTRL_REG8, ctrl_register_8)];
        let ag_registers = self.accel_gyro.all_registers();
        let mag_registers = self.magnetometer.all_registers();
        // 1 + 7 + 5 entries fit in the capacity of 16: none of these fails.
        let _ = extend_plan(&mut all_registers, master.as_slice());
        let _ = extend_plan(&mut all_registers, ag_registers.as_slice());
        let _ = extend_plan(&mut all_registers, mag_registers.as_slice());
        assert(plan_entries(all_registers) =~= self.plan());
        all_registers
    }
}

impl DeviceConfig {
    /// These settings with all three accelerometer axes switched on or off.
    pub open spec fn with_accel_axes(self, enabled: bool) -> DeviceConfig {
        DeviceConfig {
            accel_gyro: AccelGyroConfig {
                accel_x_axis_enabled: enabled,
                accel_y_axis_enabled: enabled,
                accel_z_axis_enabled: enabled,
                ..self.accel_gyro
            },
            ..self
        }
    }

    /// These settings with all three gyroscope axes switched on or off.
    pub open spec fn with_gyro_axes(self, enabled: bool) -> DeviceConfig {
        DeviceConfig {
            accel_gyro: AccelGyroConfig {
                gyro_x_axis_enabled: enabled,
                gyro_y_axis_enabled: enabled,
                gyro_z_axis_enabled: enabled,
                ..self.accel_gyro
            },
            ..self
        }
    }

    /// These settings with another magnetometer operating mode.
    pub open spec fn with_mag_operating_mode(self, mode: OperatingMode) -> DeviceConfig {
        DeviceConfig {
            magnetometer: MagnetometerConfig { operating_mode: mode, ..self.magnetometer },
            ..self
        }
    }

    /// These settings with another rate for accelerometer and gyroscope together.
    pub open spec fn with_accel_gyro_rate(self, rate: AccelGyroSamplingRate) -> DeviceConfig {
        DeviceConfig {
            accel_gyro: AccelGyroConfig { accel_gyro_sampling_rate: rate, ..self.accel_gyro },
            ..self
        }
    }

    /// These settings with another rate for the accelerometer alone.
    pub open spec fn with_accel_rate(self, rate: AccelSamplingRate) -> DeviceConfig {
        DeviceConfig {
            accel_gyro: AccelGyroConfig { accel_only_sampling_rate: rate, ..self.accel_gyro },
            ..self
        }
    }

    /// These settings with another gyroscope range.
    pub open spec fn with_gyro_scale(self, scale: GyroFullScale) -> DeviceConfig {
        DeviceConfig {
            accel_gyro: AccelGyroConfig { gyro_full_scale: scale, ..self.accel_gyro },
            ..self
        }
    }

    /// These settings with another magnetometer rate.
    pub open spec fn with_mag_rate(self, rate: SamplingRate) -> DeviceConfig {
        DeviceConfig {
            magnetometer: MagnetometerConfig { sampling_rate: rate, ..self.magnetometer },
            ..self
        }
    }

    /// These settings with another magnetometer range.
    pub open spec fn with_mag_scale(self, scale: FullScale) -> DeviceConfig {
        DeviceConfig {
            magnetometer: MagnetometerConfig { full_scale: scale, ..self.magnetometer },
            ..self
        }
    }
}

/// The magnetometer converts continuously when enabled and is powered down otherwise.
pub open spec fn mag_mode_for(enabled: bool) -> OperatingMode {
    if enabled {
        OperatingMode::ContinuousConversion
    } else {
        OperatingMode::PowerDown
    }
}

impl Default for DeviceConfig {
    fn default() -> (r: Self)
        ensures
            r == DeviceConfig::spec_default(),
    {
        Self {
            reboot_memory_content: false,
            block_data_update: false,
            interrupt_active_low: false,
            interrupt_pin_mode: InterruptPinMode::PushPull,
            spi_mode: SPIMode::FourWire,
            register_increment: true,
            magnetometer: MagnetometerConfig::default(),
            accel_gyro: AccelGyroConfig::default(),
        }
    }
}

/// A live update keeps the model in step with the device: after switching the gyroscope or
/// accelerometer axes, the magnetometer mode, or a rate, the updated configuration plans for
/// the rewritten register exactly the byte that the update writes.
pub proof fn lemma_live_updates_follow_plan(
    c: DeviceConfig,
    enabled: bool,
    accel_gyro_rate: AccelGyroSamplingRate,
    accel_rate: AccelSamplingRate,
)
    ensures
        c.with_gyro_axes(enabled).plan().contains(
            (Register::CTRL_REG4, ctrl_reg_4_byte(enabled, enabled, enabled)),
        ),
        c.with_accel_axes(enabled).plan().contains(
            (
                Register::CTRL_REG5_XL,
                ctrl_reg_5_xl_byte(c.accel_gyro.accel_decimation, enabled, enabled, enabled),
            ),
        ),
        c.with_mag_operating_mode(mag_mode_for(enabled)).plan().contains(
            (
                Register::CTRL_REG3_M,
                ctrl_reg_3_m_byte(
                    c.magnetometer.i2c_disabled,
                    c.magnetometer.low_power_mode,
                    c.magnetometer.spi_write_only,
                    mag_mode_for(enabled),
                ),
            ),
        ),
        c.with_accel_gyro_rate(accel_gyro_rate).plan().contains(
            (Register::CTRL_REG1_G, ctrl_reg_1_g_byte(accel_gyro_rate, c.accel_gyro.gyro_full_scale)),
        ),
        c.with_accel_rate(accel_rate).plan().contains(
            (
                Register::CTRL_REG6_XL,
                ctrl_reg_6_xl_byte(
                    accel_rate,
                    c.accel_gyro.accel_full_scale,
                    c.accel_gyro.accel_bandwidth,
                ),
            ),
        ),
{
    lemma_plan_layout(c.with_gyro_axes(enabled));
    assert(c.with_gyro_axes(enabled).plan()[4] == (
        Register::CTRL_REG4,
        ctrl_reg_4_byte(enabled, enabled, enabled),
    ));
    lemma_plan_layout(c.with_accel_axes(enabled));
    assert(c.with_accel_axes(enabled).plan()[5] == (
        Register::CTRL_REG5_XL,
        ctrl_reg_5_xl_byte(c.accel_gyro.accel_decimation, enabled, enabled, enabled),
    ));
    lemma_plan_layout(c.with_mag_operating_mode(mag_mode_for(enabled)));
    assert(c.with_mag_operating_mode(mag_mode_for(enabled)).plan()[10] == (
        Register::CTRL_REG3_M,
        ctrl_reg_3_m_byte(
            c.magnetometer.i2c_disabled,
            c.magnetometer.low_power_mode,
            c.magnetometer.spi_write_only,
            mag_mode_for(enabled),
        ),
    ));
    lemma_plan_layout(c.with_accel_gyro_rate(accel_gyro_rate));
    assert(c.with_accel_gyro_rate(accel_gyro_rate).plan()[1] == (
        Register::CTRL_REG1_G,
        ctrl_reg_1_g_byte(accel_gyro_rate, c.accel_gyro.gyro_full_scale),
    ));
    lemma_plan_layout(c.with_accel_rate(accel_rate));
    assert(c.with_accel_rate(accel_rate).plan()[6] == (
        Register::CTRL_REG6_XL,
        ctrl_reg_6_xl_byte(accel_rate, c.accel_gyro.accel_full_scale, c.accel_gyro.accel_bandwidth),
    ));
}

/// Where the registers that a live update rewrites stand in the plan, and their values.
proof fn lemma_plan_layout(c: DeviceConfig)
    ensures
        c.plan().len() == 13,
        c.plan()[1] == (
            Register::CTRL_REG1_G,
            ctrl_reg_1_g_byte(c.accel_gyro.accel_gyro_sampling_rate, c.accel_gyro.gyro_full_scale),
        ),
        c.plan()[4] == (
            Register::CTRL_REG4,
            ctrl_reg_4_byte(
                c.accel_gyro.gyro_x_axis_enabled,
                c.accel_gyro.gyro_y_axis_enabled,
                c.accel_gyro.gyro_z_axis_enabled,
            ),
        ),
        c.plan()[5] == (
            Register::CTRL_REG5_XL,
            ctrl_reg_5_xl_byte(
                c.accel_gyro.accel_decimation,
                c.accel_gyro.accel_x_axis_enabled,
                c.accel_gyro.accel_y_axis_enabled,
                c.accel_gyro.accel_z_axis_enabled,
            ),
        ),
        c.plan()[6] == (
            Register::CTRL_REG6_XL,
            ctrl_reg_6_xl_byte(
                c.accel_gyro.accel_only_sampling_rate,
                c.accel_gyro.accel_full_scale,
                c.accel_gyro.accel_bandwidth,
            ),
        ),
        c.plan()[10] == (
            Register::CTRL_REG3_M,
            ctrl_reg_3_m_byte(
                c.magnetometer.i2c_disabled,
                c.magnetometer.low_power_mode,
                c.magnetometer.spi_write_only,
                c.magnetometer.operating_mode,
            ),
        ),
{
    reveal(DeviceConfig::plan);
}

/// The default configuration plans exactly thirteen writes, with the power-on-safe bytes:
/// auto-increment alone in the master register, the slowest rates, every gyroscope and
/// accelerometer axis enabled, and the magnetometer powered down.
pub proof fn lemma_default_plan()
    ensures
        DeviceConfig::spec_default().plan().len() == 13,
        DeviceConfig::spec_default().plan() == seq![
            (Register::CTRL_REG8, 0x04u8),
            (Register::CTRL_REG1_G, 0x20u8),
            (Register::CTRL_REG2_G, 0x00u8),
            (Register::CTRL_REG3_G, 0x00u8),
            (Register::CTRL_REG4, 0x38u8),
            (Register::CTRL_REG5_XL, 0x18u8),
            (Register::CTRL_REG6_XL, 0x20u8),
            (Register::CTRL_REG7_XL, 0x00u8),
            (Register::CTRL_REG1_M, 0x10u8),
            (Register::CTRL_REG2_M, 0x00u8),
            (Register::CTRL_REG3_M, 0x02u8),
            (Register::CTRL_REG4_M, 0x00u8),
            (Register::CTRL_REG5_M, 0x00u8),
        ],
{
    reveal(registers::ctrl_reg_1_g_byte);
    reveal(registers::ctrl_reg_2_g_byte);
    reveal(registers::ctrl_reg_3_g_byte);
    reveal(registers::ctrl_reg_4_byte);
    reveal(registers::ctrl_reg_5_xl_byte);
    reveal(registers::ctrl_reg_6_xl_byte);
    reveal(registers::ctrl_reg_7_xl_byte);
    reveal(registers::ctrl_reg8_byte);
    reveal(registers::ctrl_reg_1_m_byte);
    reveal(registers::ctrl_reg_2_m_byte);
    reveal(registers::ctrl_reg_3_m_byte);
    reveal(registers::ctrl_reg_4_m_byte);
    reveal(registers::ctrl_reg_5_m_byte);
    reveal(DeviceConfig::plan);
    assert(DeviceConfig::spec_default().plan() =~= seq![
        (Register::CTRL_REG8, 0x04u8),
        (Register::CTRL_REG1_G, 0x20u8),
        (Register::CTRL_REG2_G, 0x00u8),
        (Register::CTRL_REG3_G, 0x00u8),
        (Register::CTRL_REG4, 0x38u8),
        (Register::CTRL_REG5_XL, 0x18u8),
        (Register::CTRL_REG6_XL, 0x20u8),
        (Register::CTRL_REG7_XL, 0x00u8),
        (Register::CTRL_REG1_M, 0x10u8),
        (Register::CTRL_REG2_M, 0x00u8),
        (Register::CTRL_REG3_M, 0x02u8),
        (Register::CTRL_REG4_M, 0x00u8),
        (Register::CTRL_REG5_M, 0x00u8),
    ]);
}

} // verus!
