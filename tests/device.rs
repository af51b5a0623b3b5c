use lsm9ds1::config::magnetometer::{FullScale, OperatingMode};
use lsm9ds1::config::accel_gyro::{AccelGyroSamplingRate, AccelSamplingRate, GyroFullScale};
use lsm9ds1::config::DeviceConfig;
use lsm9ds1::interface::Interface;
use lsm9ds1::registers::{self, Register};
use lsm9ds1::{Lsm9ds1Builder, Lsm9ds1Error};

use embedded_hal::i2c::ErrorKind;

/// A bus that records every write, serves reads from a fixed byte pattern, and can be made
/// to fail from a given write on.
struct RecordingBus {
    writes: Vec<(Register, u8)>,
    reads: Vec<Register>,
    fail_after: Option<usize>,
    fail_reads: bool,
    data: Vec<u8>,
}

impl RecordingBus {
    fn new() -> Self {
        RecordingBus {
            writes: Vec::new(),
            reads: Vec::new(),
            fail_after: None,
            fail_reads: false,
            data: vec![0],
        }
    }

    fn with_data(data: &[u8]) -> Self {
        let mut bus = Self::new();
        bus.data = data.to_vec();
        bus
    }
}

impl Interface for RecordingBus {
    fn write(&mut self, reg: Register, value: u8) -> Result<(), Lsm9ds1Error> {
        if let Some(n) = self.fail_after {
            if self.writes.len() >= n {
                return Err(Lsm9ds1Error::I2cError(ErrorKind::Bus));
            }
        }
        self.writes.push((reg, value));
        Ok(())
    }

    fn read(&mut self, reg: Register) -> Result<u8, Lsm9ds1Error> {
        if self.fail_reads {
            return Err(Lsm9ds1Error::I2cError(ErrorKind::Overrun));
        }
        let i = self.reads.len() % self.data.len();
        self.reads.push(reg);
        Ok(self.data[i])
    }

    fn read_multiple(&mut self, start_reg: Register, buffer: &mut [u8]) -> Result<(), Lsm9ds1Error> {
        if self.fail_reads {
            return Err(Lsm9ds1Error::I2cError(ErrorKind::Overrun));
        }
        self.reads.push(start_reg);
        for (i, b) in buffer.iter_mut().enumerate() {
            *b = self.data[i % self.data.len()];
        }
        Ok(())
    }
}

fn default_plan() -> Vec<(Register, u8)> {
    vec![
        (Register::CTRL_REG8, 0x04),
        (Register::CTRL_REG1_G, 0x20),
        (Register::CTRL_REG2_G, 0x00),
        (Register::CTRL_REG3_G, 0x00),
        (Register::CTRL_REG4, 0x38),
        (Register::CTRL_REG5_XL, 0x18),
        (Register::CTRL_REG6_XL, 0x20),
        (Register::CTRL_REG7_XL, 0x00),
        (Register::CTRL_REG1_M, 0x10),
        (Register::CTRL_REG2_M, 0x00),
        (Register::CTRL_REG3_M, 0x02),
        (Register::CTRL_REG4_M, 0x00),
        (Register::CTRL_REG5_M, 0x00),
    ]
}

#[test]
fn default_plan_has_thirteen_power_on_safe_writes() {
    let plan = DeviceConfig::default().all_registers();
    assert_eq!(plan.len(), 13);
    assert_eq!(plan.as_slice(), default_plan().as_slice());
}

#[test]
fn default_master_register_matches_hand_encoding() {
    let config = DeviceConfig::default();
    let plan = config.all_registers();
    let by_hand = registers::ctrl_reg8(
        false,
        false,
        false,
        lsm9ds1::config::InterruptPinMode::PushPull,
        lsm9ds1::config::SPIMode::FourWire,
        true,
        lsm9ds1::config::Endianness::BigEndian,
        false,
    );
    assert_eq!(by_hand, 0b0000_0100);
    assert_eq!(plan[0], (Register::CTRL_REG8, by_hand));
    assert_eq!(plan[0], (Register::CTRL_REG8, 0x04));
}

#[test]
fn init_writes_whole_plan_in_order() {
    let device = Lsm9ds1Builder::new().init_on(RecordingBus::new()).unwrap();
    assert_eq!(device.interface().writes, default_plan());
}

#[test]
fn init_stops_at_first_failed_write() {
    let mut bus = RecordingBus::new();
    bus.fail_after = Some(3);
    match Lsm9ds1Builder::new().init_on(bus) {
        Err(Lsm9ds1Error::I2cError(kind)) => assert_eq!(kind, ErrorKind::Bus),
        Ok(_) => panic!("init must fail on a failing bus"),
    }
}

#[test]
fn gyroscope_toggle_updates_model_and_register() {
    let mut device = Lsm9ds1Builder::new()
        .with_gyroscope_enabled(false)
        .init_on(RecordingBus::new())
        .unwrap();
    assert_eq!(device.interface().writes[4], (Register::CTRL_REG4, 0x00));
    device.set_gyroscope_enabled(true).unwrap();
    let ag = &device.config().accel_gyro;
    assert!(ag.gyro_x_axis_enabled && ag.gyro_y_axis_enabled && ag.gyro_z_axis_enabled);
    let last = *device.interface().writes.last().unwrap();
    assert_eq!(last, (Register::CTRL_REG4, registers::ctrl_reg_4(true, true, true)));
    assert_eq!(last, (Register::CTRL_REG4, 0x38));
    assert!(device.config().all_registers().contains(&last));
}

#[test]
fn failed_live_update_leaves_model_unchanged() {
    let mut bus = RecordingBus::new();
    bus.fail_after = Some(13);
    let mut device = Lsm9ds1Builder::new().init_on(bus).unwrap();
    assert!(device.set_accelerometer_enabled(false).is_err());
    assert!(device.config().accel_gyro.accel_x_axis_enabled);
    assert!(device.set_magnetometer_enabled(true).is_err());
    assert_eq!(device.config().magnetometer.operating_mode, OperatingMode::PowerDown);
    assert_eq!(device.interface().writes.len(), 13);
}

#[test]
fn accelerometer_disable_sets_inverted_z_flag() {
    let mut device = Lsm9ds1Builder::new().init_on(RecordingBus::new()).unwrap();
    device.set_accelerometer_enabled(false).unwrap();
    // Z is written inverted: disabling every axis leaves bit 5 set.
    assert_eq!(
        *device.interface().writes.last().unwrap(),
        (Register::CTRL_REG5_XL, 0b0010_0000)
    );
    assert!(!device.config().accel_gyro.accel_z_axis_enabled);
}

#[test]
fn magnetometer_enable_and_rate_updates() {
    let mut device = Lsm9ds1Builder::new().init_on(RecordingBus::new()).unwrap();
    device.set_magnetometer_enabled(true).unwrap();
    assert_eq!(*device.interface().writes.last().unwrap(), (Register::CTRL_REG3_M, 0x00));
    assert_eq!(
        device.config().magnetometer.operating_mode,
        OperatingMode::ContinuousConversion
    );
    device
        .set_accel_gyro_sampling_rate(AccelGyroSamplingRate::_952Hz)
        .unwrap();
    assert_eq!(*device.interface().writes.last().unwrap(), (Register::CTRL_REG1_G, 0xc0));
    device.set_accel_sampling_rate(AccelSamplingRate::_50Hz).unwrap();
    assert_eq!(*device.interface().writes.last().unwrap(), (Register::CTRL_REG6_XL, 0x40));
    assert_eq!(
        device.config().accel_gyro.accel_only_sampling_rate,
        AccelSamplingRate::_50Hz
    );
}

#[test]
fn reset_sets_bit_zero_of_read_value() {
    let mut device = Lsm9ds1Builder::new()
        .init_on(RecordingBus::with_data(&[0x44]))
        .unwrap();
    device.reset().unwrap();
    assert_eq!(*device.interface().writes.last().unwrap(), (Register::CTRL_REG8, 0x45));
    assert_eq!(device.interface().reads, vec![Register::CTRL_REG8]);
}

#[test]
fn raw_readers_decode_little_endian_pairs() {
    let mut device = Lsm9ds1Builder::new()
        .init_on(RecordingBus::with_data(&[0xff, 0x7f, 0x00, 0x80, 0x00, 0x00]))
        .unwrap();
    assert_eq!(device.gyroscope_raw().unwrap(), (32767, -32768, 0));
    assert_eq!(device.accelerometer_raw().unwrap(), (32767, -32768, 0));
    assert_eq!(device.magnetometer_raw().unwrap(), (32767, -32768, 0));
    assert_eq!(
        device.interface().reads,
        vec![Register::OUT_X_L_G, Register::OUT_X_L_XL, Register::OUT_X_L_M]
    );
}

#[test]
fn temperature_reads_low_then_high() {
    let mut device = Lsm9ds1Builder::new()
        .init_on(RecordingBus::with_data(&[0xa0, 0x00]))
        .unwrap();
    let raw = device.temperature_raw().unwrap();
    assert_eq!(raw, 160);
    assert_eq!(
        device.interface().reads,
        vec![Register::OUT_TEMP_L, Register::OUT_TEMP_H]
    );
    assert_eq!(device.who_am_i_ag().unwrap(), 0xa0);
    assert_eq!(device.who_am_i_m().unwrap(), 0x00);
}

#[test]
fn builder_setters_reach_the_plan() {
    let device = Lsm9ds1Builder::new()
        .with_accelerometer_enabled(false)
        .with_magnetometer_enabled(true)
        .with_accel_gyro_sampling_rate(AccelGyroSamplingRate::_119Hz)
        .with_accel_sampling_rate(AccelSamplingRate::_238Hz)
        .with_magnetometer_sampling_rate(lsm9ds1::config::magnetometer::SamplingRate::_80Hz)
        .with_gyroscope_scale(GyroFullScale::_2000dps)
        .with_magnetometer_scale(FullScale::PlusMinus12Gauss)
        .init_on(RecordingBus::new())
        .unwrap();
    let writes = &device.interface().writes;
    assert_eq!(writes[1], (Register::CTRL_REG1_G, 0x78));
    assert_eq!(writes[5], (Register::CTRL_REG5_XL, 0x20));
    assert_eq!(writes[6], (Register::CTRL_REG6_XL, 0x80));
    assert_eq!(writes[8], (Register::CTRL_REG1_M, 0x1c));
    assert_eq!(writes[9], (Register::CTRL_REG2_M, 0x40));
    assert_eq!(writes[10], (Register::CTRL_REG3_M, 0x00));
}

#[test]
fn accelerometer_scale_builder_sets_magnetometer_scale() {
    let mut outer = Lsm9ds1Builder::new();
    let builder = outer
        .with_config(DeviceConfig::default())
        .with_accelerometer_scale(FullScale::PlusMinus16Gauss);
    let device = builder.init_on(RecordingBus::new()).unwrap();
    assert_eq!(device.config().magnetometer.full_scale, FullScale::PlusMinus16Gauss);
    assert_eq!(device.interface().writes[9], (Register::CTRL_REG2_M, 0x60));
}

#[test]
fn failed_live_update_returns_the_write_error() {
    let mut bus = RecordingBus::new();
    bus.fail_after = Some(13);
    let mut device = Lsm9ds1Builder::new().init_on(bus).unwrap();
    match device.set_gyroscope_enabled(false) {
        Err(Lsm9ds1Error::I2cError(kind)) => assert_eq!(kind, ErrorKind::Bus),
        Ok(()) => panic!("the write failed"),
    }
    assert!(device.config().accel_gyro.gyro_x_axis_enabled);
}

#[test]
fn read_errors_pass_through_and_reset_writes_nothing() {
    let mut device = Lsm9ds1Builder::new().init_on(RecordingBus::new()).unwrap();
    let mut bus_fails = RecordingBus::new();
    bus_fails.fail_reads = true;
    let mut failing = Lsm9ds1Builder::new().init_on(bus_fails).unwrap();
    match failing.reset() {
        Err(Lsm9ds1Error::I2cError(kind)) => assert_eq!(kind, ErrorKind::Overrun),
        Ok(()) => panic!("the read failed"),
    }
    assert_eq!(failing.interface().writes.len(), 13);
    match failing.gyroscope_raw() {
        Err(Lsm9ds1Error::I2cError(kind)) => assert_eq!(kind, ErrorKind::Overrun),
        Ok(_) => panic!("the read failed"),
    }
    assert!(failing.temperature_raw().is_err());
    assert!(failing.who_am_i_ag().is_err());
    assert!(device.who_am_i_m().is_ok());
}
