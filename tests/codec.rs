use lsm9ds1::config::accel_gyro::{
    AccelBandWidth, AccelDecimation, AccelFullScale, AccelGyroSamplingRate, AccelLowpassCutoff,
    AccelSamplingRate, GyroFullScale,
};
use lsm9ds1::config::magnetometer::{FullScale, OperatingMode, PerformanceMode, SamplingRate};
use lsm9ds1::config::{Endianness, InterruptPinMode, SPIMode};
use lsm9ds1::measurement::{lane, raw_triple, temperature_sixteenths};
use lsm9ds1::registers::{
    ctrl_reg8, ctrl_reg_1_g, ctrl_reg_1_m, ctrl_reg_2_g, ctrl_reg_2_m, ctrl_reg_3_g, ctrl_reg_4,
    ctrl_reg_4_m, ctrl_reg_5_m, ctrl_reg_5_xl, ctrl_reg_6_xl, ctrl_reg_7_xl, ctrl_rg_3_m,
    ComponentAddress, Register,
};

#[test]
fn rate_field_is_ordinal_for_both_rate_enums() {
    let ag = [
        AccelGyroSamplingRate::PowerDown,
        AccelGyroSamplingRate::_14p9Hz,
        AccelGyroSamplingRate::_59p5Hz,
        AccelGyroSamplingRate::_119Hz,
        AccelGyroSamplingRate::_238Hz,
        AccelGyroSamplingRate::_476Hz,
        AccelGyroSamplingRate::_952Hz,
    ];
    for (i, rate) in ag.iter().enumerate() {
        assert_eq!((ctrl_reg_1_g(*rate, GyroFullScale::_500dps) >> 5) as usize, i);
    }
    let xl = [
        AccelSamplingRate::PowerDown,
        AccelSamplingRate::_10Hz,
        AccelSamplingRate::_50Hz,
        AccelSamplingRate::_119Hz,
        AccelSamplingRate::_238Hz,
        AccelSamplingRate::_476Hz,
        AccelSamplingRate::_952Hz,
    ];
    for (i, rate) in xl.iter().enumerate() {
        let b = ctrl_reg_6_xl(*rate, AccelFullScale::PlusMinus16g, AccelBandWidth::_50Hz);
        assert_eq!((b >> 5) as usize, i);
    }
}

#[test]
fn gyro_scale_codes() {
    let rate = AccelGyroSamplingRate::PowerDown;
    assert_eq!(ctrl_reg_1_g(rate, GyroFullScale::_245dps), 0b0000_0000);
    assert_eq!(ctrl_reg_1_g(rate, GyroFullScale::_500dps), 0b0000_1000);
    assert_eq!(ctrl_reg_1_g(rate, GyroFullScale::_2000dps), 0b0001_1000);
    assert_eq!(ctrl_reg_1_g(AccelGyroSamplingRate::_14p9Hz, GyroFullScale::_245dps), 0x20);
}

#[test]
fn accel_scale_codes_are_permuted() {
    let code = |s| (ctrl_reg_6_xl(AccelSamplingRate::PowerDown, s, AccelBandWidth::Auto) >> 3) & 0b11;
    assert_eq!(code(AccelFullScale::PlusMinus2g), 0b00);
    assert_eq!(code(AccelFullScale::PlusMinus4g), 0b10);
    assert_eq!(code(AccelFullScale::PlutMinus8g), 0b11);
    assert_eq!(code(AccelFullScale::PlusMinus16g), 0b01);
}

#[test]
fn bandwidth_and_cutoff_tables() {
    let bw = |b| ctrl_reg_6_xl(AccelSamplingRate::PowerDown, AccelFullScale::PlusMinus2g, b);
    assert_eq!(bw(AccelBandWidth::Auto), 0b000);
    assert_eq!(bw(AccelBandWidth::_408Hz), 0b100);
    assert_eq!(bw(AccelBandWidth::_211Hz), 0b101);
    assert_eq!(bw(AccelBandWidth::_105Hz), 0b110);
    assert_eq!(bw(AccelBandWidth::_50Hz), 0b111);
    assert_eq!(ctrl_reg_7_xl(false, AccelLowpassCutoff::_ODRby9, false), 0b0100_0000);
    assert_eq!(ctrl_reg_7_xl(true, AccelLowpassCutoff::_ODRBy400, true), 0b1110_0100);
    assert_eq!(ctrl_reg_7_xl(false, AccelLowpassCutoff::_ODRBy100, false), 0b0010_0000);
}

#[test]
fn gyro_filter_registers() {
    assert_eq!(ctrl_reg_2_g(false, false), 0b00);
    assert_eq!(ctrl_reg_2_g(true, false), 0b01);
    assert_eq!(ctrl_reg_2_g(false, true), 0b10);
    assert_eq!(ctrl_reg_2_g(true, true), 0b10);
    assert_eq!(ctrl_reg_3_g(true, false), 0x80);
    assert_eq!(ctrl_reg_3_g(false, true), 0x40);
    assert_eq!(ctrl_reg_4(true, false, false), 0x08);
    assert_eq!(ctrl_reg_4(false, true, true), 0x30);
}

#[test]
fn accel_axis_register_inverts_z() {
    // Z is the odd one out: its bit is set when the axis is disabled.
    assert_eq!(ctrl_reg_5_xl(AccelDecimation::NoDecimation, true, true, true), 0x18);
    assert_eq!(ctrl_reg_5_xl(AccelDecimation::NoDecimation, false, false, false), 0x20);
    assert_eq!(ctrl_reg_5_xl(AccelDecimation::Eighth, false, false, true), 0xc0);
    assert_eq!(ctrl_reg_5_xl(AccelDecimation::Half, true, false, true), 0x48);
}

#[test]
fn master_register_bits() {
    let all = ctrl_reg8(
        true,
        true,
        true,
        InterruptPinMode::OpenDrain,
        SPIMode::ThreeWire,
        true,
        Endianness::LittleEndian,
        true,
    );
    assert_eq!(all, 0xff);
    let reset_only = ctrl_reg8(
        false,
        false,
        false,
        InterruptPinMode::PushPull,
        SPIMode::FourWire,
        false,
        Endianness::BigEndian,
        true,
    );
    assert_eq!(reset_only, 0x01);
}

#[test]
fn magnetometer_registers() {
    assert_eq!(
        ctrl_reg_1_m(true, PerformanceMode::UtraHighPerformance, SamplingRate::_80Hz, true, true),
        0xff
    );
    assert_eq!(
        ctrl_reg_1_m(false, PerformanceMode::MediumPerformance, SamplingRate::_0p625Hz, false, false),
        0x20
    );
    assert_eq!(ctrl_reg_2_m(FullScale::PlusMinus4Gauss), 0x00);
    assert_eq!(ctrl_reg_2_m(FullScale::PlusMinus8Gauss), 0x20);
    assert_eq!(ctrl_reg_2_m(FullScale::PlusMinus16Gauss), 0x60);
    assert_eq!(ctrl_rg_3_m(false, false, true, OperatingMode::PowerDown), 0x02);
    assert_eq!(ctrl_rg_3_m(true, true, false, OperatingMode::SingleConversion), 0xa5);
    assert_eq!(ctrl_reg_4_m(PerformanceMode::HighPerformance, Endianness::LittleEndian), 0x0a);
    assert_eq!(ctrl_reg_5_m(true, false), 0x80);
    assert_eq!(ctrl_reg_5_m(false, true), 0x40);
}

#[test]
fn register_addresses() {
    assert_eq!(Register::WHO_AM_I.addr(), ComponentAddress::Ag(0x0f));
    assert_eq!(Register::CTRL_REG8.addr(), ComponentAddress::Ag(0x22));
    assert_eq!(Register::CTRL_REG5_XL.addr(), ComponentAddress::Ag(0xf1));
    assert_eq!(Register::WHO_AM_I_M.addr(), ComponentAddress::M(0x0f));
    assert_eq!(Register::INT_THS_H_M.addr(), ComponentAddress::M(0x33));
}

#[test]
fn lanes_are_sign_extended() {
    assert_eq!(lane(0x00, 0x00), 0);
    assert_eq!(lane(0xff, 0x7f), 32767);
    assert_eq!(lane(0x00, 0x80), -32768);
    assert_eq!(lane(0xff, 0xff), -1);
    assert_eq!(lane(0x34, 0x12), 0x1234);
    assert_eq!(raw_triple(&[1, 0, 0xfe, 0xff, 0x00, 0x01]), (1, -2, 256));
}

#[test]
fn full_scale_bounds() {
    assert_eq!(GyroFullScale::_245dps.upper_bound(), 245);
    assert_eq!(GyroFullScale::_500dps.upper_bound(), 500);
    assert_eq!(GyroFullScale::_2000dps.upper_bound(), 2000);
    assert_eq!(AccelFullScale::PlusMinus2g.upper_bound(), 2);
    assert_eq!(AccelFullScale::PlutMinus8g.upper_bound(), 8);
    assert_eq!(FullScale::PlusMinus12Gauss.upper_bound(), 12);
}

#[test]
fn scaled_extremes_reach_full_scale() {
    let bound = GyroFullScale::_245dps.upper_bound() as f32;
    let scale = bound / 32767.0;
    assert_eq!(lane(0, 0) as f32 * scale, 0.0);
    assert!((lane(0xff, 0x7f) as f32 * scale - bound).abs() < 1e-3);
    assert!((lane(0x00, 0x80) as f32 * scale + bound).abs() < 0.01);
}

#[test]
fn temperature_in_sixteenths() {
    assert_eq!(temperature_sixteenths(0), 400);
    assert_eq!(temperature_sixteenths(160), 560);
    assert_eq!(temperature_sixteenths(160) as f32 / 16.0, 35.0);
    assert_eq!(temperature_sixteenths(0) as f32 / 16.0, 25.0);
    assert_eq!(temperature_sixteenths(-400), 0);
}
