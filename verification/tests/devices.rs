use i2c_telemetry::common::bits::{get_field, get_flag, pack_msb0, set_field, set_flag};
use i2c_telemetry::common::bytes::{
    i16_from_le_bytes, i16_le_bytes, i8_from_byte, i8_to_byte, u16_from_le_bytes, u16_le_bytes,
    u24_from_le_bytes, u24_le_bytes, u32_le_bytes,
};
use i2c_telemetry::common::enums::LogicLevel;
use i2c_telemetry::devices::bmp390;
use i2c_telemetry::devices::bmp390::enums::{
    IIRFilter, InteruptOutput, OversamplingSetting, PowerMode,
};
use i2c_telemetry::devices::bmp390::registers::{
    BurstRead, CalibrationICoefficients, Error, FIFOConfig2, FIFOLength, FIFOWatermark,
    IIRFilterConfiguration, InteruptControl, OutputDataRate, Oversampling, PowerControl, Pressure,
    Status,
};
use i2c_telemetry::devices::pca9557;
use i2c_telemetry::devices::pca9557::registers;
use i2c_telemetry::devices::pca9557::registers::{
    Configuration, IODirection, InputPort, OutputPort, Polarity,
};

#[test]
fn test_inversion_register() {
    let mut test_config = registers::PolarityInversion::default();
    let mut pins = test_config.read_pins();
    pins[0] = registers::Polarity::Original;
    pins[1] = registers::Polarity::Original;
    pins[2] = registers::Polarity::Original;
    pins[3] = registers::Polarity::Original;
    pins.reverse();

    let inversion_check = 0b11110000u8;

    test_config.write_pins(pins);
    assert_eq!(
        test_config.data[0], inversion_check,
        "We are expecting {:#010b} and actually got {:#010b}",
        inversion_check, test_config.data[0]
    );
}

#[test]
fn field_reads_and_writes() {
    assert_eq!(get_field(0b1011_0100, 4, 2), 0b11);
    assert_eq!(get_field(0b1011_0100, 0, 8), 0b1011_0100);
    assert_eq!(get_field(0b1011_0100, 2, 3), 0b101);
    assert_eq!(set_field(0b1111_1111, 4, 2, 0b01), 0b1101_1111);
    assert_eq!(set_field(0, 5, 3, 0xff), 0b1110_0000);
    assert_eq!(set_field(0xaa, 0, 8, 0x55), 0x55);
    assert!(get_flag(0b0000_0100, 2));
    assert!(!get_flag(0b1111_1011, 2));
    assert_eq!(set_flag(0, 7, true), 0x80);
    assert_eq!(set_flag(0xff, 0, false), 0xfe);
    assert_eq!(pack_msb0([1, 0, 1, 0, 0, 0, 1, 1]), 0b1010_0011);
}

#[test]
fn byte_order_helpers() {
    assert_eq!(u16_le_bytes(0x1234), [0x34, 0x12]);
    assert_eq!(u16_from_le_bytes(0x34, 0x12), 0x1234);
    assert_eq!(u24_le_bytes(0xab12_3456), [0x56, 0x34, 0x12]);
    assert_eq!(u24_from_le_bytes(0x56, 0x34, 0x12), 0x0012_3456);
    assert_eq!(u32_le_bytes(0xC89A_8602), [0x02, 0x86, 0x9a, 0xc8]);
    assert_eq!(i8_from_byte(0xff), -1);
    assert_eq!(i8_from_byte(0x80), -128);
    assert_eq!(i8_from_byte(0x7f), 127);
    assert_eq!(i8_to_byte(-1), 0xff);
    assert_eq!(i8_to_byte(-128), 0x80);
    assert_eq!(i8_to_byte(5), 5);
    assert_eq!(i16_from_le_bytes(0xfe, 0xff), -2);
    assert_eq!(i16_from_le_bytes(0x00, 0x80), -32768);
    assert_eq!(i16_from_le_bytes(0xff, 0x7f), 32767);
    assert_eq!(i16_le_bytes(-2), [0xfe, 0xff]);
    assert_eq!(i16_le_bytes(-32768), [0x00, 0x80]);
    assert_eq!(i16_le_bytes(0x0102), [0x02, 0x01]);
}

#[test]
fn enums_map_to_register_bits() {
    assert_eq!(LogicLevel::High.into_primitive(), 1);
    assert_eq!(LogicLevel::Low.into_primitive(), 0);
    assert_eq!(LogicLevel::from_primitive(1), LogicLevel::High);
    assert_eq!(LogicLevel::from_primitive(0), LogicLevel::Low);
    assert_eq!(LogicLevel::from_primitive(9), LogicLevel::Low);
    assert_eq!(LogicLevel::default(), LogicLevel::Low);
    assert_eq!(InteruptOutput::default(), InteruptOutput::PushPull);
    assert_eq!(InteruptOutput::OpenDrain.into_primitive(), 1);
    assert_eq!(PowerMode::Sleep.into_primitive(), 0);
    assert_eq!(PowerMode::Forced.into_primitive(), 1);
    assert_eq!(PowerMode::Normal.into_primitive(), 3);
    assert_eq!(PowerMode::from_primitive(2), PowerMode::Normal);
    assert_eq!(PowerMode::from_primitive(1), PowerMode::Forced);
    assert_eq!(PowerMode::default(), PowerMode::Normal);
    assert_eq!(OversamplingSetting::X32.into_primitive(), 5);
    assert_eq!(OversamplingSetting::from_primitive(4), OversamplingSetting::X16);
    assert_eq!(OversamplingSetting::from_primitive(7), OversamplingSetting::X32);
    assert_eq!(OversamplingSetting::default(), OversamplingSetting::X1);
    assert_eq!(IIRFilter::Coeff127.into_primitive(), 7);
    assert_eq!(IIRFilter::from_primitive(3), IIRFilter::Coeff7);
    assert_eq!(IIRFilter::default(), IIRFilter::Coeff0);
    assert_eq!(Polarity::default(), Polarity::Inverted);
    assert_eq!(Polarity::from_primitive(0), Polarity::Original);
    assert_eq!(IODirection::default(), IODirection::Input);
    assert_eq!(IODirection::Output.into_primitive(), 0);
}

#[test]
fn addresses_convert_to_bus_bytes() {
    assert_eq!(u8::from(bmp390::address::Address::Primary), 0x76);
    assert_eq!(u8::from(bmp390::address::Address::Secondary), 0x77);
    assert_eq!(u8::from(bmp390::address::Address::Custom(0x42)), 0x42);
    assert_eq!(u8::from(pca9557::address::Address::Primary), 0x18);
    assert_eq!(u8::from(pca9557::enums::Address::Custom(0x1f)), 0x1f);
}

#[test]
fn pin_registers_put_first_entry_in_bit_seven() {
    let port = InputPort { data: [0b1000_0001] };
    let pins = port.read_pins();
    assert_eq!(pins[0], LogicLevel::High);
    assert_eq!(pins[7], LogicLevel::High);
    assert_eq!(pins[1], LogicLevel::Low);
    let mut out = OutputPort::default();
    assert_eq!(out.data, [0]);
    let mut levels = [LogicLevel::Low; 8];
    levels[1] = LogicLevel::High;
    out.write_pins(levels);
    assert_eq!(out.data, [0b0100_0000]);
    assert_eq!(out.read_pins(), levels);
    assert_eq!(Configuration::default().data, [0xff]);
    assert_eq!(registers::PolarityInversion::default().data, [0xff]);
    assert_eq!(InputPort::default().data, [0x00]);
}

#[test]
fn expander_setters_take_pin_zero_first() {
    let mut out = OutputPort::default();
    let mut levels = [LogicLevel::Low; 8];
    levels[0] = LogicLevel::High;
    levels[2] = LogicLevel::High;
    pca9557::set_output_port(&mut out, levels);
    assert_eq!(out.data, [0b0000_0101]);

    let mut inv = registers::PolarityInversion::default();
    let mut pol = [Polarity::Original; 8];
    pol[7] = Polarity::Inverted;
    pca9557::set_polarity(&mut inv, pol);
    assert_eq!(inv.data, [0b1000_0000]);

    let mut dir = Configuration::default();
    let mut dirs = [IODirection::Input; 8];
    dirs[3] = IODirection::Output;
    pca9557::set_configuration(&mut dir, dirs);
    assert_eq!(dir.data, [0b1111_0111]);
    assert_eq!(pca9557::reversed([1u8, 2, 3, 4, 5, 6, 7, 8]), [8, 7, 6, 5, 4, 3, 2, 1]);
}

#[test]
fn power_control_layout() {
    assert_eq!(PowerControl::default().data, [0b0011_0000]);
    let mut reg = PowerControl { data: [0b1100_1100] };
    bmp390::set_power_mode(&mut reg, PowerMode::Forced, true, false);
    assert_eq!(reg.data, [0b1101_1101]);
    assert_eq!(reg.read_mode(), PowerMode::Forced);
    assert!(reg.read_press_en());
    assert!(!reg.read_temp_en());
    bmp390::set_power_mode(&mut reg, PowerMode::Sleep, false, true);
    assert_eq!(reg.data, [0b1100_1110]);
}

#[test]
fn oversampling_and_rate_and_filter() {
    let mut os = Oversampling::default();
    bmp390::set_oversample(&mut os, OversamplingSetting::X2, OversamplingSetting::X32);
    assert_eq!(os.data, [0b0000_1101]);
    assert_eq!(os.read_oversampling_temp(), OversamplingSetting::X2);
    assert_eq!(os.read_over_sampling_press(), OversamplingSetting::X32);

    let mut odr = OutputDataRate { data: [0b1010_0000] };
    bmp390::set_output_data_rate(&mut odr, 0x11);
    assert_eq!(odr.data, [0b1011_0001]);
    bmp390::set_output_data_rate(&mut odr, 0xff);
    assert_eq!(odr.data, [0b1011_1111]);
    assert_eq!(odr.read_subdivision_factor(), 0x1f);

    let mut iir = IIRFilterConfiguration { data: [0b0000_0001] };
    bmp390::set_iir_filter(&mut iir, IIRFilter::Coeff15);
    assert_eq!(iir.data, [0b0000_1000]);
    assert_eq!(iir.read_iir_filter(), IIRFilter::Coeff15);
}

#[test]
fn interrupt_control_from_scratch() {
    let reg = bmp390::set_interrupt(
        true,
        false,
        true,
        false,
        LogicLevel::High,
        InteruptOutput::OpenDrain,
    );
    assert_eq!(reg.data, [0b0100_1011]);
    let quiet =
        bmp390::set_interrupt(false, false, false, false, LogicLevel::Low, InteruptOutput::PushPull);
    assert_eq!(quiet.data, [0]);
    assert_eq!(InteruptControl::default().data, [0]);
    let all =
        bmp390::set_interrupt(true, true, true, true, LogicLevel::High, InteruptOutput::OpenDrain);
    assert_eq!(all.data, [0b0101_1111]);
}

#[test]
fn status_and_error_flags() {
    let e = Error { data: [0b0000_0101] };
    assert!(e.read_conf_err());
    assert!(!e.read_cmd_err());
    assert!(e.read_fatal_err());
    let s = Status { data: [0b0110_0000] };
    assert!(s.read_data_ready_temp());
    assert!(s.read_data_ready_pres());
    assert!(!s.read_command_ready());
    let mut c = FIFOConfig2::default();
    c.write_data_select(0b10);
    c.write_fifo_subsampling(0b101);
    assert_eq!(c.data, [0b0001_0101]);
}

#[test]
fn multi_byte_readings() {
    let p = Pressure { data: [0x56, 0x34, 0x12] };
    assert_eq!(p.read_pressure(), 0x12_3456);
    let b = BurstRead { data: [1, 0, 0, 0, 0, 2] };
    assert_eq!(b.read_pressure(), 1);
    assert_eq!(b.read_temperature(), 0x02_0000);
    let mut w = BurstRead::default();
    w.write_temperature(0xff12_3456);
    assert_eq!(w.data, [0, 0, 0, 0x56, 0x34, 0x12]);
    let l = FIFOLength { data: [0x01, 0x02] };
    assert_eq!(l.read_fifo_byte_counter(), 0x0201);
}

#[test]
fn watermark_is_nine_bits() {
    let mut w = FIFOWatermark::default();
    w.write_watermark(0x1a5);
    assert_eq!(w.data, [0xa5, 0x80]);
    assert_eq!(w.read_watermark(), 0x1a5);
    w.write_watermark(0xfe03);
    assert_eq!(w.data, [0x03, 0x00]);
    assert_eq!(w.read_watermark(), 0x003);
    let r = FIFOWatermark { data: [0xff, 0x7f] };
    assert_eq!(r.read_watermark(), 0xff);
}

#[test]
fn calibration_coefficients() {
    let mut data = [0u8; 21];
    data[0] = 0x34;
    data[1] = 0x12;
    data[4] = 0xfe;
    data[5] = 0x00;
    data[6] = 0x80;
    data[20] = 0x7f;
    let c = CalibrationICoefficients { data };
    assert_eq!(c.read_par_t1(), 0x1234);
    assert_eq!(c.read_par_t2(), 0);
    assert_eq!(c.read_par_t3(), -2);
    assert_eq!(c.read_par_p1(), -32768);
    assert_eq!(c.read_par_p11(), 127);
    let mut d = CalibrationICoefficients::default();
    d.write_par_p9(-2);
    d.write_par_p10(-1);
    assert_eq!(d.data[17], 0xfe);
    assert_eq!(d.data[18], 0xff);
    assert_eq!(d.data[19], 0xff);
    assert_eq!(d.data[20], 0x00);
    assert_eq!(d.read_par_p9(), -2);
}
