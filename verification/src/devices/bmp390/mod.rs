//! The BMP390 pressure and temperature sensor.
//!
//! The functions here are the changes a driver makes to a register between
//! reading it from the device and writing it back.

pub mod address;
pub mod enums;
pub mod registers;

use vstd::prelude::*;
use crate::common::bits::{
    field, flag_bit, lemma_field_kept, lemma_field_of_zero, lemma_field_written, lemma_low_mask,
    with_field,
};
use crate::common::enums::LogicLevel;
use self::enums::{IIRFilter, InteruptOutput, OversamplingSetting, PowerMode};
use self::registers::{
    IIRFilterConfiguration, InteruptControl, OutputDataRate, Oversampling, PowerControl,
};

verus! {

/// The power-control byte `before` with the mode in bits 5 and 4, the
/// pressure switch in bit 0 and the temperature switch in bit 1.
pub open spec fn power_mode_byte(
    before: u8,
    mode: PowerMode,
    enable_press: bool,
    enable_temp: bool,
) -> u8 {
    let with_mode = with_field(before, 4, 2, mode.bits());
    let with_press = with_field(with_mode, 0, 1, flag_bit(enable_press));
    with_field(with_press, 1, 1, flag_bit(enable_temp))
}

/// The oversampling byte `before` with the temperature setting in bits 5 to
/// 3 and the pressure setting in bits 2 to 0.
pub open spec fn oversample_byte(
    before: u8,
    temp_oversample: OversamplingSetting,
    press_oversample: OversamplingSetting,
) -> u8 {
    with_field(with_field(before, 3, 3, temp_oversample.bits()), 0, 3, press_oversample.bits())
}

/// The filter byte `before` with the coefficient in bits 3 to 1 and bit 0
/// cleared.
pub open spec fn iir_filter_byte(before: u8, coef: IIRFilter) -> u8 {
    with_field(with_field(before, 1, 3, coef.bits()), 0, 1, 0)
}

/// Sets the measurement mode and switches the two sensors on or off.
pub fn set_power_mode(
    reg: &mut PowerControl,
    mode: PowerMode,
    enable_press: bool,
    enable_temp: bool,
)
    ensures
        final(reg).data[0] == power_mode_byte(old(reg).data[0], mode, enable_press, enable_temp),
        final(reg).mode() == mode,
        final(reg).press_en() == enable_press,
        final(reg).temp_en() == enable_temp,
        field(final(reg).data[0], 6, 2) == field(old(reg).data[0], 6, 2),
        field(final(reg).data[0], 2, 2) == field(old(reg).data[0], 2, 2),
{
    let ghost before: u8 = reg.data[0];
    reg.write_mode(mode);
    let ghost with_mode: u8 = reg.data[0];
    reg.write_press_en(enable_press);
    let ghost with_press: u8 = reg.data[0];
    reg.write_temp_en(enable_temp);
    proof {
        lemma_field_kept(before, 4, 2, mode.bits(), 6, 2);
        lemma_field_kept(before, 4, 2, mode.bits(), 2, 2);
        lemma_field_kept(with_mode, 0, 1, flag_bit(enable_press), 6, 2);
        lemma_field_kept(with_mode, 0, 1, flag_bit(enable_press), 2, 2);
        lemma_field_kept(with_press, 1, 1, flag_bit(enable_temp), 6, 2);
        lemma_field_kept(with_press, 1, 1, flag_bit(enable_temp), 2, 2);
    }
}

/// Sets the oversampling of the temperature and of the pressure.
pub fn set_oversample(
    reg: &mut Oversampling,
    temp_oversample: OversamplingSetting,
    press_oversample: OversamplingSetting,
)
    ensures
        final(reg).data[0] == oversample_byte(
            old(reg).data[0],
            temp_oversample,
            press_oversample,
        ),
        final(reg).oversampling_temp() == temp_oversample,
        final(reg).over_sampling_press() == press_oversample,
        field(final(reg).data[0], 6, 2) == field(old(reg).data[0], 6, 2),
{
    let ghost before: u8 = reg.data[0];
    reg.write_oversampling_temp(temp_oversample);
    let ghost with_temp: u8 = reg.data[0];
    reg.write_over_sampling_press(press_oversample);
    proof {
        lemma_field_kept(before, 3, 3, temp_oversample.bits(), 6, 2);
        lemma_field_kept(with_temp, 0, 3, press_oversample.bits(), 6, 2);
    }
}

/// Sets the output data rate to the low five bits of `output_data_rate`.
pub fn set_output_data_rate(reg: &mut OutputDataRate, output_data_rate: u8)
    ensures
        final(reg).data[0] == with_field(old(reg).data[0], 0, 5, output_data_rate),
        final(reg).subdivision_factor() == output_data_rate & 0x1f,
        field(final(reg).data[0], 5, 3) == field(old(reg).data[0], 5, 3),
{
    let ghost before: u8 = reg.data[0];
    reg.write_subdivision_factor(output_data_rate);
    proof {
        lemma_field_kept(before, 0, 5, output_data_rate, 5, 3);
    }
}

/// Sets the filter coefficient and clears the register's lowest bit.
pub fn set_iir_filter(reg: &mut IIRFilterConfiguration, coef: IIRFilter)
    ensures
        final(reg).data[0] == iir_filter_byte(old(reg).data[0], coef),
        final(reg).iir_filter() == coef,
        !final(reg).short_in(),
        field(final(reg).data[0], 4, 4) == field(old(reg).data[0], 4, 4),
{
    let ghost before: u8 = reg.data[0];
    reg.write_iir_filter(coef);
    let ghost with_filter: u8 = reg.data[0];
    reg.write_short_in(false);
    proof {
        lemma_field_kept(before, 1, 3, coef.bits(), 4, 4);
        lemma_field_kept(with_filter, 0, 1, 0, 4, 4);
    }
}

/// The interrupt-control register for the given sources and pin settings.
/// The drive strength and the reserved bit are off.
pub fn set_interrupt(
    data_ready: bool,
    fifo_full: bool,
    fifo_watermark: bool,
    int_latch: bool,
    int_active_level: LogicLevel,
    int_od: InteruptOutput,
) -> (reg: InteruptControl)
    ensures
        reg.data_ready_int() == data_ready,
        reg.fifo_full_int() == fifo_full,
        reg.fifo_watermark_int() == fifo_watermark,
        reg.int_latch() == int_latch,
        reg.int_active_level() == int_active_level,
        reg.int_od() == int_od,
        !reg.int_ds(),
        field(reg.data[0], 7, 1) == 0,
        field(reg.data[0], 1, 1) == int_active_level.bits(),
        field(reg.data[0], 0, 1) == int_od.bits(),
{
    let mut reg = InteruptControl::default();
    let ghost b0: u8 = reg.data[0];
    reg.write_data_ready_int(data_ready);
    let ghost b1: u8 = reg.data[0];
    reg.write_fifo_full_int(fifo_full);
    let ghost b2: u8 = reg.data[0];
    reg.write_fifo_watermark_int(fifo_watermark);
    let ghost b3: u8 = reg.data[0];
    reg.write_int_latch(int_latch);
    let ghost b4: u8 = reg.data[0];
    reg.write_int_active_level(int_active_level);
    let ghost b5: u8 = reg.data[0];
    reg.write_int_od(int_od);
    proof {
        lemma_field_of_zero(7, 1);
        lemma_low_mask();
        lemma_field_written(b4, 1, 1, int_active_level.bits());
        lemma_field_written(b5, 0, 1, int_od.bits());
        lemma_field_kept(b5, 0, 1, int_od.bits(), 1, 1);
        lemma_field_kept(b0, 6, 1, flag_bit(data_ready), 7, 1);
        lemma_field_kept(b1, 4, 1, flag_bit(fifo_full), 7, 1);
        lemma_field_kept(b2, 3, 1, flag_bit(fifo_watermark), 7, 1);
        lemma_field_kept(b3, 2, 1, flag_bit(int_latch), 7, 1);
        lemma_field_kept(b4, 1, 1, int_active_level.bits(), 7, 1);
        lemma_field_kept(b5, 0, 1, int_od.bits(), 7, 1);
    }
    reg
}

} // verus!
