//! The registers of the BMP390.
//!
//! Each register is its raw bytes with readers and writers for its fields.
//! Inside a byte the first field sits in the most significant bits; fields
//! of more than one byte are little-endian. Reserved bits have no accessors,
//! and no writer touches them.

use vstd::prelude::*;
use crate::common::bits::{
    field, flag_bit, get_field, get_flag, lemma_field_kept, lemma_field_of_zero,
    lemma_field_written, lemma_low_mask, set_field, set_flag, with_field,
};
use crate::common::bytes::{
    byte_of_i8, i16_from_le_bytes, i16_le_bytes, i8_from_byte, i8_to_byte, le_bytes_i16,
    le_bytes_u16, le_bytes_u24, le_value_i16, le_value_u16, le_value_u24, signed_value_u8,
    u16_from_le_bytes, u16_le_bytes, u24_from_le_bytes, u24_le_bytes,
};
use crate::common::enums::LogicLevel;
use super::enums::{IIRFilter, InteruptOutput, OversamplingSetting, PowerMode};

verus! {

/// The chip identification register. The device only lets it be read.
#[derive(Clone, Copy, PartialEq, Eq, Debug)]
pub struct ChipID {
    /// The register's raw content.
    pub data: [u8; 1],
}

impl ChipID {
    /// The register's address on the device.
    pub const ADDRESS: u8 = 0x00;

    /// The chip's identification code.
    pub open spec fn chip_id(&self) -> u8 {
        self.data[0]
    }

    /// Reads [`Self::chip_id`].
    pub fn read_chip_id(&self) -> (chip_id: u8)
        ensures
            chip_id == self.chip_id(),
    {
        self.data[0]
    }

    /// Sets [`Self::chip_id`].
    pub fn write_chip_id(&mut self, chip_id: u8)
        ensures
            final(self).data[0] == chip_id,
            final(self).chip_id() == chip_id,
    {
        self.data = [chip_id];
    }
}

impl Default for ChipID {
    /// The register with every field at its default and the rest zero.
    fn default() -> (r: Self)
        ensures
            r.chip_id() == 0,
            r.data[0] == 0,
    {
        ChipID { data: [0] }
    }
}

/// The chip revision register. The device only lets it be read.
#[derive(Clone, Copy, PartialEq, Eq, Debug)]
pub struct Revision {
    /// The register's raw content.
    pub data: [u8; 1],
}

impl Revision {
    /// The register's address on the device.
    pub const ADDRESS: u8 = 0x01;

    /// The revision of the chip's mask.
    pub open spec fn rev_id(&self) -> u8 {
        self.data[0]
    }

    /// Reads [`Self::rev_id`].
    pub fn read_rev_id(&self) -> (rev_id: u8)
        ensures
            rev_id == self.rev_id(),
    {
        self.data[0]
    }

    /// Sets [`Self::rev_id`].
    pub fn write_rev_id(&mut self, rev_id: u8)
        ensures
            final(self).data[0] == rev_id,
            final(self).rev_id() == rev_id,
    {
        self.data = [rev_id];
    }
}

impl Default for Revision {
    /// The register with every field at its default and the rest zero.
    fn default() -> (r: Self)
        ensures
            r.rev_id() == 0,
            r.data[0] == 0,
    {
        Revision { data: [0] }
    }
}

/// The error conditions the sensor has met. The device only lets it be read.
#[derive(Clone, Copy, PartialEq, Eq, Debug)]
pub struct Error {
    /// The register's raw content.
    pub data: [u8; 1],
}

impl Error {
    /// The register's address on the device.
    pub const ADDRESS: u8 = 0x02;

    /// A configuration error was detected, bit 2.
    pub open spec fn conf_err(&self) -> bool {
        field(self.data[0], 2, 1) == 1
    }

    /// A command failed to execute, bit 1.
    pub open spec fn cmd_err(&self) -> bool {
        field(self.data[0], 1, 1) == 1
    }

    /// A fatal error occurred, bit 0.
    pub open spec fn fatal_err(&self) -> bool {
        field(self.data[0], 0, 1) == 1
    }

    /// Reads [`Self::conf_err`].
    pub fn read_conf_err(&self) -> (conf_err: bool)
        ensures
            conf_err == self.conf_err(),
    {
        get_flag(self.data[0], 2)
    }

    /// Reads [`Self::cmd_err`].
    pub fn read_cmd_err(&self) -> (cmd_err: bool)
        ensures
            cmd_err == self.cmd_err(),
    {
        get_flag(self.data[0], 1)
    }

    /// Reads [`Self::fatal_err`].
    pub fn read_fatal_err(&self) -> (fatal_err: bool)
        ensures
            fatal_err == self.fatal_err(),
    {
        get_flag(self.data[0], 0)
    }

    /// Sets [`Self::conf_err`] and leaves every other bit as it was.
    pub fn write_conf_err(&mut self, conf_err: bool)
        ensures
            final(self).data[0] == with_field(old(self).data[0], 2, 1, flag_bit(conf_err)),
            final(self).conf_err() == conf_err,
            final(self).cmd_err() == old(self).cmd_err(),
            final(self).fatal_err() == old(self).fatal_err(),
    {
        proof {
            lemma_low_mask();
            lemma_field_written(self.data[0], 2, 1, flag_bit(conf_err));
            lemma_field_kept(self.data[0], 2, 1, flag_bit(conf_err), 1, 1);
            lemma_field_kept(self.data[0], 2, 1, flag_bit(conf_err), 0, 1);
        }
        self.data = [set_flag(self.data[0], 2, conf_err)];
    }

    /// Sets [`Self::cmd_err`] and leaves every other bit as it was.
    pub fn write_cmd_err(&mut self, cmd_err: bool)
        ensures
            final(self).data[0] == with_field(old(self).data[0], 1, 1, flag_bit(cmd_err)),
            final(self).cmd_err() == cmd_err,
            final(self).conf_err() == old(self).conf_err(),
            final(self).fatal_err() == old(self).fatal_err(),
    {
        proof {
            lemma_low_mask();
            lemma_field_written(self.data[0], 1, 1, flag_bit(cmd_err));
            lemma_field_kept(self.data[0], 1, 1, flag_bit(cmd_err), 2, 1);
            lemma_field_kept(self.data[0], 1, 1, flag_bit(cmd_err), 0, 1);
        }
        self.data = [set_flag(self.data[0], 1, cmd_err)];
    }

    /// Sets [`Self::fatal_err`] and leaves every other bit as it was.
    pub fn write_fatal_err(&mut self, fatal_err: bool)
        ensures
            final(self).data[0] == with_field(old(self).data[0], 0, 1, flag_bit(fatal_err)),
            final(self).fatal_err() == fatal_err,
            final(self).conf_err() == old(self).conf_err(),
            final(self).cmd_err() == old(self).cmd_err(),
    {
        proof {
            lemma_low_mask();
            lemma_field_written(self.data[0], 0, 1, flag_bit(fatal_err));
            lemma_field_kept(self.data[0], 0, 1, flag_bit(fatal_err), 2, 1);
            lemma_field_kept(self.data[0], 0, 1, flag_bit(fatal_err), 1, 1);
        }
        self.data = [set_flag(self.data[0], 0, fatal_err)];
    }
}

impl Default for Error {
    /// The register with every field at its default and the rest zero.
    fn default() -> (r: Self)
        ensures
            !r.conf_err(),
            !r.cmd_err(),
            !r.fatal_err(),
            r.data[0] == 0,
    {
        proof {
            lemma_field_of_zero(2, 1);
            lemma_field_of_zero(1, 1);
            lemma_field_of_zero(0, 1);
        }
        Error { data: [0] }
    }
}

/// Which data is ready to be read. The device only lets it be read.
#[derive(Clone, Copy, PartialEq, Eq, Debug)]
pub struct Status {
    /// The register's raw content.
    pub data: [u8; 1],
}

impl Status {
    /// The register's address on the device.
    pub const ADDRESS: u8 = 0x02;

    /// A temperature reading is ready, bit 6.
    pub open spec fn data_ready_temp(&self) -> bool {
        field(self.data[0], 6, 1) == 1
    }

    /// A pressure reading is ready, bit 5.
    pub open spec fn data_ready_pres(&self) -> bool {
        field(self.data[0], 5, 1) == 1
    }

    /// The command decoder accepts a new command, bit 4.
    pub open spec fn command_ready(&self) -> bool {
        field(self.data[0], 4, 1) == 1
    }

    /// Reads [`Self::data_ready_temp`].
    pub fn read_data_ready_temp(&self) -> (data_ready_temp: bool)
        ensures
            data_ready_temp == self.data_ready_temp(),
    {
        get_flag(self.data[0], 6)
    }

    /// Reads [`Self::data_ready_pres`].
    pub fn read_data_ready_pres(&self) -> (data_ready_pres: bool)
        ensures
            data_ready_pres == self.data_ready_pres(),
    {
        get_flag(self.data[0], 5)
    }

    /// Reads [`Self::command_ready`].
    pub fn read_command_ready(&self) -> (command_ready: bool)
        ensures
            command_ready == self.command_ready(),
    {
        get_flag(self.data[0], 4)
    }

    /// Sets [`Self::data_ready_temp`] and leaves every other bit as it was.
    pub fn write_data_ready_temp(&mut self, data_ready_temp: bool)
        ensures
            final(self).data[0] == with_field(old(self).data[0], 6, 1, flag_bit(data_ready_temp)),
            final(self).data_ready_temp() == data_ready_temp,
            final(self).data_ready_pres() == old(self).data_ready_pres(),
            final(self).command_ready() == old(self).command_ready(),
    {
        proof {
            lemma_low_mask();
            lemma_field_written(self.data[0], 6, 1, flag_bit(data_ready_temp));
            lemma_field_kept(self.data[0], 6, 1, flag_bit(data_ready_temp), 5, 1);
            lemma_field_kept(self.data[0], 6, 1, flag_bit(data_ready_temp), 4, 1);
        }
        self.data = [set_flag(self.data[0], 6, data_ready_temp)];
    }

    /// Sets [`Self::data_ready_pres`] and leaves every other bit as it was.
    pub fn write_data_ready_pres(&mut self, data_ready_pres: bool)
        ensures
            final(self).data[0] == with_field(old(self).data[0], 5, 1, flag_bit(data_ready_pres)),
            final(self).data_ready_pres() == data_ready_pres,
            final(self).data_ready_temp() == old(self).data_ready_temp(),
            final(self).command_ready() == old(self).command_ready(),
    {
        proof {
            lemma_low_mask();
            lemma_field_written(self.data[0], 5, 1, flag_bit(data_ready_pres));
            lemma_field_kept(self.data[0], 5, 1, flag_bit(data_ready_pres), 6, 1);
            lemma_field_kept(self.data[0], 5, 1, flag_bit(data_ready_pres), 4, 1);
        }
        self.data = [set_flag(self.data[0], 5, data_ready_pres)];
    }

    /// Sets [`Self::command_ready`] and leaves every other bit as it was.
    pub fn write_command_ready(&mut self, command_ready: bool)
        ensures
            final(self).data[0] == with_field(old(self).data[0], 4, 1, flag_bit(command_ready)),
            final(self).command_ready() == command_ready,
            final(self).data_ready_temp() == old(self).data_ready_temp(),
            final(self).data_ready_pres() == old(self).data_ready_pres(),
    {
        proof {
            lemma_low_mask();
            lemma_field_written(self.data[0], 4, 1, flag_bit(command_ready));
            lemma_field_kept(self.data[0], 4, 1, flag_bit(command_ready), 6, 1);
            lemma_field_kept(self.data[0], 4, 1, flag_bit(command_ready), 5, 1);
        }
        self.data = [set_flag(self.data[0], 4, command_ready)];
    }
}

impl Default for Status {
    /// The register with every field at its default and the rest zero.
    fn default() -> (r: Self)
        ensures
            !r.data_ready_temp(),
            !r.data_ready_pres(),
            !r.command_ready(),
            r.data[0] == 0,
    {
        proof {
            lemma_field_of_zero(6, 1);
            lemma_field_of_zero(5, 1);
            lemma_field_of_zero(4, 1);
        }
        Status { data: [0] }
    }
}

/// The raw pressure reading, 24 bits. The device only lets it be read.
#[derive(Clone, Copy, PartialEq, Eq, Debug)]
pub struct Pressure {
    /// The register's raw content, in the order the device sends it.
    pub data: [u8; 3],
}

impl Pressure {
    /// The address of the register's first byte on the device.
    pub const ADDRESS: u8 = 0x04;

    /// The pressure reading, bytes 0 to 2, least significant first.
    pub open spec fn pressure(&self) -> u32 {
        le_value_u24(self.data[0], self.data[1], self.data[2])
    }

    /// Reads [`Self::pressure`].
    pub fn read_pressure(&self) -> (pressure: u32)
        ensures
            pressure == self.pressure(),
    {
        u24_from_le_bytes(self.data[0], self.data[1], self.data[2])
    }

    /// Sets [`Self::pressure`] to the low 24 bits of `pressure` and leaves every other
    /// byte as it was.
    pub fn write_pressure(&mut self, pressure: u32)
        ensures
            final(self).pressure() == pressure % 0x100_0000,
            final(self).data@ == le_bytes_u24(pressure),
    {
        let bytes: [u8; 3] = u24_le_bytes(pressure);
        self.data = [bytes[0], bytes[1], bytes[2]];
        assert(self.data@ =~= le_bytes_u24(pressure));
    }
}

impl Default for Pressure {
    /// The register with every byte zero.
    fn default() -> (r: Self)
        ensures
            r.pressure() == 0,
    {
        Pressure { data: [0, 0, 0] }
    }
}

/// The raw temperature reading, 24 bits. The device only lets it be read.
#[derive(Clone, Copy, PartialEq, Eq, Debug)]
pub struct Temperature {
    /// The register's raw content, in the order the device sends it.
    pub data: [u8; 3],
}

impl Temperature {
    /// The address of the register's first byte on the device.
    pub const ADDRESS: u8 = 0x07;

    /// The temperature reading, bytes 0 to 2, least significant first.
    pub open spec fn temperature(&self) -> u32 {
        le_value_u24(self.data[0], self.data[1], self.data[2])
    }

    /// Reads [`Self::temperature`].
    pub fn read_temperature(&self) -> (temperature: u32)
        ensures
            temperature == self.temperature(),
    {
        u24_from_le_bytes(self.data[0], self.data[1], self.data[2])
    }

    /// Sets [`Self::temperature`] to the low 24 bits of `temperature` and leaves every other
    /// byte as it was.
    pub fn write_temperature(&mut self, temperature: u32)
        ensures
            final(self).temperature() == temperature % 0x100_0000,
            final(self).data@ == le_bytes_u24(temperature),
    {
        let bytes: [u8; 3] = u24_le_bytes(temperature);
        self.data = [bytes[0], bytes[1], bytes[2]];
        assert(self.data@ =~= le_bytes_u24(temperature));
    }
}

impl Default for Temperature {
    /// The register with every byte zero.
    fn default() -> (r: Self)
        ensures
            r.temperature() == 0,
    {
        Temperature { data: [0, 0, 0] }
    }
}

/// The pressure and the temperature reading, fetched in one transfer. The
/// device only lets it be read.
#[derive(Clone, Copy, PartialEq, Eq, Debug)]
pub struct BurstRead {
    /// The register's raw content, in the order the device sends it.
    pub data: [u8; 6],
}

impl BurstRead {
    /// The address of the register's first byte on the device.
    pub const ADDRESS: u8 = 0x04;

    /// The pressure reading, bytes 0 to 2, least significant first.
    pub open spec fn pressure(&self) -> u32 {
        le_value_u24(self.data[0], self.data[1], self.data[2])
    }

    /// The temperature reading, bytes 3 to 5, least significant first.
    pub open spec fn temperature(&self) -> u32 {
        le_value_u24(self.data[3], self.data[4], self.data[5])
    }

    /// Reads [`Self::pressure`].
    pub fn read_pressure(&self) -> (pressure: u32)
        ensures
            pressure == self.pressure(),
    {
        u24_from_le_bytes(self.data[0], self.data[1], self.data[2])
    }

    /// Reads [`Self::temperature`].
    pub fn read_temperature(&self) -> (temperature: u32)
        ensures
            temperature == self.temperature(),
    {
        u24_from_le_bytes(self.data[3], self.data[4], self.data[5])
    }

    /// Sets [`Self::pressure`] to the low 24 bits of `pressure` and leaves every other
    /// byte as it was.
    pub fn write_pressure(&mut self, pressure: u32)
        ensures
            final(self).pressure() == pressure % 0x100_0000,
            final(self).data@.subrange(0, 3) == le_bytes_u24(pressure),
            forall|j: int|
                0 <= j < 6 && !(0 <= j < 3) ==> final(self).data[j] == old(self).data[j],
            final(self).temperature() == old(self).temperature(),
    {
        let bytes: [u8; 3] = u24_le_bytes(pressure);
        self.data = [bytes[0], bytes[1], bytes[2], self.data[3], self.data[4], self.data[5]];
        assert(self.data@.subrange(0, 3) =~= le_bytes_u24(pressure));
    }

    /// Sets [`Self::temperature`] to the low 24 bits of `temperature` and leaves every other
    /// byte as it was.
    pub fn write_temperature(&mut self, temperature: u32)
        ensures
            final(self).temperature() == temperature % 0x100_0000,
            final(self).data@.subrange(3, 6) == le_bytes_u24(temperature),
            forall|j: int|
                0 <= j < 6 && !(3 <= j < 6) ==> final(self).data[j] == old(self).data[j],
            final(self).pressure() == old(self).pressure(),
    {
        let bytes: [u8; 3] = u24_le_bytes(temperature);
        self.data = [self.data[0], self.data[1], self.data[2], bytes[0], bytes[1], bytes[2]];
        assert(self.data@.subrange(3, 6) =~= le_bytes_u24(temperature));
    }
}

impl Default for BurstRead {
    /// The register with every byte zero.
    fn default() -> (r: Self)
        ensures
            r.pressure() == 0,
            r.temperature() == 0,
    {
        BurstRead { data: [0, 0, 0, 0, 0, 0] }
    }
}

/// The sensor's running time counter, 24 bits. The device only lets it be
/// read.
#[derive(Clone, Copy, PartialEq, Eq, Debug)]
pub struct SensorTime {
    /// The register's raw content, in the order the device sends it.
    pub data: [u8; 3],
}

impl SensorTime {
    /// The address of the register's first byte on the device.
    pub const ADDRESS: u8 = 0x0C;

    /// The time counter, bytes 0 to 2, least significant first.
    pub open spec fn time(&self) -> u32 {
        le_value_u24(self.data[0], self.data[1], self.data[2])
    }

    /// Reads [`Self::time`].
    pub fn read_time(&self) -> (time: u32)
        ensures
            time == self.time(),
    {
        u24_from_le_bytes(self.data[0], self.data[1], self.data[2])
    }

    /// Sets [`Self::time`] to the low 24 bits of `time` and leaves every other
    /// byte as it was.
    pub fn write_time(&mut self, time: u32)
        ensures
            final(self).time() == time % 0x100_0000,
            final(self).data@ == le_bytes_u24(time),
    {
        let bytes: [u8; 3] = u24_le_bytes(time);
        self.data = [bytes[0], bytes[1], bytes[2]];
        assert(self.data@ =~= le_bytes_u24(time));
    }
}

impl Default for SensorTime {
    /// The register with every byte zero.
    fn default() -> (r: Self)
        ensures
            r.time() == 0,
    {
        SensorTime { data: [0, 0, 0] }
    }
}

/// What has happened since the register was last read; reading clears it.
#[derive(Clone, Copy, PartialEq, Eq, Debug)]
pub struct Event {
    /// The register's raw content.
    pub data: [u8; 1],
}

impl Event {
    /// The register's address on the device.
    pub const ADDRESS: u8 = 0x10;

    /// A serial transfer occurred during a conversion, bit 1.
    pub open spec fn itf_act_pt(&self) -> bool {
        field(self.data[0], 1, 1) == 1
    }

    /// The device has powered up or was reset, bit 0.
    pub open spec fn por_detected(&self) -> bool {
        field(self.data[0], 0, 1) == 1
    }

    /// Reads [`Self::itf_act_pt`].
    pub fn read_itf_act_pt(&self) -> (itf_act_pt: bool)
        ensures
            itf_act_pt == self.itf_act_pt(),
    {
        get_flag(self.data[0], 1)
    }

    /// Reads [`Self::por_detected`].
    pub fn read_por_detected(&self) -> (por_detected: bool)
        ensures
            por_detected == self.por_detected(),
    {
        get_flag(self.data[0], 0)
    }

    /// Sets [`Self::itf_act_pt`] and leaves every other bit as it was.
    pub fn write_itf_act_pt(&mut self, itf_act_pt: bool)
        ensures
            final(self).data[0] == with_field(old(self).data[0], 1, 1, flag_bit(itf_act_pt)),
            final(self).itf_act_pt() == itf_act_pt,
            final(self).por_detected() == old(self).por_detected(),
    {
        proof {
            lemma_low_mask();
            lemma_field_written(self.data[0], 1, 1, flag_bit(itf_act_pt));
            lemma_field_kept(self.data[0], 1, 1, flag_bit(itf_act_pt), 0, 1);
        }
        self.data = [set_flag(self.data[0], 1, itf_act_pt)];
    }

    /// Sets [`Self::por_detected`] and leaves every other bit as it was.
    pub fn write_por_detected(&mut self, por_detected: bool)
        ensures
            final(self).data[0] == with_field(old(self).data[0], 0, 1, flag_bit(por_detected)),
            final(self).por_detected() == por_detected,
            final(self).itf_act_pt() == old(self).itf_act_pt(),
    {
        proof {
            lemma_low_mask();
            lemma_field_written(self.data[0], 0, 1, flag_bit(por_detected));
            lemma_field_kept(self.data[0], 0, 1, flag_bit(por_detected), 1, 1);
        }
        self.data = [set_flag(self.data[0], 0, por_detected)];
    }
}

impl Default for Event {
    /// The register with every field at its default and the rest zero.
    fn default() -> (r: Self)
        ensures
            !r.itf_act_pt(),
            !r.por_detected(),
            r.data[0] == 0,
    {
        proof {
            lemma_field_of_zero(1, 1);
            lemma_field_of_zero(0, 1);
        }
        Event { data: [0] }
    }
}

/// Which interrupts are pending; reading clears it.
#[derive(Clone, Copy, PartialEq, Eq, Debug)]
pub struct InterruptStatus {
    /// The register's raw content.
    pub data: [u8; 1],
}

impl InterruptStatus {
    /// The register's address on the device.
    pub const ADDRESS: u8 = 0x11;

    /// New data is ready, bit 3.
    pub open spec fn data_ready(&self) -> bool {
        field(self.data[0], 3, 1) == 1
    }

    /// The FIFO is full, bit 1.
    pub open spec fn fifo_full(&self) -> bool {
        field(self.data[0], 1, 1) == 1
    }

    /// The FIFO has reached its watermark, bit 0.
    pub open spec fn fifo_watermark(&self) -> bool {
        field(self.data[0], 0, 1) == 1
    }

    /// Reads [`Self::data_ready`].
    pub fn read_data_ready(&self) -> (data_ready: bool)
        ensures
            data_ready == self.data_ready(),
    {
        get_flag(self.data[0], 3)
    }

    /// Reads [`Self::fifo_full`].
    pub fn read_fifo_full(&self) -> (fifo_full: bool)
        ensures
            fifo_full == self.fifo_full(),
    {
        get_flag(self.data[0], 1)
    }

    /// Reads [`Self::fifo_watermark`].
    pub fn read_fifo_watermark(&self) -> (fifo_watermark: bool)
        ensures
            fifo_watermark == self.fifo_watermark(),
    {
        get_flag(self.data[0], 0)
    }

    /// Sets [`Self::data_ready`] and leaves every other bit as it was.
    pub fn write_data_ready(&mut self, data_ready: bool)
        ensures
            final(self).data[0] == with_field(old(self).data[0], 3, 1, flag_bit(data_ready)),
            final(self).data_ready() == data_ready,
            final(self).fifo_full() == old(self).fifo_full(),
            final(self).fifo_watermark() == old(self).fifo_watermark(),
    {
        proof {
            lemma_low_mask();
            lemma_field_written(self.data[0], 3, 1, flag_bit(data_ready));
            lemma_field_kept(self.data[0], 3, 1, flag_bit(data_ready), 1, 1);
            lemma_field_kept(self.data[0], 3, 1, flag_bit(data_ready), 0, 1);
        }
        self.data = [set_flag(self.data[0], 3, data_ready)];
    }

    /// Sets [`Self::fifo_full`] and leaves every other bit as it was.
    pub fn write_fifo_full(&mut self, fifo_full: bool)
        ensures
            final(self).data[0] == with_field(old(self).data[0], 1, 1, flag_bit(fifo_full)),
            final(self).fifo_full() == fifo_full,
            final(self).data_ready() == old(self).data_ready(),
            final(self).fifo_watermark() == old(self).fifo_watermark(),
    {
        proof {
            lemma_low_mask();
            lemma_field_written(self.data[0], 1, 1, flag_bit(fifo_full));
            lemma_field_kept(self.data[0], 1, 1, flag_bit(fifo_full), 3, 1);
            lemma_field_kept(self.data[0], 1, 1, flag_bit(fifo_full), 0, 1);
        }
        self.data = [set_flag(self.data[0], 1, fifo_full)];
    }

    /// Sets [`Self::fifo_watermark`] and leaves every other bit as it was.
    pub fn write_fifo_watermark(&mut self, fifo_watermark: bool)
        ensures
            final(self).data[0] == with_field(old(self).data[0], 0, 1, flag_bit(fifo_watermark)),
            final(self).fifo_watermark() == fifo_watermark,
            final(self).data_ready() == old(self).data_ready(),
            final(self).fifo_full() == old(self).fifo_full(),
    {
        proof {
            lemma_low_mask();
            lemma_field_written(self.data[0], 0, 1, flag_bit(fifo_watermark));
            lemma_field_kept(self.data[0], 0, 1, flag_bit(fifo_watermark), 3, 1);
            lemma_field_kept(self.data[0], 0, 1, flag_bit(fifo_watermark), 1, 1);
        }
        self.data = [set_flag(self.data[0], 0, fifo_watermark)];
    }
}

impl Default for InterruptStatus {
    /// The register with every field at its default and the rest zero.
    fn default() -> (r: Self)
        ensures
            !r.data_ready(),
            !r.fifo_full(),
            !r.fifo_watermark(),
            r.data[0] == 0,
    {
        proof {
            lemma_field_of_zero(3, 1);
            lemma_field_of_zero(1, 1);
            lemma_field_of_zero(0, 1);
        }
        InterruptStatus { data: [0] }
    }
}

/// The FIFO's fill level in bytes. The device only lets it be read.
#[derive(Clone, Copy, PartialEq, Eq, Debug)]
pub struct FIFOLength {
    /// The register's raw content, in the order the device sends it.
    pub data: [u8; 2],
}

impl FIFOLength {
    /// The address of the register's first byte on the device.
    pub const ADDRESS: u8 = 0x12;

    /// The number of bytes in the FIFO, bytes 0 and 1, least significant
    /// first.
    pub open spec fn fifo_byte_counter(&self) -> u16 {
        le_value_u16(self.data[0], self.data[1])
    }

    /// Reads [`Self::fifo_byte_counter`].
    pub fn read_fifo_byte_counter(&self) -> (fifo_byte_counter: u16)
        ensures
            fifo_byte_counter == self.fifo_byte_counter(),
    {
        u16_from_le_bytes(self.data[0], self.data[1])
    }

    /// Sets [`Self::fifo_byte_counter`].
    pub fn write_fifo_byte_counter(&mut self, fifo_byte_counter: u16)
        ensures
            final(self).fifo_byte_counter() == fifo_byte_counter,
            final(self).data@ == le_bytes_u16(fifo_byte_counter),
    {
        let bytes: [u8; 2] = u16_le_bytes(fifo_byte_counter);
        self.data = [bytes[0], bytes[1]];
        assert(self.data@ =~= le_bytes_u16(fifo_byte_counter));
    }
}

impl Default for FIFOLength {
    /// The register with every byte zero.
    fn default() -> (r: Self)
        ensures
            r.fifo_byte_counter() == 0,
    {
        FIFOLength { data: [0, 0] }
    }
}

/// The FIFO's read port. The device only lets it be read.
#[derive(Clone, Copy, PartialEq, Eq, Debug)]
pub struct FIFOData {
    /// The register's raw content.
    pub data: [u8; 1],
}

impl FIFOData {
    /// The register's address on the device.
    pub const ADDRESS: u8 = 0x14;

    /// The next byte of the FIFO.
    pub open spec fn fifo_data(&self) -> u8 {
        self.data[0]
    }

    /// Reads [`Self::fifo_data`].
    pub fn read_fifo_data(&self) -> (fifo_data: u8)
        ensures
            fifo_data == self.fifo_data(),
    {
        self.data[0]
    }

    /// Sets [`Self::fifo_data`].
    pub fn write_fifo_data(&mut self, fifo_data: u8)
        ensures
            final(self).data[0] == fifo_data,
            final(self).fifo_data() == fifo_data,
    {
        self.data = [fifo_data];
    }
}

impl Default for FIFOData {
    /// The register with every field at its default and the rest zero.
    fn default() -> (r: Self)
        ensures
            r.fifo_data() == 0,
            r.data[0] == 0,
    {
        FIFOData { data: [0] }
    }
}

/// The fill level at which the FIFO raises its watermark interrupt, nine
/// bits.
#[derive(Clone, Copy, PartialEq, Eq, Debug)]
pub struct FIFOWatermark {
    /// The register's raw content, in the order the device sends it.
    pub data: [u8; 2],
}

impl FIFOWatermark {
    /// The address of the register's first byte on the device.
    pub const ADDRESS: u8 = 0x15;

    /// The watermark level: its low eight bits are byte 0, its ninth bit is
    /// bit 7 of byte 1.
    pub open spec fn watermark(&self) -> u16 {
        (self.data[0] + 256 * field(self.data[1], 7, 1)) as u16
    }

    /// Reads [`Self::watermark`].
    pub fn read_watermark(&self) -> (watermark: u16)
        ensures
            watermark == self.watermark(),
            watermark < 512,
    {
        let low: u16 = self.data[0] as u16;
        let high: u16 = get_field(self.data[1], 7, 1) as u16;
        proof {
            lemma_low_mask();
        }
        high * 256 + low
    }

    /// Sets [`Self::watermark`] to the low nine bits of `watermark` and
    /// leaves the reserved bits of byte 1 as they were.
    pub fn write_watermark(&mut self, watermark: u16)
        ensures
            final(self).watermark() == watermark % 512,
            final(self).data[0] == watermark % 256,
            final(self).data[1] == with_field(old(self).data[1], 7, 1, (watermark / 256 % 2) as u8),
    {
        let low: u8 = (watermark % 256) as u8;
        let high: u8 = (watermark / 256 % 2) as u8;
        proof {
            lemma_low_mask();
            lemma_field_written(self.data[1], 7, 1, high);
        }
        self.data = [low, set_field(self.data[1], 7, 1, high)];
    }
}

impl Default for FIFOWatermark {
    /// The register with every byte zero.
    fn default() -> (r: Self)
        ensures
            r.watermark() == 0,
    {
        proof {
            lemma_field_of_zero(7, 1);
        }
        FIFOWatermark { data: [0, 0] }
    }
}

/// What the FIFO stores and what it does when full.
#[derive(Clone, Copy, PartialEq, Eq, Debug)]
pub struct FIFOConfig1 {
    /// The register's raw content.
    pub data: [u8; 1],
}

impl FIFOConfig1 {
    /// The register's address on the device.
    pub const ADDRESS: u8 = 0x17;

    /// Temperature readings go into the FIFO, bit 4.
    pub open spec fn fifo_temp_en(&self) -> bool {
        field(self.data[0], 4, 1) == 1
    }

    /// Pressure readings go into the FIFO, bit 3.
    pub open spec fn fifo_press_en(&self) -> bool {
        field(self.data[0], 3, 1) == 1
    }

    /// The sensor time is appended to the last frame, bit 2.
    pub open spec fn fifo_time_en(&self) -> bool {
        field(self.data[0], 2, 1) == 1
    }

    /// The FIFO stops taking data once it is full, bit 1.
    pub open spec fn fifo_stop_on_full(&self) -> bool {
        field(self.data[0], 1, 1) == 1
    }

    /// The FIFO is switched on, bit 0.
    pub open spec fn fifo_enable(&self) -> bool {
        field(self.data[0], 0, 1) == 1
    }

    /// Reads [`Self::fifo_temp_en`].
    pub fn read_fifo_temp_en(&self) -> (fifo_temp_en: bool)
        ensures
            fifo_temp_en == self.fifo_temp_en(),
    {
        get_flag(self.data[0], 4)
    }

    /// Reads [`Self::fifo_press_en`].
    pub fn read_fifo_press_en(&self) -> (fifo_press_en: bool)
        ensures
            fifo_press_en == self.fifo_press_en(),
    {
        get_flag(self.data[0], 3)
    }

    /// Reads [`Self::fifo_time_en`].
    pub fn read_fifo_time_en(&self) -> (fifo_time_en: bool)
        ensures
            fifo_time_en == self.fifo_time_en(),
    {
        get_flag(self.data[0], 2)
    }

    /// Reads [`Self::fifo_stop_on_full`].
    pub fn read_fifo_stop_on_full(&self) -> (fifo_stop_on_full: bool)
        ensures
            fifo_stop_on_full == self.fifo_stop_on_full(),
    {
        get_flag(self.data[0], 1)
    }

    /// Reads [`Self::fifo_enable`].
    pub fn read_fifo_enable(&self) -> (fifo_enable: bool)
        ensures
            fifo_enable == self.fifo_enable(),
    {
        get_flag(self.data[0], 0)
    }

    /// Sets [`Self::fifo_temp_en`] and leaves every other bit as it was.
    pub fn write_fifo_temp_en(&mut self, fifo_temp_en: bool)
        ensures
            final(self).data[0] == with_field(old(self).data[0], 4, 1, flag_bit(fifo_temp_en)),
            final(self).fifo_temp_en() == fifo_temp_en,
            final(self).fifo_press_en() == old(self).fifo_press_en(),
            final(self).fifo_time_en() == old(self).fifo_time_en(),
            final(self).fifo_stop_on_full() == old(self).fifo_stop_on_full(),
            final(self).fifo_enable() == old(self).fifo_enable(),
    {
        proof {
            lemma_low_mask();
            lemma_field_written(self.data[0], 4, 1, flag_bit(fifo_temp_en));
            lemma_field_kept(self.data[0], 4, 1, flag_bit(fifo_temp_en), 3, 1);
            lemma_field_kept(self.data[0], 4, 1, flag_bit(fifo_temp_en), 2, 1);
            lemma_field_kept(self.data[0], 4, 1, flag_bit(fifo_temp_en), 1, 1);
            lemma_field_kept(self.data[0], 4, 1, flag_bit(fifo_temp_en), 0, 1);
        }
        self.data = [set_flag(self.data[0], 4, fifo_temp_en)];
    }

    /// Sets [`Self::fifo_press_en`] and leaves every other bit as it was.
    pub fn write_fifo_press_en(&mut self, fifo_press_en: bool)
        ensures
            final(self).data[0] == with_field(old(self).data[0], 3, 1, flag_bit(fifo_press_en)),
            final(self).fifo_press_en() == fifo_press_en,
            final(self).fifo_temp_en() == old(self).fifo_temp_en(),
            final(self).fifo_time_en() == old(self).fifo_time_en(),
            final(self).fifo_stop_on_full() == old(self).fifo_stop_on_full(),
            final(self).fifo_enable() == old(self).fifo_enable(),
    {
        proof {
            lemma_low_mask();
            lemma_field_written(self.data[0], 3, 1, flag_bit(fifo_press_en));
            lemma_field_kept(self.data[0], 3, 1, flag_bit(fifo_press_en), 4, 1);
            lemma_field_kept(self.data[0], 3, 1, flag_bit(fifo_press_en), 2, 1);
            lemma_field_kept(self.data[0], 3, 1, flag_bit(fifo_press_en), 1, 1);
            lemma_field_kept(self.data[0], 3, 1, flag_bit(fifo_press_en), 0, 1);
        }
        self.data = [set_flag(self.data[0], 3, fifo_press_en)];
    }

    /// Sets [`Self::fifo_time_en`] and leaves every other bit as it was.
    pub fn write_fifo_time_en(&mut self, fifo_time_en: bool)
        ensures
            final(self).data[0] == with_field(old(self).data[0], 2, 1, flag_bit(fifo_time_en)),
            final(self).fifo_time_en() == fifo_time_en,
            final(self).fifo_temp_en() == old(self).fifo_temp_en(),
            final(self).fifo_press_en() == old(self).fifo_press_en(),
            final(self).fifo_stop_on_full() == old(self).fifo_stop_on_full(),
            final(self).fifo_enable() == old(self).fifo_enable(),
    {
        proof {
            lemma_low_mask();
            lemma_field_written(self.data[0], 2, 1, flag_bit(fifo_time_en));
            lemma_field_kept(self.data[0], 2, 1, flag_bit(fifo_time_en), 4, 1);
            lemma_field_kept(self.data[0], 2, 1, flag_bit(fifo_time_en), 3, 1);
            lemma_field_kept(self.data[0], 2, 1, flag_bit(fifo_time_en), 1, 1);
            lemma_field_kept(self.data[0], 2, 1, flag_bit(fifo_time_en), 0, 1);
        }
        self.data = [set_flag(self.data[0], 2, fifo_time_en)];
    }

    /// Sets [`Self::fifo_stop_on_full`] and leaves every other bit as it was.
    pub fn write_fifo_stop_on_full(&mut self, fifo_stop_on_full: bool)
        ensures
            final(self).data[0] == with_field(old(self).data[0], 1, 1, flag_bit(fifo_stop_on_full)),
            final(self).fifo_stop_on_full() == fifo_stop_on_full,
            final(self).fifo_temp_en() == old(self).fifo_temp_en(),
            final(self).fifo_press_en() == old(self).fifo_press_en(),
            final(self).fifo_time_en() == old(self).fifo_time_en(),
            final(self).fifo_enable() == old(self).fifo_enable(),
    {
        proof {
            lemma_low_mask();
            lemma_field_written(self.data[0], 1, 1, flag_bit(fifo_stop_on_full));
            lemma_field_kept(self.data[0], 1, 1, flag_bit(fifo_stop_on_full), 4, 1);
            lemma_field_kept(self.data[0], 1, 1, flag_bit(fifo_stop_on_full), 3, 1);
            lemma_field_kept(self.data[0], 1, 1, flag_bit(fifo_stop_on_full), 2, 1);
            lemma_field_kept(self.data[0], 1, 1, flag_bit(fifo_stop_on_full), 0, 1);
        }
        self.data = [set_flag(self.data[0], 1, fifo_stop_on_full)];
    }

    /// Sets [`Self::fifo_enable`] and leaves every other bit as it was.
    pub fn write_fifo_enable(&mut self, fifo_enable: bool)
        ensures
            final(self).data[0] == with_field(old(self).data[0], 0, 1, flag_bit(fifo_enable)),
            final(self).fifo_enable() == fifo_enable,
            final(self).fifo_temp_en() == old(self).fifo_temp_en(),
            final(self).fifo_press_en() == old(self).fifo_press_en(),
            final(self).fifo_time_en() == old(self).fifo_time_en(),
            final(self).fifo_stop_on_full() == old(self).fifo_stop_on_full(),
    {
        proof {
            lemma_low_mask();
            lemma_field_written(self.data[0], 0, 1, flag_bit(fifo_enable));
            lemma_field_kept(self.data[0], 0, 1, flag_bit(fifo_enable), 4, 1);
            lemma_field_kept(self.data[0], 0, 1, flag_bit(fifo_enable), 3, 1);
            lemma_field_kept(self.data[0], 0, 1, flag_bit(fifo_enable), 2, 1);
            lemma_field_kept(self.data[0], 0, 1, flag_bit(fifo_enable), 1, 1);
        }
        self.data = [set_flag(self.data[0], 0, fifo_enable)];
    }
}

impl Default for FIFOConfig1 {
    /// The register with every field at its default and the rest zero.
    fn default() -> (r: Self)
        ensures
            !r.fifo_temp_en(),
            !r.fifo_press_en(),
            !r.fifo_time_en(),
            !r.fifo_stop_on_full(),
            !r.fifo_enable(),
            r.data[0] == 0,
    {
        proof {
            lemma_field_of_zero(4, 1);
            lemma_field_of_zero(3, 1);
            lemma_field_of_zero(2, 1);
            lemma_field_of_zero(1, 1);
            lemma_field_of_zero(0, 1);
        }
        FIFOConfig1 { data: [0] }
    }
}

/// Where the FIFO takes its data from and how much of it.
#[derive(Clone, Copy, PartialEq, Eq, Debug)]
pub struct FIFOConfig2 {
    /// The register's raw content.
    pub data: [u8; 1],
}

impl FIFOConfig2 {
    /// The register's address on the device.
    pub const ADDRESS: u8 = 0x18;

    /// The data source of the FIFO, bits 4 and 3.
    pub open spec fn data_select(&self) -> u8 {
        field(self.data[0], 3, 2)
    }

    /// The FIFO keeps one reading in two to the power of this number, bits 2
    /// to 0.
    pub open spec fn fifo_subsampling(&self) -> u8 {
        field(self.data[0], 0, 3)
    }

    /// Reads [`Self::data_select`].
    pub fn read_data_select(&self) -> (data_select: u8)
        ensures
            data_select == self.data_select(),
    {
        get_field(self.data[0], 3, 2)
    }

    /// Reads [`Self::fifo_subsampling`].
    pub fn read_fifo_subsampling(&self) -> (fifo_subsampling: u8)
        ensures
            fifo_subsampling == self.fifo_subsampling(),
    {
        get_field(self.data[0], 0, 3)
    }

    /// Sets [`Self::data_select`] to the low 2 bits of `data_select` and leaves every other
    /// bit as it was.
    pub fn write_data_select(&mut self, data_select: u8)
        ensures
            final(self).data[0] == with_field(old(self).data[0], 3, 2, data_select),
            final(self).data_select() == data_select & 0x3,
            final(self).fifo_subsampling() == old(self).fifo_subsampling(),
    {
        proof {
            lemma_low_mask();
            lemma_field_written(self.data[0], 3, 2, data_select);
            lemma_field_kept(self.data[0], 3, 2, data_select, 0, 3);
        }
        self.data = [set_field(self.data[0], 3, 2, data_select)];
    }

    /// Sets [`Self::fifo_subsampling`] to the low 3 bits of `fifo_subsampling` and leaves every other
    /// bit as it was.
    pub fn write_fifo_subsampling(&mut self, fifo_subsampling: u8)
        ensures
            final(self).data[0] == with_field(old(self).data[0], 0, 3, fifo_subsampling),
            final(self).fifo_subsampling() == fifo_subsampling & 0x7,
            final(self).data_select() == old(self).data_select(),
    {
        proof {
            lemma_low_mask();
            lemma_field_written(self.data[0], 0, 3, fifo_subsampling);
            lemma_field_kept(self.data[0], 0, 3, fifo_subsampling, 3, 2);
        }
        self.data = [set_field(self.data[0], 0, 3, fifo_subsampling)];
    }
}

impl Default for FIFOConfig2 {
    /// The register with every field at its default and the rest zero.
    fn default() -> (r: Self)
        ensures
            r.data_select() == 0,
            r.fifo_subsampling() == 0,
            r.data[0] == 0,
    {
        proof {
            lemma_field_of_zero(3, 2);
            lemma_field_of_zero(0, 3);
        }
        FIFOConfig2 { data: [0] }
    }
}

/// What raises the interrupt pin and how the pin is driven.
#[derive(Clone, Copy, PartialEq, Eq, Debug)]
pub struct InteruptControl {
    /// The register's raw content.
    pub data: [u8; 1],
}

impl InteruptControl {
    /// The register's address on the device.
    pub const ADDRESS: u8 = 0x19;

    /// New pressure and temperature data raises the interrupt, bit 6.
    pub open spec fn data_ready_int(&self) -> bool {
        field(self.data[0], 6, 1) == 1
    }

    /// The interrupt pin drives with high strength, bit 5.
    pub open spec fn int_ds(&self) -> bool {
        field(self.data[0], 5, 1) == 1
    }

    /// A full FIFO raises the interrupt, bit 4.
    pub open spec fn fifo_full_int(&self) -> bool {
        field(self.data[0], 4, 1) == 1
    }

    /// The FIFO reaching its watermark raises the interrupt, bit 3.
    pub open spec fn fifo_watermark_int(&self) -> bool {
        field(self.data[0], 3, 1) == 1
    }

    /// The interrupt stays raised until the status is read, bit 2.
    pub open spec fn int_latch(&self) -> bool {
        field(self.data[0], 2, 1) == 1
    }

    /// The level of the interrupt pin while raised, bit 1.
    pub open spec fn int_active_level(&self) -> LogicLevel {
        LogicLevel::of_bits(field(self.data[0], 1, 1))
    }

    /// How the interrupt pin is driven, bit 0.
    pub open spec fn int_od(&self) -> InteruptOutput {
        InteruptOutput::of_bits(field(self.data[0], 0, 1))
    }

    /// Reads [`Self::data_ready_int`].
    pub fn read_data_ready_int(&self) -> (data_ready_int: bool)
        ensures
            data_ready_int == self.data_ready_int(),
    {
        get_flag(self.data[0], 6)
    }

    /// Reads [`Self::int_ds`].
    pub fn read_int_ds(&self) -> (int_ds: bool)
        ensures
            int_ds == self.int_ds(),
    {
        get_flag(self.data[0], 5)
    }

    /// Reads [`Self::fifo_full_int`].
    pub fn read_fifo_full_int(&self) -> (fifo_full_int: bool)
        ensures
            fifo_full_int == self.fifo_full_int(),
    {
        get_flag(self.data[0], 4)
    }

    /// Reads [`Self::fifo_watermark_int`].
    pub fn read_fifo_watermark_int(&self) -> (fifo_watermark_int: bool)
        ensures
            fifo_watermark_int == self.fifo_watermark_int(),
    {
        get_flag(self.data[0], 3)
    }

    /// Reads [`Self::int_latch`].
    pub fn read_int_latch(&self) -> (int_latch: bool)
        ensures
            int_latch == self.int_latch(),
    {
        get_flag(self.data[0], 2)
    }

    /// Reads [`Self::int_active_level`].
    pub fn read_int_active_level(&self) -> (int_active_level: LogicLevel)
        ensures
            int_active_level == self.int_active_level(),
    {
        LogicLevel::from_primitive(get_field(self.data[0], 1, 1))
    }

    /// Reads [`Self::int_od`].
    pub fn read_int_od(&self) -> (int_od: InteruptOutput)
        ensures
            int_od == self.int_od(),
    {
        InteruptOutput::from_primitive(get_field(self.data[0], 0, 1))
    }

    /// Sets [`Self::data_ready_int`] and leaves every other bit as it was.
    pub fn write_data_ready_int(&mut self, data_ready_int: bool)
        ensures
            final(self).data[0] == with_field(old(self).data[0], 6, 1, flag_bit(data_ready_int)),
            final(self).data_ready_int() == data_ready_int,
            final(self).int_ds() == old(self).int_ds(),
            final(self).fifo_full_int() == old(self).fifo_full_int(),
            final(self).fifo_watermark_int() == old(self).fifo_watermark_int(),
            final(self).int_latch() == old(self).int_latch(),
            final(self).int_active_level() == old(self).int_active_level(),
            final(self).int_od() == old(self).int_od(),
    {
        proof {
            lemma_low_mask();
            lemma_field_written(self.data[0], 6, 1, flag_bit(data_ready_int));
            lemma_field_kept(self.data[0], 6, 1, flag_bit(data_ready_int), 5, 1);
            lemma_field_kept(self.data[0], 6, 1, flag_bit(data_ready_int), 4, 1);
            lemma_field_kept(self.data[0], 6, 1, flag_bit(data_ready_int), 3, 1);
            lemma_field_kept(self.data[0], 6, 1, flag_bit(data_ready_int), 2, 1);
            lemma_field_kept(self.data[0], 6, 1, flag_bit(data_ready_int), 1, 1);
            lemma_field_kept(self.data[0], 6, 1, flag_bit(data_ready_int), 0, 1);
        }
        self.data = [set_flag(self.data[0], 6, data_ready_int)];
    }

    /// Sets [`Self::int_ds`] and leaves every other bit as it was.
    pub fn write_int_ds(&mut self, int_ds: bool)
        ensures
            final(self).data[0] == with_field(old(self).data[0], 5, 1, flag_bit(int_ds)),
            final(self).int_ds() == int_ds,
            final(self).data_ready_int() == old(self).data_ready_int(),
            final(self).fifo_full_int() == old(self).fifo_full_int(),
            final(self).fifo_watermark_int() == old(self).fifo_watermark_int(),
            final(self).int_latch() == old(self).int_latch(),
            final(self).int_active_level() == old(self).int_active_level(),
            final(self).int_od() == old(self).int_od(),
    {
        proof {
            lemma_low_mask();
            lemma_field_written(self.data[0], 5, 1, flag_bit(int_ds));
            lemma_field_kept(self.data[0], 5, 1, flag_bit(int_ds), 6, 1);
            lemma_field_kept(self.data[0], 5, 1, flag_bit(int_ds), 4, 1);
            lemma_field_kept(self.data[0], 5, 1, flag_bit(int_ds), 3, 1);
            lemma_field_kept(self.data[0], 5, 1, flag_bit(int_ds), 2, 1);
            lemma_field_kept(self.data[0], 5, 1, flag_bit(int_ds), 1, 1);
            lemma_field_kept(self.data[0], 5, 1, flag_bit(int_ds), 0, 1);
        }
        self.data = [set_flag(self.data[0], 5, int_ds)];
    }

    /// Sets [`Self::fifo_full_int`] and leaves every other bit as it was.
    pub fn write_fifo_full_int(&mut self, fifo_full_int: bool)
        ensures
            final(self).data[0] == with_field(old(self).data[0], 4, 1, flag_bit(fifo_full_int)),
            final(self).fifo_full_int() == fifo_full_int,
            final(self).data_ready_int() == old(self).data_ready_int(),
            final(self).int_ds() == old(self).int_ds(),
            final(self).fifo_watermark_int() == old(self).fifo_watermark_int(),
            final(self).int_latch() == old(self).int_latch(),
            final(self).int_active_level() == old(self).int_active_level(),
            final(self).int_od() == old(self).int_od(),
    {
        proof {
            lemma_low_mask();
            lemma_field_written(self.data[0], 4, 1, flag_bit(fifo_full_int));
            lemma_field_kept(self.data[0], 4, 1, flag_bit(fifo_full_int), 6, 1);
            lemma_field_kept(self.data[0], 4, 1, flag_bit(fifo_full_int), 5, 1);
            lemma_field_kept(self.data[0], 4, 1, flag_bit(fifo_full_int), 3, 1);
            lemma_field_kept(self.data[0], 4, 1, flag_bit(fifo_full_int), 2, 1);
            lemma_field_kept(self.data[0], 4, 1, flag_bit(fifo_full_int), 1, 1);
            lemma_field_kept(self.data[0], 4, 1, flag_bit(fifo_full_int), 0, 1);
        }
        self.data = [set_flag(self.data[0], 4, fifo_full_int)];
    }

    /// Sets [`Self::fifo_watermark_int`] and leaves every other bit as it was.
    pub fn write_fifo_watermark_int(&mut self, fifo_watermark_int: bool)
        ensures
            final(self).data[0] == with_field(old(self).data[0], 3, 1, flag_bit(fifo_watermark_int)),
            final(self).fifo_watermark_int() == fifo_watermark_int,
            final(self).data_ready_int() == old(self).data_ready_int(),
            final(self).int_ds() == old(self).int_ds(),
            final(self).fifo_full_int() == old(self).fifo_full_int(),
            final(self).int_latch() == old(self).int_latch(),
            final(self).int_active_level() == old(self).int_active_level(),
            final(self).int_od() == old(self).int_od(),
    {
        proof {
            lemma_low_mask();
            lemma_field_written(self.data[0], 3, 1, flag_bit(fifo_watermark_int));
            lemma_field_kept(self.data[0], 3, 1, flag_bit(fifo_watermark_int), 6, 1);
            lemma_field_kept(self.data[0], 3, 1, flag_bit(fifo_watermark_int), 5, 1);
            lemma_field_kept(self.data[0], 3, 1, flag_bit(fifo_watermark_int), 4, 1);
            lemma_field_kept(self.data[0], 3, 1, flag_bit(fifo_watermark_int), 2, 1);
            lemma_field_kept(self.data[0], 3, 1, flag_bit(fifo_watermark_int), 1, 1);
            lemma_field_kept(self.data[0], 3, 1, flag_bit(fifo_watermark_int), 0, 1);
        }
        self.data = [set_flag(self.data[0], 3, fifo_watermark_int)];
    }

    /// Sets [`Self::int_latch`] and leaves every other bit as it was.
    pub fn write_int_latch(&mut self, int_latch: bool)
        ensures
            final(self).data[0] == with_field(old(self).data[0], 2, 1, flag_bit(int_latch)),
            final(self).int_latch() == int_latch,
            final(self).data_ready_int() == old(self).data_ready_int(),
            final(self).int_ds() == old(self).int_ds(),
            final(self).fifo_full_int() == old(self).fifo_full_int(),
            final(self).fifo_watermark_int() == old(self).fifo_watermark_int(),
            final(self).int_active_level() == old(self).int_active_level(),
            final(self).int_od() == old(self).int_od(),
    {
        proof {
            lemma_low_mask();
            lemma_field_written(self.data[0], 2, 1, flag_bit(int_latch));
            lemma_field_kept(self.data[0], 2, 1, flag_bit(int_latch), 6, 1);
            lemma_field_kept(self.data[0], 2, 1, flag_bit(int_latch), 5, 1);
            lemma_field_kept(self.data[0], 2, 1, flag_bit(int_latch), 4, 1);
            lemma_field_kept(self.data[0], 2, 1, flag_bit(int_latch), 3, 1);
            lemma_field_kept(self.data[0], 2, 1, flag_bit(int_latch), 1, 1);
            lemma_field_kept(self.data[0], 2, 1, flag_bit(int_latch), 0, 1);
        }
        self.data = [set_flag(self.data[0], 2, int_latch)];
    }

    /// Sets [`Self::int_active_level`] and leaves every other bit as it was.
    pub fn write_int_active_level(&mut self, int_active_level: LogicLevel)
        ensures
            final(self).data[0] == with_field(old(self).data[0], 1, 1, int_active_level.bits()),
            final(self).int_active_level() == int_active_level,
            final(self).data_ready_int() == old(self).data_ready_int(),
            final(self).int_ds() == old(self).int_ds(),
            final(self).fifo_full_int() == old(self).fifo_full_int(),
            final(self).fifo_watermark_int() == old(self).fifo_watermark_int(),
            final(self).int_latch() == old(self).int_latch(),
            final(self).int_od() == old(self).int_od(),
    {
        let bits: u8 = int_active_level.into_primitive();
        proof {
            lemma_low_mask();
            lemma_field_written(self.data[0], 1, 1, bits);
            lemma_field_kept(self.data[0], 1, 1, bits, 6, 1);
            lemma_field_kept(self.data[0], 1, 1, bits, 5, 1);
            lemma_field_kept(self.data[0], 1, 1, bits, 4, 1);
            lemma_field_kept(self.data[0], 1, 1, bits, 3, 1);
            lemma_field_kept(self.data[0], 1, 1, bits, 2, 1);
            lemma_field_kept(self.data[0], 1, 1, bits, 0, 1);
        }
        self.data = [set_field(self.data[0], 1, 1, bits)];
    }

    /// Sets [`Self::int_od`] and leaves every other bit as it was.
    pub fn write_int_od(&mut self, int_od: InteruptOutput)
        ensures
            final(self).data[0] == with_field(old(self).data[0], 0, 1, int_od.bits()),
            final(self).int_od() == int_od,
            final(self).data_ready_int() == old(self).data_ready_int(),
            final(self).int_ds() == old(self).int_ds(),
            final(self).fifo_full_int() == old(self).fifo_full_int(),
            final(self).fifo_watermark_int() == old(self).fifo_watermark_int(),
            final(self).int_latch() == old(self).int_latch(),
            final(self).int_active_level() == old(self).int_active_level(),
    {
        let bits: u8 = int_od.into_primitive();
        proof {
            lemma_low_mask();
            lemma_field_written(self.data[0], 0, 1, bits);
            lemma_field_kept(self.data[0], 0, 1, bits, 6, 1);
            lemma_field_kept(self.data[0], 0, 1, bits, 5, 1);
            lemma_field_kept(self.data[0], 0, 1, bits, 4, 1);
            lemma_field_kept(self.data[0], 0, 1, bits, 3, 1);
            lemma_field_kept(self.data[0], 0, 1, bits, 2, 1);
            lemma_field_kept(self.data[0], 0, 1, bits, 1, 1);
        }
        self.data = [set_field(self.data[0], 0, 1, bits)];
    }
}

impl Default for InteruptControl {
    /// The register with every field at its default and the rest zero.
    fn default() -> (r: Self)
        ensures
            !r.data_ready_int(),
            !r.int_ds(),
            !r.fifo_full_int(),
            !r.fifo_watermark_int(),
            !r.int_latch(),
            r.int_active_level() == LogicLevel::Low,
            r.int_od() == InteruptOutput::PushPull,
            r.data[0] == 0,
    {
        proof {
            lemma_field_of_zero(6, 1);
            lemma_field_of_zero(5, 1);
            lemma_field_of_zero(4, 1);
            lemma_field_of_zero(3, 1);
            lemma_field_of_zero(2, 1);
            lemma_field_of_zero(1, 1);
            lemma_field_of_zero(0, 1);
        }
        InteruptControl { data: [0] }
    }
}

/// Settings of the serial interface.
#[derive(Clone, Copy, PartialEq, Eq, Debug)]
pub struct IFConf {
    /// The register's raw content.
    pub data: [u8; 1],
}

impl IFConf {
    /// The register's address on the device.
    pub const ADDRESS: u8 = 0x1A;

    /// The I2C watchdog waits the long period, bit 2.
    pub open spec fn i2c_wdt_sel(&self) -> bool {
        field(self.data[0], 2, 1) == 1
    }

    /// The I2C watchdog is switched on, bit 1.
    pub open spec fn i2c_wdt_en(&self) -> bool {
        field(self.data[0], 1, 1) == 1
    }

    /// SPI runs in three-wire mode, bit 0.
    pub open spec fn spi3(&self) -> bool {
        field(self.data[0], 0, 1) == 1
    }

    /// Reads [`Self::i2c_wdt_sel`].
    pub fn read_i2c_wdt_sel(&self) -> (i2c_wdt_sel: bool)
        ensures
            i2c_wdt_sel == self.i2c_wdt_sel(),
    {
        get_flag(self.data[0], 2)
    }

    /// Reads [`Self::i2c_wdt_en`].
    pub fn read_i2c_wdt_en(&self) -> (i2c_wdt_en: bool)
        ensures
            i2c_wdt_en == self.i2c_wdt_en(),
    {
        get_flag(self.data[0], 1)
    }

    /// Reads [`Self::spi3`].
    pub fn read_spi3(&self) -> (spi3: bool)
        ensures
            spi3 == self.spi3(),
    {
        get_flag(self.data[0], 0)
    }

    /// Sets [`Self::i2c_wdt_sel`] and leaves every other bit as it was.
    pub fn write_i2c_wdt_sel(&mut self, i2c_wdt_sel: bool)
        ensures
            final(self).data[0] == with_field(old(self).data[0], 2, 1, flag_bit(i2c_wdt_sel)),
            final(self).i2c_wdt_sel() == i2c_wdt_sel,
            final(self).i2c_wdt_en() == old(self).i2c_wdt_en(),
            final(self).spi3() == old(self).spi3(),
    {
        proof {
            lemma_low_mask();
            lemma_field_written(self.data[0], 2, 1, flag_bit(i2c_wdt_sel));
            lemma_field_kept(self.data[0], 2, 1, flag_bit(i2c_wdt_sel), 1, 1);
            lemma_field_kept(self.data[0], 2, 1, flag_bit(i2c_wdt_sel), 0, 1);
        }
        self.data = [set_flag(self.data[0], 2, i2c_wdt_sel)];
    }

    /// Sets [`Self::i2c_wdt_en`] and leaves every other bit as it was.
    pub fn write_i2c_wdt_en(&mut self, i2c_wdt_en: bool)
        ensures
            final(self).data[0] == with_field(old(self).data[0], 1, 1, flag_bit(i2c_wdt_en)),
            final(self).i2c_wdt_en() == i2c_wdt_en,
            final(self).i2c_wdt_sel() == old(self).i2c_wdt_sel(),
            final(self).spi3() == old(self).spi3(),
    {
        proof {
            lemma_low_mask();
            lemma_field_written(self.data[0], 1, 1, flag_bit(i2c_wdt_en));
            lemma_field_kept(self.data[0], 1, 1, flag_bit(i2c_wdt_en), 2, 1);
            lemma_field_kept(self.data[0], 1, 1, flag_bit(i2c_wdt_en), 0, 1);
        }
        self.data = [set_flag(self.data[0], 1, i2c_wdt_en)];
    }

    /// Sets [`Self::spi3`] and leaves every other bit as it was.
    pub fn write_spi3(&mut self, spi3: bool)
        ensures
            final(self).data[0] == with_field(old(self).data[0], 0, 1, flag_bit(spi3)),
            final(self).spi3() == spi3,
            final(self).i2c_wdt_sel() == old(self).i2c_wdt_sel(),
            final(self).i2c_wdt_en() == old(self).i2c_wdt_en(),
    {
        proof {
            lemma_low_mask();
            lemma_field_written(self.data[0], 0, 1, flag_bit(spi3));
            lemma_field_kept(self.data[0], 0, 1, flag_bit(spi3), 2, 1);
            lemma_field_kept(self.data[0], 0, 1, flag_bit(spi3), 1, 1);
        }
        self.data = [set_flag(self.data[0], 0, spi3)];
    }
}

impl Default for IFConf {
    /// The register with every field at its default and the rest zero.
    fn default() -> (r: Self)
        ensures
            !r.i2c_wdt_sel(),
            !r.i2c_wdt_en(),
            !r.spi3(),
            r.data[0] == 0,
    {
        proof {
            lemma_field_of_zero(2, 1);
            lemma_field_of_zero(1, 1);
            lemma_field_of_zero(0, 1);
        }
        IFConf { data: [0] }
    }
}

/// Which sensors run, and in which mode.
#[derive(Clone, Copy, PartialEq, Eq, Debug)]
pub struct PowerControl {
    /// The register's raw content.
    pub data: [u8; 1],
}

impl PowerControl {
    /// The register's address on the device.
    pub const ADDRESS: u8 = 0x1B;

    /// The measurement mode, bits 5 and 4.
    pub open spec fn mode(&self) -> PowerMode {
        PowerMode::of_bits(field(self.data[0], 4, 2))
    }

    /// The temperature sensor is switched on, bit 1.
    pub open spec fn temp_en(&self) -> bool {
        field(self.data[0], 1, 1) == 1
    }

    /// The pressure sensor is switched on, bit 0.
    pub open spec fn press_en(&self) -> bool {
        field(self.data[0], 0, 1) == 1
    }

    /// Reads [`Self::mode`].
    pub fn read_mode(&self) -> (mode: PowerMode)
        ensures
            mode == self.mode(),
    {
        PowerMode::from_primitive(get_field(self.data[0], 4, 2))
    }

    /// Reads [`Self::temp_en`].
    pub fn read_temp_en(&self) -> (temp_en: bool)
        ensures
            temp_en == self.temp_en(),
    {
        get_flag(self.data[0], 1)
    }

    /// Reads [`Self::press_en`].
    pub fn read_press_en(&self) -> (press_en: bool)
        ensures
            press_en == self.press_en(),
    {
        get_flag(self.data[0], 0)
    }

    /// Sets [`Self::mode`] and leaves every other bit as it was.
    pub fn write_mode(&mut self, mode: PowerMode)
        ensures
            final(self).data[0] == with_field(old(self).data[0], 4, 2, mode.bits()),
            final(self).mode() == mode,
            final(self).temp_en() == old(self).temp_en(),
            final(self).press_en() == old(self).press_en(),
    {
        let bits: u8 = mode.into_primitive();
        proof {
            lemma_low_mask();
            lemma_field_written(self.data[0], 4, 2, bits);
            lemma_field_kept(self.data[0], 4, 2, bits, 1, 1);
            lemma_field_kept(self.data[0], 4, 2, bits, 0, 1);
        }
        self.data = [set_field(self.data[0], 4, 2, bits)];
    }

    /// Sets [`Self::temp_en`] and leaves every other bit as it was.
    pub fn write_temp_en(&mut self, temp_en: bool)
        ensures
            final(self).data[0] == with_field(old(self).data[0], 1, 1, flag_bit(temp_en)),
            final(self).temp_en() == temp_en,
            final(self).mode() == old(self).mode(),
            final(self).press_en() == old(self).press_en(),
    {
        proof {
            lemma_low_mask();
            lemma_field_written(self.data[0], 1, 1, flag_bit(temp_en));
            lemma_field_kept(self.data[0], 1, 1, flag_bit(temp_en), 4, 2);
            lemma_field_kept(self.data[0], 1, 1, flag_bit(temp_en), 0, 1);
        }
        self.data = [set_flag(self.data[0], 1, temp_en)];
    }

    /// Sets [`Self::press_en`] and leaves every other bit as it was.
    pub fn write_press_en(&mut self, press_en: bool)
        ensures
            final(self).data[0] == with_field(old(self).data[0], 0, 1, flag_bit(press_en)),
            final(self).press_en() == press_en,
            final(self).mode() == old(self).mode(),
            final(self).temp_en() == old(self).temp_en(),
    {
        proof {
            lemma_low_mask();
            lemma_field_written(self.data[0], 0, 1, flag_bit(press_en));
            lemma_field_kept(self.data[0], 0, 1, flag_bit(press_en), 4, 2);
            lemma_field_kept(self.data[0], 0, 1, flag_bit(press_en), 1, 1);
        }
        self.data = [set_flag(self.data[0], 0, press_en)];
    }
}

impl Default for PowerControl {
    /// The register with every field at its default and the rest zero.
    fn default() -> (r: Self)
        ensures
            r.mode() == PowerMode::Normal,
            !r.temp_en(),
            !r.press_en(),
            r.data[0] == with_field(0, 4, 2, PowerMode::Normal.bits()),
    {
        let bits: u8 = PowerMode::Normal.into_primitive();
        proof {
            lemma_low_mask();
            lemma_field_written(0, 4, 2, bits);
            lemma_field_kept(0, 4, 2, bits, 1, 1);
            lemma_field_of_zero(1, 1);
            lemma_field_kept(0, 4, 2, bits, 0, 1);
            lemma_field_of_zero(0, 1);
        }
        PowerControl { data: [set_field(0, 4, 2, bits)] }
    }
}

/// How many samples go into each reading.
#[derive(Clone, Copy, PartialEq, Eq, Debug)]
pub struct Oversampling {
    /// The register's raw content.
    pub data: [u8; 1],
}

impl Oversampling {
    /// The register's address on the device.
    pub const ADDRESS: u8 = 0x1C;

    /// Oversampling of the temperature, bits 5 to 3.
    pub open spec fn oversampling_temp(&self) -> OversamplingSetting {
        OversamplingSetting::of_bits(field(self.data[0], 3, 3))
    }

    /// Oversampling of the pressure, bits 2 to 0.
    pub open spec fn over_sampling_press(&self) -> OversamplingSetting {
        OversamplingSetting::of_bits(field(self.data[0], 0, 3))
    }

    /// Reads [`Self::oversampling_temp`].
    pub fn read_oversampling_temp(&self) -> (oversampling_temp: OversamplingSetting)
        ensures
            oversampling_temp == self.oversampling_temp(),
    {
        OversamplingSetting::from_primitive(get_field(self.data[0], 3, 3))
    }

    /// Reads [`Self::over_sampling_press`].
    pub fn read_over_sampling_press(&self) -> (over_sampling_press: OversamplingSetting)
        ensures
            over_sampling_press == self.over_sampling_press(),
    {
        OversamplingSetting::from_primitive(get_field(self.data[0], 0, 3))
    }

    /// Sets [`Self::oversampling_temp`] and leaves every other bit as it was.
    pub fn write_oversampling_temp(&mut self, oversampling_temp: OversamplingSetting)
        ensures
            final(self).data[0] == with_field(old(self).data[0], 3, 3, oversampling_temp.bits()),
            final(self).oversampling_temp() == oversampling_temp,
            final(self).over_sampling_press() == old(self).over_sampling_press(),
    {
        let bits: u8 = oversampling_temp.into_primitive();
        proof {
            lemma_low_mask();
            lemma_field_written(self.data[0], 3, 3, bits);
            lemma_field_kept(self.data[0], 3, 3, bits, 0, 3);
        }
        self.data = [set_field(self.data[0], 3, 3, bits)];
    }

    /// Sets [`Self::over_sampling_press`] and leaves every other bit as it was.
    pub fn write_over_sampling_press(&mut self, over_sampling_press: OversamplingSetting)
        ensures
            final(self).data[0] == with_field(old(self).data[0], 0, 3, over_sampling_press.bits()),
            final(self).over_sampling_press() == over_sampling_press,
            final(self).oversampling_temp() == old(self).oversampling_temp(),
    {
        let bits: u8 = over_sampling_press.into_primitive();
        proof {
            lemma_low_mask();
            lemma_field_written(self.data[0], 0, 3, bits);
            lemma_field_kept(self.data[0], 0, 3, bits, 3, 3);
        }
        self.data = [set_field(self.data[0], 0, 3, bits)];
    }
}

impl Default for Oversampling {
    /// The register with every field at its default and the rest zero.
    fn default() -> (r: Self)
        ensures
            r.oversampling_temp() == OversamplingSetting::X1,
            r.over_sampling_press() == OversamplingSetting::X1,
            r.data[0] == 0,
    {
        proof {
            lemma_field_of_zero(3, 3);
            lemma_field_of_zero(0, 3);
        }
        Oversampling { data: [0] }
    }
}

/// How often the sensor measures in normal mode.
#[derive(Clone, Copy, PartialEq, Eq, Debug)]
pub struct OutputDataRate {
    /// The register's raw content.
    pub data: [u8; 1],
}

impl OutputDataRate {
    /// The register's address on the device.
    pub const ADDRESS: u8 = 0x1D;

    /// The base rate is divided by two to the power of this number, 0 to 17,
    /// bits 4 to 0.
    pub open spec fn subdivision_factor(&self) -> u8 {
        field(self.data[0], 0, 5)
    }

    /// Reads [`Self::subdivision_factor`].
    pub fn read_subdivision_factor(&self) -> (subdivision_factor: u8)
        ensures
            subdivision_factor == self.subdivision_factor(),
    {
        get_field(self.data[0], 0, 5)
    }

    /// Sets [`Self::subdivision_factor`] to the low 5 bits of `subdivision_factor` and leaves every other
    /// bit as it was.
    pub fn write_subdivision_factor(&mut self, subdivision_factor: u8)
        ensures
            final(self).data[0] == with_field(old(self).data[0], 0, 5, subdivision_factor),
            final(self).subdivision_factor() == subdivision_factor & 0x1f,
    {
        proof {
            lemma_low_mask();
            lemma_field_written(self.data[0], 0, 5, subdivision_factor);
        }
        self.data = [set_field(self.data[0], 0, 5, subdivision_factor)];
    }
}

impl Default for OutputDataRate {
    /// The register with every field at its default and the rest zero.
    fn default() -> (r: Self)
        ensures
            r.subdivision_factor() == 0,
            r.data[0] == 0,
    {
        proof {
            lemma_field_of_zero(0, 5);
        }
        OutputDataRate { data: [0] }
    }
}

/// The IIR filter on the readings.
#[derive(Clone, Copy, PartialEq, Eq, Debug)]
pub struct IIRFilterConfiguration {
    /// The register's raw content.
    pub data: [u8; 1],
}

impl IIRFilterConfiguration {
    /// The register's address on the device.
    pub const ADDRESS: u8 = 0x1F;

    /// The filter coefficient, bits 3 to 1.
    pub open spec fn iir_filter(&self) -> IIRFilter {
        IIRFilter::of_bits(field(self.data[0], 1, 3))
    }

    /// The lowest bit of the register, written as zero, bit 0.
    pub open spec fn short_in(&self) -> bool {
        field(self.data[0], 0, 1) == 1
    }

    /// Reads [`Self::iir_filter`].
    pub fn read_iir_filter(&self) -> (iir_filter: IIRFilter)
        ensures
            iir_filter == self.iir_filter(),
    {
        IIRFilter::from_primitive(get_field(self.data[0], 1, 3))
    }

    /// Reads [`Self::short_in`].
    pub fn read_short_in(&self) -> (short_in: bool)
        ensures
            short_in == self.short_in(),
    {
        get_flag(self.data[0], 0)
    }

    /// Sets [`Self::iir_filter`] and leaves every other bit as it was.
    pub fn write_iir_filter(&mut self, iir_filter: IIRFilter)
        ensures
            final(self).data[0] == with_field(old(self).data[0], 1, 3, iir_filter.bits()),
            final(self).iir_filter() == iir_filter,
            final(self).short_in() == old(self).short_in(),
    {
        let bits: u8 = iir_filter.into_primitive();
        proof {
            lemma_low_mask();
            lemma_field_written(self.data[0], 1, 3, bits);
            lemma_field_kept(self.data[0], 1, 3, bits, 0, 1);
        }
        self.data = [set_field(self.data[0], 1, 3, bits)];
    }

    /// Sets [`Self::short_in`] and leaves every other bit as it was.
    pub fn write_short_in(&mut self, short_in: bool)
        ensures
            final(self).data[0] == with_field(old(self).data[0], 0, 1, flag_bit(short_in)),
            final(self).short_in() == short_in,
            final(self).iir_filter() == old(self).iir_filter(),
    {
        proof {
            lemma_low_mask();
            lemma_field_written(self.data[0], 0, 1, flag_bit(short_in));
            lemma_field_kept(self.data[0], 0, 1, flag_bit(short_in), 1, 3);
        }
        self.data = [set_flag(self.data[0], 0, short_in)];
    }
}

impl Default for IIRFilterConfiguration {
    /// The register with every field at its default and the rest zero.
    fn default() -> (r: Self)
        ensures
            r.iir_filter() == IIRFilter::Coeff0,
            !r.short_in(),
            r.data[0] == 0,
    {
        proof {
            lemma_field_of_zero(1, 3);
            lemma_field_of_zero(0, 1);
        }
        IIRFilterConfiguration { data: [0] }
    }
}

/// The command register. The device only lets it be written.
#[derive(Clone, Copy, PartialEq, Eq, Debug)]
pub struct Command {
    /// The register's raw content.
    pub data: [u8; 1],
}

impl Command {
    /// The register's address on the device.
    pub const ADDRESS: u8 = 0x7E;

    /// The command code.
    pub open spec fn command(&self) -> u8 {
        self.data[0]
    }

    /// Reads [`Self::command`].
    pub fn read_command(&self) -> (command: u8)
        ensures
            command == self.command(),
    {
        self.data[0]
    }

    /// Sets [`Self::command`].
    pub fn write_command(&mut self, command: u8)
        ensures
            final(self).data[0] == command,
            final(self).command() == command,
    {
        self.data = [command];
    }
}

impl Default for Command {
    /// The register with every field at its default and the rest zero.
    fn default() -> (r: Self)
        ensures
            r.command() == 0,
            r.data[0] == 0,
    {
        Command { data: [0] }
    }
}

/// The trimming coefficients the device was calibrated with. The device only
/// lets them be read.
#[derive(Clone, Copy, PartialEq, Eq, Debug)]
pub struct CalibrationICoefficients {
    /// The register's raw content, in the order the device sends it.
    pub data: [u8; 21],
}

impl CalibrationICoefficients {
    /// The address of the register's first byte on the device.
    pub const ADDRESS: u8 = 0x31;

    /// Temperature coefficient 1, bytes 0 and 1, least significant first.
    pub open spec fn par_t1(&self) -> u16 {
        le_value_u16(self.data[0], self.data[1])
    }

    /// Temperature coefficient 2, bytes 2 and 3, least significant first.
    pub open spec fn par_t2(&self) -> u16 {
        le_value_u16(self.data[2], self.data[3])
    }

    /// Temperature coefficient 3, byte 4.
    pub open spec fn par_t3(&self) -> i8 {
        signed_value_u8(self.data[4])
    }

    /// Pressure coefficient 1, bytes 5 and 6, least significant first.
    pub open spec fn par_p1(&self) -> i16 {
        le_value_i16(self.data[5], self.data[6])
    }

    /// Pressure coefficient 2, bytes 7 and 8, least significant first.
    pub open spec fn par_p2(&self) -> i16 {
        le_value_i16(self.data[7], self.data[8])
    }

    /// Pressure coefficient 3, byte 9.
    pub open spec fn par_p3(&self) -> i8 {
        signed_value_u8(self.data[9])
    }

    /// Pressure coefficient 4, byte 10.
    pub open spec fn par_p4(&self) -> i8 {
        signed_value_u8(self.data[10])
    }

    /// Pressure coefficient 5, bytes 11 and 12, least significant first.
    pub open spec fn par_p5(&self) -> u16 {
        le_value_u16(self.data[11], self.data[12])
    }

    /// Pressure coefficient 6, bytes 13 and 14, least significant first.
    pub open spec fn par_p6(&self) -> u16 {
        le_value_u16(self.data[13], self.data[14])
    }

    /// Pressure coefficient 7, byte 15.
    pub open spec fn par_p7(&self) -> i8 {
        signed_value_u8(self.data[15])
    }

    /// Pressure coefficient 8, byte 16.
    pub open spec fn par_p8(&self) -> i8 {
        signed_value_u8(self.data[16])
    }

    /// Pressure coefficient 9, bytes 17 and 18, least significant first.
    pub open spec fn par_p9(&self) -> i16 {
        le_value_i16(self.data[17], self.data[18])
    }

    /// Pressure coefficient 10, byte 19.
    pub open spec fn par_p10(&self) -> i8 {
        signed_value_u8(self.data[19])
    }

    /// Pressure coefficient 11, byte 20.
    pub open spec fn par_p11(&self) -> i8 {
        signed_value_u8(self.data[20])
    }

    /// Reads [`Self::par_t1`].
    pub fn read_par_t1(&self) -> (par_t1: u16)
        ensures
            par_t1 == self.par_t1(),
    {
        u16_from_le_bytes(self.data[0], self.data[1])
    }

    /// Reads [`Self::par_t2`].
    pub fn read_par_t2(&self) -> (par_t2: u16)
        ensures
            par_t2 == self.par_t2(),
    {
        u16_from_le_bytes(self.data[2], self.data[3])
    }

    /// Reads [`Self::par_t3`].
    pub fn read_par_t3(&self) -> (par_t3: i8)
        ensures
            par_t3 == self.par_t3(),
    {
        i8_from_byte(self.data[4])
    }

    /// Reads [`Self::par_p1`].
    pub fn read_par_p1(&self) -> (par_p1: i16)
        ensures
            par_p1 == self.par_p1(),
    {
        i16_from_le_bytes(self.data[5], self.data[6])
    }

    /// Reads [`Self::par_p2`].
    pub fn read_par_p2(&self) -> (par_p2: i16)
        ensures
            par_p2 == self.par_p2(),
    {
        i16_from_le_bytes(self.data[7], self.data[8])
    }

    /// Reads [`Self::par_p3`].
    pub fn read_par_p3(&self) -> (par_p3: i8)
        ensures
            par_p3 == self.par_p3(),
    {
        i8_from_byte(self.data[9])
    }

    /// Reads [`Self::par_p4`].
    pub fn read_par_p4(&self) -> (par_p4: i8)
        ensures
            par_p4 == self.par_p4(),
    {
        i8_from_byte(self.data[10])
    }

    /// Reads [`Self::par_p5`].
    pub fn read_par_p5(&self) -> (par_p5: u16)
        ensures
            par_p5 == self.par_p5(),
    {
        u16_from_le_bytes(self.data[11], self.data[12])
    }

    /// Reads [`Self::par_p6`].
    pub fn read_par_p6(&self) -> (par_p6: u16)
        ensures
            par_p6 == self.par_p6(),
    {
        u16_from_le_bytes(self.data[13], self.data[14])
    }

    /// Reads [`Self::par_p7`].
    pub fn read_par_p7(&self) -> (par_p7: i8)
        ensures
            par_p7 == self.par_p7(),
    {
        i8_from_byte(self.data[15])
    }

    /// Reads [`Self::par_p8`].
    pub fn read_par_p8(&self) -> (par_p8: i8)
        ensures
            par_p8 == self.par_p8(),
    {
        i8_from_byte(self.data[16])
    }

    /// Reads [`Self::par_p9`].
    pub fn read_par_p9(&self) -> (par_p9: i16)
        ensures
            par_p9 == self.par_p9(),
    {
        i16_from_le_bytes(self.data[17], self.data[18])
    }

    /// Reads [`Self::par_p10`].
    pub fn read_par_p10(&self) -> (par_p10: i8)
        ensures
            par_p10 == self.par_p10(),
    {
        i8_from_byte(self.data[19])
    }

    /// Reads [`Self::par_p11`].
    pub fn read_par_p11(&self) -> (par_p11: i8)
        ensures
            par_p11 == self.par_p11(),
    {
        i8_from_byte(self.data[20])
    }

    /// Sets [`Self::par_t1`] and leaves every other byte as it was.
    pub fn write_par_t1(&mut self, par_t1: u16)
        ensures
            final(self).par_t1() == par_t1,
            final(self).data@.subrange(0, 2) == le_bytes_u16(par_t1),
            forall|j: int|
                0 <= j < 21 && !(0 <= j < 2) ==> final(self).data[j] == old(self).data[j],
            final(self).par_t2() == old(self).par_t2(),
            final(self).par_t3() == old(self).par_t3(),
            final(self).par_p1() == old(self).par_p1(),
            final(self).par_p2() == old(self).par_p2(),
            final(self).par_p3() == old(self).par_p3(),
            final(self).par_p4() == old(self).par_p4(),
            final(self).par_p5() == old(self).par_p5(),
            final(self).par_p6() == old(self).par_p6(),
            final(self).par_p7() == old(self).par_p7(),
            final(self).par_p8() == old(self).par_p8(),
            final(self).par_p9() == old(self).par_p9(),
            final(self).par_p10() == old(self).par_p10(),
            final(self).par_p11() == old(self).par_p11(),
    {
        let bytes: [u8; 2] = u16_le_bytes(par_t1);
        self.data = [
            bytes[0],
            bytes[1],
            self.data[2],
            self.data[3],
            self.data[4],
            self.data[5],
            self.data[6],
            self.data[7],
            self.data[8],
            self.data[9],
            self.data[10],
            self.data[11],
            self.data[12],
            self.data[13],
            self.data[14],
            self.data[15],
            self.data[16],
            self.data[17],
            self.data[18],
            self.data[19],
            self.data[20],
        ];
        assert(self.data@.subrange(0, 2) =~= le_bytes_u16(par_t1));
    }

    /// Sets [`Self::par_t2`] and leaves every other byte as it was.
    pub fn write_par_t2(&mut self, par_t2: u16)
        ensures
            final(self).par_t2() == par_t2,
            final(self).data@.subrange(2, 4) == le_bytes_u16(par_t2),
            forall|j: int|
                0 <= j < 21 && !(2 <= j < 4) ==> final(self).data[j] == old(self).data[j],
            final(self).par_t1() == old(self).par_t1(),
            final(self).par_t3() == old(self).par_t3(),
            final(self).par_p1() == old(self).par_p1(),
            final(self).par_p2() == old(self).par_p2(),
            final(self).par_p3() == old(self).par_p3(),
            final(self).par_p4() == old(self).par_p4(),
            final(self).par_p5() == old(self).par_p5(),
            final(self).par_p6() == old(self).par_p6(),
            final(self).par_p7() == old(self).par_p7(),
            final(self).par_p8() == old(self).par_p8(),
            final(self).par_p9() == old(self).par_p9(),
            final(self).par_p10() == old(self).par_p10(),
            final(self).par_p11() == old(self).par_p11(),
    {
        let bytes: [u8; 2] = u16_le_bytes(par_t2);
        self.data = [
            self.data[0],
            self.data[1],
            bytes[0],
            bytes[1],
            self.data[4],
            self.data[5],
            self.data[6],
            self.data[7],
            self.data[8],
            self.data[9],
            self.data[10],
            self.data[11],
            self.data[12],
            self.data[13],
            self.data[14],
            self.data[15],
            self.data[16],
            self.data[17],
            self.data[18],
            self.data[19],
            self.data[20],
        ];
        assert(self.data@.subrange(2, 4) =~= le_bytes_u16(par_t2));
    }

    /// Sets [`Self::par_t3`] and leaves every other byte as it was.
    pub fn write_par_t3(&mut self, par_t3: i8)
        ensures
            final(self).par_t3() == par_t3,
            final(self).data[4] == byte_of_i8(par_t3),
            forall|j: int|
                0 <= j < 21 && !(4 <= j < 5) ==> final(self).data[j] == old(self).data[j],
            final(self).par_t1() == old(self).par_t1(),
            final(self).par_t2() == old(self).par_t2(),
            final(self).par_p1() == old(self).par_p1(),
            final(self).par_p2() == old(self).par_p2(),
            final(self).par_p3() == old(self).par_p3(),
            final(self).par_p4() == old(self).par_p4(),
            final(self).par_p5() == old(self).par_p5(),
            final(self).par_p6() == old(self).par_p6(),
            final(self).par_p7() == old(self).par_p7(),
            final(self).par_p8() == old(self).par_p8(),
            final(self).par_p9() == old(self).par_p9(),
            final(self).par_p10() == old(self).par_p10(),
            final(self).par_p11() == old(self).par_p11(),
    {
        let byte: u8 = i8_to_byte(par_t3);
        self.data = [
            self.data[0],
            self.data[1],
            self.data[2],
            self.data[3],
            byte,
            self.data[5],
            self.data[6],
            self.data[7],
            self.data[8],
            self.data[9],
            self.data[10],
            self.data[11],
            self.data[12],
            self.data[13],
            self.data[14],
            self.data[15],
            self.data[16],
            self.data[17],
            self.data[18],
            self.data[19],
            self.data[20],
        ];
    }

    /// Sets [`Self::par_p1`] and leaves every other byte as it was.
    pub fn write_par_p1(&mut self, par_p1: i16)
        ensures
            final(self).par_p1() == par_p1,
            final(self).data@.subrange(5, 7) == le_bytes_i16(par_p1),
            forall|j: int|
                0 <= j < 21 && !(5 <= j < 7) ==> final(self).data[j] == old(self).data[j],
            final(self).par_t1() == old(self).par_t1(),
            final(self).par_t2() == old(self).par_t2(),
            final(self).par_t3() == old(self).par_t3(),
            final(self).par_p2() == old(self).par_p2(),
            final(self).par_p3() == old(self).par_p3(),
            final(self).par_p4() == old(self).par_p4(),
            final(self).par_p5() == old(self).par_p5(),
            final(self).par_p6() == old(self).par_p6(),
            final(self).par_p7() == old(self).par_p7(),
            final(self).par_p8() == old(self).par_p8(),
            final(self).par_p9() == old(self).par_p9(),
            final(self).par_p10() == old(self).par_p10(),
            final(self).par_p11() == old(self).par_p11(),
    {
        let bytes: [u8; 2] = i16_le_bytes(par_p1);
        self.data = [
            self.data[0],
            self.data[1],
            self.data[2],
            self.data[3],
            self.data[4],
            bytes[0],
            bytes[1],
            self.data[7],
            self.data[8],
            self.data[9],
            self.data[10],
            self.data[11],
            self.data[12],
            self.data[13],
            self.data[14],
            self.data[15],
            self.data[16],
            self.data[17],
            self.data[18],
            self.data[19],
            self.data[20],
        ];
        assert(self.data@.subrange(5, 7) =~= le_bytes_i16(par_p1));
    }

    /// Sets [`Self::par_p2`] and leaves every other byte as it was.
    pub fn write_par_p2(&mut self, par_p2: i16)
        ensures
            final(self).par_p2() == par_p2,
            final(self).data@.subrange(7, 9) == le_bytes_i16(par_p2),
            forall|j: int|
                0 <= j < 21 && !(7 <= j < 9) ==> final(self).data[j] == old(self).data[j],
            final(self).par_t1() == old(self).par_t1(),
            final(self).par_t2() == old(self).par_t2(),
            final(self).par_t3() == old(self).par_t3(),
            final(self).par_p1() == old(self).par_p1(),
            final(self).par_p3() == old(self).par_p3(),
            final(self).par_p4() == old(self).par_p4(),
            final(self).par_p5() == old(self).par_p5(),
            final(self).par_p6() == old(self).par_p6(),
            final(self).par_p7() == old(self).par_p7(),
            final(self).par_p8() == old(self).par_p8(),
            final(self).par_p9() == old(self).par_p9(),
            final(self).par_p10() == old(self).par_p10(),
            final(self).par_p11() == old(self).par_p11(),
    {
        let bytes: [u8; 2] = i16_le_bytes(par_p2);
        self.data = [
            self.data[0],
            self.data[1],
            self.data[2],
            self.data[3],
            self.data[4],
            self.data[5],
            self.data[6],
            bytes[0],
            bytes[1],
            self.data[9],
            self.data[10],
            self.data[11],
            self.data[12],
            self.data[13],
            self.data[14],
            self.data[15],
            self.data[16],
            self.data[17],
            self.data[18],
            self.data[19],
            self.data[20],
        ];
        assert(self.data@.subrange(7, 9) =~= le_bytes_i16(par_p2));
    }

    /// Sets [`Self::par_p3`] and leaves every other byte as it was.
    pub fn write_par_p3(&mut self, par_p3: i8)
        ensures
            final(self).par_p3() == par_p3,
            final(self).data[9] == byte_of_i8(par_p3),
            forall|j: int|
                0 <= j < 21 && !(9 <= j < 10) ==> final(self).data[j] == old(self).data[j],
            final(self).par_t1() == old(self).par_t1(),
            final(self).par_t2() == old(self).par_t2(),
            final(self).par_t3() == old(self).par_t3(),
            final(self).par_p1() == old(self).par_p1(),
            final(self).par_p2() == old(self).par_p2(),
            final(self).par_p4() == old(self).par_p4(),
            final(self).par_p5() == old(self).par_p5(),
            final(self).par_p6() == old(self).par_p6(),
            final(self).par_p7() == old(self).par_p7(),
            final(self).par_p8() == old(self).par_p8(),
            final(self).par_p9() == old(self).par_p9(),
            final(self).par_p10() == old(self).par_p10(),
            final(self).par_p11() == old(self).par_p11(),
    {
        let byte: u8 = i8_to_byte(par_p3);
        self.data = [
            self.data[0],
            self.data[1],
            self.data[2],
            self.data[3],
            self.data[4],
            self.data[5],
            self.data[6],
            self.data[7],
            self.data[8],
            byte,
            self.data[10],
            self.data[11],
            self.data[12],
            self.data[13],
            self.data[14],
            self.data[15],
            self.data[16],
            self.data[17],
            self.data[18],
            self.data[19],
            self.data[20],
        ];
    }

    /// Sets [`Self::par_p4`] and leaves every other byte as it was.
    pub fn write_par_p4(&mut self, par_p4: i8)
        ensures
            final(self).par_p4() == par_p4,
            final(self).data[10] == byte_of_i8(par_p4),
            forall|j: int|
                0 <= j < 21 && !(10 <= j < 11) ==> final(self).data[j] == old(self).data[j],
            final(self).par_t1() == old(self).par_t1(),
            final(self).par_t2() == old(self).par_t2(),
            final(self).par_t3() == old(self).par_t3(),
            final(self).par_p1() == old(self).par_p1(),
            final(self).par_p2() == old(self).par_p2(),
            final(self).par_p3() == old(self).par_p3(),
            final(self).par_p5() == old(self).par_p5(),
            final(self).par_p6() == old(self).par_p6(),
            final(self).par_p7() == old(self).par_p7(),
            final(self).par_p8() == old(self).par_p8(),
            final(self).par_p9() == old(self).par_p9(),
            final(self).par_p10() == old(self).par_p10(),
            final(self).par_p11() == old(self).par_p11(),
    {
        let byte: u8 = i8_to_byte(par_p4);
        self.data = [
            self.data[0],
            self.data[1],
            self.data[2],
            self.data[3],
            self.data[4],
            self.data[5],
            self.data[6],
            self.data[7],
            self.data[8],
            self.data[9],
            byte,
            self.data[11],
            self.data[12],
            self.data[13],
            self.data[14],
            self.data[15],
            self.data[16],
            self.data[17],
            self.data[18],
            self.data[19],
            self.data[20],
        ];
    }

    /// Sets [`Self::par_p5`] and leaves every other byte as it was.
    pub fn write_par_p5(&mut self, par_p5: u16)
        ensures
            final(self).par_p5() == par_p5,
            final(self).data@.subrange(11, 13) == le_bytes_u16(par_p5),
            forall|j: int|
                0 <= j < 21 && !(11 <= j < 13) ==> final(self).data[j] == old(self).data[j],
            final(self).par_t1() == old(self).par_t1(),
            final(self).par_t2() == old(self).par_t2(),
            final(self).par_t3() == old(self).par_t3(),
            final(self).par_p1() == old(self).par_p1(),
            final(self).par_p2() == old(self).par_p2(),
            final(self).par_p3() == old(self).par_p3(),
            final(self).par_p4() == old(self).par_p4(),
            final(self).par_p6() == old(self).par_p6(),
            final(self).par_p7() == old(self).par_p7(),
            final(self).par_p8() == old(self).par_p8(),
            final(self).par_p9() == old(self).par_p9(),
            final(self).par_p10() == old(self).par_p10(),
            final(self).par_p11() == old(self).par_p11(),
    {
        let bytes: [u8; 2] = u16_le_bytes(par_p5);
        self.data = [
            self.data[0],
            self.data[1],
            self.data[2],
            self.data[3],
            self.data[4],
            self.data[5],
            self.data[6],
            self.data[7],
            self.data[8],
            self.data[9],
            self.data[10],
            bytes[0],
            bytes[1],
            self.data[13],
            self.data[14],
            self.data[15],
            self.data[16],
            self.data[17],
            self.data[18],
            self.data[19],
            self.data[20],
        ];
        assert(self.data@.subrange(11, 13) =~= le_bytes_u16(par_p5));
    }

    /// Sets [`Self::par_p6`] and leaves every other byte as it was.
    pub fn write_par_p6(&mut self, par_p6: u16)
        ensures
            final(self).par_p6() == par_p6,
            final(self).data@.subrange(13, 15) == le_bytes_u16(par_p6),
            forall|j: int|
                0 <= j < 21 && !(13 <= j < 15) ==> final(self).data[j] == old(self).data[j],
            final(self).par_t1() == old(self).par_t1(),
            final(self).par_t2() == old(self).par_t2(),
            final(self).par_t3() == old(self).par_t3(),
            final(self).par_p1() == old(self).par_p1(),
            final(self).par_p2() == old(self).par_p2(),
            final(self).par_p3() == old(self).par_p3(),
            final(self).par_p4() == old(self).par_p4(),
            final(self).par_p5() == old(self).par_p5(),
            final(self).par_p7() == old(self).par_p7(),
            final(self).par_p8() == old(self).par_p8(),
            final(self).par_p9() == old(self).par_p9(),
            final(self).par_p10() == old(self).par_p10(),
            final(self).par_p11() == old(self).par_p11(),
    {
        let bytes: [u8; 2] = u16_le_bytes(par_p6);
        self.data = [
            self.data[0],
            self.data[1],
            self.data[2],
            self.data[3],
            self.data[4],
            self.data[5],
            self.data[6],
            self.data[7],
            self.data[8],
            self.data[9],
            self.data[10],
            self.data[11],
            self.data[12],
            bytes[0],
            bytes[1],
            self.data[15],
            self.data[16],
            self.data[17],
            self.data[18],
            self.data[19],
            self.data[20],
        ];
        assert(self.data@.subrange(13, 15) =~= le_bytes_u16(par_p6));
    }

    /// Sets [`Self::par_p7`] and leaves every other byte as it was.
    pub fn write_par_p7(&mut self, par_p7: i8)
        ensures
            final(self).par_p7() == par_p7,
            final(self).data[15] == byte_of_i8(par_p7),
            forall|j: int|
                0 <= j < 21 && !(15 <= j < 16) ==> final(self).data[j] == old(self).data[j],
            final(self).par_t1() == old(self).par_t1(),
            final(self).par_t2() == old(self).par_t2(),
            final(self).par_t3() == old(self).par_t3(),
            final(self).par_p1() == old(self).par_p1(),
            final(self).par_p2() == old(self).par_p2(),
            final(self).par_p3() == old(self).par_p3(),
            final(self).par_p4() == old(self).par_p4(),
            final(self).par_p5() == old(self).par_p5(),
            final(self).par_p6() == old(self).par_p6(),
            final(self).par_p8() == old(self).par_p8(),
            final(self).par_p9() == old(self).par_p9(),
            final(self).par_p10() == old(self).par_p10(),
            final(self).par_p11() == old(self).par_p11(),
    {
        let byte: u8 = i8_to_byte(par_p7);
        self.data = [
            self.data[0],
            self.data[1],
            self.data[2],
            self.data[3],
            self.data[4],
            self.data[5],
            self.data[6],
            self.data[7],
            self.data[8],
            self.data[9],
            self.data[10],
            self.data[11],
            self.data[12],
            self.data[13],
            self.data[14],
            byte,
            self.data[16],
            self.data[17],
            self.data[18],
            self.data[19],
            self.data[20],
        ];
    }

    /// Sets [`Self::par_p8`] and leaves every other byte as it was.
    pub fn write_par_p8(&mut self, par_p8: i8)
        ensures
            final(self).par_p8() == par_p8,
            final(self).data[16] == byte_of_i8(par_p8),
            forall|j: int|
                0 <= j < 21 && !(16 <= j < 17) ==> final(self).data[j] == old(self).data[j],
            final(self).par_t1() == old(self).par_t1(),
            final(self).par_t2() == old(self).par_t2(),
            final(self).par_t3() == old(self).par_t3(),
            final(self).par_p1() == old(self).par_p1(),
            final(self).par_p2() == old(self).par_p2(),
            final(self).par_p3() == old(self).par_p3(),
            final(self).par_p4() == old(self).par_p4(),
            final(self).par_p5() == old(self).par_p5(),
            final(self).par_p6() == old(self).par_p6(),
            final(self).par_p7() == old(self).par_p7(),
            final(self).par_p9() == old(self).par_p9(),
            final(self).par_p10() == old(self).par_p10(),
            final(self).par_p11() == old(self).par_p11(),
    {
        let byte: u8 = i8_to_byte(par_p8);
        self.data = [
            self.data[0],
            self.data[1],
            self.data[2],
            self.data[3],
            self.data[4],
            self.data[5],
            self.data[6],
            self.data[7],
            self.data[8],
            self.data[9],
            self.data[10],
            self.data[11],
            self.data[12],
            self.data[13],
            self.data[14],
            self.data[15],
            byte,
            self.data[17],
            self.data[18],
            self.data[19],
            self.data[20],
        ];
    }

    /// Sets [`Self::par_p9`] and leaves every other byte as it was.
    pub fn write_par_p9(&mut self, par_p9: i16)
        ensures
            final(self).par_p9() == par_p9,
            final(self).data@.subrange(17, 19) == le_bytes_i16(par_p9),
            forall|j: int|
                0 <= j < 21 && !(17 <= j < 19) ==> final(self).data[j] == old(self).data[j],
            final(self).par_t1() == old(self).par_t1(),
            final(self).par_t2() == old(self).par_t2(),
            final(self).par_t3() == old(self).par_t3(),
            final(self).par_p1() == old(self).par_p1(),
            final(self).par_p2() == old(self).par_p2(),
            final(self).par_p3() == old(self).par_p3(),
            final(self).par_p4() == old(self).par_p4(),
            final(self).par_p5() == old(self).par_p5(),
            final(self).par_p6() == old(self).par_p6(),
            final(self).par_p7() == old(self).par_p7(),
            final(self).par_p8() == old(self).par_p8(),
            final(self).par_p10() == old(self).par_p10(),
            final(self).par_p11() == old(self).par_p11(),
    {
        let bytes: [u8; 2] = i16_le_bytes(par_p9);
        self.data = [
            self.data[0],
            self.data[1],
            self.data[2],
            self.data[3],
            self.data[4],
            self.data[5],
            self.data[6],
            self.data[7],
            self.data[8],
            self.data[9],
            self.data[10],
            self.data[11],
            self.data[12],
            self.data[13],
            self.data[14],
            self.data[15],
            self.data[16],
            bytes[0],
            bytes[1],
            self.data[19],
            self.data[20],
        ];
        assert(self.data@.subrange(17, 19) =~= le_bytes_i16(par_p9));
    }

    /// Sets [`Self::par_p10`] and leaves every other byte as it was.
    pub fn write_par_p10(&mut self, par_p10: i8)
        ensures
            final(self).par_p10() == par_p10,
            final(self).data[19] == byte_of_i8(par_p10),
            forall|j: int|
                0 <= j < 21 && !(19 <= j < 20) ==> final(self).data[j] == old(self).data[j],
            final(self).par_t1() == old(self).par_t1(),
            final(self).par_t2() == old(self).par_t2(),
            final(self).par_t3() == old(self).par_t3(),
            final(self).par_p1() == old(self).par_p1(),
            final(self).par_p2() == old(self).par_p2(),
            final(self).par_p3() == old(self).par_p3(),
            final(self).par_p4() == old(self).par_p4(),
            final(self).par_p5() == old(self).par_p5(),
            final(self).par_p6() == old(self).par_p6(),
            final(self).par_p7() == old(self).par_p7(),
            final(self).par_p8() == old(self).par_p8(),
            final(self).par_p9() == old(self).par_p9(),
            final(self).par_p11() == old(self).par_p11(),
    {
        let byte: u8 = i8_to_byte(par_p10);
        self.data = [
            self.data[0],
            self.data[1],
            self.data[2],
            self.data[3],
            self.data[4],
            self.data[5],
            self.data[6],
            self.data[7],
            self.data[8],
            self.data[9],
            self.data[10],
            self.data[11],
            self.data[12],
            self.data[13],
            self.data[14],
            self.data[15],
            self.data[16],
            self.data[17],
            self.data[18],
            byte,
            self.data[20],
        ];
    }

    /// Sets [`Self::par_p11`] and leaves every other byte as it was.
    pub fn write_par_p11(&mut self, par_p11: i8)
        ensures
            final(self).par_p11() == par_p11,
            final(self).data[20] == byte_of_i8(par_p11),
            forall|j: int|
                0 <= j < 21 && !(20 <= j < 21) ==> final(self).data[j] == old(self).data[j],
            final(self).par_t1() == old(self).par_t1(),
            final(self).par_t2() == old(self).par_t2(),
            final(self).par_t3() == old(self).par_t3(),
            final(self).par_p1() == old(self).par_p1(),
            final(self).par_p2() == old(self).par_p2(),
            final(self).par_p3() == old(self).par_p3(),
            final(self).par_p4() == old(self).par_p4(),
            final(self).par_p5() == old(self).par_p5(),
            final(self).par_p6() == old(self).par_p6(),
            final(self).par_p7() == old(self).par_p7(),
            final(self).par_p8() == old(self).par_p8(),
            final(self).par_p9() == old(self).par_p9(),
            final(self).par_p10() == old(self).par_p10(),
    {
        let byte: u8 = i8_to_byte(par_p11);
        self.data = [
            self.data[0],
            self.data[1],
            self.data[2],
            self.data[3],
            self.data[4],
            self.data[5],
            self.data[6],
            self.data[7],
            self.data[8],
            self.data[9],
            self.data[10],
            self.data[11],
            self.data[12],
            self.data[13],
            self.data[14],
            self.data[15],
            self.data[16],
            self.data[17],
            self.data[18],
            self.data[19],
            byte,
        ];
    }
}

impl Default for CalibrationICoefficients {
    /// The register with every byte zero.
    fn default() -> (r: Self)
        ensures
            r.par_t1() == 0,
            r.par_t2() == 0,
            r.par_t3() == 0,
            r.par_p1() == 0,
            r.par_p2() == 0,
            r.par_p3() == 0,
            r.par_p4() == 0,
            r.par_p5() == 0,
            r.par_p6() == 0,
            r.par_p7() == 0,
            r.par_p8() == 0,
            r.par_p9() == 0,
            r.par_p10() == 0,
            r.par_p11() == 0,
    {
        CalibrationICoefficients { data: [0, 0, 0, 0, 0, 0, 0, 0, 0, 0, 0, 0, 0, 0, 0, 0, 0, 0, 0, 0, 0] }
    }
}

} // verus!
