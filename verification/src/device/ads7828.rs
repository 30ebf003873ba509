//! The ADS7828, a multiplexing converter with eight thermistor channels.

use vstd::prelude::*;
use crate::board::BoardVersion;
use crate::device::i2c::{BusRead, BusReply, I2cAddr, I2cBus, I2cByteOrder, I2cDevice, I2cReg, LoggingI2cDevice};
use crate::reading::{Measurement, SensorReading};
use crate::sensors::{adc_code_valid, adc_range_check};
use crate::{ReadError, ReadResult};

verus! {

/// Bus address of the converter on boards of the first revision.
pub const ADS7828_I2C_ADDR_V1: u8 = 0x48;

/// Bus address of the converter on boards of the later revisions.
pub const ADS7828_I2C_ADDR_V2: u8 = 0x4A;

/// Steps of the converter: its codes are below this.
pub const ADS7828_ADC_RESOLUTION: u16 = 4096;

/// The converter's channel-select field for a logical channel: the top bit
/// says odd or even, the low bits hold half the channel number.
pub open spec fn channel_select(addr: u8) -> u8 {
    ((addr & 0x01) << 2) | (addr >> 1)
}

/// The command byte that reads a logical channel: start bit and power-down
/// bit set, and the channel-select field in bits 4 to 6.
pub open spec fn command(addr: u8) -> u8 {
    0x84 | (channel_select(addr) << 4)
}

/// The bus address of the converter on a board of the given revision.
pub open spec fn converter_addr(version: BoardVersion) -> I2cAddr {
    match version {
        BoardVersion::V1_1 => I2cAddr(ADS7828_I2C_ADDR_V1),
        _ => I2cAddr(ADS7828_I2C_ADDR_V2),
    }
}

/// One thermistor channel of the converter.
#[derive(Debug, Clone)]
pub struct Ads7828Sensor {
    pub device: LoggingI2cDevice,
    pub name: String,
    pub reg: I2cReg,
}

impl Ads7828Sensor {
    /// The sensor `name` on logical channel `reg` of the converter of a board
    /// of the given revision. Its own name is `ads7828/` and `name`.
    pub fn new(version: BoardVersion, bus: I2cBus, name: String, reg: I2cAddr) -> (s: Self)
        ensures
            s.name@ == "ads7828/"@ + name@,
            s.device.name@ == s.name@,
            s.device.device == (I2cDevice {
                bus,
                addr: converter_addr(version),
                byte_order: I2cByteOrder::BigEndian,
            }),
            s.reg == I2cReg(command(reg.0)),
    {
        let mut full = String::from_str("ads7828/");
        full.append(name.as_str());
        let addr = match version {
            BoardVersion::V1_1 => I2cAddr(ADS7828_I2C_ADDR_V1),
            _ => I2cAddr(ADS7828_I2C_ADDR_V2),
        };
        let device = LoggingI2cDevice::new(full.clone(), I2cDevice::big_endian(bus, addr));
        let reg = Self::ads7828_command(reg);
        Ads7828Sensor { device, name: full, reg }
    }

    /// The command byte for a logical channel, as the register to read.
    pub fn ads7828_command(addr: I2cAddr) -> (r: I2cReg)
        ensures
            r == I2cReg(command(addr.0)),
    {
        // set SD = 1, PD0 = 1
        I2cReg(0x84 | (Self::ads7828_channel_select(addr.0) << 4))
    }

    /// The channel-select field for a logical channel.
    pub fn ads7828_channel_select(addr: u8) -> (r: u8)
        ensures
            r == channel_select(addr),
    {
        ((addr & 0x01) << 2) | (addr >> 1)
    }

    /// The read that samples this channel.
    pub fn request(&self) -> (r: BusRead)
        ensures
            r == (BusRead { bus: self.device.device.bus, addr: self.device.device.addr, reg: self.reg }),
    {
        self.device.read_request(self.reg)
    }

    /// What a reply to this channel's read means.
    pub open spec fn spec_read(self, reply: BusReply) -> ReadResult<SensorReading<Measurement>> {
        match self.device.spec_read_register(reply) {
            Err(e) => Err(e),
            Ok(raw) => if adc_code_valid(raw) {
                Ok(SensorReading { raw_value: raw, display_value: Measurement::Thermistor { code: raw } })
            } else {
                Err(ReadError::ValueOutOfRange)
            },
        }
    }

    /// The reading that a reply to this channel's read holds: the thermistor
    /// code, if the transfer went well and the code is inside the valid
    /// window.
    pub fn read(&self, reply: &BusReply) -> (r: ReadResult<SensorReading<Measurement>>)
        ensures
            r == self.spec_read(*reply),
    {
        let raw_value = self.device.read_register(reply)?;
        let code = adc_range_check(raw_value)?;
        Ok(SensorReading::new(raw_value, Measurement::Thermistor { code }))
    }
}

/// The channel-select fields of the logical channels 0 to 7 are 0, 4, 1, 5,
/// 2, 6, 3, 7, and their command bytes 0x84, 0xC4, 0x94, 0xD4, 0xA4, 0xE4,
/// 0xB4, 0xF4.
pub proof fn lemma_channel_encoding(addr: u8)
    requires
        addr < 8,
    ensures
        channel_select(addr) == (addr % 2) * 4 + addr / 2,
        command(addr) == 0x84 + 16 * channel_select(addr),
        addr == 0 ==> channel_select(addr) == 0 && command(addr) == 0x84,
        addr == 1 ==> channel_select(addr) == 4 && command(addr) == 0xC4,
        addr == 2 ==> channel_select(addr) == 1 && command(addr) == 0x94,
        addr == 3 ==> channel_select(addr) == 5 && command(addr) == 0xD4,
        addr == 4 ==> channel_select(addr) == 2 && command(addr) == 0xA4,
        addr == 5 ==> channel_select(addr) == 6 && command(addr) == 0xE4,
        addr == 6 ==> channel_select(addr) == 3 && command(addr) == 0xB4,
        addr == 7 ==> channel_select(addr) == 7 && command(addr) == 0xF4,
{
    assert(addr < 8 ==> (((addr & 0x01) << 2) | (addr >> 1)) == (addr % 2) * 4 + addr / 2)
        by (bit_vector);
    let cs = channel_select(addr);
    assert(cs < 8 ==> (0x84u8 | (cs << 4)) == 0x84 + 16 * cs) by (bit_vector);
}

} // verus!
