//! The MAX31725, a digital temperature sensor with a bus address of its own.

use vstd::prelude::*;
use crate::device::i2c::{BusRead, BusReply, I2cAddr, I2cBus, I2cByteOrder, I2cDevice, I2cReg, LoggingI2cDevice};
use crate::reading::{signed16, Measurement, SensorReading};
use crate::ReadResult;

verus! {

/// The sensor's temperature register.
pub const MAX31725_REG_TEMP: u8 = 0x00;

/// One digital temperature sensor.
#[derive(Debug, Clone)]
pub struct Max31725Sensor {
    pub name: String,
    pub device: LoggingI2cDevice,
}

impl Max31725Sensor {
    /// The sensor `name` at bus address `addr`.
    pub fn new(bus: I2cBus, name: String, addr: I2cAddr) -> (s: Self)
        ensures
            s.name@ == name@,
            s.device.name@ == name@,
            s.device.device == (I2cDevice { bus, addr, byte_order: I2cByteOrder::BigEndian }),
    {
        let device = LoggingI2cDevice::new(name.clone(), I2cDevice::big_endian(bus, addr));
        Max31725Sensor { name, device }
    }

    /// The read that fetches the sensor's temperature.
    pub fn request(&self) -> (r: BusRead)
        ensures
            r == (BusRead {
                bus: self.device.device.bus,
                addr: self.device.device.addr,
                reg: I2cReg(MAX31725_REG_TEMP),
            }),
    {
        self.device.read_request(I2cReg(MAX31725_REG_TEMP))
    }

    /// What a reply to the sensor's read means.
    pub open spec fn spec_read(self, reply: BusReply) -> ReadResult<SensorReading<Measurement>> {
        match self.device.spec_read_register(reply) {
            Err(e) => Err(e),
            Ok(raw) => Ok(
                SensorReading {
                    raw_value: raw,
                    display_value: Measurement::CelsiusQ8 { q8: signed16(raw) as i16 },
                },
            ),
        }
    }

    /// The reading that a reply to the sensor's read holds: the register is a
    /// signed number of 256ths of a degree Celsius.
    pub fn read(&self, reply: &BusReply) -> (r: ReadResult<SensorReading<Measurement>>)
        ensures
            r == self.spec_read(*reply),
    {
        let raw_value = self.device.read_register(reply)?;
        let display_value = Measurement::from_q8(raw_value);
        Ok(SensorReading::new(raw_value, display_value))
    }
}

} // verus!
