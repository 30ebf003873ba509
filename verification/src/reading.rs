//! A reading: the raw register value and what it stands for.

use vstd::prelude::*;
use crate::device::ads7828::Ads7828Sensor;
use crate::device::i2c::{BusRead, BusReply, I2cReg};
use crate::device::max31725::{Max31725Sensor, MAX31725_REG_TEMP};
use crate::device::msp430::{thermistor_reading, Msp430CurrentSensor, Msp430TempSensor, Msp430VoltageSensor};
use crate::sensors::Calibration;
use crate::{ReadError, ReadResult};

verus! {

/// What was read from one register: the raw value and its meaning.
#[derive(Debug, Copy, Clone)]
pub struct SensorReading<T> {
    pub raw_value: u16,
    pub display_value: T,
}

impl<T> SensorReading<T> {
    pub fn new(raw_value: u16, display_value: T) -> (r: Self)
        ensures
            r.raw_value == raw_value,
            r.display_value == display_value,
    {
        SensorReading { raw_value, display_value }
    }
}

/// The value of a catalogue sensor in the unit of its channel.
#[derive(Debug, Copy, Clone, PartialEq, Eq, Structural)]
pub enum Measurement {
    /// A thermistor code inside the valid window. The thermistor's transfer
    /// function gives the temperature that belongs to it.
    Thermistor { code: u16 },
    /// A temperature in 256ths of a degree Celsius.
    CelsiusQ8 { q8: i16 },
    /// A voltage in thousandths of a volt.
    MilliVolts { value: i32 },
    /// A current-sense value in thousandths.
    MilliAmps { value: i32 },
}

/// A register value taken as a signed 16-bit number in two's complement.
pub open spec fn signed16(raw: u16) -> int {
    if raw < 0x8000 {
        raw as int
    } else {
        raw as int - 0x10000
    }
}

/// The reading of a voltage channel in thousandths of a volt, rounded down:
/// the code over the converter's 4096 steps, times the 3.35 V reference,
/// times the divider's factor of 2.
pub open spec fn voltage_millis(code: u16) -> int {
    (code as int * 6700) / 4096
}

/// The reading of the current-sense channel in thousandths, rounded down: the
/// code over the converter's 4096 steps, times the 3.35 V reference.
pub open spec fn current_millis(code: u16) -> int {
    (code as int * 3350) / 4096
}

impl Measurement {
    /// The temperature of a register value of the digital temperature sensor:
    /// the value is a signed number of 256ths of a degree.
    pub fn from_q8(raw: u16) -> (m: Measurement)
        ensures
            m == (Measurement::CelsiusQ8 { q8: signed16(raw) as i16 }),
    {
        if raw < 0x8000 {
            Measurement::CelsiusQ8 { q8: raw as i16 }
        } else {
            let v: i32 = raw as i32 - 0x10000;
            Measurement::CelsiusQ8 { q8: v as i16 }
        }
    }

    /// The voltage of a code of a voltage channel.
    pub fn from_voltage_code(code: u16) -> (m: Measurement)
        ensures
            m == (Measurement::MilliVolts { value: voltage_millis(code) as i32 }),
            0 <= voltage_millis(code) <= 107199,
    {
        let v: u32 = (code as u32 * 6700) / 4096;
        Measurement::MilliVolts { value: v as i32 }
    }

    /// The value of a code of the current-sense channel.
    pub fn from_current_code(code: u16) -> (m: Measurement)
        ensures
            m == (Measurement::MilliAmps { value: current_millis(code) as i32 }),
            0 <= current_millis(code) <= 53599,
    {
        let v: u32 = (code as u32 * 3350) / 4096;
        Measurement::MilliAmps { value: v as i32 }
    }

    /// The value in thousandths of its unit: a voltage or current as it
    /// stands, a temperature in 256ths rounded down, and the temperature of
    /// a thermistor code by the calibration. A thermistor code outside the
    /// valid window has none and is out of range.
    pub open spec fn spec_millis(self, cal: Calibration) -> ReadResult<i32> {
        match self {
            Measurement::Thermistor { code } => cal.spec_adc_val_to_temp(code),
            Measurement::CelsiusQ8 { q8 } => Ok(((q8 as int * 1000) / 256) as i32),
            Measurement::MilliVolts { value } => Ok(value),
            Measurement::MilliAmps { value } => Ok(value),
        }
    }

    pub fn millis(&self, cal: &Calibration) -> (r: ReadResult<i32>)
        requires
            cal.wf(),
        ensures
            r == self.spec_millis(*cal),
    {
        match *self {
            Measurement::Thermistor { code } => cal.adc_val_to_temp(code),
            Measurement::CelsiusQ8 { q8 } => {
                // lifted above zero by a round figure, the division is one of natural numbers
                let lifted: i32 = q8 as i32 * 1000 + 32768000;
                proof {
                    vstd::arithmetic::div_mod::lemma_hoist_over_denominator(q8 as int * 1000, 128000, 256);
                }
                Ok(lifted / 256 - 128000)
            },
            Measurement::MilliVolts { value } => Ok(value),
            Measurement::MilliAmps { value } => Ok(value),
        }
    }
}

/// The value of a reading in thousandths of its unit, or the reading's
/// error.
pub open spec fn spec_reading_millis(
    cal: Calibration,
    reading: ReadResult<SensorReading<Measurement>>,
) -> ReadResult<i32> {
    match reading {
        Err(e) => Err(e),
        Ok(v) => v.display_value.spec_millis(cal),
    }
}

pub fn reading_millis(cal: &Calibration, reading: &ReadResult<SensorReading<Measurement>>) -> (r: ReadResult<
    i32,
>)
    requires
        cal.wf(),
    ensures
        r == spec_reading_millis(*cal, *reading),
{
    match reading {
        Err(e) => Err(*e),
        Ok(v) => v.display_value.millis(cal),
    }
}

/// Stands in the catalogue for a sensor that a board revision lacks. Reading
/// it never touches the bus and always reports that it is disabled.
#[derive(Debug, Clone)]
pub struct DisabledSensor {
    pub name: String,
}

impl DisabledSensor {
    pub fn new(name: String) -> (s: Self)
        ensures
            s.name == name,
    {
        Self { name }
    }

    pub fn read(&self) -> (r: ReadResult<SensorReading<Measurement>>)
        ensures
            r == Err::<SensorReading<Measurement>, ReadError>(ReadError::Disabled),
    {
        Err(ReadError::Disabled)
    }
}

/// A sensor of a board's catalogue, bound to its driver.
#[derive(Debug, Clone)]
pub enum ReadableSensor {
    Msp430Temp(Msp430TempSensor),
    Msp430Voltage(Msp430VoltageSensor),
    Msp430Current(Msp430CurrentSensor),
    Ads7828(Ads7828Sensor),
    Max31725(Max31725Sensor),
    Disabled(DisabledSensor),
}

impl ReadableSensor {
    /// The name of the sensor.
    pub open spec fn spec_name(self) -> Seq<char> {
        match self {
            ReadableSensor::Msp430Temp(s) => s.name@,
            ReadableSensor::Msp430Voltage(s) => s.name@,
            ReadableSensor::Msp430Current(s) => s.name@,
            ReadableSensor::Ads7828(s) => s.name@,
            ReadableSensor::Max31725(s) => s.name@,
            ReadableSensor::Disabled(s) => s.name@,
        }
    }

    pub fn name(&self) -> (n: String)
        ensures
            n@ == self.spec_name(),
    {
        match self {
            ReadableSensor::Msp430Temp(s) => s.name.clone(),
            ReadableSensor::Msp430Voltage(s) => s.name.clone(),
            ReadableSensor::Msp430Current(s) => s.name.clone(),
            ReadableSensor::Ads7828(s) => s.name.clone(),
            ReadableSensor::Max31725(s) => s.name.clone(),
            ReadableSensor::Disabled(s) => s.name.clone(),
        }
    }

    /// The read that samples the sensor; a disabled sensor has none.
    pub open spec fn spec_request(self) -> Option<BusRead> {
        match self {
            ReadableSensor::Msp430Temp(s) => Some(
                BusRead {
                    bus: s.device.device.device.bus,
                    addr: s.device.device.device.addr,
                    reg: s.reg,
                },
            ),
            ReadableSensor::Msp430Voltage(s) => Some(
                BusRead {
                    bus: s.device.device.device.bus,
                    addr: s.device.device.device.addr,
                    reg: s.reg,
                },
            ),
            ReadableSensor::Msp430Current(s) => Some(
                BusRead {
                    bus: s.device.device.device.bus,
                    addr: s.device.device.device.addr,
                    reg: s.reg,
                },
            ),
            ReadableSensor::Ads7828(s) => Some(
                BusRead { bus: s.device.device.bus, addr: s.device.device.addr, reg: s.reg },
            ),
            ReadableSensor::Max31725(s) => Some(
                BusRead {
                    bus: s.device.device.bus,
                    addr: s.device.device.addr,
                    reg: I2cReg(MAX31725_REG_TEMP),
                },
            ),
            ReadableSensor::Disabled(s) => None,
        }
    }

    pub fn request(&self) -> (r: Option<BusRead>)
        ensures
            r == self.spec_request(),
    {
        match self {
            ReadableSensor::Msp430Temp(s) => Some(s.request()),
            ReadableSensor::Msp430Voltage(s) => Some(s.request()),
            ReadableSensor::Msp430Current(s) => Some(s.request()),
            ReadableSensor::Ads7828(s) => Some(s.request()),
            ReadableSensor::Max31725(s) => Some(s.request()),
            ReadableSensor::Disabled(s) => None,
        }
    }

    /// What the reply to the sensor's read means. A disabled sensor is
    /// disabled whatever the reply.
    pub open spec fn spec_read(self, reply: BusReply) -> ReadResult<SensorReading<Measurement>> {
        match self {
            ReadableSensor::Msp430Temp(s) => thermistor_reading(
                s.device.device.spec_read_register(reply),
            ),
            ReadableSensor::Msp430Voltage(s) => s.spec_read(reply),
            ReadableSensor::Msp430Current(s) => s.spec_read(reply),
            ReadableSensor::Ads7828(s) => s.spec_read(reply),
            ReadableSensor::Max31725(s) => s.spec_read(reply),
            ReadableSensor::Disabled(s) => Err(ReadError::Disabled),
        }
    }

    pub fn read(&self, reply: &BusReply) -> (r: ReadResult<SensorReading<Measurement>>)
        ensures
            r == self.spec_read(*reply),
    {
        match self {
            ReadableSensor::Msp430Temp(s) => s.read(reply),
            ReadableSensor::Msp430Voltage(s) => s.read(reply),
            ReadableSensor::Msp430Current(s) => s.read(reply),
            ReadableSensor::Ads7828(s) => s.read(reply),
            ReadableSensor::Max31725(s) => s.read(reply),
            ReadableSensor::Disabled(s) => s.read(),
        }
    }
}

} // verus!
