//! What a sensor is, and which raw codes of the converters count as
//! measurements.

use vstd::prelude::*;
use crate::device::i2c::I2cAddr;
use crate::{ReadError, ReadResult};

verus! {

/// Steps of the controller's converter: its codes are below this.
pub const MSP430_ADC_RESOLUTION: u16 = 4096;

/// A disconnected input of the controller's converter gives codes below this.
pub const ADC_MIN_VALUE: u16 = 0x0010;

/// The multiplexing converter fails high: codes from this on are no
/// measurements.
pub const ADC_MAX_VALUE: u16 = 0x0FFF;

/// Lower end of the temperatures that can be written as a setpoint, in
/// thousandths of a degree Celsius. The end itself cannot be written.
pub const SETPOINT_MIN: i32 = -55000;

/// Upper end of the temperatures that can be written as a setpoint, in
/// thousandths of a degree Celsius. The end itself cannot be written.
pub const SETPOINT_MAX: i32 = 150000;

/// How a sensor is reached and what its raw value means.
#[derive(Debug, Copy, Clone, PartialEq, Eq, Structural)]
pub enum SensorInterface {
    /// Thermistor on a converter channel of the heater controller
    MSP430,
    /// Voltage on a converter channel of the heater controller
    MSP430Voltage,
    /// Current sense on a converter channel of the heater controller
    MSP430Current,
    /// Thermistor on a channel of the multiplexing converter
    ADS7828,
    /// Digital temperature sensor with a bus address of its own
    MAX31725,
}

impl SensorInterface {
    /// The name of the interface as it is reported.
    pub fn name(&self) -> (s: &'static str)
        ensures
            s@ == match *self {
                SensorInterface::MSP430 => "MSP430"@,
                SensorInterface::MSP430Voltage => "MSP430Voltage"@,
                SensorInterface::MSP430Current => "MSP430Current"@,
                SensorInterface::ADS7828 => "ADS7828"@,
                SensorInterface::MAX31725 => "MAX31725"@,
            },
    {
        match self {
            SensorInterface::MSP430 => "MSP430",
            SensorInterface::MSP430Voltage => "MSP430Voltage",
            SensorInterface::MSP430Current => "MSP430Current",
            SensorInterface::ADS7828 => "ADS7828",
            SensorInterface::MAX31725 => "MAX31725",
        }
    }
}

pub type SensorId = &'static str;

/// One entry of the sensor catalogue.
#[derive(Debug, Copy, Clone)]
pub struct Sensor {
    /// Short stable name, the key of the sensor in programs and reports
    pub id: SensorId,
    pub iface: SensorInterface,
    /// Register, channel or bus address, as the interface reads it
    pub addr: I2cAddr,
    pub label: &'static str,
    /// Position on the board in ten-thousandths of a millimetre; zero where
    /// the sensor has no fixed place
    pub pos_x: i32,
    pub pos_y: i32,
}

impl Sensor {
    pub open spec fn spec_new(
        id: SensorId,
        iface: SensorInterface,
        addr: u8,
        label: &'static str,
        pos_x: i32,
        pos_y: i32,
    ) -> Sensor {
        Sensor { id, iface, addr: I2cAddr(addr), label, pos_x, pos_y }
    }

    pub open spec fn spec_mounted(id: SensorId, iface: SensorInterface, addr: u8) -> Sensor {
        Sensor { id, iface, addr: I2cAddr(addr), label: "Mounted", pos_x: 0, pos_y: 0 }
    }

    pub open spec fn spec_circuit(id: SensorId, iface: SensorInterface, addr: u8) -> Sensor {
        Sensor { id, iface, addr: I2cAddr(addr), label: "Circuit", pos_x: 0, pos_y: 0 }
    }

    #[verifier::when_used_as_spec(spec_new)]
    pub fn new(
        id: SensorId,
        iface: SensorInterface,
        addr: u8,
        label: &'static str,
        pos_x: i32,
        pos_y: i32,
    ) -> (s: Sensor)
        ensures
            s == Self::spec_new(id, iface, addr, label, pos_x, pos_y),
    {
        Sensor { id, iface, addr: I2cAddr(addr), label, pos_x, pos_y }
    }

    /// mounted sensors have no position and a location of "Mounted"
    #[verifier::when_used_as_spec(spec_mounted)]
    pub fn mounted(id: SensorId, iface: SensorInterface, addr: u8) -> (s: Sensor)
        ensures
            s == Self::spec_mounted(id, iface, addr),
    {
        Sensor { id, iface, addr: I2cAddr(addr), label: "Mounted", pos_x: 0, pos_y: 0 }
    }

    /// circuit sensors have no position and a location of "Circuit"
    #[verifier::when_used_as_spec(spec_circuit)]
    pub fn circuit(id: SensorId, iface: SensorInterface, addr: u8) -> (s: Sensor)
        ensures
            s == Self::spec_circuit(id, iface, addr),
    {
        Sensor { id, iface, addr: I2cAddr(addr), label: "Circuit", pos_x: 0, pos_y: 0 }
    }
}

/// Whether a raw code of a thermistor channel is a measurement: the window
/// shuts out the low codes of an open input and the high codes of a failed
/// conversion.
pub open spec fn adc_code_valid(adc_val: u16) -> bool {
    ADC_MIN_VALUE <= adc_val < ADC_MAX_VALUE
}

/// Hands a thermistor code back if it is a measurement, and reports it as out
/// of range if it is not.
pub fn adc_range_check(adc_val: u16) -> (r: ReadResult<u16>)
    ensures
        adc_code_valid(adc_val) ==> r == Ok::<u16, ReadError>(adc_val),
        !adc_code_valid(adc_val) ==> r == Err::<u16, ReadError>(ReadError::ValueOutOfRange),
{
    if !(ADC_MIN_VALUE <= adc_val && adc_val < ADC_MAX_VALUE) {
        Err(ReadError::ValueOutOfRange)
    } else {
        Ok(adc_val)
    }
}

/// Whether a temperature, in thousandths of a degree Celsius, can be written
/// as a setpoint: the thermistor's transfer function is used between -55 and
/// 150 degrees, and at neither end.
pub open spec fn setpoint_ok(temp: i32) -> bool {
    SETPOINT_MIN < temp < SETPOINT_MAX
}

/// Whether a temperature, in thousandths of a degree Celsius, can be written
/// as a setpoint.
pub fn setpoint_in_range(temp: i32) -> (r: bool)
    ensures
        r == setpoint_ok(temp),
{
    SETPOINT_MIN < temp && temp < SETPOINT_MAX
}

/// Absolute zero in millionths of a degree Celsius: no temperature is below
/// it.
pub const ABSOLUTE_ZERO: i32 = -273150000;

/// The thermistor's transfer function as a table: for each code of a
/// converter the temperature that it stands for, in millionths of a degree
/// Celsius.
///
/// The table is made once by whoever can evaluate the transfer function
/// (`1 / (1/Tref + ln(4096/code - 1) / B) - 273.15` with `Tref` = 298.15 K
/// and `B` = 3630), with each temperature rounded up to the next millionth:
/// a code is then not warmer than a temperature in thousandths exactly when
/// its entry is not above it. What is done with the table is decided here.
#[derive(Debug, Clone)]
pub struct Calibration {
    pub microcelsius: Vec<i32>,
}

/// Whether a table can serve as a calibration: it has an entry for each of
/// the 4096 codes, over the valid codes the temperature rises with the code,
/// by a thousandth of a degree or more from one code to the next, the first
/// valid code is not below absolute zero, and the valid codes span the range
/// of the setpoints.
pub open spec fn is_calibration(table: Seq<i32>) -> bool {
    &&& table.len() == MSP430_ADC_RESOLUTION
    &&& forall|c: int|
        ADC_MIN_VALUE <= c && c + 1 < ADC_MAX_VALUE ==> #[trigger] table[c] + 1000 <= table[c + 1]
    &&& ABSOLUTE_ZERO <= table[ADC_MIN_VALUE as int] <= SETPOINT_MIN * 1000
    &&& table[ADC_MAX_VALUE - 1] > SETPOINT_MAX * 1000
}

/// Over the valid codes a calibration rises: a lower code stands for a lower
/// temperature.
pub proof fn lemma_calibration_rises(table: Seq<i32>, low: int, high: int)
    requires
        is_calibration(table),
        ADC_MIN_VALUE <= low <= high < ADC_MAX_VALUE,
    ensures
        table[low] + 1000 * (high - low) <= table[high],
    decreases high - low,
{
    if low < high {
        lemma_calibration_rises(table, low, high - 1);
        assert(table[high - 1] + 1000 <= table[high - 1 + 1]);
    }
}

impl Calibration {
    pub open spec fn wf(&self) -> bool {
        is_calibration(self.microcelsius@)
    }

    /// The calibration with the given table, if the table can serve as one.
    pub fn new(table: Vec<i32>) -> (r: Option<Calibration>)
        ensures
            r is Some == is_calibration(table@),
            r matches Some(c) ==> c.wf() && c.microcelsius@ == table@,
    {
        if table.len() != MSP430_ADC_RESOLUTION as usize {
            return None;
        }
        let first = table[ADC_MIN_VALUE as usize];
        let last = table[ADC_MAX_VALUE as usize - 1];
        if first < ABSOLUTE_ZERO || first > SETPOINT_MIN * 1000 || last <= SETPOINT_MAX * 1000 {
            return None;
        }
        let mut c: usize = ADC_MIN_VALUE as usize;
        while c + 1 < ADC_MAX_VALUE as usize
            invariant
                ADC_MIN_VALUE <= c < ADC_MAX_VALUE,
                table@.len() == MSP430_ADC_RESOLUTION,
                forall|k: int| ADC_MIN_VALUE <= k < c ==> #[trigger] table@[k] + 1000 <= table@[k + 1],
            decreases ADC_MAX_VALUE - c,
        {
            if table[c] as i64 + 1000 > table[c + 1] as i64 {
                return None;
            }
            c = c + 1;
        }
        Some(Calibration { microcelsius: table })
    }

    /// What a raw code of a thermistor channel reads as, in thousandths of a
    /// degree Celsius: the table's temperature, rounded down.
    pub open spec fn spec_adc_val_to_temp(self, adc_val: u16) -> ReadResult<i32> {
        if adc_code_valid(adc_val) {
            Ok((self.microcelsius@[adc_val as int] as int / 1000) as i32)
        } else {
            Err(ReadError::ValueOutOfRange)
        }
    }

    /// The temperature of a raw code of a thermistor channel, in thousandths
    /// of a degree Celsius. A code below 0x0010 or from 0x0FFF on is out of
    /// range; every code between them has a temperature.
    pub fn adc_val_to_temp(&self, adc_val: u16) -> (r: ReadResult<i32>)
        requires
            self.wf(),
        ensures
            r == self.spec_adc_val_to_temp(adc_val),
            r is Ok == adc_code_valid(adc_val),
    {
        let adc_val = adc_range_check(adc_val)?;
        let micro = self.microcelsius[adc_val as usize];
        proof {
            lemma_calibration_rises(self.microcelsius@, ADC_MIN_VALUE as int, adc_val as int);
            vstd::arithmetic::div_mod::lemma_hoist_over_denominator(micro as int, 274000, 1000);
        }
        // lifted above zero by a round figure, the division is one of natural numbers
        let lifted: i64 = micro as i64 + 274000000;
        Ok((lifted / 1000 - 274000) as i32)
    }

    /// Whether `code` is the code of the temperature `temp`, in thousandths
    /// of a degree Celsius: the valid code whose temperature is the highest
    /// that is not above `temp`.
    pub open spec fn is_code_of(self, code: u16, temp: i32) -> bool {
        &&& adc_code_valid(code)
        &&& adc_code_valid((code + 1) as u16)
        &&& self.microcelsius@[code as int] <= temp * 1000 < self.microcelsius@[code + 1]
    }

    /// The code that stands for a temperature, in thousandths of a degree
    /// Celsius, for writing a setpoint. The temperature must be one that can
    /// be written as a setpoint.
    pub fn temp_to_adc_val(&self, temp: i32) -> (code: u16)
        requires
            self.wf(),
            setpoint_ok(temp),
        ensures
            self.is_code_of(code, temp),
    {
        let target: i32 = temp * 1000;
        let mut low: usize = ADC_MIN_VALUE as usize;
        let mut high: usize = ADC_MAX_VALUE as usize - 1;
        while low + 1 < high
            invariant
                self.wf(),
                target == temp * 1000,
                ADC_MIN_VALUE <= low < high < ADC_MAX_VALUE,
                self.microcelsius@[low as int] <= target < self.microcelsius@[high as int],
            decreases high - low,
        {
            let mid = low + (high - low) / 2;
            if self.microcelsius[mid] <= target {
                low = mid;
            } else {
                high = mid;
            }
        }
        low as u16
    }

    /// The code that stands for a temperature, or `None` for a temperature
    /// that cannot be written as a setpoint.
    pub fn try_temp_to_adc_val(&self, temp: i32) -> (r: Option<u16>)
        requires
            self.wf(),
        ensures
            r is Some == setpoint_ok(temp),
            r matches Some(code) ==> self.is_code_of(code, temp),
    {
        if setpoint_in_range(temp) {
            Some(self.temp_to_adc_val(temp))
        } else {
            None
        }
    }
}

/// A temperature has one code only.
pub proof fn lemma_code_is_unique(cal: Calibration, temp: i32, first: u16, second: u16)
    requires
        cal.wf(),
        cal.is_code_of(first, temp),
        cal.is_code_of(second, temp),
    ensures
        first == second,
{
    if first < second {
        lemma_calibration_rises(cal.microcelsius@, first + 1, second as int);
    } else if second < first {
        lemma_calibration_rises(cal.microcelsius@, second + 1, first as int);
    }
}

/// Round trip. Going from a temperature that can be written as a setpoint to
/// its code and back gives a temperature that is not above the first, while
/// the next code already reads at or above it: the two differ by less than
/// the step of one code. Going from a valid code to its temperature and back
/// gives the code again, or the one below it where the temperature was
/// rounded down onto that one's.
pub proof fn lemma_calibration_round_trip(cal: Calibration, temp: i32, code: u16)
    requires
        cal.wf(),
        setpoint_ok(temp),
        cal.is_code_of(code, temp),
    ensures
        cal.spec_adc_val_to_temp(code) is Ok,
        cal.spec_adc_val_to_temp(code).unwrap() <= temp,
        cal.spec_adc_val_to_temp((code + 1) as u16) is Ok,
        temp <= cal.spec_adc_val_to_temp((code + 1) as u16).unwrap(),
        forall|other: u16|
            adc_code_valid(other) && cal.spec_adc_val_to_temp(other) == Ok::<i32, ReadError>(temp)
                ==> other == code || other == code + 1,
{
    assert forall|other: u16|
        adc_code_valid(other) && cal.spec_adc_val_to_temp(other) == Ok::<i32, ReadError>(
            temp,
        ) implies other == code || other == code + 1 by {
        let t = cal.microcelsius@;
        assert(temp * 1000 <= t[other as int] < temp * 1000 + 1000) by {
            vstd::arithmetic::div_mod::lemma_fundamental_div_mod(t[other as int] as int, 1000);
            vstd::arithmetic::div_mod::lemma_mod_bound(t[other as int] as int, 1000);
        }
        if other < code {
            lemma_calibration_rises(t, other as int, code as int);
        } else if other > code + 1 {
            lemma_calibration_rises(t, code + 1, other as int);
        }
    }
}

} // verus!
