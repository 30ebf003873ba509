//! One payload board: its identity and revision, the catalogue of its
//! sensors, its status flags and the electrical state of its heater.

use vstd::prelude::*;
use crate::device::ads7828::{command, converter_addr, Ads7828Sensor};
use crate::device::i2c::{BusRead, BusReply, BusWrite, I2cBus, I2cByteOrder, I2cDevice, I2cReg};
use crate::device::max31725::Max31725Sensor;
use crate::device::msp430::{
    thermistor_reading, HeaterRegister, Msp430, Msp430CurrentSensor, Msp430TempSensor,
    Msp430VoltageSensor, MSP430_WRITE_HEATER_MAX_TEMP, MSP430_WRITE_HEATER_MODE,
    MSP430_WRITE_HEATER_PWM_DUTY_CYCLE, MSP430_WRITE_HEATER_TARGET_SENSOR,
    MSP430_WRITE_HEATER_TARGET_TEMP,
};
use crate::heater::{HeaterMode, TargetSensor};
use crate::reading::{DisabledSensor, Measurement, ReadableSensor, SensorReading};
use crate::sensors::{Calibration, setpoint_ok, Sensor, SensorInterface};
use crate::text::same_text;
use crate::{ReadError, ReadResult};

verus! {

/// Hardware revision of a board.
#[derive(Debug, Copy, Clone, PartialEq, Eq, Structural)]
pub enum BoardVersion {
    V1_1,
    V2_0,
    V2_2,
}

impl BoardVersion {
    /// The revision as a number: its major and minor digit, times ten.
    pub fn number(&self) -> (n: u16)
        ensures
            n == match *self {
                BoardVersion::V1_1 => 110u16,
                BoardVersion::V2_0 => 200u16,
                BoardVersion::V2_2 => 220u16,
            },
    {
        match self {
            BoardVersion::V1_1 => 110,
            BoardVersion::V2_0 => 200,
            BoardVersion::V2_2 => 220,
        }
    }

    /// The name of the revision as it is reported.
    pub open spec fn name_text(self) -> Seq<char> {
        match self {
            BoardVersion::V1_1 => "v1.1"@,
            BoardVersion::V2_0 => "v2.0"@,
            BoardVersion::V2_2 => "v2.2"@,
        }
    }

    pub fn name(&self) -> (s: &'static str)
        ensures
            s@ == self.name_text(),
    {
        match self {
            BoardVersion::V1_1 => "v1.1",
            BoardVersion::V2_0 => "v2.0",
            BoardVersion::V2_2 => "v2.2",
        }
    }

    /// Whether a board of this revision carries the sensor: the first
    /// revision lacks `U4`, the later ones have every sensor.
    pub open spec fn spec_is_sensor_enabled(self, sensor: Sensor) -> bool {
        match self {
            BoardVersion::V1_1 => sensor.id@ != "U4"@,
            BoardVersion::V2_0 => true,
            BoardVersion::V2_2 => true,
        }
    }

    pub fn is_sensor_enabled(&self, sensor: &Sensor) -> (r: bool)
        ensures
            r == self.spec_is_sensor_enabled(*sensor),
    {
        match self {
            BoardVersion::V1_1 => !same_text(sensor.id, "U4"),
            BoardVersion::V2_0 => true,
            BoardVersion::V2_2 => true,
        }
    }
}

/// Which of the two boards of the payload. The number of a board is the
/// number of the bus that it sits on.
#[derive(Debug, Copy, Clone, PartialEq, Eq, Hash, Structural)]
pub enum BoardId {
    Top,
    Bottom,
}

impl BoardId {
    /// The number of the board's bus: 1 for the top board, 2 for the bottom
    /// one.
    pub open spec fn spec_bus_id(self) -> u8 {
        match self {
            BoardId::Top => 1,
            BoardId::Bottom => 2,
        }
    }

    #[verifier::when_used_as_spec(spec_bus_id)]
    pub fn bus_id(self) -> (id: u8)
        ensures
            id == self.spec_bus_id(),
    {
        match self {
            BoardId::Top => 1,
            BoardId::Bottom => 2,
        }
    }

    /// The board's bus.
    pub fn bus(&self) -> (bus: I2cBus)
        ensures
            bus == (I2cBus { id: self.spec_bus_id() }),
    {
        I2cBus { id: self.bus_id() }
    }

    /// The board of a bus number, if it is one.
    pub open spec fn spec_try_from(value: u8) -> Result<BoardId, ()> {
        if value == 1 {
            Ok(BoardId::Top)
        } else if value == 2 {
            Ok(BoardId::Bottom)
        } else {
            Err(())
        }
    }

    pub fn try_from(value: u8) -> (r: Result<BoardId, ()>)
        ensures
            r == Self::spec_try_from(value),
    {
        match value {
            1 => Ok(BoardId::Top),
            2 => Ok(BoardId::Bottom),
            _ => Err(()),
        }
    }

    /// The board of a bus number written as text: `1` or `2`.
    pub fn try_from_str(value: &str) -> (r: Result<BoardId, ()>)
        ensures
            r == if value@ == "1"@ {
                Ok::<BoardId, ()>(BoardId::Top)
            } else if value@ == "2"@ {
                Ok::<BoardId, ()>(BoardId::Bottom)
            } else {
                Err::<BoardId, ()>(())
            },
    {
        if same_text(value, "1") {
            Ok(BoardId::Top)
        } else if same_text(value, "2") {
            Ok(BoardId::Bottom)
        } else {
            Err(())
        }
    }

    /// The name of the board as it is reported.
    pub open spec fn name_text(self) -> Seq<char> {
        match self {
            BoardId::Top => "top"@,
            BoardId::Bottom => "bottom"@,
        }
    }

    pub fn name(&self) -> (s: &'static str)
        ensures
            s@ == self.name_text(),
    {
        match self {
            BoardId::Top => "top",
            BoardId::Bottom => "bottom",
        }
    }
}

/// Number of sensors in the catalogue of every board.
pub const SENSOR_COUNT: usize = 23;

/// The sensor catalogue, entry by entry. The order is that of the columns of
/// a report.
pub open spec fn catalog_entry(index: int) -> Sensor {
    if index == 0 {
        Sensor::new("TH1", SensorInterface::MSP430, 0x01, "Centre", (-420135i32), 431800)
    } else if index == 1 {
        Sensor::new("TH2", SensorInterface::MSP430, 0x02, "Top-left of heater", (-357124i32), 546100)
    } else if index == 2 {
        Sensor::new("TH3", SensorInterface::MSP430, 0x03, "Bottom-right of heater", (-538800i32), 334960)
    } else if index == 3 {
        Sensor::new("U4", SensorInterface::MAX31725, 0x48, "Top-left", (-159760i32), 752250)
    } else if index == 4 {
        Sensor::new("U5", SensorInterface::MAX31725, 0x4F, "Top-right", 817880, 756920)
    } else if index == 5 {
        Sensor::new("U6", SensorInterface::MAX31725, 0x49, "Bottom-right", (-822960i32), 128535)
    } else if index == 6 {
        Sensor::new("U7", SensorInterface::MAX31725, 0x4B, "Centre", 462280, 477520)
    } else if index == 7 {
        Sensor::new("TH4", SensorInterface::ADS7828, 0x00, "Centre", (-458705i32), 431800)
    } else if index == 8 {
        Sensor::new("TH5", SensorInterface::ADS7828, 0x01, "Top-right", (-779814i32), 750769)
    } else if index == 9 {
        Sensor::new("TH6", SensorInterface::ADS7828, 0x02, "Bottom-left of heater", 332740, 302260)
    } else if index == 10 {
        Sensor::mounted("J7", SensorInterface::MSP430, 0x04)
    } else if index == 11 {
        Sensor::mounted("J8", SensorInterface::MSP430, 0x05)
    } else if index == 12 {
        Sensor::mounted("J12", SensorInterface::ADS7828, 0x03)
    } else if index == 13 {
        Sensor::mounted("J13", SensorInterface::ADS7828, 0x04)
    } else if index == 14 {
        Sensor::mounted("J14", SensorInterface::ADS7828, 0x05)
    } else if index == 15 {
        Sensor::mounted("J15", SensorInterface::ADS7828, 0x06)
    } else if index == 16 {
        Sensor::mounted("J16", SensorInterface::ADS7828, 0x07)
    } else if index == 17 {
        Sensor::circuit("v_high", SensorInterface::MSP430Voltage, 0x08)
    } else if index == 18 {
        Sensor::circuit("v_low", SensorInterface::MSP430Voltage, 0x06)
    } else if index == 19 {
        Sensor::circuit("v_curr", SensorInterface::MSP430Current, 0x07)
    } else if index == 20 {
        Sensor::circuit("v_high_avg", SensorInterface::MSP430Voltage, 0x38)
    } else if index == 21 {
        Sensor::circuit("v_low_avg", SensorInterface::MSP430Voltage, 0x36)
    } else {
        Sensor::circuit("v_curr_avg", SensorInterface::MSP430Current, 0x37)
    }
}

/// The entry of the catalogue at `index`.
pub fn sensor_at(index: usize) -> (s: Sensor)
    requires
        index < SENSOR_COUNT,
    ensures
        s == catalog_entry(index as int),
{
    match index {
        0 => Sensor::new("TH1", SensorInterface::MSP430, 0x01, "Centre", (-420135i32), 431800),
        1 => Sensor::new("TH2", SensorInterface::MSP430, 0x02, "Top-left of heater", (-357124i32), 546100),
        2 => Sensor::new("TH3", SensorInterface::MSP430, 0x03, "Bottom-right of heater", (-538800i32), 334960),
        3 => Sensor::new("U4", SensorInterface::MAX31725, 0x48, "Top-left", (-159760i32), 752250),
        4 => Sensor::new("U5", SensorInterface::MAX31725, 0x4F, "Top-right", 817880, 756920),
        5 => Sensor::new("U6", SensorInterface::MAX31725, 0x49, "Bottom-right", (-822960i32), 128535),
        6 => Sensor::new("U7", SensorInterface::MAX31725, 0x4B, "Centre", 462280, 477520),
        7 => Sensor::new("TH4", SensorInterface::ADS7828, 0x00, "Centre", (-458705i32), 431800),
        8 => Sensor::new("TH5", SensorInterface::ADS7828, 0x01, "Top-right", (-779814i32), 750769),
        9 => Sensor::new("TH6", SensorInterface::ADS7828, 0x02, "Bottom-left of heater", 332740, 302260),
        10 => Sensor::mounted("J7", SensorInterface::MSP430, 0x04),
        11 => Sensor::mounted("J8", SensorInterface::MSP430, 0x05),
        12 => Sensor::mounted("J12", SensorInterface::ADS7828, 0x03),
        13 => Sensor::mounted("J13", SensorInterface::ADS7828, 0x04),
        14 => Sensor::mounted("J14", SensorInterface::ADS7828, 0x05),
        15 => Sensor::mounted("J15", SensorInterface::ADS7828, 0x06),
        16 => Sensor::mounted("J16", SensorInterface::ADS7828, 0x07),
        17 => Sensor::circuit("v_high", SensorInterface::MSP430Voltage, 0x08),
        18 => Sensor::circuit("v_low", SensorInterface::MSP430Voltage, 0x06),
        19 => Sensor::circuit("v_curr", SensorInterface::MSP430Current, 0x07),
        20 => Sensor::circuit("v_high_avg", SensorInterface::MSP430Voltage, 0x38),
        21 => Sensor::circuit("v_low_avg", SensorInterface::MSP430Voltage, 0x36),
        _ => Sensor::circuit("v_curr_avg", SensorInterface::MSP430Current, 0x37),
    }
}

/// The whole catalogue.
pub open spec fn catalog() -> Seq<Sensor> {
    Seq::new(SENSOR_COUNT as nat, |i: int| catalog_entry(i))
}

/// The whole catalogue, in its order.
pub fn all_sensors() -> (v: Vec<Sensor>)
    ensures
        v@ == catalog(),
{
    let mut v: Vec<Sensor> = Vec::new();
    let mut i: usize = 0;
    while i < SENSOR_COUNT
        invariant
            i <= SENSOR_COUNT,
            v@.len() == i,
            forall|k: int| 0 <= k < i ==> v@[k] == catalog_entry(k),
        decreases SENSOR_COUNT - i,
    {
        v.push(sensor_at(i));
        i = i + 1;
    }
    assert(v@ =~= catalog());
    v
}

/// Resistance of the current-sense shunt is a twentieth of an ohm: a voltage
/// across it, times this, is the current through it.
pub const CURRENT_SENSE_PER_OHM: i64 = 20;

/// The rail, in thousandths of a volt, from which on the shunt's reading is
/// not valid.
pub const SHUNT_RAIL_LIMIT: i32 = 3000;

/// Voltage across the heater in thousandths of a volt. The first revision
/// has no sense circuit; the later ones measure the high side less the low
/// side, and never below zero.
pub open spec fn spec_heater_voltage(version: BoardVersion, v_high: int, v_low: int) -> int {
    match version {
        BoardVersion::V1_1 => 0,
        _ => if v_high - v_low > 0 {
            v_high - v_low
        } else {
            0
        },
    }
}

/// Current through the heater in thousandths of an ampere. The first
/// revision has no sense circuit. Revision 2.0 reads the current directly.
/// Revision 2.2 has it from the drop across the shunt, which counts only
/// while both sides are below the 3.0 V rail, and never below zero.
pub open spec fn spec_heater_current(version: BoardVersion, v_low: int, v_curr: int) -> int {
    match version {
        BoardVersion::V1_1 => 0,
        BoardVersion::V2_0 => v_curr,
        BoardVersion::V2_2 => if v_curr < SHUNT_RAIL_LIMIT && v_low < SHUNT_RAIL_LIMIT {
            if v_low - v_curr > 0 {
                (v_low - v_curr) * CURRENT_SENSE_PER_OHM
            } else {
                0
            }
        } else {
            0
        },
    }
}

/// Power of the heater in millionths of a watt: voltage times current.
pub open spec fn spec_heater_power(
    version: BoardVersion,
    v_high: int,
    v_low: int,
    v_curr: int,
) -> int {
    spec_heater_voltage(version, v_high, v_low) * spec_heater_current(version, v_low, v_curr)
}

/// Power of the heater in millionths of a watt, from the three channels in
/// thousandths of a volt.
pub fn calc_heater_power(version: BoardVersion, v_high: i32, v_low: i32, v_curr: i32) -> (p: i128)
    ensures
        p == spec_heater_power(version, v_high as int, v_low as int, v_curr as int),
{
    let v = calc_heater_voltage(version, v_high, v_low);
    let i = calc_heater_current(version, v_low, v_curr);
    assert(-0x1_0000_0000 * 0x20_0000_0000 <= v as int * i as int <= 0x1_0000_0000
        * 0x20_0000_0000) by (nonlinear_arith)
        requires
            0 <= v <= 0x1_0000_0000,
            -0x20_0000_0000 <= i <= 0x20_0000_0000,
    ;
    (v as i128) * (i as i128)
}

/// Voltage across the heater in thousandths of a volt.
pub fn calc_heater_voltage(version: BoardVersion, v_high: i32, v_low: i32) -> (v: i64)
    ensures
        v == spec_heater_voltage(version, v_high as int, v_low as int),
        0 <= v <= 0x1_0000_0000,
{
    match version {
        BoardVersion::V1_1 => 0,
        _ => {
            let d: i64 = v_high as i64 - v_low as i64;
            if d > 0 {
                d
            } else {
                0
            }
        },
    }
}

/// Current through the heater in thousandths of an ampere.
pub fn calc_heater_current(version: BoardVersion, v_low: i32, v_curr: i32) -> (i: i64)
    ensures
        i == spec_heater_current(version, v_low as int, v_curr as int),
        -0x20_0000_0000 <= i <= 0x20_0000_0000,
{
    match version {
        BoardVersion::V1_1 => 0,
        BoardVersion::V2_0 => v_curr as i64,
        BoardVersion::V2_2 => if v_curr < SHUNT_RAIL_LIMIT && v_low < SHUNT_RAIL_LIMIT {
            let d: i64 = v_low as i64 - v_curr as i64;
            if d > 0 {
                d * CURRENT_SENSE_PER_OHM
            } else {
                0
            }
        } else {
            0
        },
    }
}

/// The heater's voltage from two channels that may have failed: the first
/// channel that failed gives its error.
pub open spec fn spec_calc_heater_voltage(
    version: BoardVersion,
    v_high: ReadResult<i32>,
    v_low: ReadResult<i32>,
) -> ReadResult<i64> {
    match (v_high, v_low) {
        (Err(e), _) => Err(e),
        (Ok(_), Err(e)) => Err(e),
        (Ok(h), Ok(l)) => Ok(spec_heater_voltage(version, h as int, l as int) as i64),
    }
}

/// The heater's current from two channels that may have failed: the first
/// channel that failed gives its error.
pub open spec fn spec_calc_heater_current(
    version: BoardVersion,
    v_low: ReadResult<i32>,
    v_curr: ReadResult<i32>,
) -> ReadResult<i64> {
    match (v_low, v_curr) {
        (Err(e), _) => Err(e),
        (Ok(_), Err(e)) => Err(e),
        (Ok(l), Ok(c)) => Ok(spec_heater_current(version, l as int, c as int) as i64),
    }
}

/// The heater's power from three channels that may have failed: the first
/// channel that failed gives its error.
pub open spec fn spec_calc_heater_power(
    version: BoardVersion,
    v_high: ReadResult<i32>,
    v_low: ReadResult<i32>,
    v_curr: ReadResult<i32>,
) -> ReadResult<i128> {
    match (v_high, v_low, v_curr) {
        (Err(e), _, _) => Err(e),
        (Ok(_), Err(e), _) => Err(e),
        (Ok(_), Ok(_), Err(e)) => Err(e),
        (Ok(h), Ok(l), Ok(c)) => Ok(spec_heater_power(version, h as int, l as int, c as int) as i128),
    }
}

/// The power of the heater stays within what its channels can give.
pub proof fn lemma_heater_power_bounds(version: BoardVersion, v_high: i32, v_low: i32, v_curr: i32)
    ensures
        -0x20_0000_0000_0000_0000 <= spec_heater_power(
            version,
            v_high as int,
            v_low as int,
            v_curr as int,
        ) <= 0x20_0000_0000_0000_0000,
{
    let v = spec_heater_voltage(version, v_high as int, v_low as int);
    let i = spec_heater_current(version, v_low as int, v_curr as int);
    assert(-0x1_0000_0000 * 0x20_0000_0000 <= v * i <= 0x1_0000_0000 * 0x20_0000_0000)
        by (nonlinear_arith)
        requires
            0 <= v <= 0x1_0000_0000,
            -0x20_0000_0000 <= i <= 0x20_0000_0000,
    ;
}

/// On a board of the first revision the heater's voltage and current are
/// zero whatever the channels read.
pub proof fn lemma_first_revision_reads_zero(v_high: int, v_low: int, v_curr: int)
    ensures
        spec_heater_voltage(BoardVersion::V1_1, v_high, v_low) == 0,
        spec_heater_current(BoardVersion::V1_1, v_low, v_curr) == 0,
        spec_heater_power(BoardVersion::V1_1, v_high, v_low, v_curr) == 0,
{
}

/// On a board of revision 2.2 the current is zero once the current-sense
/// channel reads 3.0 V or more, also where the low side reads higher still.
pub proof fn lemma_saturated_shunt_reads_zero(v_low: int, v_curr: int)
    requires
        v_curr >= SHUNT_RAIL_LIMIT,
    ensures
        spec_heater_current(BoardVersion::V2_2, v_low, v_curr) == 0,
{
}

/// The two status bits of a board.
#[derive(Debug, Copy, Clone, PartialEq, Eq, Structural)]
pub struct BoardFlags {
    pub on: bool,
    pub max_temp: bool,
}

impl BoardFlags {
    /// The flags that a register value holds. Bit 0 says that the board is
    /// powered, bit 1 that the maximum temperature tripped; a value with any
    /// other bit set holds no flags.
    pub open spec fn spec_try_from(value: u16) -> Result<BoardFlags, ()> {
        if value >= 4 {
            Err(())
        } else {
            Ok(BoardFlags { on: value % 2 == 1, max_temp: value >= 2 })
        }
    }

    pub fn try_from(value: u16) -> (r: Result<BoardFlags, ()>)
        ensures
            r == Self::spec_try_from(value),
    {
        let valid_bits: u16 = 0b0011;
        assert((value & !3u16 > 0) == (value >= 4)) by (bit_vector);
        assert(value < 4 ==> ((value & 1 != 0) == (value % 2 == 1))) by (bit_vector);
        assert(value < 4 ==> ((value & 2 != 0) == (value >= 2))) by (bit_vector);
        if value & (!valid_bits) > 0 {
            return Err(());
        }
        let (on, max_temp) = (value & 0b0001 != 0, value & 0b0010 != 0);
        Ok(BoardFlags { on, max_temp })
    }

    /// The state that the flags report: `OK` for a powered board, the
    /// tripped maximum temperature as such, and a board that is not powered
    /// as unknown.
    pub open spec fn name_text(self) -> Seq<char> {
        if self.on && self.max_temp {
            "ERR_MAX_TEMP"@
        } else if self.on {
            "OK"@
        } else {
            "ERR_UNKNOWN"@
        }
    }

    pub fn name(&self) -> (s: &'static str)
        ensures
            s@ == self.name_text(),
    {
        match (self.on, self.max_temp) {
            (true, true) => "ERR_MAX_TEMP",
            (true, false) => "OK",
            (false, _) => "ERR_UNKNOWN",
        }
    }
}

/// Whether `r` is the driver of catalogue sensor `s` on a board of the given
/// revision on `bus`: the driver that the sensor's interface calls for, or
/// the disabled sensor where the revision lacks it.
pub open spec fn is_sensor_of(r: ReadableSensor, version: BoardVersion, bus: I2cBus, s: Sensor) -> bool {
    if !version.spec_is_sensor_enabled(s) {
        r matches ReadableSensor::Disabled(d) && d.name@ == s.id@
    } else {
        match s.iface {
            SensorInterface::MSP430 => r matches ReadableSensor::Msp430Temp(t) && t.device.on_bus(bus)
                && t.name@ == s.id@ && t.reg == I2cReg(s.addr.0),
            SensorInterface::MSP430Voltage => r matches ReadableSensor::Msp430Voltage(t)
                && t.device.on_bus(bus) && t.name@ == s.id@ && t.reg == I2cReg(s.addr.0),
            SensorInterface::MSP430Current => r matches ReadableSensor::Msp430Current(t)
                && t.device.on_bus(bus) && t.name@ == s.id@ && t.reg == I2cReg(s.addr.0),
            SensorInterface::ADS7828 => r matches ReadableSensor::Ads7828(t) && t.name@ == "ads7828/"@
                + s.id@ && t.device.name@ == t.name@ && t.device.device == (I2cDevice {
                bus,
                addr: converter_addr(version),
                byte_order: I2cByteOrder::BigEndian,
            }) && t.reg == I2cReg(command(s.addr.0)),
            SensorInterface::MAX31725 => r matches ReadableSensor::Max31725(t) && t.name@ == s.id@
                && t.device.name@ == s.id@ && t.device.device == (I2cDevice {
                bus,
                addr: s.addr,
                byte_order: I2cByteOrder::BigEndian,
            }),
        }
    }
}

/// Whether every one of the results is an error.
pub open spec fn all_failed<T>(results: Seq<ReadResult<T>>) -> bool {
    forall|i: int| 0 <= i < results.len() ==> (#[trigger] results[i]) is Err
}

/// The raw value of a reading, or its error.
pub open spec fn raw_of<T>(reading: ReadResult<SensorReading<T>>) -> ReadResult<u16> {
    match reading {
        Ok(r) => Ok(r.raw_value),
        Err(e) => Err(e),
    }
}

/// The replies to the reads of the six registers that hold the heater's
/// state.
#[derive(Debug, Copy, Clone)]
pub struct HeaterReplies {
    pub heater_mode: BusReply,
    pub target_temp: BusReply,
    pub target_sensor: BusReply,
    pub heater_duty: BusReply,
    pub max_temp: BusReply,
    pub flags: BusReply,
}

/// One physical board: where it sits, its revision, its heater controller
/// and its sensors, in the order of the catalogue.
#[derive(Debug)]
pub struct Board {
    pub id: BoardId,
    pub version: BoardVersion,
    pub bus: I2cBus,
    pub heater: Msp430,
    pub sensors: Vec<ReadableSensor>,
}

impl Board {
    /// A board is well formed if it sits on the bus of its identity, and holds
    /// the controller on that bus and one driver for each sensor of the
    /// catalogue, in order: the catalogue has the same length whatever the
    /// revision.
    pub open spec fn wf(&self) -> bool {
        &&& self.bus == (I2cBus { id: self.id.spec_bus_id() })
        &&& self.heater.on_bus(self.bus)
        &&& self.sensors@.len() == SENSOR_COUNT
        &&& forall|i: int|
            0 <= i < SENSOR_COUNT ==> is_sensor_of(
                #[trigger] self.sensors@[i],
                self.version,
                self.bus,
                catalog_entry(i),
            )
    }

    /// The board `id` of the given revision.
    pub fn new(id: BoardId, version: BoardVersion) -> (b: Self)
        ensures
            b.wf(),
            b.id == id,
            b.version == version,
    {
        let sensors = Board::get_readable_sensors(version, id.bus());
        let msp430 = Msp430::new(id.bus());
        Board { id, version, bus: id.bus(), heater: msp430, sensors }
    }

    /// The drivers of the whole catalogue for a board of the given revision
    /// on `bus`.
    pub fn get_readable_sensors(version: BoardVersion, bus: I2cBus) -> (v: Vec<ReadableSensor>)
        ensures
            v@.len() == SENSOR_COUNT,
            forall|i: int|
                0 <= i < SENSOR_COUNT ==> is_sensor_of(#[trigger] v@[i], version, bus, catalog_entry(i)),
    {
        let mut v: Vec<ReadableSensor> = Vec::new();
        let mut i: usize = 0;
        while i < SENSOR_COUNT
            invariant
                i <= SENSOR_COUNT,
                v@.len() == i,
                forall|k: int| 0 <= k < i ==> is_sensor_of(#[trigger] v@[k], version, bus, catalog_entry(k)),
            decreases SENSOR_COUNT - i,
        {
            let s = Board::create_sensor(version, bus, sensor_at(i));
            v.push(s);
            i = i + 1;
        }
        v
    }

    /// The driver of catalogue sensor `s` for a board of the given revision
    /// on `bus`.
    pub fn create_sensor(version: BoardVersion, bus: I2cBus, s: Sensor) -> (r: ReadableSensor)
        ensures
            is_sensor_of(r, version, bus, s),
    {
        let name = String::from_str(s.id);
        let reg = I2cReg(s.addr.0);
        if !version.is_sensor_enabled(&s) {
            return ReadableSensor::Disabled(DisabledSensor::new(name));
        }
        match s.iface {
            SensorInterface::MSP430 => ReadableSensor::Msp430Temp(Msp430TempSensor::new(bus, name, reg)),
            SensorInterface::MSP430Voltage => ReadableSensor::Msp430Voltage(
                Msp430VoltageSensor::new(bus, name, reg),
            ),
            SensorInterface::MSP430Current => ReadableSensor::Msp430Current(
                Msp430CurrentSensor::new(bus, name, reg),
            ),
            SensorInterface::ADS7828 => ReadableSensor::Ads7828(
                Ads7828Sensor::new(version, bus, name, s.addr),
            ),
            SensorInterface::MAX31725 => ReadableSensor::Max31725(Max31725Sensor::new(bus, name, s.addr)),
        }
    }

    /// A board made anew with this board's identity and revision.
    pub fn clone(&self) -> (b: Board)
        ensures
            b.wf(),
            b.id == self.id,
            b.version == self.version,
    {
        Self::new(self.id, self.version)
    }

    /// The name under which the board is reported: `Board(`, then its name,
    /// revision and bus number, with commas between, and `)`.
    pub fn label(&self) -> (s: String)
        ensures
            s@ == "Board("@ + self.id.name_text() + ", "@ + self.version.name_text() + ", "@
                + crate::text::decimal(self.bus.id as nat) + ")"@,
    {
        let mut s = String::from_str("Board(");
        s.append(self.id.name());
        s.append(", ");
        s.append(self.version.name());
        s.append(", ");
        let n = crate::text::decimal_string(self.bus.id as u64);
        s.append(n.as_str());
        s.append(")");
        s
    }

    /// The read of one of the registers that hold the heater's state.
    pub fn heater_request(&self, register: HeaterRegister) -> (r: BusRead)
        ensures
            r == (BusRead {
                bus: self.heater.device.device.bus,
                addr: self.heater.device.device.addr,
                reg: register.spec_reg(),
            }),
    {
        self.heater.read_request(register.reg())
    }

    /// The heater's mode from the reply to the read of its register.
    pub fn read_heater_mode(&self, reply: &BusReply) -> (r: ReadResult<SensorReading<HeaterMode>>)
        ensures
            r == self.heater.spec_read_mode(*reply),
    {
        self.heater.read_mode(reply)
    }

    /// The write that sets the heater's mode.
    pub fn write_heater_mode(&self, mode: HeaterMode) -> (w: BusWrite)
        ensures
            self.heater.is_write(w, I2cReg(MSP430_WRITE_HEATER_MODE), mode.spec_code()),
    {
        self.heater.write_mode(mode)
    }

    /// The target temperature, as a thermistor code, from the reply to the
    /// read of its register.
    pub fn read_target_temp(&self, reply: &BusReply) -> (r: ReadResult<SensorReading<Measurement>>)
        ensures
            r == thermistor_reading(self.heater.device.spec_read_register(*reply)),
    {
        self.heater.read_target_temp(reply)
    }

    /// The write that sets the target temperature, given in thousandths of
    /// a degree Celsius, which must be one that can be written as a setpoint.
    pub fn write_target_temp(&self, cal: &Calibration, temp: i32) -> (w: BusWrite)
        requires
            cal.wf(),
            setpoint_ok(temp),
        ensures
            exists|code: u16|
                cal.is_code_of(code, temp) && self.heater.is_write(
                    w,
                    I2cReg(MSP430_WRITE_HEATER_TARGET_TEMP),
                    code,
                ),
    {
        self.heater.write_target_temp(cal, temp)
    }

    /// What the reply to the read of the target sensor register names.
    pub open spec fn spec_get_target_sensor(self, reply: BusReply) -> ReadResult<Sensor> {
        match self.heater.spec_read_target_sensor(reply) {
            Ok(reading) => Ok(reading.display_value),
            Err(e) => Err(e),
        }
    }

    /// The sensor on which the heater regulates, from the reply to the read
    /// of the target sensor register.
    pub fn get_target_sensor(&self, reply: &BusReply) -> (r: ReadResult<Sensor>)
        ensures
            r == self.spec_get_target_sensor(*reply),
    {
        match self.heater.read_target_sensor(reply) {
            Ok(v) => Ok(v.display_value),
            Err(e) => Err(e),
        }
    }

    /// The read that samples the sensor on which the heater regulates, given
    /// the reply to the read of the target sensor register. There is none
    /// where that reply names no sensor, or one that this board lacks.
    pub fn target_sensor_request(&self, target: &BusReply) -> (r: Option<BusRead>)
        ensures
            match self.spec_get_target_sensor(*target) {
                Err(_) => r is None,
                Ok(sensor) => exists|s: ReadableSensor|
                    is_sensor_of(s, self.version, self.bus, sensor) && r == s.spec_request(),
            },
    {
        match self.get_target_sensor(target) {
            Err(_) => None,
            Ok(sensor) => {
                let s = Board::create_sensor(self.version, self.bus, sensor);
                s.request()
            },
        }
    }

    /// The reading of the sensor on which the heater regulates, given the
    /// reply to the read of the target sensor register and the reply to the
    /// read of that sensor. Where the first names no sensor its error comes
    /// back.
    pub fn read_target_sensor_temp(&self, target: &BusReply, reply: &BusReply) -> (r: ReadResult<
        SensorReading<Measurement>,
    >)
        ensures
            match self.spec_get_target_sensor(*target) {
                Err(e) => r == Err::<SensorReading<Measurement>, ReadError>(e),
                Ok(sensor) => exists|s: ReadableSensor|
                    is_sensor_of(s, self.version, self.bus, sensor) && r == s.spec_read(*reply),
            },
    {
        let sensor = self.get_target_sensor(target)?;
        let sensor = Board::create_sensor(self.version, self.bus, sensor);
        sensor.read(reply)
    }

    /// The write that selects the sensor on which the heater regulates.
    pub fn write_target_sensor(&self, target_sensor: TargetSensor) -> (w: BusWrite)
        ensures
            self.heater.is_write(
                w,
                I2cReg(MSP430_WRITE_HEATER_TARGET_SENSOR),
                target_sensor.spec_code(),
            ),
    {
        self.heater.write_target_sensor(target_sensor)
    }

    /// The heater's duty from the reply to the read of its register.
    pub fn read_heater_duty(&self, reply: &BusReply) -> (r: ReadResult<SensorReading<u16>>)
        ensures
            r == self.heater.spec_read_word(*reply),
    {
        self.heater.read_duty(reply)
    }

    /// The write that sets the heater's duty.
    pub fn write_heater_duty(&self, pwm_duty_cycle: u16) -> (w: BusWrite)
        ensures
            self.heater.is_write(w, I2cReg(MSP430_WRITE_HEATER_PWM_DUTY_CYCLE), pwm_duty_cycle),
    {
        self.heater.write_duty(pwm_duty_cycle)
    }

    /// The write that sets the maximum temperature, given in thousandths of
    /// a degree Celsius, which must be one that can be written as a setpoint.
    pub fn write_max_temp(&self, cal: &Calibration, temp: i32) -> (w: BusWrite)
        requires
            cal.wf(),
            setpoint_ok(temp),
        ensures
            exists|code: u16|
                cal.is_code_of(code, temp) && self.heater.is_write(
                    w,
                    I2cReg(MSP430_WRITE_HEATER_MAX_TEMP),
                    code,
                ),
    {
        self.heater.write_max_temp(cal, temp)
    }

    /// The reads that sample the board's sensors, in the order of the
    /// catalogue; a disabled sensor has none.
    pub fn sensor_requests(&self) -> (v: Vec<Option<BusRead>>)
        ensures
            v@.len() == self.sensors@.len(),
            forall|i: int| 0 <= i < v@.len() ==> v@[i] == self.sensors@[i].spec_request(),
    {
        let mut v: Vec<Option<BusRead>> = Vec::new();
        let mut i: usize = 0;
        while i < self.sensors.len()
            invariant
                i <= self.sensors@.len(),
                v@.len() == i,
                forall|k: int| 0 <= k < i ==> v@[k] == self.sensors@[k].spec_request(),
            decreases self.sensors@.len() - i,
        {
            v.push(self.sensors[i].request());
            i = i + 1;
        }
        v
    }

    /// The readings of the board's sensors from the replies to their reads,
    /// both in the order of the catalogue. The reply that stands for a
    /// disabled sensor is not looked at.
    pub fn read_sensors(&self, replies: &Vec<BusReply>) -> (v: Vec<ReadResult<SensorReading<Measurement>>>)
        requires
            replies@.len() == self.sensors@.len(),
        ensures
            v@.len() == self.sensors@.len(),
            forall|i: int| 0 <= i < v@.len() ==> v@[i] == self.sensors@[i].spec_read(replies@[i]),
    {
        let mut v: Vec<ReadResult<SensorReading<Measurement>>> = Vec::new();
        let mut i: usize = 0;
        while i < self.sensors.len()
            invariant
                i <= self.sensors@.len(),
                replies@.len() == self.sensors@.len(),
                v@.len() == i,
                forall|k: int| 0 <= k < i ==> v@[k] == self.sensors@[k].spec_read(replies@[k]),
            decreases self.sensors@.len() - i,
        {
            v.push(self.sensors[i].read(&replies[i]));
            i = i + 1;
        }
        v
    }

    /// Power of the heater in millionths of a watt, from the three channels
    /// in thousandths of a volt. The first channel that failed gives its
    /// error.
    pub fn calc_heater_power(
        &self,
        v_high: ReadResult<i32>,
        v_low: ReadResult<i32>,
        v_curr: ReadResult<i32>,
    ) -> (r: ReadResult<i128>)
        ensures
            r == spec_calc_heater_power(self.version, v_high, v_low, v_curr),
    {
        let v_high = v_high?;
        let v_low = v_low?;
        let v_curr = v_curr?;
        Ok(calc_heater_power(self.version, v_high, v_low, v_curr))
    }

    /// Voltage across the heater in thousandths of a volt. The first channel
    /// that failed gives its error.
    pub fn calc_heater_voltage(&self, v_high: ReadResult<i32>, v_low: ReadResult<i32>) -> (r: ReadResult<i64>)
        ensures
            r == spec_calc_heater_voltage(self.version, v_high, v_low),
    {
        let v_high = v_high?;
        let v_low = v_low?;
        Ok(calc_heater_voltage(self.version, v_high, v_low))
    }

    /// Current through the heater in thousandths of an ampere. The first
    /// channel that failed gives its error.
    pub fn calc_heater_current(&self, v_low: ReadResult<i32>, v_curr: ReadResult<i32>) -> (r: ReadResult<i64>)
        ensures
            r == spec_calc_heater_current(self.version, v_low, v_curr),
    {
        let v_low = v_low?;
        let v_curr = v_curr?;
        Ok(calc_heater_current(self.version, v_low, v_curr))
    }

    /// A snapshot of the whole board, from whether the bus was found, the
    /// readings of the sensors and the replies to the reads of the heater's
    /// registers.
    ///
    /// There is no snapshot where the bus was not found, nor where every
    /// sensor failed: the board is then taken to be absent. Otherwise the
    /// snapshot holds each sensor's reading or error as it came, and what the
    /// heater's registers decode to: a sensor that failed does not fail the
    /// board.
    pub fn read_data(
        &self,
        bus_found: bool,
        sensors: Vec<ReadResult<SensorReading<Measurement>>>,
        heater: &HeaterReplies,
    ) -> (r: Option<BoardData>)
        requires
            !bus_found || all_failed(sensors@) || sensors@.len() == SENSOR_COUNT,
        ensures
            r is None <==> (!bus_found || all_failed(sensors@)),
            r matches Some(d) ==> {
                &&& d.wf()
                &&& d.sensors@ == sensors@
                &&& d.heater_mode == self.heater.spec_read_mode(heater.heater_mode)
                &&& d.target_temp == thermistor_reading(
                    self.heater.device.spec_read_register(heater.target_temp),
                )
                &&& d.target_sensor == self.heater.spec_read_target_sensor(heater.target_sensor)
                &&& d.heater_duty == self.heater.spec_read_word(heater.heater_duty)
                &&& d.max_temp == thermistor_reading(
                    self.heater.device.spec_read_register(heater.max_temp),
                )
                &&& d.flags == self.heater.spec_read_flags(heater.flags)
            },
    {
        // fail fast if bus isn't found
        if !bus_found {
            return None;
        }
        if every_reading_failed(&sensors) {
            return None;
        }
        Some(
            BoardData {
                sensors,
                heater_mode: self.heater.read_mode(&heater.heater_mode),
                target_temp: self.heater.read_target_temp(&heater.target_temp),
                target_sensor: self.heater.read_target_sensor(&heater.target_sensor),
                heater_duty: self.heater.read_duty(&heater.heater_duty),
                max_temp: self.heater.read_max_temp(&heater.max_temp),
                flags: self.heater.read_flags(&heater.flags),
            },
        )
    }
}

/// Whether every one of the readings is an error.
pub fn every_reading_failed(readings: &Vec<ReadResult<SensorReading<Measurement>>>) -> (r: bool)
    ensures
        r == all_failed(readings@),
{
    let mut i: usize = 0;
    while i < readings.len()
        invariant
            i <= readings@.len(),
            forall|k: int| 0 <= k < i ==> (#[trigger] readings@[k]) is Err,
        decreases readings@.len() - i,
    {
        if readings[i].is_ok() {
            return false;
        }
        i = i + 1;
    }
    true
}

impl PartialEq for Board {
    /// Two boards are equal if they have the same identity, revision and
    /// bus.
    fn eq(&self, other: &Self) -> (r: bool) {
        self.id == other.id && self.version == other.version && self.bus == other.bus
    }
}

impl vstd::std_specs::cmp::PartialEqSpecImpl for Board {
    open spec fn obeys_eq_spec() -> bool {
        true
    }

    open spec fn eq_spec(&self, other: &Self) -> bool {
        self.id == other.id && self.version == other.version && self.bus == other.bus
    }
}

/// A snapshot of one board: each sensor's reading or error, in the order of
/// the catalogue, and the heater's state.
#[derive(Debug)]
pub struct BoardData {
    pub sensors: Vec<ReadResult<SensorReading<Measurement>>>,
    pub heater_mode: ReadResult<SensorReading<HeaterMode>>,
    pub target_temp: ReadResult<SensorReading<Measurement>>,
    pub target_sensor: ReadResult<SensorReading<Sensor>>,
    pub heater_duty: ReadResult<SensorReading<u16>>,
    pub max_temp: ReadResult<SensorReading<Measurement>>,
    pub flags: ReadResult<SensorReading<BoardFlags>>,
}

impl BoardData {
    /// A snapshot holds one result for each sensor of the catalogue.
    pub open spec fn wf(&self) -> bool {
        self.sensors@.len() == SENSOR_COUNT
    }

    /// The raw fields of a report, in its column order.
    pub open spec fn spec_raw_data(self) -> Seq<ReadResult<u16>> {
        self.sensors@.map_values(|r: ReadResult<SensorReading<Measurement>>| raw_of(r))
            + seq![
            raw_of(self.heater_mode),
            raw_of(self.target_temp),
            raw_of(self.target_sensor),
            raw_of(self.heater_duty),
            raw_of(self.max_temp),
            raw_of(self.flags),
        ]
    }

    /// The raw fields of a report, in its column order: the raw value or the
    /// error of each sensor in the order of the catalogue, then those of the
    /// heater's mode, target temperature, target sensor, duty, maximum
    /// temperature and flags.
    pub fn get_raw_data(self) -> (v: Vec<ReadResult<u16>>)
        ensures
            v@ == self.spec_raw_data(),
            v@.len() == self.sensors@.len() + 6,
    {
        let mut result: Vec<ReadResult<u16>> = Vec::new();
        let mut i: usize = 0;
        while i < self.sensors.len()
            invariant
                i <= self.sensors@.len(),
                result@.len() == i,
                forall|k: int| 0 <= k < i ==> result@[k] == raw_of(self.sensors@[k]),
            decreases self.sensors@.len() - i,
        {
            result.push(
                match &self.sensors[i] {
                    Ok(reading) => Ok(reading.raw_value),
                    Err(e) => Err(*e),
                },
            );
            i = i + 1;
        }
        result.push(raw_value_of(&self.heater_mode));
        result.push(raw_value_of(&self.target_temp));
        result.push(raw_value_of(&self.target_sensor));
        result.push(raw_value_of(&self.heater_duty));
        result.push(raw_value_of(&self.max_temp));
        result.push(raw_value_of(&self.flags));
        assert(result@ =~= self.spec_raw_data());
        result
    }
}

/// The raw value of a reading, or its error.
pub fn raw_value_of<T>(reading: &ReadResult<SensorReading<T>>) -> (r: ReadResult<u16>)
    ensures
        r == raw_of(*reading),
{
    match reading {
        Ok(v) => Ok(v.raw_value),
        Err(e) => Err(*e),
    }
}

} // verus!
