//! The MSP430, the board's microcontroller: it drives the heater and samples
//! thermistors, voltages and the current sense on its own converter.

use vstd::prelude::*;
use crate::board::{catalog_entry, sensor_at, BoardFlags};
use crate::device::i2c::{BusRead, BusReply, BusWrite, I2cAddr, I2cBus, I2cByteOrder, I2cDevice, I2cReg, LoggingI2cDevice};
use crate::heater::{HeaterMode, TargetSensor};
use crate::reading::{current_millis, voltage_millis, Measurement, SensorReading};
use crate::sensors::{adc_code_valid, adc_range_check, setpoint_ok, Calibration, Sensor};
use crate::{ReadError, ReadResult};

verus! {

/// Bus address of the controller.
pub const MSP430_I2C_ADDR: u8 = 0x08;

pub const MSP430_READ_VERSION: u8 = 0x10;

pub const MSP430_READ_FLAGS: u8 = 0x11;

pub const MSP430_READ_HEATER_MODE: u8 = 0x20;

pub const MSP430_READ_HEATER_TARGET_TEMP: u8 = 0x21;

pub const MSP430_READ_HEATER_TARGET_SENSOR: u8 = 0x22;

pub const MSP430_READ_HEATER_PWM_DUTY_CYCLE: u8 = 0x23;

pub const MSP430_READ_HEATER_MAX_TEMP: u8 = 0x24;

pub const MSP430_WRITE_HEATER_MODE: u8 = 0x40;

pub const MSP430_WRITE_HEATER_TARGET_TEMP: u8 = 0x41;

pub const MSP430_WRITE_HEATER_TARGET_SENSOR: u8 = 0x42;

pub const MSP430_WRITE_HEATER_PWM_DUTY_CYCLE: u8 = 0x43;

pub const MSP430_WRITE_HEATER_MAX_TEMP: u8 = 0x44;

/// The registers of the controller that hold the heater's state.
#[derive(Debug, Copy, Clone, PartialEq, Eq, Structural)]
pub enum HeaterRegister {
    Version,
    Flags,
    Mode,
    TargetTemp,
    TargetSensor,
    Duty,
    MaxTemp,
}

impl HeaterRegister {
    /// The register from which the value is read.
    pub open spec fn spec_reg(self) -> I2cReg {
        match self {
            HeaterRegister::Version => I2cReg(MSP430_READ_VERSION),
            HeaterRegister::Flags => I2cReg(MSP430_READ_FLAGS),
            HeaterRegister::Mode => I2cReg(MSP430_READ_HEATER_MODE),
            HeaterRegister::TargetTemp => I2cReg(MSP430_READ_HEATER_TARGET_TEMP),
            HeaterRegister::TargetSensor => I2cReg(MSP430_READ_HEATER_TARGET_SENSOR),
            HeaterRegister::Duty => I2cReg(MSP430_READ_HEATER_PWM_DUTY_CYCLE),
            HeaterRegister::MaxTemp => I2cReg(MSP430_READ_HEATER_MAX_TEMP),
        }
    }

    #[verifier::when_used_as_spec(spec_reg)]
    pub fn reg(self) -> (r: I2cReg)
        ensures
            r == self.spec_reg(),
    {
        match self {
            HeaterRegister::Version => I2cReg(MSP430_READ_VERSION),
            HeaterRegister::Flags => I2cReg(MSP430_READ_FLAGS),
            HeaterRegister::Mode => I2cReg(MSP430_READ_HEATER_MODE),
            HeaterRegister::TargetTemp => I2cReg(MSP430_READ_HEATER_TARGET_TEMP),
            HeaterRegister::TargetSensor => I2cReg(MSP430_READ_HEATER_TARGET_SENSOR),
            HeaterRegister::Duty => I2cReg(MSP430_READ_HEATER_PWM_DUTY_CYCLE),
            HeaterRegister::MaxTemp => I2cReg(MSP430_READ_HEATER_MAX_TEMP),
        }
    }
}

/// The controller of one board.
#[derive(Debug, Clone)]
pub struct Msp430 {
    pub device: LoggingI2cDevice,
}

/// What a word read from the controller decodes to, for each kind of value.
pub open spec fn thermistor_reading(value: ReadResult<u16>) -> ReadResult<SensorReading<Measurement>> {
    match value {
        Err(e) => Err(e),
        Ok(raw) => if adc_code_valid(raw) {
            Ok(SensorReading { raw_value: raw, display_value: Measurement::Thermistor { code: raw } })
        } else {
            Err(ReadError::ValueOutOfRange)
        },
    }
}

/// The catalogue entry of the sensor that a register value selects as the
/// heater's control input.
pub open spec fn target_sensor_entry(raw: u16) -> Option<Sensor> {
    if raw == 0 {
        Some(catalog_entry(0))
    } else if raw == 1 {
        Some(catalog_entry(1))
    } else if raw == 2 {
        Some(catalog_entry(2))
    } else if raw == 3 {
        Some(catalog_entry(10))
    } else if raw == 4 {
        Some(catalog_entry(11))
    } else {
        None
    }
}

impl Msp430 {
    /// The controller on `bus`.
    pub open spec fn on_bus(self, bus: I2cBus) -> bool {
        &&& self.device.name@ == "msp430"@
        &&& self.device.device == (I2cDevice {
            bus,
            addr: I2cAddr(MSP430_I2C_ADDR),
            byte_order: I2cByteOrder::LittleEndian,
        })
    }

    pub fn new(bus: I2cBus) -> (m: Self)
        ensures
            m.on_bus(bus),
    {
        let device = LoggingI2cDevice::new(
            String::from_str("msp430"),
            I2cDevice::little_endian(bus, I2cAddr(MSP430_I2C_ADDR)),
        );
        Msp430 { device }
    }

    /// The read of register `reg` of the controller.
    pub fn read_request(&self, reg: I2cReg) -> (r: BusRead)
        ensures
            r == (BusRead { bus: self.device.device.bus, addr: self.device.device.addr, reg }),
    {
        self.device.read_request(reg)
    }

    /// The value of a register from the reply to its read.
    pub fn read_register(&self, reply: &BusReply) -> (r: ReadResult<u16>)
        ensures
            r == self.device.spec_read_register(*reply),
    {
        self.device.read_register(reply)
    }

    /// The write that sets register `reg` of the controller to `value`.
    pub fn write_register(&self, reg: I2cReg, value: u16) -> (w: BusWrite)
        ensures
            self.is_write(w, reg, value),
    {
        self.device.write_register(reg, value)
    }

    /// Whether `w` is the write of `value` to register `reg` of this
    /// controller.
    pub open spec fn is_write(self, w: BusWrite, reg: I2cReg, value: u16) -> bool {
        &&& w.bus == self.device.device.bus
        &&& w.addr == self.device.device.addr
        &&& w.reg == reg
        &&& self.device.device.byte_order.word(w.data@[0], w.data@[1]) == value as int
    }

    /// What a reply to the read of the mode register means.
    pub open spec fn spec_read_mode(self, reply: BusReply) -> ReadResult<SensorReading<HeaterMode>> {
        match self.device.spec_read_register(reply) {
            Err(e) => Err(e),
            Ok(raw) => match HeaterMode::spec_try_from(raw) {
                Ok(mode) => Ok(SensorReading { raw_value: raw, display_value: mode }),
                Err(_) => Err(ReadError::ValueOutOfRange),
            },
        }
    }

    /// The heater's mode from the reply to the read of the mode register. A
    /// value that stands for no mode is out of range.
    pub fn read_mode(&self, reply: &BusReply) -> (r: ReadResult<SensorReading<HeaterMode>>)
        ensures
            r == self.spec_read_mode(*reply),
    {
        let raw = self.read_register(reply)?;
        match HeaterMode::try_from(raw) {
            Ok(display) => Ok(SensorReading::new(raw, display)),
            Err(_) => Err(ReadError::ValueOutOfRange),
        }
    }

    /// The write that sets the heater's mode.
    pub fn write_mode(&self, mode: HeaterMode) -> (w: BusWrite)
        ensures
            self.is_write(w, I2cReg(MSP430_WRITE_HEATER_MODE), mode.spec_code()),
    {
        self.write_register(I2cReg(MSP430_WRITE_HEATER_MODE), mode.code())
    }

    /// What a reply to the read of a register means whose value stands for
    /// itself.
    pub open spec fn spec_read_word(self, reply: BusReply) -> ReadResult<SensorReading<u16>> {
        match self.device.spec_read_register(reply) {
            Err(e) => Err(e),
            Ok(raw) => Ok(SensorReading { raw_value: raw, display_value: raw }),
        }
    }

    /// The heater's duty from the reply to the read of the duty register.
    pub fn read_duty(&self, reply: &BusReply) -> (r: ReadResult<SensorReading<u16>>)
        ensures
            r == self.spec_read_word(*reply),
    {
        let raw_value = self.read_register(reply)?;
        Ok(SensorReading::new(raw_value, raw_value))
    }

    /// The write that sets the heater's duty: 0 to 255 at fixed duty, 0 to
    /// 1000 on the regulator's scale.
    pub fn write_duty(&self, duty: u16) -> (w: BusWrite)
        ensures
            self.is_write(w, I2cReg(MSP430_WRITE_HEATER_PWM_DUTY_CYCLE), duty),
    {
        self.write_register(I2cReg(MSP430_WRITE_HEATER_PWM_DUTY_CYCLE), duty)
    }

    /// The target temperature, as a thermistor code, from the reply to the
    /// read of its register.
    pub fn read_target_temp(&self, reply: &BusReply) -> (r: ReadResult<SensorReading<Measurement>>)
        ensures
            r == thermistor_reading(self.device.spec_read_register(*reply)),
    {
        let raw = self.read_register(reply)?;
        let code = adc_range_check(raw)?;
        Ok(SensorReading::new(raw, Measurement::Thermistor { code }))
    }

    /// The write that sets the target temperature, given in thousandths of
    /// a degree Celsius: it is written as its thermistor code. The
    /// temperature must be one that can be written as a setpoint.
    pub fn write_target_temp(&self, cal: &Calibration, temp: i32) -> (w: BusWrite)
        requires
            cal.wf(),
            setpoint_ok(temp),
        ensures
            exists|code: u16|
                cal.is_code_of(code, temp) && self.is_write(
                    w,
                    I2cReg(MSP430_WRITE_HEATER_TARGET_TEMP),
                    code,
                ),
    {
        let adc_val = cal.temp_to_adc_val(temp);
        self.write_register(I2cReg(MSP430_WRITE_HEATER_TARGET_TEMP), adc_val)
    }

    /// What a reply to the read of the target sensor register means.
    pub open spec fn spec_read_target_sensor(self, reply: BusReply) -> ReadResult<SensorReading<Sensor>> {
        match self.device.spec_read_register(reply) {
            Err(e) => Err(e),
            Ok(raw) => match target_sensor_entry(raw) {
                Some(sensor) => Ok(SensorReading { raw_value: raw, display_value: sensor }),
                None => Err(ReadError::ValueOutOfRange),
            },
        }
    }

    /// The sensor on which the heater regulates, from the reply to the read
    /// of the target sensor register. A value that selects no sensor is out
    /// of range.
    pub fn read_target_sensor(&self, reply: &BusReply) -> (r: ReadResult<SensorReading<Sensor>>)
        ensures
            r == self.spec_read_target_sensor(*reply),
    {
        let raw_value = self.read_register(reply)?;
        let display_value = match raw_value {
            0 => sensor_at(0),
            1 => sensor_at(1),
            2 => sensor_at(2),
            3 => sensor_at(10),
            4 => sensor_at(11),
            _ => {
                return Err(ReadError::ValueOutOfRange);
            },
        };
        Ok(SensorReading::new(raw_value, display_value))
    }

    /// The write that selects the sensor on which the heater regulates.
    pub fn write_target_sensor(&self, target_sensor: TargetSensor) -> (w: BusWrite)
        ensures
            self.is_write(w, I2cReg(MSP430_WRITE_HEATER_TARGET_SENSOR), target_sensor.spec_code()),
    {
        self.write_register(I2cReg(MSP430_WRITE_HEATER_TARGET_SENSOR), target_sensor.code())
    }

    /// The maximum temperature, as a thermistor code, from the reply to the
    /// read of its register.
    pub fn read_max_temp(&self, reply: &BusReply) -> (r: ReadResult<SensorReading<Measurement>>)
        ensures
            r == thermistor_reading(self.device.spec_read_register(*reply)),
    {
        let raw = self.read_register(reply)?;
        let code = adc_range_check(raw)?;
        Ok(SensorReading::new(raw, Measurement::Thermistor { code }))
    }

    /// The write that sets the maximum temperature, given in thousandths of
    /// a degree Celsius: it is written as its thermistor code. The
    /// temperature must be one that can be written as a setpoint.
    pub fn write_max_temp(&self, cal: &Calibration, temp: i32) -> (w: BusWrite)
        requires
            cal.wf(),
            setpoint_ok(temp),
        ensures
            exists|code: u16|
                cal.is_code_of(code, temp) && self.is_write(w, I2cReg(MSP430_WRITE_HEATER_MAX_TEMP), code),
    {
        let adc_val = cal.temp_to_adc_val(temp);
        self.write_register(I2cReg(MSP430_WRITE_HEATER_MAX_TEMP), adc_val)
    }

    /// The firmware version in hundredths, from the reply to the read of the
    /// version register.
    pub fn read_version(&self, reply: &BusReply) -> (r: ReadResult<SensorReading<u16>>)
        ensures
            r == self.spec_read_word(*reply),
    {
        let raw = self.read_register(reply)?;
        Ok(SensorReading::new(raw, raw))
    }

    /// What a reply to the read of the flags register means.
    pub open spec fn spec_read_flags(self, reply: BusReply) -> ReadResult<SensorReading<BoardFlags>> {
        match self.device.spec_read_register(reply) {
            Err(e) => Err(e),
            Ok(raw) => match BoardFlags::spec_try_from(raw) {
                Ok(flags) => Ok(SensorReading { raw_value: raw, display_value: flags }),
                Err(_) => Err(ReadError::ValueOutOfRange),
            },
        }
    }

    /// The status flags from the reply to the read of the flags register. A
    /// value with a bit set that is no flag is out of range.
    pub fn read_flags(&self, reply: &BusReply) -> (r: ReadResult<SensorReading<BoardFlags>>)
        ensures
            r == self.spec_read_flags(*reply),
    {
        let raw = self.read_register(reply)?;
        match BoardFlags::try_from(raw) {
            Ok(display) => Ok(SensorReading::new(raw, display)),
            Err(_) => Err(ReadError::ValueOutOfRange),
        }
    }
}

/// A thermistor on a converter channel of the controller.
#[derive(Debug, Clone)]
pub struct Msp430TempSensor {
    pub device: Msp430,
    pub name: String,
    pub reg: I2cReg,
}

impl Msp430TempSensor {
    pub fn new(bus: I2cBus, name: String, reg: I2cReg) -> (s: Self)
        ensures
            s.device.on_bus(bus),
            s.name@ == name@,
            s.reg == reg,
    {
        let device = Msp430::new(bus);
        Msp430TempSensor { device, name, reg }
    }

    /// The read that samples this channel.
    pub fn request(&self) -> (r: BusRead)
        ensures
            r == (BusRead {
                bus: self.device.device.device.bus,
                addr: self.device.device.device.addr,
                reg: self.reg,
            }),
    {
        self.device.read_request(self.reg)
    }

    /// The reading that a reply to this channel's read holds: the thermistor
    /// code, if the transfer went well and the code is inside the valid
    /// window.
    pub fn read(&self, reply: &BusReply) -> (r: ReadResult<SensorReading<Measurement>>)
        ensures
            r == thermistor_reading(self.device.device.spec_read_register(*reply)),
    {
        let raw_value = self.device.read_register(reply)?;
        let code = adc_range_check(raw_value)?;
        Ok(SensorReading::new(raw_value, Measurement::Thermistor { code }))
    }
}

/// A voltage on a converter channel of the controller.
#[derive(Debug, Clone)]
pub struct Msp430VoltageSensor {
    pub device: Msp430,
    pub name: String,
    pub reg: I2cReg,
}

impl Msp430VoltageSensor {
    pub fn new(bus: I2cBus, name: String, reg: I2cReg) -> (s: Self)
        ensures
            s.device.on_bus(bus),
            s.name@ == name@,
            s.reg == reg,
    {
        let device = Msp430::new(bus);
        Msp430VoltageSensor { device, name, reg }
    }

    /// The read that samples this channel.
    pub fn request(&self) -> (r: BusRead)
        ensures
            r == (BusRead {
                bus: self.device.device.device.bus,
                addr: self.device.device.device.addr,
                reg: self.reg,
            }),
    {
        self.device.read_request(self.reg)
    }

    /// What a reply to this channel's read means.
    pub open spec fn spec_read(self, reply: BusReply) -> ReadResult<SensorReading<Measurement>> {
        match self.device.device.spec_read_register(reply) {
            Err(e) => Err(e),
            Ok(raw) => Ok(
                SensorReading {
                    raw_value: raw,
                    display_value: Measurement::MilliVolts { value: voltage_millis(raw) as i32 },
                },
            ),
        }
    }

    /// The reading that a reply to this channel's read holds: the code as a
    /// voltage, whatever the code.
    pub fn read(&self, reply: &BusReply) -> (r: ReadResult<SensorReading<Measurement>>)
        ensures
            r == self.spec_read(*reply),
    {
        let raw_value = self.device.read_register(reply)?;
        let display_value = Measurement::from_voltage_code(raw_value);
        Ok(SensorReading::new(raw_value, display_value))
    }
}

/// The current sense on a converter channel of the controller.
#[derive(Debug, Clone)]
pub struct Msp430CurrentSensor {
    pub device: Msp430,
    pub name: String,
    pub reg: I2cReg,
}

impl Msp430CurrentSensor {
    pub fn new(bus: I2cBus, name: String, reg: I2cReg) -> (s: Self)
        ensures
            s.device.on_bus(bus),
            s.name@ == name@,
            s.reg == reg,
    {
        let device = Msp430::new(bus);
        Msp430CurrentSensor { device, name, reg }
    }

    /// The read that samples this channel.
    pub fn request(&self) -> (r: BusRead)
        ensures
            r == (BusRead {
                bus: self.device.device.device.bus,
                addr: self.device.device.device.addr,
                reg: self.reg,
            }),
    {
        self.device.read_request(self.reg)
    }

    /// What a reply to this channel's read means.
    pub open spec fn spec_read(self, reply: BusReply) -> ReadResult<SensorReading<Measurement>> {
        match self.device.device.spec_read_register(reply) {
            Err(e) => Err(e),
            Ok(raw) => Ok(
                SensorReading {
                    raw_value: raw,
                    display_value: Measurement::MilliAmps { value: current_millis(raw) as i32 },
                },
            ),
        }
    }

    /// The reading that a reply to this channel's read holds: the code as a
    /// current-sense value, whatever the code.
    pub fn read(&self, reply: &BusReply) -> (r: ReadResult<SensorReading<Measurement>>)
        ensures
            r == self.spec_read(*reply),
    {
        let raw_value = self.device.read_register(reply)?;
        let display_value = Measurement::from_current_code(raw_value);
        Ok(SensorReading::new(raw_value, display_value))
    }
}

} // verus!
