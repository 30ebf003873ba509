//! Heating programs: what to heat, for how long, on which sensor's watch.

use vstd::prelude::*;
use crate::board::BoardId;
use crate::text::{decimal, decimal_string, same_text};

pub mod runner;

verus! {

/// The duty of a program that configures none: full, in thousandths.
pub fn default_heat_duty() -> (d: u16)
    ensures
        d == 1000,
{
    1000
}

/// One step of heating and cooling.
#[derive(Debug, Clone, PartialEq)]
pub struct Program {
    pub id: u8,
    pub name: String,
    /// The board whose heater the program drives.
    pub heat_board: BoardId,
    /// How long to heat, in milliseconds.
    pub heat_time: i64,
    /// The fraction of time for which the heater is on, in thousandths: 0 to
    /// 1000.
    pub heat_duty: u16,
    /// Name of the sensor that governs the program.
    pub temp_sensor: String,
    /// Above this temperature heating stops early. This and the other
    /// temperatures are in thousandths of a degree Celsius.
    pub temp_abort: i32,
    /// The thermostat's setpoint. With one the heater regulates on it,
    /// without one it runs at the fixed duty.
    pub thermostat: Option<i32>,
    /// At or below this temperature cooling is done.
    pub cool_temp: i32,
}

/// Whether two programs are the same program: they agree in every field.
pub open spec fn same_program(a: Program, b: Program) -> bool {
    &&& a.id == b.id
    &&& a.name@ == b.name@
    &&& a.heat_board == b.heat_board
    &&& a.heat_time == b.heat_time
    &&& a.heat_duty == b.heat_duty
    &&& a.temp_sensor@ == b.temp_sensor@
    &&& a.temp_abort == b.temp_abort
    &&& a.thermostat == b.thermostat
    &&& a.cool_temp == b.cool_temp
}

impl Program {
    /// Whether this is the same program as `other`.
    pub fn same_as(&self, other: &Program) -> (r: bool)
        ensures
            r == same_program(*self, *other),
    {
        let same_thermostat = match (self.thermostat, other.thermostat) {
            (Some(a), Some(b)) => a == b,
            (None, None) => true,
            _ => false,
        };
        self.id == other.id && same_text(self.name.as_str(), other.name.as_str()) && self.heat_board
            == other.heat_board && self.heat_time == other.heat_time && self.heat_duty
            == other.heat_duty && same_text(self.temp_sensor.as_str(), other.temp_sensor.as_str())
            && self.temp_abort == other.temp_abort && same_thermostat && self.cool_temp
            == other.cool_temp
    }

    /// The text that names the program in reports.
    pub fn label(&self) -> (s: String)
        ensures
            s@ == "Program { id: "@ + decimal(self.id as nat) + ", name: \""@ + self.name@ + "\" }"@,
    {
        let mut s = String::from_str("Program { id: ");
        let n = decimal_string(self.id as u64);
        s.append(n.as_str());
        s.append(", name: \"");
        s.append(self.name.as_str());
        s.append("\" }");
        s
    }
}

/// The programs of one run, in their order, and whether the run repeats.
#[derive(Debug, Clone, PartialEq)]
pub struct Programs {
    pub programs: Vec<Program>,
    pub run_loop: bool,
}

impl Programs {
    pub fn new(programs: Vec<Program>, run_loop: bool) -> (p: Self)
        ensures
            p.programs == programs,
            p.run_loop == run_loop,
    {
        Programs { programs, run_loop }
    }

    /// The programs in their order.
    pub fn iter(&self) -> (v: &Vec<Program>)
        ensures
            v == &self.programs,
    {
        &self.programs
    }

    /// Whether the programs are run once more after a run has ended: they
    /// are if the run repeats and was not cancelled.
    pub fn repeats(&self, aborted: bool) -> (r: bool)
        ensures
            r == (self.run_loop && !aborted),
    {
        self.run_loop && !aborted
    }
}

} // verus!
