//! The heater's modes and the sensors that it can regulate on.

use vstd::prelude::*;
use crate::text::same_text;

verus! {

/// How the heater is driven.
#[derive(Debug, Copy, Clone, PartialEq, Eq, Structural)]
pub enum HeaterMode {
    OFF,
    /// temperature controlled
    PID,
    /// fixed power input
    PWM,
}

impl HeaterMode {
    /// The register value of the mode.
    pub open spec fn spec_code(self) -> u16 {
        match self {
            HeaterMode::OFF => 0x00,
            HeaterMode::PID => 0x01,
            HeaterMode::PWM => 0x02,
        }
    }

    /// The mode that a register value stands for, if any.
    pub open spec fn spec_try_from(v: u16) -> Result<HeaterMode, ()> {
        if v == 0x00 {
            Ok(HeaterMode::OFF)
        } else if v == 0x01 {
            Ok(HeaterMode::PID)
        } else if v == 0x02 {
            Ok(HeaterMode::PWM)
        } else {
            Err(())
        }
    }

    #[verifier::when_used_as_spec(spec_code)]
    pub fn code(self) -> (c: u16)
        ensures
            c == self.spec_code(),
    {
        match self {
            HeaterMode::OFF => 0x00,
            HeaterMode::PID => 0x01,
            HeaterMode::PWM => 0x02,
        }
    }

    pub fn try_from(v: u16) -> (r: Result<HeaterMode, ()>)
        ensures
            r == Self::spec_try_from(v),
    {
        if v == 0x00 {
            Ok(HeaterMode::OFF)
        } else if v == 0x01 {
            Ok(HeaterMode::PID)
        } else if v == 0x02 {
            Ok(HeaterMode::PWM)
        } else {
            Err(())
        }
    }

    /// The name of the mode as it is reported.
    pub open spec fn name_text(self) -> Seq<char> {
        match self {
            HeaterMode::OFF => "OFF"@,
            HeaterMode::PID => "PID"@,
            HeaterMode::PWM => "PWM"@,
        }
    }

    pub fn name(&self) -> (s: &'static str)
        ensures
            s@ == self.name_text(),
    {
        match self {
            HeaterMode::OFF => "OFF",
            HeaterMode::PID => "PID",
            HeaterMode::PWM => "PWM",
        }
    }
}

/// The upper-case form of a text as `str::to_uppercase` gives it.
pub uninterp spec fn uppercase_of(text: Seq<char>) -> Seq<char>;

/// `str::to_uppercase`: the text with each character replaced by its
/// upper-case form under Unicode's rules, which depends on the text alone.
#[verifier::external_body]
fn to_uppercase(text: &str) -> (upper: String)
    ensures
        upper@ == uppercase_of(text@),
{
    text.to_uppercase()
}

/// The sensors that the heater can take as its control input: three on the
/// board and two mounted ones.
#[derive(Debug, Copy, Clone, PartialEq, Eq, Structural)]
pub enum TargetSensor {
    TH1,
    TH2,
    TH3,
    J7,
    J8,
}

impl TargetSensor {
    /// The register value that selects the sensor.
    pub open spec fn spec_code(self) -> u16 {
        match self {
            TargetSensor::TH1 => 0x00,
            TargetSensor::TH2 => 0x01,
            TargetSensor::TH3 => 0x02,
            TargetSensor::J7 => 0x03,
            TargetSensor::J8 => 0x04,
        }
    }

    #[verifier::when_used_as_spec(spec_code)]
    pub fn code(self) -> (c: u16)
        ensures
            c == self.spec_code(),
    {
        match self {
            TargetSensor::TH1 => 0x00,
            TargetSensor::TH2 => 0x01,
            TargetSensor::TH3 => 0x02,
            TargetSensor::J7 => 0x03,
            TargetSensor::J8 => 0x04,
        }
    }

    /// The sensor that a register value selects, if any.
    pub open spec fn spec_from_code(code: u16) -> Option<TargetSensor> {
        if code == 0 {
            Some(TargetSensor::TH1)
        } else if code == 1 {
            Some(TargetSensor::TH2)
        } else if code == 2 {
            Some(TargetSensor::TH3)
        } else if code == 3 {
            Some(TargetSensor::J7)
        } else if code == 4 {
            Some(TargetSensor::J8)
        } else {
            None
        }
    }

    pub fn from_code(code: u16) -> (r: Option<TargetSensor>)
        ensures
            r == Self::spec_from_code(code),
    {
        match code {
            0 => Some(TargetSensor::TH1),
            1 => Some(TargetSensor::TH2),
            2 => Some(TargetSensor::TH3),
            3 => Some(TargetSensor::J7),
            4 => Some(TargetSensor::J8),
            _ => None,
        }
    }

    /// The sensor of an upper-case name, if it names one.
    pub open spec fn spec_named(upper: Seq<char>) -> Option<TargetSensor> {
        if upper == "TH1"@ {
            Some(TargetSensor::TH1)
        } else if upper == "TH2"@ {
            Some(TargetSensor::TH2)
        } else if upper == "TH3"@ {
            Some(TargetSensor::TH3)
        } else if upper == "J7"@ {
            Some(TargetSensor::J7)
        } else if upper == "J8"@ {
            Some(TargetSensor::J8)
        } else {
            None
        }
    }

    /// The sensor that `upper` names: one of `TH1`, `TH2`, `TH3`, `J7`, `J8`,
    /// letter for letter.
    pub fn named(upper: &str) -> (r: Option<TargetSensor>)
        ensures
            r == Self::spec_named(upper@),
    {
        if same_text(upper, "TH1") {
            Some(TargetSensor::TH1)
        } else if same_text(upper, "TH2") {
            Some(TargetSensor::TH2)
        } else if same_text(upper, "TH3") {
            Some(TargetSensor::TH3)
        } else if same_text(upper, "J7") {
            Some(TargetSensor::J7)
        } else if same_text(upper, "J8") {
            Some(TargetSensor::J8)
        } else {
            None
        }
    }

    /// The sensor that `name` names in any mix of upper and lower case, or
    /// `None` where it names no sensor that the heater can regulate on.
    pub fn parse(name: &str) -> (r: Option<TargetSensor>)
        ensures
            r == Self::spec_named(uppercase_of(name@)),
    {
        let upper = to_uppercase(name);
        Self::named(upper.as_str())
    }

    /// The name of the sensor.
    pub fn name(&self) -> (s: &'static str)
        ensures
            s@ == match *self {
                TargetSensor::TH1 => "TH1"@,
                TargetSensor::TH2 => "TH2"@,
                TargetSensor::TH3 => "TH3"@,
                TargetSensor::J7 => "J7"@,
                TargetSensor::J8 => "J8"@,
            },
            Self::spec_named(s@) == Some(*self),
    {
        proof {
            lemma_names_differ();
        }
        match self {
            TargetSensor::TH1 => "TH1",
            TargetSensor::TH2 => "TH2",
            TargetSensor::TH3 => "TH3",
            TargetSensor::J7 => "J7",
            TargetSensor::J8 => "J8",
        }
    }
}

/// The five names are five different texts.
pub proof fn lemma_names_differ()
    ensures
        "TH1"@ != "TH2"@,
        "TH1"@ != "TH3"@,
        "TH1"@ != "J7"@,
        "TH1"@ != "J8"@,
        "TH2"@ != "TH3"@,
        "TH2"@ != "J7"@,
        "TH2"@ != "J8"@,
        "TH3"@ != "J7"@,
        "TH3"@ != "J8"@,
        "J7"@ != "J8"@,
{
    reveal_strlit("TH1");
    reveal_strlit("TH2");
    reveal_strlit("TH3");
    reveal_strlit("J7");
    reveal_strlit("J8");
    assert("TH1"@[2] == '1');
    assert("TH2"@[2] == '2');
    assert("TH3"@[2] == '3');
    assert("J7"@[1] == '7');
    assert("J8"@[1] == '8');
    assert("TH1"@.len() == 3);
    assert("J7"@.len() == 2);
}

} // verus!
