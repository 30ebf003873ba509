//! The controller: a state machine that takes a list of programs through
//! heating and cooling, one event at a time, and says which heater commands
//! each step calls for.

use vstd::prelude::*;
use crate::board::{Board, BoardId};
use crate::heater::{uppercase_of, HeaterMode, TargetSensor};
use crate::payload::Payload;
use crate::programs::{same_program, Program};
use crate::device::i2c::{BusWrite, I2cReg};
use crate::device::msp430::{
    MSP430_WRITE_HEATER_MODE, MSP430_WRITE_HEATER_PWM_DUTY_CYCLE,
    MSP430_WRITE_HEATER_TARGET_SENSOR, MSP430_WRITE_HEATER_TARGET_TEMP,
};
use crate::reading::{reading_millis, spec_reading_millis, Measurement, SensorReading};
use crate::sensors::{setpoint_in_range, setpoint_ok, Calibration, Sensor};
use crate::text::same_text;
use crate::ReadResult;

verus! {

/// `chrono::Utc::now`, as milliseconds since the Unix epoch
/// (`timestamp_millis`). The result is the clock's; nothing is claimed of it.
/// The call panics where the system clock stands before the epoch.
#[verifier::external_body]
fn utc_now_millis() -> i64 {
    chrono::Utc::now().timestamp_millis()
}

/// What the controller is told.
#[derive(Debug, Copy, Clone, PartialEq)]
pub enum Event<'a> {
    /// A sensor of a board was read. The temperature is in thousandths of a
    /// degree Celsius.
    TemperatureReading { board: BoardId, temp_sensor: &'a str, temp: i32 },
    /// Time has passed.
    Time,
}

/// Where the controller stands.
#[derive(Debug)]
pub enum State<'a> {
    /// The heater of the program's board is on until `end_time`, in
    /// milliseconds since the Unix epoch.
    Heating { program: &'a Program, end_time: i128 },
    /// The heater is off and the program waits for its sensor to cool.
    Cooling { program: &'a Program },
    FinishedProgram,
    Done,
    Failed { message: String },
}

impl<'a> PartialEq for State<'a> {
    /// Two states are equal if both are heating, both cooling, both done or
    /// both failed.
    fn eq(&self, other: &Self) -> (r: bool) {
        match (self, other) {
            (State::Heating { .. }, State::Heating { .. }) => true,
            (State::Cooling { .. }, State::Cooling { .. }) => true,
            (State::Done, State::Done) => true,
            (State::Failed { .. }, State::Failed { .. }) => true,
            _ => false,
        }
    }
}

impl<'a> vstd::std_specs::cmp::PartialEqSpecImpl for State<'a> {
    open spec fn obeys_eq_spec() -> bool {
        true
    }

    open spec fn eq_spec(&self, other: &Self) -> bool {
        ||| (*self is Heating && *other is Heating)
        ||| (*self is Cooling && *other is Cooling)
        ||| (*self is Done && *other is Done)
        ||| (*self is Failed && *other is Failed)
    }
}

/// One write to the heater of a board.
#[derive(Debug, Copy, Clone, PartialEq, Eq, Structural)]
pub enum HeaterAction {
    /// Set the duty, 0 to 255.
    Duty(u16),
    /// Select the sensor to regulate on.
    TargetSensor(TargetSensor),
    /// Set the target temperature, in thousandths of a degree Celsius.
    TargetTemp(i32),
    /// Set the mode.
    Mode(HeaterMode),
}

/// A write to the heater of one board, for the caller to perform.
#[derive(Debug, Copy, Clone, PartialEq, Eq, Structural)]
pub struct HeaterCommand {
    pub board: BoardId,
    pub action: HeaterAction,
}

/// Whether an event is a reading of the program's sensor on the program's
/// board.
pub open spec fn event_matches(program: Program, event: Event) -> bool {
    event matches Event::TemperatureReading { board, temp_sensor, temp } && board
        == program.heat_board && temp_sensor@ == program.temp_sensor@
}

/// The temperature that an event reports.
pub open spec fn event_temp(event: Event) -> int {
    match event {
        Event::TemperatureReading { board, temp_sensor, temp } => temp as int,
        Event::Time => 0,
    }
}

/// The duty fraction of a heater that is always on, in thousandths.
pub const FULL_DUTY: u16 = 1000;

/// The duty that is written for a duty fraction in thousandths: the
/// fraction of 255, rounded to the nearest whole number.
pub open spec fn duty_code(heat_duty: u16) -> u16 {
    ((heat_duty as int * 255 + 500) / 1000) as u16
}

/// The writes on entering `Heating`: the duty, the target sensor, and then
/// either the target temperature and the regulated mode, where the program
/// has a thermostat setpoint, or the fixed-duty mode.
pub open spec fn heat_commands(program: Program, target: TargetSensor) -> Seq<HeaterCommand> {
    let board = program.heat_board;
    seq![
        HeaterCommand { board, action: HeaterAction::Duty(duty_code(program.heat_duty)) },
        HeaterCommand { board, action: HeaterAction::TargetSensor(target) },
    ] + match program.thermostat {
        Some(temp) => seq![
            HeaterCommand { board, action: HeaterAction::TargetTemp(temp) },
            HeaterCommand { board, action: HeaterAction::Mode(HeaterMode::PID) },
        ],
        None => seq![HeaterCommand { board, action: HeaterAction::Mode(HeaterMode::PWM) }],
    }
}

/// The write on entering `Cooling`: the heater of the program's board goes
/// off.
pub open spec fn cool_commands(program: Program) -> Seq<HeaterCommand> {
    seq![HeaterCommand { board: program.heat_board, action: HeaterAction::Mode(HeaterMode::OFF) }]
}

/// The writes that switch off the heater of every board, in the order of the
/// boards.
pub open spec fn off_commands(boards: Seq<Board>) -> Seq<HeaterCommand> {
    Seq::new(
        boards.len(),
        |i: int| HeaterCommand { board: boards[i].id, action: HeaterAction::Mode(HeaterMode::OFF) },
    )
}

/// Whether the writes of a program can be performed on the payload: the
/// program's board is configured, its duty is a fraction of one, and its
/// thermostat setpoint, if it has one, can be written.
pub open spec fn performable(program: Program, payload: Payload) -> bool {
    &&& payload.has_bus(program.heat_board.spec_bus_id())
    &&& program.heat_duty <= FULL_DUTY
    &&& program.thermostat matches Some(temp) ==> setpoint_ok(temp)
}

/// Whether the payload can run the program: its writes can be performed, and
/// its sensor is one that the heater can regulate on.
pub open spec fn runnable(program: Program, payload: Payload) -> bool {
    &&& performable(program, payload)
    &&& TargetSensor::spec_named(uppercase_of(program.temp_sensor@)) is Some
}

/// Whether a write can be performed on the payload: its board is configured,
/// a duty is 255 or less, and a target temperature can be written.
pub open spec fn can_perform(command: HeaterCommand, payload: Payload) -> bool {
    &&& payload.has_bus(command.board.spec_bus_id())
    &&& command.action matches HeaterAction::Duty(duty) ==> duty <= 255
    &&& command.action matches HeaterAction::TargetTemp(temp) ==> setpoint_ok(temp)
}

/// Whether the program of a state, if it has one, is one whose writes can be
/// performed on the payload.
pub open spec fn state_fits(state: State, payload: Payload) -> bool {
    match state {
        State::Heating { program, end_time } => performable(*program, payload),
        State::Cooling { program } => performable(*program, payload),
        _ => true,
    }
}

/// The program that a controller heats, and until when.
#[derive(Debug, Copy, Clone)]
pub struct Heat<'a> {
    pub program: &'a Program,
    /// Milliseconds since the Unix epoch.
    pub end_time: i128,
}

/// How far a controller has come: the place of the next program in its list,
/// and the program that it heats, if it heats one.
pub struct Progress<'a> {
    pub cursor: int,
    pub heating: Option<Heat<'a>>,
}

/// What one step comes to: the state that is entered, if any, how far the
/// controller has come after it, and the writes that the step calls for.
pub struct Step<'a> {
    pub next: Option<State<'a>>,
    pub progress: Progress<'a>,
    pub issued: Seq<HeaterCommand>,
}

/// The end time that is in force for a program: the one under which the
/// controller heats it, if it heats this program.
pub open spec fn end_time_in_force(heating: Option<Heat>, program: Program) -> Option<i128> {
    match heating {
        Some(heat) => if same_program(*heat.program, program) {
            Some(heat.end_time)
        } else {
            None
        },
        None => None,
    }
}

/// Entering `Heating` for a program at time `now`. The writes of the entry
/// are called for each time. The end time is `now` plus the program's heat
/// time, unless the controller heats this program already: then the end time
/// that is in force stays.
pub open spec fn spec_start_heat<'a>(
    program: &'a Program,
    target: TargetSensor,
    progress: Progress<'a>,
    now: i64,
) -> Step<'a> {
    let end_time = match end_time_in_force(progress.heating, *program) {
        Some(in_force) => in_force,
        None => (now + program.heat_time) as i128,
    };
    Step {
        next: Some(State::Heating { program, end_time }),
        progress: Progress { cursor: progress.cursor, heating: Some(Heat { program, end_time }) },
        issued: heat_commands(*program, target),
    }
}

/// Entering `Cooling` for a program: its heater goes off, and if the
/// controller heated this program it heats none any more.
pub open spec fn spec_start_cool<'a>(program: &'a Program, progress: Progress<'a>) -> Step<'a> {
    Step {
        next: Some(State::Cooling { program }),
        progress: Progress {
            cursor: progress.cursor,
            heating: if end_time_in_force(progress.heating, *program) is Some {
                None
            } else {
                progress.heating
            },
        },
        issued: cool_commands(*program),
    }
}

/// A step that changes nothing.
pub open spec fn no_step<'a>(progress: Progress<'a>) -> Step<'a> {
    Step { next: None, progress, issued: seq![] }
}

/// The transition function. `progress` says how far the controller has come
/// in `programs`, and `targets` holds the target sensor of each program.
///
/// While heating, the time is looked at first, whatever the event: at or
/// after the end time cooling starts. Before it, a reading of the program's
/// sensor above the abort temperature starts cooling too. While cooling, a
/// reading of the program's sensor at or below the cool temperature finishes
/// the program. A finished program gives way to the next one, which starts
/// heating at once, or to `Done` where none is left. `Done` stays.
pub open spec fn spec_next<'a>(
    state: State<'a>,
    programs: Seq<Program>,
    targets: Seq<TargetSensor>,
    progress: Progress<'a>,
    event: Event,
    now: i64,
) -> Step<'a> {
    match state {
        State::Heating { program, end_time } => {
            if now >= end_time || (event_matches(*program, event) && event_temp(event)
                > program.temp_abort) {
                spec_start_cool(program, progress)
            } else {
                no_step(progress)
            }
        },
        State::Cooling { program } => {
            if event_matches(*program, event) && event_temp(event) <= program.cool_temp {
                Step { next: Some(State::FinishedProgram), progress, issued: seq![] }
            } else {
                no_step(progress)
            }
        },
        State::FinishedProgram => spec_next_program_or_done(programs, targets, progress, now),
        State::Done => no_step(progress),
        State::Failed { message } => Step {
            next: Some(State::Failed { message }),
            progress,
            issued: seq![],
        },
    }
}

/// Entering `Heating` for the next program of the list, or `Done` where the
/// list is at its end.
pub open spec fn spec_next_program_or_done<'a>(
    programs: Seq<Program>,
    targets: Seq<TargetSensor>,
    progress: Progress<'a>,
    now: i64,
) -> Step<'a> {
    if 0 <= progress.cursor < programs.len() {
        spec_start_heat(
            &programs[progress.cursor],
            targets[progress.cursor],
            Progress { cursor: progress.cursor + 1, heating: progress.heating },
            now,
        )
    } else {
        Step { next: Some(State::Done), progress, issued: seq![] }
    }
}

/// Runs a list of programs on a payload. The controller performs no write
/// itself: each step adds the writes that it calls for to `commands`, and
/// the caller takes them from there and performs them.
#[derive(Debug)]
pub struct PayloadController<'a> {
    pub payload: &'a Payload,
    pub programs: &'a Vec<Program>,
    /// The target sensor of each program.
    pub targets: Vec<TargetSensor>,
    /// The place of the next program.
    pub cursor: usize,
    /// The program that is heated, from its entry into `Heating` until its
    /// entry into `Cooling`, with the end time that is in force for it.
    pub heating: Option<Heat<'a>>,
    /// The writes that were called for and not yet taken.
    pub commands: Vec<HeaterCommand>,
}

impl<'a> PayloadController<'a> {
    /// A controller is well formed if it holds the target sensor of each of
    /// its programs, its cursor is inside the list or at its end, and the
    /// writes of each of its programs, and of the program that it heats, can
    /// be performed on its payload.
    pub open spec fn wf(&self) -> bool {
        &&& self.targets@.len() == self.programs@.len()
        &&& self.cursor <= self.programs@.len()
        &&& forall|i: int|
            0 <= i < self.programs@.len() ==> performable(#[trigger] self.programs@[i], *self.payload)
        &&& self.heating matches Some(heat) ==> performable(*heat.program, *self.payload)
    }

    /// Whether `other` runs the same programs on the same payload.
    pub open spec fn same_task(&self, other: &Self) -> bool {
        &&& self.payload == other.payload
        &&& self.programs == other.programs
        &&& self.targets@ == other.targets@
    }

    /// How far the controller has come.
    pub open spec fn progress(&self) -> Progress<'a> {
        Progress { cursor: self.cursor as int, heating: self.heating }
    }

    /// A controller for `programs` on `payload`, at the first program and
    /// with no write called for. There is none where the payload cannot run
    /// one of the programs.
    pub fn new(payload: &'a Payload, programs: &'a Vec<Program>) -> (r: Option<Self>)
        ensures
            r is Some <==> forall|i: int|
                0 <= i < programs@.len() ==> runnable(#[trigger] programs@[i], *payload),
            r matches Some(c) ==> {
                &&& c.wf()
                &&& c.payload == payload
                &&& c.programs == programs
                &&& c.cursor == 0
                &&& c.heating is None
                &&& c.commands@.len() == 0
                &&& forall|i: int|
                    0 <= i < programs@.len() ==> TargetSensor::spec_named(
                        uppercase_of(programs@[i].temp_sensor@),
                    ) == Some(#[trigger] c.targets@[i])
            },
    {
        let mut targets: Vec<TargetSensor> = Vec::new();
        let mut i: usize = 0;
        while i < programs.len()
            invariant
                i <= programs@.len(),
                targets@.len() == i,
                forall|k: int| 0 <= k < i ==> runnable(#[trigger] programs@[k], *payload),
                forall|k: int|
                    0 <= k < i ==> TargetSensor::spec_named(uppercase_of(programs@[k].temp_sensor@))
                        == Some(#[trigger] targets@[k]),
            decreases programs@.len() - i,
        {
            let program = &programs[i];
            if program.heat_duty > FULL_DUTY {
                assert(!runnable(programs@[i as int], *payload));
                return None;
            }
            if payload.get(program.heat_board.bus_id()).is_none() {
                assert(!runnable(programs@[i as int], *payload));
                return None;
            }
            match program.thermostat {
                Some(temp) => {
                    if !setpoint_in_range(temp) {
                        assert(!runnable(programs@[i as int], *payload));
                        return None;
                    }
                },
                None => {},
            }
            match TargetSensor::parse(program.temp_sensor.as_str()) {
                Some(target) => {
                    targets.push(target);
                },
                None => {
                    assert(!runnable(programs@[i as int], *payload));
                    return None;
                },
            }
            i = i + 1;
        }
        Some(
            PayloadController {
                payload,
                programs,
                targets,
                cursor: 0,
                heating: None,
                commands: Vec::new(),
            },
        )
    }

    /// Starts the first program at the present time. See
    /// [`start_at`](Self::start_at), which this is for some reading of the
    /// clock.
    pub fn start(&mut self) -> (state: State<'a>)
        requires
            old(self).wf(),
            old(self).cursor < old(self).programs@.len(),
        ensures
            final(self).wf(),
            final(self).same_task(old(self)),
            exists|now: i64|
                {
                    &&& Some(state) == (#[trigger] spec_next_program_or_done(
                        old(self).programs@,
                        old(self).targets@,
                        old(self).progress(),
                        now,
                    )).next
                    &&& final(self).progress() == spec_next_program_or_done(
                        old(self).programs@,
                        old(self).targets@,
                        old(self).progress(),
                        now,
                    ).progress
                    &&& final(self).commands@ == old(self).commands@ + heat_commands(
                        old(self).programs@[old(self).cursor as int],
                        old(self).targets@[old(self).cursor as int],
                    )
                },
    {
        let now = utc_now_millis();
        self.start_at(now)
    }

    /// Takes the next program from the list and enters `Heating` for it at
    /// time `now`. A program must be left.
    pub fn start_at(&mut self, now: i64) -> (state: State<'a>)
        requires
            old(self).wf(),
            old(self).cursor < old(self).programs@.len(),
        ensures
            final(self).wf(),
            final(self).same_task(old(self)),
            ({
                let step = spec_next_program_or_done(
                    old(self).programs@,
                    old(self).targets@,
                    old(self).progress(),
                    now,
                );
                &&& Some(state) == step.next
                &&& final(self).progress() == step.progress
                &&& final(self).commands@ == old(self).commands@ + step.issued
            }),
    {
        self.next_program_or_done(now)
    }

    /// Enters `Heating` for `program` at time `now`: calls for the writes of
    /// the duty, the target sensor and the mode, with the target temperature
    /// before the mode where the program has a thermostat setpoint.
    ///
    /// The end time is `now` plus the program's heat time. Where the
    /// controller heats this program already, the writes are called for
    /// again and the end time that is in force stays: entering again neither
    /// extends nor restarts the heat time.
    pub fn start_heat(&mut self, program: &'a Program, target: TargetSensor, now: i64) -> (state: State<'a>)
        ensures
            final(self).same_task(old(self)),
            ({
                let step = spec_start_heat(program, target, old(self).progress(), now);
                &&& Some(state) == step.next
                &&& final(self).progress() == step.progress
                &&& final(self).commands@ == old(self).commands@ + step.issued
            }),
    {
        let board = program.heat_board;
        let fresh: i128 = now as i128 + program.heat_time as i128;
        let end_time: i128 = match self.heating {
            Some(heat) => if heat.program.same_as(program) {
                heat.end_time
            } else {
                fresh
            },
            None => fresh,
        };
        let duty: u32 = (program.heat_duty as u32 * 255 + 500) / 1000;
        self.commands.push(HeaterCommand { board, action: HeaterAction::Duty(duty as u16) });
        self.commands.push(HeaterCommand { board, action: HeaterAction::TargetSensor(target) });
        match program.thermostat {
            Some(temp) => {
                self.commands.push(HeaterCommand { board, action: HeaterAction::TargetTemp(temp) });
                self.commands.push(HeaterCommand { board, action: HeaterAction::Mode(HeaterMode::PID) });
            },
            None => {
                self.commands.push(HeaterCommand { board, action: HeaterAction::Mode(HeaterMode::PWM) });
            },
        }
        self.heating = Some(Heat { program, end_time });
        assert(self.commands@ =~= old(self).commands@ + heat_commands(*program, target));
        State::Heating { program, end_time }
    }

    /// Enters `Cooling` for `program`: calls for the write that switches the
    /// heater of the program's board off. If the controller heated this
    /// program, it heats none any more.
    pub fn start_cool(&mut self, program: &'a Program) -> (state: State<'a>)
        ensures
            final(self).same_task(old(self)),
            ({
                let step = spec_start_cool(program, old(self).progress());
                &&& Some(state) == step.next
                &&& final(self).progress() == step.progress
                &&& final(self).commands@ == old(self).commands@ + step.issued
            }),
    {
        self.commands.push(
            HeaterCommand { board: program.heat_board, action: HeaterAction::Mode(HeaterMode::OFF) },
        );
        let heated = match self.heating {
            Some(heat) => heat.program.same_as(program),
            None => false,
        };
        if heated {
            self.heating = None;
        }
        assert(self.commands@ =~= old(self).commands@ + cool_commands(*program));
        State::Cooling { program }
    }

    /// Moves on in the list: enters `Heating` for the next program at time
    /// `now`, or `Done` where none is left.
    pub fn next_program_or_done(&mut self, now: i64) -> (state: State<'a>)
        requires
            old(self).wf(),
        ensures
            final(self).wf(),
            final(self).same_task(old(self)),
            ({
                let step = spec_next_program_or_done(
                    old(self).programs@,
                    old(self).targets@,
                    old(self).progress(),
                    now,
                );
                &&& Some(state) == step.next
                &&& final(self).progress() == step.progress
                &&& final(self).commands@ == old(self).commands@ + step.issued
            }),
    {
        if self.cursor < self.programs.len() {
            let program = &self.programs[self.cursor];
            let target = self.targets[self.cursor];
            self.cursor = self.cursor + 1;
            self.start_heat(program, target, now)
        } else {
            assert(self.commands@ =~= old(self).commands@ + Seq::<HeaterCommand>::empty());
            State::Done
        }
    }

    /// Calls for the write that switches the heater off, for every board of
    /// the payload: what is owed whenever a run ends, however it ends. After
    /// it the controller heats no program.
    pub fn shutdown(&mut self)
        ensures
            final(self).commands@ == old(self).commands@ + off_commands(old(self).payload.boards@),
            final(self).cursor == old(self).cursor,
            final(self).heating is None,
            final(self).same_task(old(self)),
    {
        let mut i: usize = 0;
        while i < self.payload.boards.len()
            invariant
                i <= self.payload.boards@.len(),
                self.same_task(old(self)),
                self.cursor == old(self).cursor,
                self.commands@ == old(self).commands@ + off_commands(old(self).payload.boards@).take(
                    i as int,
                ),
            decreases self.payload.boards@.len() - i,
        {
            self.commands.push(
                HeaterCommand { board: self.payload.boards[i].id, action: HeaterAction::Mode(HeaterMode::OFF) },
            );
            i = i + 1;
            assert(self.commands@ =~= old(self).commands@ + off_commands(
                old(self).payload.boards@,
            ).take(i as int));
        }
        self.heating = None;
        assert(off_commands(old(self).payload.boards@).take(i as int) =~= off_commands(
            old(self).payload.boards@,
        ));
    }

    /// Hands over the writes that were called for since the last call, in
    /// their order, for the caller to perform.
    pub fn take_commands(&mut self) -> (taken: Vec<HeaterCommand>)
        ensures
            taken@ == old(self).commands@,
            final(self).commands@.len() == 0,
            final(self).progress() == old(self).progress(),
            final(self).same_task(old(self)),
    {
        let mut taken: Vec<HeaterCommand> = Vec::new();
        std::mem::swap(&mut taken, &mut self.commands);
        taken
    }
}

impl<'a> State<'a> {
    /// One step at the present time: the state that `event` leads to, or
    /// `None` where the current state continues. See
    /// [`next_at`](Self::next_at), which this is for some reading of the
    /// clock.
    pub fn next(&self, controller: &mut PayloadController<'a>, event: Event) -> (r: Option<State<'a>>)
        requires
            old(controller).wf(),
        ensures
            final(controller).wf(),
            final(controller).same_task(old(controller)),
            exists|now: i64|
                {
                    &&& r == (#[trigger] spec_next(
                        *self,
                        old(controller).programs@,
                        old(controller).targets@,
                        old(controller).progress(),
                        event,
                        now,
                    )).next
                    &&& final(controller).progress() == spec_next(
                        *self,
                        old(controller).programs@,
                        old(controller).targets@,
                        old(controller).progress(),
                        event,
                        now,
                    ).progress
                    &&& final(controller).commands@ == old(controller).commands@ + spec_next(
                        *self,
                        old(controller).programs@,
                        old(controller).targets@,
                        old(controller).progress(),
                        event,
                        now,
                    ).issued
                },
    {
        let current_time = utc_now_millis();
        self.next_at(controller, event, current_time)
    }

    /// One step at time `now`, in milliseconds since the Unix epoch: the
    /// state that `event` leads to, or `None` where the current state
    /// continues. The writes that the step calls for are added to the
    /// controller's commands.
    pub fn next_at(&self, controller: &mut PayloadController<'a>, event: Event, now: i64) -> (r: Option<
        State<'a>,
    >)
        requires
            old(controller).wf(),
        ensures
            final(controller).wf(),
            final(controller).same_task(old(controller)),
            ({
                let step = spec_next(
                    *self,
                    old(controller).programs@,
                    old(controller).targets@,
                    old(controller).progress(),
                    event,
                    now,
                );
                &&& r == step.next
                &&& final(controller).progress() == step.progress
                &&& final(controller).commands@ == old(controller).commands@ + step.issued
            }),
    {
        proof {
            assert(controller.commands@ =~= controller.commands@ + Seq::<HeaterCommand>::empty());
        }
        match self {
            State::Heating { program, end_time } => {
                if now as i128 >= *end_time {
                    return Some(controller.start_cool(program));
                }
                match event {
                    Event::TemperatureReading { board, temp_sensor, temp } => {
                        if board == program.heat_board && same_text(
                            temp_sensor,
                            program.temp_sensor.as_str(),
                        ) {
                            if temp > program.temp_abort {
                                Some(controller.start_cool(program))
                            } else {
                                None
                            }
                        } else {
                            None
                        }
                    },
                    Event::Time => None,
                }
            },
            State::Cooling { program } => {
                match event {
                    Event::TemperatureReading { board, temp_sensor, temp } => {
                        if board == program.heat_board && same_text(
                            temp_sensor,
                            program.temp_sensor.as_str(),
                        ) {
                            if temp <= program.cool_temp {
                                Some(State::FinishedProgram)
                            } else {
                                None
                            }
                        } else {
                            None
                        }
                    },
                    Event::Time => None,
                }
            },
            State::FinishedProgram => Some(controller.next_program_or_done(now)),
            State::Done => None,
            State::Failed { message } => Some(State::Failed { message: message.clone() }),
        }
    }

    /// Whether the state is `Done`.
    pub fn is_done(&self) -> (r: bool)
        ensures
            r == (*self is Done),
    {
        match self {
            State::Done => true,
            _ => false,
        }
    }
}

/// One turn of a run: an event, the clock's reading when it is handled, and
/// whether the run was found cancelled after it.
#[derive(Debug, Copy, Clone)]
pub struct Tick<'e> {
    /// Milliseconds since the Unix epoch.
    pub now: i64,
    pub event: Event<'e>,
    pub aborted: bool,
}

/// How a run ended: the last state, how far the controller had come, and the
/// writes that the run called for before its end.
pub struct Outcome<'a> {
    pub state: State<'a>,
    pub progress: Progress<'a>,
    pub issued: Seq<HeaterCommand>,
}

/// A run from turn `i` on. Each turn takes one step, unless the state is
/// `Done`, which ends the run. Cancellation is looked at once per turn, after
/// the step, and ends the run too; so does the end of the turns.
pub open spec fn spec_run_from<'a>(
    state: State<'a>,
    programs: Seq<Program>,
    targets: Seq<TargetSensor>,
    progress: Progress<'a>,
    ticks: Seq<Tick>,
    i: int,
) -> Outcome<'a>
    decreases ticks.len() - i,
{
    if i < 0 || i >= ticks.len() || state is Done {
        Outcome { state, progress, issued: seq![] }
    } else {
        let step = spec_next(state, programs, targets, progress, ticks[i].event, ticks[i].now);
        let entered = match step.next {
            Some(s) => s,
            None => state,
        };
        if ticks[i].aborted {
            Outcome { state: entered, progress: step.progress, issued: step.issued }
        } else {
            let rest = spec_run_from(entered, programs, targets, step.progress, ticks, i + 1);
            Outcome { state: rest.state, progress: rest.progress, issued: step.issued + rest.issued }
        }
    }
}

/// A whole run up to its end: the next program starts heating at time
/// `start`, and the turns follow.
pub open spec fn spec_run<'a>(
    programs: Seq<Program>,
    targets: Seq<TargetSensor>,
    progress: Progress<'a>,
    start: i64,
    ticks: Seq<Tick>,
) -> Outcome<'a> {
    let first = spec_next_program_or_done(programs, targets, progress, start);
    let rest = spec_run_from(first.next.unwrap(), programs, targets, first.progress, ticks, 0);
    Outcome { state: rest.state, progress: rest.progress, issued: first.issued + rest.issued }
}

impl<'a> PayloadController<'a> {
    /// Runs the programs over the given turns, from the next program on,
    /// which starts heating at time `start`, and returns the last state. A
    /// program must be left to start with.
    ///
    /// However the run ends, by `Done`, by cancellation or by the end of the
    /// turns, the writes that the run called for are followed by the writes
    /// that switch off the heater of every board of the payload, and the
    /// controller heats no program any more.
    pub fn run(&mut self, start: i64, ticks: &Vec<Tick>) -> (state: State<'a>)
        requires
            old(self).wf(),
            old(self).cursor < old(self).programs@.len(),
        ensures
            final(self).wf(),
            final(self).same_task(old(self)),
            final(self).heating is None,
            ({
                let outcome = spec_run(
                    old(self).programs@,
                    old(self).targets@,
                    old(self).progress(),
                    start,
                    ticks@,
                );
                &&& state == outcome.state
                &&& final(self).cursor == outcome.progress.cursor
                &&& final(self).commands@ == old(self).commands@ + outcome.issued + off_commands(
                    old(self).payload.boards@,
                )
            }),
    {
        let ghost total = spec_run(self.programs@, self.targets@, self.progress(), start, ticks@);
        let ghost base = self.commands@;
        let ghost mut so_far = spec_next_program_or_done(
            self.programs@,
            self.targets@,
            self.progress(),
            start,
        ).issued;
        let mut state = self.start_at(start);
        let mut i: usize = 0;
        let mut stop = false;
        while i < ticks.len() && !stop
            invariant
                i <= ticks@.len(),
                self.wf(),
                self.same_task(old(self)),
                self.commands@ == base + so_far,
                ({
                    let rest = if stop {
                        Outcome { state, progress: self.progress(), issued: seq![] }
                    } else {
                        spec_run_from(state, self.programs@, self.targets@, self.progress(), ticks@, i as int)
                    };
                    &&& total.state == rest.state
                    &&& total.progress == rest.progress
                    &&& total.issued == so_far + rest.issued
                }),
            decreases ticks@.len() - i + (if stop { 0int } else { 1int }),
        {
            if state.is_done() {
                stop = true;
            } else {
                let tick = ticks[i];
                let ghost step = spec_next(
                    state,
                    self.programs@,
                    self.targets@,
                    self.progress(),
                    tick.event,
                    tick.now,
                );
                let ghost before = so_far;
                if let Some(new_state) = state.next_at(self, tick.event, tick.now) {
                    state = new_state;
                }
                proof {
                    so_far = before + step.issued;
                    assert(self.commands@ =~= base + so_far);
                    if !tick.aborted {
                        let rest = spec_run_from(
                            state,
                            self.programs@,
                            self.targets@,
                            self.progress(),
                            ticks@,
                            i as int + 1,
                        );
                        assert(total.issued =~= so_far + rest.issued);
                    } else {
                        assert(total.issued =~= so_far + Seq::<HeaterCommand>::empty());
                    }
                }
                if tick.aborted {
                    stop = true;
                }
                i = i + 1;
            }
        }
        proof {
            assert(total.issued =~= so_far);
            assert(base + so_far =~= base + total.issued);
        }
        self.shutdown();
        state
    }
}

/// A duty fraction of one or less gives a duty of 255 or less, and full duty
/// gives 255.
pub proof fn lemma_duty_in_range(heat_duty: u16)
    requires
        heat_duty <= FULL_DUTY,
    ensures
        duty_code(heat_duty) <= 255,
        duty_code(FULL_DUTY) == 255,
        duty_code(0) == 0,
{
}

/// Whatever a step of a well-formed controller calls for can be performed on
/// its payload, and the state that it enters and the program that it then
/// heats are again of programs of that kind.
pub proof fn lemma_step_can_be_performed<'a>(
    state: State<'a>,
    payload: Payload,
    programs: Seq<Program>,
    targets: Seq<TargetSensor>,
    progress: Progress<'a>,
    event: Event,
    now: i64,
)
    requires
        forall|i: int| 0 <= i < programs.len() ==> performable(#[trigger] programs[i], payload),
        state_fits(state, payload),
        progress.heating matches Some(heat) ==> performable(*heat.program, payload),
    ensures
        ({
            let step = spec_next(state, programs, targets, progress, event, now);
            &&& forall|k: int| 0 <= k < step.issued.len() ==> can_perform(#[trigger] step.issued[k], payload)
            &&& step.next matches Some(entered) ==> state_fits(entered, payload)
            &&& step.progress.heating matches Some(heat) ==> performable(*heat.program, payload)
        }),
{
    if state is FinishedProgram && 0 <= progress.cursor < programs.len() {
        assert(performable(programs[progress.cursor], payload));
        lemma_duty_in_range(programs[progress.cursor].heat_duty);
    }
}

/// The writes that switch off every heater can be performed on the payload
/// whose boards they are for.
pub proof fn lemma_shutdown_can_be_performed(payload: Payload)
    requires
        payload.wf(),
    ensures
        forall|k: int|
            0 <= k < payload.boards@.len() ==> can_perform(
                #[trigger] off_commands(payload.boards@)[k],
                payload,
            ),
{
    assert forall|k: int| 0 <= k < payload.boards@.len() implies can_perform(
        #[trigger] off_commands(payload.boards@)[k],
        payload,
    ) by {
        assert(payload.boards@[k].wf());
        assert(payload.boards@[k].bus.id == payload.boards@[k].id.spec_bus_id());
    }
}

/// The writes at the end of a run reach every board: after whatever came
/// before, there is for each board of the payload, in the order of the
/// boards, the write that switches its heater off, and nothing follows.
pub proof fn lemma_run_ends_with_heaters_off(before: Seq<HeaterCommand>, boards: Seq<Board>)
    ensures
        (before + off_commands(boards)).len() == before.len() + boards.len(),
        forall|i: int|
            0 <= i < boards.len() ==> (#[trigger] (before + off_commands(boards))[before.len() + i])
                == (HeaterCommand { board: boards[i].id, action: HeaterAction::Mode(HeaterMode::OFF) }),
{
}

/// Entering `Heating` again for the program that is heated, at whatever
/// time, calls for the same writes as the first entry and leaves the end
/// time as the first entry set it: the second entry gives the state and the
/// progress of the first.
pub proof fn lemma_heat_entry_repeats<'a>(
    program: &'a Program,
    target: TargetSensor,
    progress: Progress<'a>,
    first: i64,
    second: i64,
)
    ensures
        ({
            let entry = spec_start_heat(program, target, progress, first);
            let again = spec_start_heat(program, target, entry.progress, second);
            &&& again.issued == entry.issued
            &&& again.issued == heat_commands(*program, target)
            &&& again.next == entry.next
            &&& again.progress == entry.progress
            &&& end_time_in_force(again.progress.heating, *program) == end_time_in_force(
                entry.progress.heating,
                *program,
            )
            &&& end_time_in_force(progress.heating, *program) is None ==> entry.next == Some(
                State::Heating { program, end_time: (first + program.heat_time) as i128 },
            )
        }),
{
}

/// Once a program has entered `Cooling`, no end time is in force for it: a
/// new entry into `Heating` sets its end time by its own time.
pub proof fn lemma_cooling_ends_the_heat<'a>(
    program: &'a Program,
    target: TargetSensor,
    progress: Progress<'a>,
    now: i64,
)
    ensures
        ({
            let cooled = spec_start_cool(program, progress);
            let entry = spec_start_heat(program, target, cooled.progress, now);
            &&& end_time_in_force(cooled.progress.heating, *program) is None
            &&& entry.next == Some(
                State::Heating { program, end_time: (now + program.heat_time) as i128 },
            )
        }),
{
}

/// No event moves the end time of a program that is heating: an event
/// either leaves the state and the controller as they are, or starts cooling
/// for the same program, and it never takes another program from the list.
pub proof fn lemma_heating_keeps_end_time<'a>(
    program: &'a Program,
    end_time: i128,
    programs: Seq<Program>,
    targets: Seq<TargetSensor>,
    progress: Progress<'a>,
    event: Event,
    now: i64,
)
    ensures
        ({
            let step = spec_next(State::Heating { program, end_time }, programs, targets, progress, event, now);
            &&& step.progress.cursor == progress.cursor
            &&& step.next is None || step.next == Some(State::Cooling { program })
            &&& step.next is None ==> step.issued.len() == 0 && step.progress == progress
        }),
{
}

/// The readings of one turn that are there, in their order.
pub open spec fn present<'a>(readings: Seq<Option<Event<'a>>>) -> Seq<Event<'a>>
    decreases readings.len(),
{
    if readings.len() == 0 {
        seq![]
    } else {
        match readings.last() {
            Some(event) => present(readings.drop_last()).push(event),
            None => present(readings.drop_last()),
        }
    }
}

/// The events of a run. Each turn's events are one `Time` event and the
/// reading of each board's target sensor, where there is one. They are handed
/// out last in, first out: the `Time` event is the last of its turn.
#[derive(Debug)]
pub struct PayloadEvents<'a> {
    pub buffer: Vec<Event<'a>>,
}

impl<'a> PayloadEvents<'a> {
    pub fn new() -> (e: PayloadEvents<'a>)
        ensures
            e.buffer@.len() == 0,
    {
        PayloadEvents { buffer: Vec::new() }
    }

    /// Whether the events of the last turn are used up, so that the boards
    /// are to be read for the next one.
    pub fn is_empty(&self) -> (r: bool)
        ensures
            r == (self.buffer@.len() == 0),
    {
        self.buffer.len() == 0
    }

    /// Takes in the events of one turn: a `Time` event, and then the readings
    /// of the boards in the order of the boards, without those that failed.
    pub fn refill(&mut self, readings: &Vec<Option<Event<'a>>>)
        ensures
            final(self).buffer@ == old(self).buffer@ + seq![Event::Time] + present(readings@),
    {
        // always put something in the buffer
        self.buffer.push(Event::Time);
        let mut i: usize = 0;
        while i < readings.len()
            invariant
                i <= readings@.len(),
                self.buffer@ == old(self).buffer@ + seq![Event::Time] + present(readings@.take(i as int)),
            decreases readings@.len() - i,
        {
            let ghost before = self.buffer@;
            if let Some(reading) = readings[i] {
                self.buffer.push(reading);
            }
            i = i + 1;
            proof {
                assert(readings@.take(i as int).drop_last() =~= readings@.take(i as int - 1));
                assert(self.buffer@ =~= old(self).buffer@ + seq![Event::Time] + present(
                    readings@.take(i as int),
                ));
            }
        }
        assert(readings@.take(i as int) =~= readings@);
    }

    /// The next event: the one that came in last. There is none where the
    /// events are used up.
    pub fn next(&mut self) -> (r: Option<Event<'a>>)
        ensures
            old(self).buffer@.len() == 0 ==> r is None && final(self).buffer@ == old(self).buffer@,
            old(self).buffer@.len() > 0 ==> r == Some(old(self).buffer@.last()) && final(self).buffer@
                == old(self).buffer@.drop_last(),
    {
        self.buffer.pop()
    }
}

/// The event that reports a board's target sensor: there is one where both
/// the sensor is known and its reading has a temperature.
pub open spec fn spec_read_board(
    cal: Calibration,
    heat_board: BoardId,
    sensor: ReadResult<Sensor>,
    reading: ReadResult<SensorReading<Measurement>>,
) -> Option<Event<'static>> {
    match (sensor, spec_reading_millis(cal, reading)) {
        (Ok(s), Ok(t)) => Some(Event::TemperatureReading { board: heat_board, temp_sensor: s.id, temp: t }),
        _ => None,
    }
}

/// The event that reports a board's target sensor, from the sensor that the
/// heater regulates on and that sensor's reading. There is none where either
/// could not be read: the turn then goes without an event for this board.
pub fn read_board(
    cal: &Calibration,
    heat_board: BoardId,
    sensor: &ReadResult<Sensor>,
    reading: &ReadResult<SensorReading<Measurement>>,
) -> (r: Option<Event<'static>>)
    requires
        cal.wf(),
    ensures
        r == spec_read_board(*cal, heat_board, *sensor, *reading),
{
    match sensor {
        Err(_) => None,
        Ok(s) => match reading_millis(cal, reading) {
            Err(_) => None,
            Ok(t) => Some(Event::TemperatureReading { board: heat_board, temp_sensor: s.id, temp: t }),
        },
    }
}

impl HeaterCommand {
    /// The bus write that performs the command on `board`. The target
    /// temperature is written as its thermistor code.
    pub fn write(&self, board: &Board, cal: &Calibration) -> (w: BusWrite)
        requires
            cal.wf(),
            self.action matches HeaterAction::TargetTemp(temp) ==> setpoint_ok(temp),
        ensures
            match self.action {
                HeaterAction::Duty(duty) => board.heater.is_write(
                    w,
                    I2cReg(MSP430_WRITE_HEATER_PWM_DUTY_CYCLE),
                    duty,
                ),
                HeaterAction::TargetSensor(target) => board.heater.is_write(
                    w,
                    I2cReg(MSP430_WRITE_HEATER_TARGET_SENSOR),
                    target.spec_code(),
                ),
                HeaterAction::TargetTemp(temp) => exists|code: u16|
                    cal.is_code_of(code, temp) && board.heater.is_write(
                        w,
                        I2cReg(MSP430_WRITE_HEATER_TARGET_TEMP),
                        code,
                    ),
                HeaterAction::Mode(mode) => board.heater.is_write(
                    w,
                    I2cReg(MSP430_WRITE_HEATER_MODE),
                    mode.spec_code(),
                ),
            },
    {
        match self.action {
            HeaterAction::Duty(duty) => board.write_heater_duty(duty),
            HeaterAction::TargetSensor(target) => board.write_target_sensor(target),
            HeaterAction::TargetTemp(temp) => board.write_target_temp(cal, temp),
            HeaterAction::Mode(mode) => board.write_heater_mode(mode),
        }
    }
}

} // verus!
