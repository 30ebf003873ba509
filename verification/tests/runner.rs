use hestia_sat::board::{sensor_at, Board, BoardId, BoardVersion};
use hestia_sat::device::i2c::{I2cAddr, I2cBus, I2cReg};
use hestia_sat::device::msp430::HeaterRegister;
use hestia_sat::device::stub_i2c::StubBus;
use hestia_sat::heater::{HeaterMode, TargetSensor};
use hestia_sat::payload::{default_board_version, default_i2c_bus, Payload};
use hestia_sat::programs::runner::{
    read_board, Event, HeaterAction, HeaterCommand, PayloadController, PayloadEvents, State, Tick,
};
use hestia_sat::programs::{default_heat_duty, Program, Programs};
use hestia_sat::reading::{Measurement, SensorReading};
use hestia_sat::sensors::Calibration;
use hestia_sat::{BusFault, ReadError};

const TH1: &str = "TH1";
const J7: &str = "J7";

fn celsius(adc_val: u16) -> f32 {
    1.0 / (1.0 / 298.15 + (1.0 / 3630.0) * f32::ln(4096.0 / adc_val as f32 - 1.0)) - 273.15
}

fn calibration() -> Calibration {
    let mut table = vec![0; 4096];
    for code in 1..4095u16 {
        table[code as usize] = (celsius(code) as f64 * 1.0e6).ceil() as i32;
    }
    Calibration::new(table).unwrap()
}

fn two_programs() -> Vec<Program> {
    vec![
        Program {
            id: 0,
            name: String::from("Top"),
            heat_time: 5,
            temp_sensor: String::from("TH1"),
            temp_abort: 80_000,
            thermostat: None,
            cool_temp: 40_000,
            heat_board: BoardId::Top,
            heat_duty: 1000,
        },
        Program {
            id: 1,
            name: String::from("Bottom"),
            heat_time: 3,
            temp_sensor: String::from("J7"),
            temp_abort: 100_000,
            thermostat: Some(80_000),
            cool_temp: 30_000,
            heat_board: BoardId::Bottom,
            heat_duty: 1000,
        },
    ]
}

fn reading(board: BoardId, temp: i32, temp_sensor: &'static str) -> Event<'static> {
    Event::TemperatureReading { board, temp, temp_sensor }
}

fn documented_events() -> Vec<Event<'static>> {
    vec![
        Event::Time,
        reading(BoardId::Top, 55_000, TH1),
        reading(BoardId::Top, 105_000, TH1),
        Event::Time,
        Event::Time,
        reading(BoardId::Top, 60_000, TH1),
        reading(BoardId::Bottom, 80_000, J7),
        Event::Time,
        reading(BoardId::Top, 35_000, TH1),
        reading(BoardId::Bottom, 120_000, J7),
        reading(BoardId::Bottom, 100_000, J7),
        Event::Time,
        Event::Time,
        reading(BoardId::Top, 120_000, TH1),
        reading(BoardId::Bottom, 90_000, J7),
        Event::Time,
        Event::Time,
        reading(BoardId::Top, 60_000, TH1),
        reading(BoardId::Bottom, 60_000, J7),
        Event::Time,
        Event::Time,
        Event::Time,
        reading(BoardId::Bottom, 30_000, J7),
        Event::Time,
    ]
}

/// One millisecond passes between two events.
fn ticks(start: i64, events: Vec<Event<'static>>) -> Vec<Tick<'static>> {
    events
        .into_iter()
        .enumerate()
        .map(|(k, event)| Tick { now: start + k as i64, event, aborted: false })
        .collect()
}

fn command(board: BoardId, action: HeaterAction) -> HeaterCommand {
    HeaterCommand { board, action }
}

fn off(board: BoardId) -> HeaterCommand {
    command(board, HeaterAction::Mode(HeaterMode::OFF))
}

#[test]
fn test_programs() {
    let programs = two_programs();
    let events = documented_events();

    let payload = Payload::from_config(&default_i2c_bus(), default_board_version()).unwrap();
    let mut controller = PayloadController::new(&payload, &programs).unwrap();
    let final_state = controller.run(1_700_000_000_000, &ticks(1_700_000_000_000, events));
    assert_eq!(State::Done, final_state);

    let top = BoardId::Top;
    let bottom = BoardId::Bottom;
    assert_eq!(
        vec![
            command(top, HeaterAction::Duty(255)),
            command(top, HeaterAction::TargetSensor(TargetSensor::TH1)),
            command(top, HeaterAction::Mode(HeaterMode::PWM)),
            off(top),
            command(bottom, HeaterAction::Duty(255)),
            command(bottom, HeaterAction::TargetSensor(TargetSensor::J7)),
            command(bottom, HeaterAction::TargetTemp(80_000)),
            command(bottom, HeaterAction::Mode(HeaterMode::PID)),
            off(bottom),
            off(top),
            off(bottom),
        ],
        controller.take_commands()
    );
    assert!(controller.take_commands().is_empty());
}

#[test]
fn programs_step_by_step() {
    let programs = two_programs();
    let payload = Payload::from_config(&default_i2c_bus(), default_board_version()).unwrap();
    let mut controller = PayloadController::new(&payload, &programs).unwrap();
    let mut state = controller.start_at(1000);
    match &state {
        State::Heating { program, end_time } => assert_eq!((0, 1005), (program.id, *end_time)),
        other => panic!("not heating: {:?}", other),
    }
    assert_eq!(3, controller.take_commands().len());

    // nothing happens before the end time on other events
    assert!(state.next_at(&mut controller, Event::Time, 1004).is_none());
    assert!(state.next_at(&mut controller, reading(BoardId::Top, 80_000, TH1), 1004).is_none());
    assert!(state.next_at(&mut controller, reading(BoardId::Bottom, 99_000, TH1), 1004).is_none());
    assert!(state.next_at(&mut controller, reading(BoardId::Top, 99_000, "TH2"), 1004).is_none());
    assert!(state.next_at(&mut controller, reading(BoardId::Top, 99_000, "th1"), 1004).is_none());
    assert!(controller.take_commands().is_empty());

    // the time is looked at first, whatever the event
    let cooling = state.next_at(&mut controller, reading(BoardId::Bottom, 0, J7), 1005).unwrap();
    assert_eq!(State::Cooling { program: &programs[0] }, cooling);
    assert_eq!(vec![off(BoardId::Top)], controller.take_commands());
    // over temperature
    let aborted = state.next_at(&mut controller, reading(BoardId::Top, 80_001, TH1), 1001).unwrap();
    assert_eq!(State::Cooling { program: &programs[0] }, aborted);
    assert_eq!(vec![off(BoardId::Top)], controller.take_commands());

    state = cooling;
    assert!(state.next_at(&mut controller, Event::Time, 99_999).is_none());
    assert!(state.next_at(&mut controller, reading(BoardId::Top, 40_001, TH1), 99_999).is_none());
    assert!(state.next_at(&mut controller, reading(BoardId::Bottom, 0, TH1), 99_999).is_none());
    let finished = state.next_at(&mut controller, reading(BoardId::Top, 40_000, TH1), 2000).unwrap();
    assert!(matches!(finished, State::FinishedProgram));
    assert!(controller.take_commands().is_empty());

    state = finished;
    let second = state.next_at(&mut controller, Event::Time, 3000).unwrap();
    match &second {
        State::Heating { program, end_time } => assert_eq!((1, 3003), (program.id, *end_time)),
        other => panic!("not heating: {:?}", other),
    }
    assert_eq!(4, controller.take_commands().len());
    let done = state.next_at(&mut controller, Event::Time, 3000).unwrap();
    assert!(done.is_done());
    assert!(!second.is_done());
    assert!(done.next_at(&mut controller, Event::Time, 4000).is_none());
    assert!(done.next_at(&mut controller, reading(BoardId::Top, 0, TH1), 4000).is_none());
    assert!(controller.take_commands().is_empty());

    let failed = State::Failed { message: String::from("broken") };
    match failed.next_at(&mut controller, Event::Time, 0) {
        Some(State::Failed { message }) => assert_eq!("broken", message),
        other => panic!("not failed: {:?}", other),
    }
    assert_eq!(State::Failed { message: String::new() }, failed);
    assert_ne!(State::Done, failed);
    assert_ne!(State::FinishedProgram, State::FinishedProgram);
}

#[test]
fn steps_at_the_present_time() {
    let programs = two_programs();
    let payload = Payload::from_config(&default_i2c_bus(), default_board_version()).unwrap();
    let mut controller = PayloadController::new(&payload, &programs).unwrap();
    let long_ago = State::Heating { program: &programs[0], end_time: 1_000_000_000_000 };
    assert_eq!(State::Cooling { program: &programs[0] }, long_ago.next(&mut controller, Event::Time).unwrap());
    let far_off = State::Heating { program: &programs[0], end_time: 100_000_000_000_000 };
    assert!(far_off.next(&mut controller, Event::Time).is_none());
    match controller.start() {
        State::Heating { program, end_time } => {
            assert_eq!(0, program.id);
            assert!(end_time > 1_700_000_000_000 && end_time < 100_000_000_000_000);
        },
        other => panic!("not heating: {:?}", other),
    }
}

#[test]
fn duty_is_rounded_to_the_nearest_step() {
    let payload = Payload::from_config(&default_i2c_bus(), default_board_version()).unwrap();
    for (fraction, duty) in [(0u16, 0u16), (1, 0), (2, 1), (500, 128), (250, 64), (998, 254), (999, 255), (1000, 255)] {
        let mut program = two_programs().remove(0);
        program.heat_duty = fraction;
        let programs = vec![program];
        let mut controller = PayloadController::new(&payload, &programs).unwrap();
        controller.start_at(0);
        assert_eq!(command(BoardId::Top, HeaterAction::Duty(duty)), controller.take_commands()[0]);
    }
    assert_eq!(1000, default_heat_duty());
}

#[test]
fn run_always_ends_with_heaters_off() {
    let programs = two_programs();
    let payload = Payload::from_config(&default_i2c_bus(), default_board_version()).unwrap();
    let tail = vec![off(BoardId::Top), off(BoardId::Bottom)];

    // the turns run out while the first program heats
    let mut controller = PayloadController::new(&payload, &programs).unwrap();
    let state = controller.run(0, &ticks(0, vec![Event::Time, Event::Time]));
    assert_eq!(State::Heating { program: &programs[0], end_time: 0 }, state);
    let commands = controller.take_commands();
    assert_eq!(5, commands.len());
    assert_eq!(tail, commands[3..].to_vec());

    // no turn at all
    let mut controller = PayloadController::new(&payload, &programs).unwrap();
    assert_eq!(State::Heating { program: &programs[0], end_time: 0 }, controller.run(0, &vec![]));
    assert_eq!(tail, controller.take_commands()[3..].to_vec());

    // cancelled after the third event: the fourth is not handled
    let mut controller = PayloadController::new(&payload, &programs).unwrap();
    let mut turns = ticks(0, documented_events());
    turns[2].aborted = true;
    let state = controller.run(0, &turns);
    assert_eq!(State::Cooling { program: &programs[0] }, state);
    let commands = controller.take_commands();
    assert_eq!(vec![off(BoardId::Top), off(BoardId::Top), off(BoardId::Bottom)], commands[3..].to_vec());

    // cancelled in the very first turn
    let mut controller = PayloadController::new(&payload, &programs).unwrap();
    let mut turns = ticks(0, documented_events());
    turns[0].aborted = true;
    assert_eq!(State::Heating { program: &programs[0], end_time: 0 }, controller.run(0, &turns));
    assert_eq!(tail, controller.take_commands()[3..].to_vec());

    // done before the turns run out: what is left is not handled
    let mut controller = PayloadController::new(&payload, &programs).unwrap();
    let mut events = documented_events();
    events.push(reading(BoardId::Top, 0, TH1));
    events.push(Event::Time);
    assert_eq!(State::Done, controller.run(0, &ticks(0, events)));
    let commands = controller.take_commands();
    assert_eq!(tail, commands[commands.len() - 2..].to_vec());
    assert_eq!(11, commands.len());

    // a payload of one board
    let single = Payload::single_board(2, BoardVersion::V2_2).unwrap();
    let second = vec![two_programs().remove(1)];
    let mut controller = PayloadController::new(&single, &second).unwrap();
    controller.run(0, &vec![]);
    assert_eq!(vec![off(BoardId::Bottom)], controller.take_commands()[4..].to_vec());
    controller.shutdown();
    controller.shutdown();
    assert_eq!(vec![off(BoardId::Bottom), off(BoardId::Bottom)], controller.take_commands());
}

fn end_time(state: &State) -> i128 {
    match state {
        State::Heating { end_time, .. } => *end_time,
        other => panic!("not heating: {:?}", other),
    }
}

#[test]
fn entering_heating_again_repeats_its_writes() {
    let programs = two_programs();
    let payload = Payload::from_config(&default_i2c_bus(), default_board_version()).unwrap();
    let mut controller = PayloadController::new(&payload, &programs).unwrap();
    assert!(controller.heating.is_none());

    // entered at 100 for 3 ms, and again 1 ms and 2 ms later: the same writes, the same end
    let first = controller.start_heat(&programs[1], TargetSensor::J7, 100);
    let first_writes = controller.take_commands();
    let second = controller.start_heat(&programs[1], TargetSensor::J7, 101);
    let second_writes = controller.take_commands();
    let third = controller.start_heat(&programs[1], TargetSensor::J7, 102);
    let third_writes = controller.take_commands();
    assert_eq!(4, first_writes.len());
    assert_eq!(first_writes, second_writes);
    assert_eq!(first_writes, third_writes);
    assert_eq!((103, 103, 103), (end_time(&first), end_time(&second), end_time(&third)));
    assert_eq!(103, controller.heating.unwrap().end_time);
    assert_eq!(1, controller.heating.unwrap().program.id);

    // also after the end, and also a copy of the program is the same program
    let copy = programs[1].clone();
    let late = controller.start_heat(&copy, TargetSensor::J7, i64::MAX);
    assert_eq!(103, end_time(&late));
    assert_eq!(first_writes, controller.take_commands());

    // a duplicate event leaves a heating state as it is
    assert!(first.next_at(&mut controller, reading(BoardId::Bottom, 50_000, J7), 101).is_none());
    assert!(first.next_at(&mut controller, reading(BoardId::Bottom, 50_000, J7), 101).is_none());
    assert_eq!(103, end_time(&first));
    assert_eq!(103, controller.heating.unwrap().end_time);
    assert!(controller.take_commands().is_empty());

    // another program has an end of its own, and takes the place of the first
    let other = controller.start_heat(&programs[0], TargetSensor::TH1, 200);
    assert_eq!(205, end_time(&other));
    assert_eq!(0, controller.heating.unwrap().program.id);
    let back = controller.start_heat(&programs[1], TargetSensor::J7, 300);
    assert_eq!(303, end_time(&back));
    controller.take_commands();

    // cooling another program leaves the heated one as it is
    assert_eq!(State::Cooling { program: &programs[0] }, controller.start_cool(&programs[0]));
    assert_eq!(vec![off(BoardId::Top)], controller.take_commands());
    assert_eq!(303, controller.heating.unwrap().end_time);
    assert_eq!(303, end_time(&controller.start_heat(&programs[1], TargetSensor::J7, 400)));

    // once the program has cooled, a new entry starts a new heat time
    controller.start_cool(&programs[1]);
    assert!(controller.heating.is_none());
    let again = controller.start_heat(&programs[1], TargetSensor::J7, 500);
    assert_eq!(503, end_time(&again));
    let huge = controller.start_heat(&programs[0], TargetSensor::TH1, i64::MAX);
    assert_eq!(i64::MAX as i128 + 5, end_time(&huge));

    // the end of a run leaves nothing heated
    controller.shutdown();
    assert!(controller.heating.is_none());
    assert_eq!(603, end_time(&controller.start_heat(&programs[1], TargetSensor::J7, 600)));
}

#[test]
fn the_machine_clears_the_heated_program_when_it_cools() {
    let programs = two_programs();
    let payload = Payload::from_config(&default_i2c_bus(), default_board_version()).unwrap();
    let mut controller = PayloadController::new(&payload, &programs).unwrap();
    let heating = controller.start_at(1000);
    assert_eq!(1005, controller.heating.unwrap().end_time);
    assert!(heating.next_at(&mut controller, Event::Time, 1004).is_none());
    assert_eq!(1005, controller.heating.unwrap().end_time);
    let cooling = heating.next_at(&mut controller, Event::Time, 1005).unwrap();
    assert!(controller.heating.is_none());
    let finished = cooling.next_at(&mut controller, reading(BoardId::Top, 0, TH1), 1006).unwrap();
    let second = finished.next_at(&mut controller, Event::Time, 2000).unwrap();
    assert_eq!(2003, end_time(&second));
    assert_eq!((1, 2003), (controller.heating.unwrap().program.id, controller.heating.unwrap().end_time));
    assert!(programs[1].same_as(&programs[1].clone()));
    assert!(!programs[1].same_as(&programs[0]));
    let mut renamed = programs[1].clone();
    renamed.name = String::from("bottom");
    assert!(!programs[1].same_as(&renamed));

    // a run that ends while a program heats leaves nothing heated
    let mut fresh = PayloadController::new(&payload, &programs).unwrap();
    let last = fresh.run(3000, &vec![]);
    assert_eq!(3005, end_time(&last));
    assert!(fresh.heating.is_none());
}

#[test]
fn controller_takes_only_what_the_payload_can_run() {
    let both = Payload::from_config(&default_i2c_bus(), default_board_version()).unwrap();
    let top_only = Payload::single_board(1, BoardVersion::V2_2).unwrap();
    assert!(PayloadController::new(&both, &two_programs()).is_some());
    assert!(PayloadController::new(&top_only, &two_programs()).is_none());
    assert!(PayloadController::new(&top_only, &vec![]).is_some());

    let mut unknown = two_programs();
    unknown[0].temp_sensor = String::from("TH4");
    assert!(PayloadController::new(&both, &unknown).is_none());
    let mut lower = two_programs();
    lower[1].temp_sensor = String::from("j7");
    let controller = PayloadController::new(&both, &lower).unwrap();
    assert_eq!(vec![TargetSensor::TH1, TargetSensor::J7], controller.targets);
    let mut hot = two_programs();
    hot[1].thermostat = Some(150_001);
    assert!(PayloadController::new(&both, &hot).is_none());
    hot[1].thermostat = Some(150_000);
    assert!(PayloadController::new(&both, &hot).is_none());
    hot[1].thermostat = Some(149_999);
    assert!(PayloadController::new(&both, &hot).is_some());
    hot[1].thermostat = Some(-54_999);
    assert!(PayloadController::new(&both, &hot).is_some());
    hot[1].thermostat = Some(-55_000);
    assert!(PayloadController::new(&both, &hot).is_none());
    let mut over = two_programs();
    over[0].heat_duty = 1001;
    assert!(PayloadController::new(&both, &over).is_none());

    let empty = vec![];
    let mut none = PayloadController::new(&both, &empty).unwrap();
    assert!(none.next_program_or_done(0).is_done());
    assert!(none.take_commands().is_empty());
}

#[test]
fn commands_become_bus_writes() {
    let cal = calibration();
    let board = Board::new(BoardId::Bottom, BoardVersion::V2_2);
    let write = |action| {
        let w = command(BoardId::Bottom, action).write(&board, &cal);
        assert_eq!((I2cBus { id: 2 }, I2cAddr(0x08)), (w.bus, w.addr));
        (w.reg, w.data)
    };
    assert_eq!((I2cReg(0x43), [255, 0]), write(HeaterAction::Duty(255)));
    assert_eq!((I2cReg(0x42), [3, 0]), write(HeaterAction::TargetSensor(TargetSensor::J7)));
    assert_eq!((I2cReg(0x41), [0xE9, 0x0D]), write(HeaterAction::TargetTemp(80_000)));
    assert_eq!((I2cReg(0x41), [0x00, 0x08]), write(HeaterAction::TargetTemp(25_000)));
    assert_eq!((I2cReg(0x40), [1, 0]), write(HeaterAction::Mode(HeaterMode::PID)));
    assert_eq!((I2cReg(0x40), [0, 0]), write(HeaterAction::Mode(HeaterMode::OFF)));
}

fn read_boards(payload: &Payload, cal: &Calibration) -> Vec<Option<Event<'static>>> {
    payload
        .iter()
        .iter()
        .map(|board| {
            let stub = StubBus { id: board.bus.id };
            let target = stub.transfer(&board.heater_request(HeaterRegister::TargetSensor));
            let sensor = board.get_target_sensor(&target);
            let reply = match board.target_sensor_request(&target) {
                Some(read) => stub.transfer(&read),
                None => Err(BusFault { errno: 0 }),
            };
            let reading = board.read_target_sensor_temp(&target, &reply);
            read_board(cal, board.id, &sensor, &reading)
        })
        .collect()
}

fn next_event(events: &mut PayloadEvents<'static>, payload: &Payload, cal: &Calibration) -> Option<Event<'static>> {
    if events.is_empty() {
        events.refill(&read_boards(payload, cal));
    }
    events.next()
}

#[test]
fn test_events_from_single_board() {
    let cal = calibration();
    let temp = (25.191437f32 * 1000.0).floor() as i32;
    assert_eq!(25.191437, celsius(2056));

    let payload = Payload::single_board(1, BoardVersion::V2_2).unwrap();
    let mut events = PayloadEvents::new();
    let board = BoardId::Top;
    assert_eq!(Some(Event::TemperatureReading { board, temp_sensor: "TH1", temp }), next_event(&mut events, &payload, &cal));
    assert_eq!(Some(Event::Time), next_event(&mut events, &payload, &cal));
    assert_eq!(Some(Event::TemperatureReading { board, temp_sensor: "TH1", temp }), next_event(&mut events, &payload, &cal));
    assert_eq!(Some(Event::Time), next_event(&mut events, &payload, &cal));

    let payload = Payload::single_board(2, BoardVersion::V2_2).unwrap();
    let mut events = PayloadEvents::new();
    let board = BoardId::Bottom;
    assert_eq!(Some(Event::TemperatureReading { board, temp_sensor: "TH1", temp }), next_event(&mut events, &payload, &cal));
    assert_eq!(Some(Event::Time), next_event(&mut events, &payload, &cal));
    assert_eq!(Some(Event::TemperatureReading { board, temp_sensor: "TH1", temp }), next_event(&mut events, &payload, &cal));
    assert_eq!(Some(Event::Time), next_event(&mut events, &payload, &cal));
}

#[test]
fn events_of_a_turn_come_last_in_first_out() {
    let mut events = PayloadEvents::new();
    assert!(events.is_empty());
    assert_eq!(None, events.next());
    let top = reading(BoardId::Top, 1, TH1);
    let bottom = reading(BoardId::Bottom, 2, J7);
    events.refill(&vec![Some(top), None, Some(bottom)]);
    assert!(!events.is_empty());
    assert_eq!(Some(bottom), events.next());
    assert_eq!(Some(top), events.next());
    assert_eq!(Some(Event::Time), events.next());
    assert_eq!(None, events.next());
    events.refill(&vec![None, None]);
    assert_eq!(Some(Event::Time), events.next());
    assert!(events.is_empty());
    events.refill(&vec![]);
    events.refill(&vec![Some(top)]);
    assert_eq!(vec![Event::Time, Event::Time, top], events.buffer);
}

#[test]
fn board_events_need_sensor_and_temperature() {
    let cal = calibration();
    let th1 = sensor_at(0);
    let ok = Ok(SensorReading::new(2056, Measurement::Thermistor { code: 2056 }));
    assert_eq!(
        Some(Event::TemperatureReading { board: BoardId::Top, temp_sensor: "TH1", temp: 25_191 }),
        read_board(&cal, BoardId::Top, &Ok(th1), &ok)
    );
    assert_eq!(None, read_board(&cal, BoardId::Top, &Err(ReadError::ValueOutOfRange), &ok));
    assert_eq!(None, read_board(&cal, BoardId::Top, &Ok(th1), &Err(ReadError::Disabled)));
    let outside = Ok(SensorReading::new(4095, Measurement::Thermistor { code: 4095 }));
    assert_eq!(None, read_board(&cal, BoardId::Top, &Ok(th1), &outside));
}

#[test]
fn programs_and_repeats() {
    let programs = Programs::new(two_programs(), true);
    assert_eq!(2, programs.iter().len());
    assert!(programs.repeats(false));
    assert!(!programs.repeats(true));
    let once = Programs::new(vec![], false);
    assert!(!once.repeats(false) && !once.repeats(true));
    assert_eq!("Program { id: 1, name: \"Bottom\" }", programs.iter()[1].label());
    assert_eq!(programs, programs.clone());
}
