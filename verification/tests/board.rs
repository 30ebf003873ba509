use hestia_sat::board::{
    all_sensors, calc_heater_current, calc_heater_power, calc_heater_voltage, every_reading_failed,
    sensor_at, Board, BoardFlags, BoardId, BoardVersion, HeaterReplies, SENSOR_COUNT,
};
use hestia_sat::device::i2c::{BusReply, BusRead, I2cAddr, I2cBus, I2cReg};
use hestia_sat::device::msp430::HeaterRegister;
use hestia_sat::device::stub_i2c::StubBus;
use hestia_sat::heater::{HeaterMode, TargetSensor};
use hestia_sat::payload::{
    default_board_version, default_http_port, default_i2c_bus, default_log_interval, Payload,
};
use hestia_sat::reading::{reading_millis, Measurement, ReadableSensor, SensorReading};
use hestia_sat::sensors::{Calibration, Sensor, SensorInterface};
use hestia_sat::{BusFault, ReadError, ReadResult};

fn celsius(adc_val: u16) -> f32 {
    1.0 / (1.0 / 298.15 + (1.0 / 3630.0) * f32::ln(4096.0 / adc_val as f32 - 1.0)) - 273.15
}

fn calibration() -> Calibration {
    let mut table = vec![0; 4096];
    for code in 1..4095u16 {
        table[code as usize] = (celsius(code) as f64 * 1.0e6).ceil() as i32;
    }
    Calibration::new(table).unwrap()
}

fn stub_replies(board: &Board) -> Vec<BusReply> {
    let stub = StubBus { id: board.bus.id };
    board
        .sensor_requests()
        .iter()
        .map(|r| match r {
            Some(read) => stub.transfer(read),
            None => Err(BusFault { errno: 0 }),
        })
        .collect()
}

fn stub_heater(board: &Board) -> HeaterReplies {
    let stub = StubBus { id: board.bus.id };
    HeaterReplies {
        heater_mode: stub.transfer(&board.heater_request(HeaterRegister::Mode)),
        target_temp: stub.transfer(&board.heater_request(HeaterRegister::TargetTemp)),
        target_sensor: stub.transfer(&board.heater_request(HeaterRegister::TargetSensor)),
        heater_duty: stub.transfer(&board.heater_request(HeaterRegister::Duty)),
        max_temp: stub.transfer(&board.heater_request(HeaterRegister::MaxTemp)),
        flags: stub.transfer(&board.heater_request(HeaterRegister::Flags)),
    }
}

#[test]
fn test_payload_index_option() {
    let top = Board::new(BoardId::Top, BoardVersion::V2_2);
    let payload = Payload::from_boards(vec![top.clone()]);
    assert_eq!(top, *payload.index_option(Some(1)));
    assert_eq!(top, *payload.index_option(None));
}

#[test]
fn test_payload_index_with_multiple() {
    let top = Board::new(BoardId::Top, BoardVersion::V2_2);
    let bottom = Board::new(BoardId::Bottom, BoardVersion::V2_2);
    let payload = Payload::from_boards(vec![top.clone(), bottom.clone()]);
    assert_eq!(top, *payload.index_option(Some(1)));
    assert_eq!(bottom, *payload.index_option(Some(2)));
    assert_eq!(top, *payload.index(1));
    assert_eq!(bottom, *payload.index(2));
}

#[test]
fn payload_lookup_without_a_board() {
    let empty = Payload::from_boards(vec![]);
    assert!(empty.get(1).is_none());
    assert_eq!(0, empty.iter().len());
    let top = Payload::from_boards(vec![Board::new(BoardId::Top, BoardVersion::V2_2)]);
    assert!(top.get(2).is_none());
    assert_eq!(BoardId::Top, top.get(1).unwrap().id);
}

#[test]
fn payload_from_config() {
    let payload = Payload::from_config(&default_i2c_bus(), default_board_version()).unwrap();
    assert_eq!(2, payload.iter().len());
    assert_eq!(BoardId::Top, payload.iter()[0].id);
    assert_eq!(BoardId::Bottom, payload.iter()[1].id);
    assert_eq!(BoardVersion::V2_2, payload.iter()[1].version);
    assert_eq!(3, Payload::from_config(&vec![1, 3, 0], BoardVersion::V2_0).unwrap_err());
    assert_eq!(0, Payload::from_config(&vec![0, 3], BoardVersion::V2_0).unwrap_err());
    assert_eq!(0, Payload::from_config(&vec![], BoardVersion::V2_0).unwrap().iter().len());
    let twice = Payload::from_config(&vec![2, 2], BoardVersion::V1_1).unwrap();
    assert_eq!(2, twice.iter().len());
    let single = Payload::single_board(2, BoardVersion::V1_1).unwrap();
    assert_eq!(1, single.iter().len());
    assert_eq!((BoardId::Bottom, BoardVersion::V1_1), (single.iter()[0].id, single.iter()[0].version));
    assert_eq!(7, Payload::single_board(7, BoardVersion::V1_1).unwrap_err());
    assert_eq!((5, 5000), (default_log_interval(), default_http_port()));
}

#[test]
fn board_identity() {
    assert_eq!(Ok(BoardId::Top), BoardId::try_from(1));
    assert_eq!(Ok(BoardId::Bottom), BoardId::try_from(2));
    assert_eq!(Err(()), BoardId::try_from(0));
    assert_eq!(Err(()), BoardId::try_from(3));
    assert_eq!(Ok(BoardId::Top), BoardId::try_from_str("1"));
    assert_eq!(Ok(BoardId::Bottom), BoardId::try_from_str("2"));
    assert_eq!(Err(()), BoardId::try_from_str("top"));
    assert_eq!(Err(()), BoardId::try_from_str(""));
    assert_eq!((1, 2), (BoardId::Top.bus_id(), BoardId::Bottom.bus_id()));
    assert_eq!(I2cBus { id: 2 }, BoardId::Bottom.bus());
    assert_eq!(("top", "bottom"), (BoardId::Top.name(), BoardId::Bottom.name()));
    assert_eq!((110, 200, 220), (BoardVersion::V1_1.number(), BoardVersion::V2_0.number(), BoardVersion::V2_2.number()));
    assert_eq!(("v1.1", "v2.0", "v2.2"), (BoardVersion::V1_1.name(), BoardVersion::V2_0.name(), BoardVersion::V2_2.name()));
    let board = Board::new(BoardId::Bottom, BoardVersion::V2_0);
    assert_eq!("Board(bottom, v2.0, 2)", board.label());
    assert_eq!(board, board.clone());
    assert_ne!(board, Board::new(BoardId::Bottom, BoardVersion::V2_2));
    assert_ne!(board, Board::new(BoardId::Top, BoardVersion::V2_0));
}

#[test]
fn catalogue_order_and_entries() {
    let all = all_sensors();
    assert_eq!(SENSOR_COUNT, all.len());
    let ids: Vec<&str> = all.iter().map(|s| s.id).collect();
    assert_eq!(
        vec![
            "TH1", "TH2", "TH3", "U4", "U5", "U6", "U7", "TH4", "TH5", "TH6", "J7", "J8", "J12",
            "J13", "J14", "J15", "J16", "v_high", "v_low", "v_curr", "v_high_avg", "v_low_avg",
            "v_curr_avg"
        ],
        ids
    );
    let th1 = sensor_at(0);
    assert_eq!(("TH1", SensorInterface::MSP430, I2cAddr(0x01), "Centre"), (th1.id, th1.iface, th1.addr, th1.label));
    assert_eq!(-42.0135f32, th1.pos_x as f32 / 10000.0);
    assert_eq!(43.18f32, th1.pos_y as f32 / 10000.0);
    let u6 = sensor_at(5);
    assert_eq!(("U6", SensorInterface::MAX31725, I2cAddr(0x49), "Bottom-right"), (u6.id, u6.iface, u6.addr, u6.label));
    assert_eq!((-82.296f32, 12.8535f32), (u6.pos_x as f32 / 10000.0, u6.pos_y as f32 / 10000.0));
    let j16 = sensor_at(16);
    assert_eq!(("J16", SensorInterface::ADS7828, I2cAddr(0x07), "Mounted", 0, 0), (j16.id, j16.iface, j16.addr, j16.label, j16.pos_x, j16.pos_y));
    let avg = sensor_at(22);
    assert_eq!(("v_curr_avg", SensorInterface::MSP430Current, I2cAddr(0x37), "Circuit"), (avg.id, avg.iface, avg.addr, avg.label));
    let new = Sensor::new("X", SensorInterface::ADS7828, 9, "Somewhere", 1, -2);
    assert_eq!(("X", I2cAddr(9), "Somewhere", 1, -2), (new.id, new.addr, new.label, new.pos_x, new.pos_y));
    assert_eq!("Mounted", Sensor::mounted("M", SensorInterface::MSP430, 1).label);
    assert_eq!("Circuit", Sensor::circuit("C", SensorInterface::MSP430Voltage, 1).label);
    assert_eq!("MSP430Current", SensorInterface::MSP430Current.name());
    assert_eq!("MAX31725", SensorInterface::MAX31725.name());
}

#[test]
fn first_revision_lacks_one_sensor() {
    for version in [BoardVersion::V1_1, BoardVersion::V2_0, BoardVersion::V2_2] {
        let board = Board::new(BoardId::Top, version);
        assert_eq!(SENSOR_COUNT, board.sensors.len());
        let requests = board.sensor_requests();
        assert_eq!(SENSOR_COUNT, requests.len());
        for (i, sensor) in all_sensors().iter().enumerate() {
            let enabled = version.is_sensor_enabled(sensor);
            assert_eq!(enabled, version != BoardVersion::V1_1 || sensor.id != "U4");
            assert_eq!(enabled, requests[i].is_some());
            assert_eq!(enabled, !matches!(board.sensors[i], ReadableSensor::Disabled(_)));
        }
    }
    let old = Board::new(BoardId::Bottom, BoardVersion::V1_1);
    assert_eq!("U4", old.sensors[3].name());
    assert_eq!(ReadError::Disabled, old.sensors[3].read(&Ok([0x19, 0x90])).unwrap_err());
    assert_eq!(
        Some(BusRead { bus: I2cBus { id: 2 }, addr: I2cAddr(0x48), reg: I2cReg(0x84) }),
        old.sensor_requests()[7]
    );
    let new = Board::new(BoardId::Bottom, BoardVersion::V2_2);
    assert_eq!(
        Some(BusRead { bus: I2cBus { id: 2 }, addr: I2cAddr(0x48), reg: I2cReg(0x00) }),
        new.sensor_requests()[3]
    );
    assert_eq!(
        Some(BusRead { bus: I2cBus { id: 2 }, addr: I2cAddr(0x4A), reg: I2cReg(0xC4) }),
        new.sensor_requests()[8]
    );
    assert_eq!(
        Some(BusRead { bus: I2cBus { id: 2 }, addr: I2cAddr(0x08), reg: I2cReg(0x38) }),
        new.sensor_requests()[20]
    );
    assert_eq!("ads7828/TH5", new.sensors[8].name());
}

#[test]
fn heater_voltage_current_power_by_revision() {
    // first revision: always zero
    assert_eq!(0, calc_heater_voltage(BoardVersion::V1_1, 5030, 10));
    assert_eq!(0, calc_heater_current(BoardVersion::V1_1, 2000, 500));
    assert_eq!(0, calc_heater_power(BoardVersion::V1_1, 5030, 2000, 500));
    assert_eq!(0, calc_heater_voltage(BoardVersion::V1_1, i32::MAX, i32::MIN));
    // revision 2.0: high side less low side, current read directly
    assert_eq!(4030, calc_heater_voltage(BoardVersion::V2_0, 5030, 1000));
    assert_eq!(0, calc_heater_voltage(BoardVersion::V2_0, 1000, 5030));
    assert_eq!(1675, calc_heater_current(BoardVersion::V2_0, 9999, 1675));
    assert_eq!(4030 * 1675, calc_heater_power(BoardVersion::V2_0, 5030, 1000, 1675));
    // revision 2.2: shunt of a twentieth of an ohm below the 3.0 V rail
    assert_eq!(4030, calc_heater_voltage(BoardVersion::V2_2, 5030, 1000));
    assert_eq!(2000, calc_heater_current(BoardVersion::V2_2, 1000, 900));
    assert_eq!(0, calc_heater_current(BoardVersion::V2_2, 900, 1000));
    assert_eq!(0, calc_heater_current(BoardVersion::V2_2, 3500, 3000));
    assert_eq!(0, calc_heater_current(BoardVersion::V2_2, 3500, 3200));
    assert_eq!(0, calc_heater_current(BoardVersion::V2_2, 3000, 100));
    assert_eq!(20 * 2899, calc_heater_current(BoardVersion::V2_2, 2999, 100));
    assert_eq!(4030 * 2000, calc_heater_power(BoardVersion::V2_2, 5030, 1000, 900));
    assert_eq!(i32::MAX as i64 - i32::MIN as i64, calc_heater_voltage(BoardVersion::V2_2, i32::MAX, i32::MIN));
    assert_eq!(20 * (2999 - i32::MIN as i64), calc_heater_current(BoardVersion::V2_2, 2999, i32::MIN));
    let board = Board::new(BoardId::Top, BoardVersion::V2_2);
    let fault: ReadResult<i32> = Err(ReadError::I2CError(BusFault { errno: 5 }));
    assert_eq!(Ok(4030), board.calc_heater_voltage(Ok(5030), Ok(1000)));
    assert_eq!(Err(ReadError::Disabled), board.calc_heater_voltage(Err(ReadError::Disabled), fault));
    assert_eq!(Err(ReadError::I2CError(BusFault { errno: 5 })), board.calc_heater_voltage(Ok(1), fault));
    assert_eq!(Ok(2000), board.calc_heater_current(Ok(1000), Ok(900)));
    assert_eq!(Err(ReadError::ValueOutOfRange), board.calc_heater_current(Ok(1000), Err(ReadError::ValueOutOfRange)));
    assert_eq!(Ok(4030 * 2000), board.calc_heater_power(Ok(5030), Ok(1000), Ok(900)));
    assert_eq!(Err(ReadError::Disabled), board.calc_heater_power(Ok(5030), Ok(1000), Err(ReadError::Disabled)));
    assert_eq!(Err(ReadError::Disabled), board.calc_heater_power(Ok(5030), Err(ReadError::Disabled), fault));
}

#[test]
fn board_flags_decode() {
    assert_eq!(Ok(BoardFlags { on: false, max_temp: false }), BoardFlags::try_from(0));
    assert_eq!(Ok(BoardFlags { on: true, max_temp: false }), BoardFlags::try_from(1));
    assert_eq!(Ok(BoardFlags { on: false, max_temp: true }), BoardFlags::try_from(2));
    assert_eq!(Ok(BoardFlags { on: true, max_temp: true }), BoardFlags::try_from(3));
    assert_eq!(Err(()), BoardFlags::try_from(4));
    assert_eq!(Err(()), BoardFlags::try_from(0x8001));
    assert_eq!(Err(()), BoardFlags::try_from(u16::MAX));
}

#[test]
fn whole_board_on_the_stub() {
    let cal = calibration();
    let board = Board::new(BoardId::Top, BoardVersion::V2_2);
    let sensors = board.read_sensors(&stub_replies(&board));
    assert!(sensors.iter().all(|r| r.is_ok()));
    let data = board.read_data(true, sensors, &stub_heater(&board)).unwrap();
    assert_eq!(SENSOR_COUNT, data.sensors.len());
    assert_eq!(2056, data.sensors[0].unwrap().raw_value);
    assert_eq!(Measurement::Thermistor { code: 2056 }, data.sensors[0].unwrap().display_value);
    assert_eq!(25_191, reading_millis(&cal, &data.sensors[0]).unwrap());
    assert_eq!(Measurement::CelsiusQ8 { q8: 6544 }, data.sensors[3].unwrap().display_value);
    assert_eq!(25_562, reading_millis(&cal, &data.sensors[3]).unwrap());
    assert_eq!(Measurement::Thermistor { code: 2122 }, data.sensors[7].unwrap().display_value);
    assert_eq!(Measurement::MilliVolts { value: 3363 }, data.sensors[17].unwrap().display_value);
    assert_eq!(Measurement::MilliAmps { value: 1681 }, data.sensors[19].unwrap().display_value);
    assert_eq!(HeaterMode::OFF, data.heater_mode.unwrap().display_value);
    assert_eq!(Measurement::Thermistor { code: 2056 }, data.target_temp.unwrap().display_value);
    assert_eq!("TH1", data.target_sensor.unwrap().display_value.id);
    assert_eq!(255, data.heater_duty.unwrap().display_value);
    assert_eq!(2056, data.max_temp.unwrap().raw_value);
    assert_eq!("OK", data.flags.unwrap().display_value.name());

    let raw = data.get_raw_data();
    assert_eq!(29, raw.len());
    assert_eq!(Ok(2056), raw[0]);
    assert_eq!(Ok(6544), raw[3]);
    assert_eq!(Ok(6400 + 2 * 0x4B), raw[6]);
    assert_eq!(Ok(2122), raw[16]);
    assert_eq!(Ok(2056), raw[22]);
    assert_eq!(vec![Ok(0), Ok(2056), Ok(0), Ok(255), Ok(2056), Ok(1)], raw[23..].to_vec());
}

#[test]
fn partial_sensor_failure_is_no_absence() {
    let board = Board::new(BoardId::Bottom, BoardVersion::V1_1);
    let fault = BusFault { errno: 121 };
    let heater = stub_heater(&board);

    // every transfer failed: the board is absent
    let all_failed = board.read_sensors(&vec![Err(fault); SENSOR_COUNT]);
    assert!(every_reading_failed(&all_failed));
    assert_eq!(ReadError::Disabled, *all_failed[3].as_ref().unwrap_err());
    assert!(board.read_data(true, all_failed, &heater).is_none());

    // one transfer went well: there is a snapshot, with each failure in its field
    let mut replies: Vec<BusReply> = vec![Err(fault); SENSOR_COUNT];
    replies[22] = Ok([0x00, 0x08]);
    let one_ok = board.read_sensors(&replies);
    assert!(!every_reading_failed(&one_ok));
    let data = board.read_data(true, one_ok, &heater).unwrap();
    assert_eq!(ReadError::I2CError(fault), *data.sensors[0].as_ref().unwrap_err());
    assert_eq!(ReadError::Disabled, *data.sensors[3].as_ref().unwrap_err());
    assert_eq!(2048, data.sensors[22].unwrap().raw_value);
    let raw = data.get_raw_data();
    assert!(raw[0].is_err() && raw[3].is_err());
    assert_eq!(Ok(2048), raw[22]);

    // all but one failed the other way round, and a code outside the window
    let mut replies = stub_replies(&board);
    replies[0] = Ok([0x00, 0x00]);
    let one_bad = board.read_sensors(&replies);
    let data = board.read_data(true, one_bad, &heater).unwrap();
    assert_eq!(ReadError::ValueOutOfRange, *data.sensors[0].as_ref().unwrap_err());
    assert!(data.sensors[1].is_ok());

    // the bus is not there: absent, whatever the readings
    let fine = board.read_sensors(&stub_replies(&board));
    assert!(board.read_data(false, fine, &heater).is_none());
    assert!(board.read_data(false, vec![], &heater).is_none());
    assert!(board.read_data(true, vec![], &heater).is_none());

    // heater registers that failed are errors in their fields
    let mut broken = stub_heater(&board);
    broken.heater_mode = Ok([9, 0]);
    broken.flags = Err(fault);
    let fine = board.read_sensors(&stub_replies(&board));
    let data = board.read_data(true, fine, &broken).unwrap();
    assert_eq!(ReadError::ValueOutOfRange, data.heater_mode.unwrap_err());
    assert_eq!(ReadError::I2CError(fault), data.flags.unwrap_err());
    assert!(data.heater_duty.is_ok());
}

#[test]
fn board_heater_transfers() {
    let cal = calibration();
    let board = Board::new(BoardId::Top, BoardVersion::V2_2);
    let w = board.write_heater_mode(HeaterMode::OFF);
    assert_eq!((I2cBus { id: 1 }, I2cAddr(0x08), I2cReg(0x40), [0, 0]), (w.bus, w.addr, w.reg, w.data));
    assert_eq!([255, 0], board.write_heater_duty(255).data);
    assert_eq!((I2cReg(0x42), [1, 0]), { let w = board.write_target_sensor(TargetSensor::TH2); (w.reg, w.data) });
    let w = board.write_target_temp(&cal, 80_000);
    assert_eq!((I2cReg(0x41), [0xE9, 0x0D]), (w.reg, w.data));
    let w = board.write_max_temp(&cal, 25_000);
    assert_eq!((I2cReg(0x44), [0x00, 0x08]), (w.reg, w.data));
    assert_eq!(HeaterMode::PWM, board.read_heater_mode(&Ok([2, 0])).unwrap().display_value);
    assert_eq!(128, board.read_heater_duty(&Ok([128, 0])).unwrap().display_value);
    assert_eq!(3561, board.read_target_temp(&Ok([0xE9, 0x0D])).unwrap().raw_value);
    assert_eq!("J7", board.get_target_sensor(&Ok([3, 0])).unwrap().id);
    assert_eq!(ReadError::ValueOutOfRange, board.get_target_sensor(&Ok([9, 0])).unwrap_err());
    assert_eq!(
        Some(BusRead { bus: I2cBus { id: 1 }, addr: I2cAddr(0x08), reg: I2cReg(0x04) }),
        board.target_sensor_request(&Ok([3, 0]))
    );
    assert_eq!(None, board.target_sensor_request(&Ok([5, 0])));
    assert_eq!(None, board.target_sensor_request(&Err(BusFault { errno: 1 })));
    let temp = board.read_target_sensor_temp(&Ok([3, 0]), &Ok([0x00, 0x08])).unwrap();
    assert_eq!(Measurement::Thermistor { code: 2048 }, temp.display_value);
    assert_eq!(ReadError::ValueOutOfRange, board.read_target_sensor_temp(&Ok([5, 0]), &Ok([0x00, 0x08])).unwrap_err());
    assert_eq!(ReadError::ValueOutOfRange, board.read_target_sensor_temp(&Ok([0, 0]), &Ok([0x00, 0x00])).unwrap_err());
    assert_eq!(
        ReadError::I2CError(BusFault { errno: 0 }),
        board.read_target_sensor_temp(&Err(BusFault { errno: 1 }), &Ok([0x00, 0x08])).unwrap_err()
    );
    let reading: ReadResult<SensorReading<Measurement>> = Err(ReadError::Disabled);
    assert_eq!(Err(ReadError::Disabled), reading_millis(&cal, &reading));
    let bad = Ok(SensorReading::new(1, Measurement::Thermistor { code: 1 }));
    assert_eq!(Err(ReadError::ValueOutOfRange), reading_millis(&cal, &bad));
    let cold = Ok(SensorReading::new(0xFFFF, Measurement::CelsiusQ8 { q8: -1 }));
    assert_eq!(Ok(-4), reading_millis(&cal, &cold));
    let volts = Ok(SensorReading::new(0, Measurement::MilliVolts { value: 5029 }));
    assert_eq!(Ok(5029), reading_millis(&cal, &volts));
}
