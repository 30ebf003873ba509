use hestia_sat::board::{Board, BoardFlags, BoardId, BoardVersion, HeaterReplies};
use hestia_sat::csv::{
    day_text, display_headers, fixed2_string, log_file_name, measured, raw_headers, CsvData,
    CsvWriter, LineEnding, CSV_DISPLAY_FIELD_COUNT, CSV_RAW_FIELD_COUNT, DAY_FORMAT,
    TIMESTAMP_FORMAT,
};
use hestia_sat::device::i2c::BusReply;
use hestia_sat::device::msp430::HeaterRegister;
use hestia_sat::device::stub_i2c::StubBus;
use hestia_sat::heater::HeaterMode;
use hestia_sat::host::{disable_payload, enable_payload, gpio_set_high, gpio_set_low, GpioWrite};
use hestia_sat::board::sensor_at;
use hestia_sat::sensors::Calibration;
use hestia_sat::text::{decimal_string, same_text};
use hestia_sat::{BusFault, ReadError};

const CSV_RAW_HEADERS: [&str; 31] = [
    "UTC", "board", "TH1", "TH2", "TH3", "U4", "U5", "U6", "U7", "TH4", "TH5", "TH6", "J7", "J8",
    "J12", "J13", "J14", "J15", "J16", "v_high", "v_low", "v_curr", "v_high_avg", "v_low_avg",
    "v_curr_avg", "heater_mode", "target_temp", "target_sensor", "heater_duty", "max_temp",
    "flags",
];

const CSV_DISPLAY_HEADERS: [&str; 28] = [
    "UTC", "board", "TH1", "TH2", "TH3", "U4", "U5", "U6", "U7", "TH4", "TH5", "TH6", "J7", "J8",
    "J12", "J13", "J14", "J15", "J16", "heater_voltage", "heater_curr", "heater_power",
    "heater_mode", "target_temp", "target_sensor", "heater_duty", "max_temp", "flags",
];

fn celsius(adc_val: u16) -> f32 {
    1.0 / (1.0 / 298.15 + (1.0 / 3630.0) * f32::ln(4096.0 / adc_val as f32 - 1.0)) - 273.15
}

fn calibration() -> Calibration {
    let mut table = vec![0; 4096];
    for code in 1..4095u16 {
        table[code as usize] = (celsius(code) as f64 * 1.0e6).ceil() as i32;
    }
    Calibration::new(table).unwrap()
}

fn stub_replies(board: &Board) -> Vec<BusReply> {
    let stub = StubBus { id: board.bus.id };
    board
        .sensor_requests()
        .iter()
        .map(|r| match r {
            Some(read) => stub.transfer(read),
            None => Err(BusFault { errno: 0 }),
        })
        .collect()
}

fn stub_heater(board: &Board) -> HeaterReplies {
    let stub = StubBus { id: board.bus.id };
    HeaterReplies {
        heater_mode: stub.transfer(&board.heater_request(HeaterRegister::Mode)),
        target_temp: stub.transfer(&board.heater_request(HeaterRegister::TargetTemp)),
        target_sensor: stub.transfer(&board.heater_request(HeaterRegister::TargetSensor)),
        heater_duty: stub.transfer(&board.heater_request(HeaterRegister::Duty)),
        max_temp: stub.transfer(&board.heater_request(HeaterRegister::MaxTemp)),
        flags: stub.transfer(&board.heater_request(HeaterRegister::Flags)),
    }
}

#[test]
fn headings_follow_the_catalogue() {
    assert_eq!(CSV_RAW_HEADERS.to_vec(), raw_headers());
    assert_eq!(CSV_DISPLAY_HEADERS.to_vec(), display_headers());
    assert_eq!(CSV_RAW_FIELD_COUNT, raw_headers().len());
    assert_eq!(CSV_DISPLAY_FIELD_COUNT, display_headers().len());
}

#[test]
fn heading_lines() {
    assert_eq!(Some(format!("{}\n", CSV_RAW_HEADERS.join(","))), CsvWriter::stdout().write_raw_headers());
    assert_eq!(Some(format!("{}\n", CSV_DISPLAY_HEADERS.join(","))), CsvWriter::stdout().write_display_headers());
    assert_eq!(Some(format!("{}\r\n", CSV_RAW_HEADERS.join(","))), CsvWriter::file(true).write_raw_headers());
    assert_eq!(Some(format!("{}\r\n", CSV_DISPLAY_HEADERS.join(","))), CsvWriter::compressed_file(true).write_display_headers());
    assert_eq!(None, CsvWriter::file(false).write_raw_headers());
    assert_eq!(None, CsvWriter::compressed_file(false).write_display_headers());
    assert_eq!(("\n", "\r\n"), (LineEnding::LF.to_str(), LineEnding::CRLF.to_str()));
}

#[test]
fn lines_join_fields_with_commas() {
    let lf = CsvWriter::stdout();
    assert_eq!("\n", lf.write_line(&vec![]));
    assert_eq!("a\n", lf.write_line(&vec![String::from("a")]));
    assert_eq!("a,,b\n", lf.write_line(&vec![String::from("a"), String::new(), String::from("b")]));
    assert_eq!(",\r\n", CsvWriter::file(true).write_line(&vec![String::new(), String::new()]));
    assert_eq!("\n", lf.write_data(&vec![]));
    assert_eq!(
        "25.19,7,,PID,J7,ERR_MAX_TEMP\n",
        lf.write_data(&vec![
            CsvData::Milli { millis: 25_191 },
            CsvData::U16 { value: 7 },
            CsvData::Error,
            CsvData::HeaterMode { mode: HeaterMode::PID },
            CsvData::Sensor { sensor: sensor_at(10) },
            CsvData::BoardFlags { flags: BoardFlags { on: true, max_temp: true } },
        ])
    );
}

#[test]
fn two_decimals() {
    for (value, text) in [
        (0i64, "0.00"),
        (4, "0.00"),
        (5, "0.01"),
        (14, "0.01"),
        (15, "0.02"),
        (994, "0.99"),
        (995, "1.00"),
        (1000, "1.00"),
        (25_191, "25.19"),
        (25_195, "25.20"),
        (123_456_789, "123456.79"),
        (-1, "-0.00"),
        (-5, "-0.01"),
        (-4_004, "-4.00"),
        (-68_254, "-68.25"),
        (i64::MAX, "9223372036854775.81"),
        (i64::MIN, "-9223372036854775.81"),
    ] {
        assert_eq!(text, fixed2_string(value), "{}", value);
    }
    assert_eq!("0", decimal_string(0));
    assert_eq!("9", decimal_string(9));
    assert_eq!("10", decimal_string(10));
    assert_eq!("18446744073709551615", decimal_string(u64::MAX));
    assert!(same_text("TH1", "TH1"));
    assert!(!same_text("TH1", "TH"));
    assert!(!same_text("", "TH1"));
}

#[test]
fn timestamps_in_the_report_format() {
    assert_eq!("%Y-%m-%d %T.%6f", TIMESTAMP_FORMAT);
    assert_eq!("2023-08-17 04:17:15.406834", CsvData::Timestamp { micros: 1_692_245_835_406_834 }.text());
    assert_eq!("1970-01-01 00:00:00.000000", CsvData::Timestamp { micros: 0 }.text());
    assert_eq!("1969-12-31 23:59:59.999999", CsvData::Timestamp { micros: -1 }.text());
    assert_eq!("2022-09-11 18:34:48.000000", CsvData::Timestamp { micros: 1_662_921_288_000_000 }.text());
    let stamp = CsvData::Timestamp { micros: 5 };
    assert_eq!("then", stamp.text_given(Some(String::from("then"))));
    assert_eq!("", stamp.text_given(None));
    assert_eq!("5", CsvData::U16 { value: 5 }.text_given(Some(String::from("then"))));
    assert_eq!("", CsvData::Error.text());
}

#[test]
fn fields_from_results() {
    assert!(matches!(CsvData::from_raw(&Ok(7)), CsvData::U16 { value: 7 }));
    assert!(matches!(CsvData::from_raw(&Err(ReadError::Disabled)), CsvData::Error));
    assert!(matches!(CsvData::from_milli(&Ok(-7)), CsvData::Milli { millis: -7 }));
    assert!(matches!(CsvData::from_milli(&Err(ReadError::NoError)), CsvData::Error));
    let cal = calibration();
    assert!(matches!(measured(&cal, &Err(ReadError::Disabled)), CsvData::Error));
}

#[test]
fn raw_line_of_the_stub_board() {
    let board = Board::new(BoardId::Bottom, BoardVersion::V1_1);
    let data = board.read_data(true, board.read_sensors(&stub_replies(&board)), &stub_heater(&board)).unwrap();
    // on the first revision the converter shares its address with a digital sensor of the
    // stub, whose answer is no thermistor code
    let line = CsvWriter::file(true).write_raw_data(1_692_245_835_406_834, &board, &data.get_raw_data());
    assert_eq!(
        "2023-08-17 04:17:15.406834,2,2056,2056,2056,,6558,6546,6550,,,,2056,2056,,,,,,\
         2056,2056,2056,2056,2056,2056,0,2056,0,255,2056,1\r\n",
        line
    );
}

#[test]
fn display_line_of_the_stub_board() {
    let cal = calibration();
    let board = Board::new(BoardId::Top, BoardVersion::V2_2);
    let data = board.read_data(true, board.read_sensors(&stub_replies(&board)), &stub_heater(&board)).unwrap();
    let line = CsvWriter::stdout().write_display_data(&cal, 1_692_245_835_406_834, &board, &data);
    // the stub reads 3.363 V on the voltage channels and 1.681 on the current sense:
    // no drop across the heater, and no current through the shunt
    assert_eq!(
        "2023-08-17 04:17:15.406834,1,25.19,25.19,25.19,25.56,25.62,25.57,25.59,26.78,26.78,26.78,\
         25.19,25.19,26.78,26.78,26.78,26.78,26.78,0.00,0.00,0.00,OFF,25.19,TH1,255,25.19,OK\n",
        line
    );

    let old = Board::new(BoardId::Top, BoardVersion::V1_1);
    let mut replies = stub_replies(&old);
    replies[0] = Err(BusFault { errno: 5 });
    replies[21] = Ok([0xFF, 0xFF]);
    let mut heater = stub_heater(&old);
    heater.heater_mode = Ok([1, 0]);
    heater.flags = Ok([7, 0]);
    let data = old.read_data(true, old.read_sensors(&replies), &heater).unwrap();
    let line = CsvWriter::file(false).write_display_data(&cal, 0, &old, &data);
    assert_eq!(
        "1970-01-01 00:00:00.000000,1,,25.19,25.19,,25.62,25.57,25.59,,,,\
         25.19,25.19,,,,,,0.00,0.00,0.00,PID,25.19,TH1,255,25.19,\r\n",
        line
    );

    // revision 2.0 with a drop of 1 V at 1.681 A
    let mid = Board::new(BoardId::Top, BoardVersion::V2_0);
    let mut replies = stub_replies(&mid);
    replies[21] = Ok([0xA5, 0x05]);
    let data = mid.read_data(true, mid.read_sensors(&replies), &stub_heater(&mid)).unwrap();
    let line = CsvWriter::stdout().write_display_data(&cal, 0, &mid, &data);
    // 0x05A5 = 1445 -> 2.363 V on the low side
    assert!(line.contains(",1.00,1.68,1.68,OFF,"), "{}", line);
}

#[test]
fn report_file_names() {
    assert_eq!(Some(String::from("2023-08-17")), day_text(1_692_245_835_406_834));
    assert_eq!(Some(String::from("1970-01-01")), day_text(0));
    assert_eq!(Some(String::from("1969-12-31")), day_text(-1));
    assert_eq!(None, day_text(i64::MAX));
    assert_eq!("", CsvData::Timestamp { micros: i64::MIN }.text());
    assert_eq!("%Y-%m-%d", DAY_FORMAT);
    assert_eq!("uts-data-2023-08-16.csv", log_file_name("2023-08-16", false, false));
    assert_eq!("uts-data-2023-08-16-raw.csv", log_file_name("2023-08-16", true, false));
    assert_eq!("uts-data-2023-08-16.csv.bz2", log_file_name("2023-08-16", false, true));
    assert_eq!("uts-data-2023-08-16-raw.csv.bz2", log_file_name("2023-08-16", true, true));
}

#[test]
fn payload_power_pins() {
    assert_eq!(GpioWrite { pin: 45, high: false }, gpio_set_low(45));
    assert_eq!(GpioWrite { pin: 47, high: true }, gpio_set_high(47));
    assert_eq!(vec![gpio_set_low(45), gpio_set_high(47), gpio_set_low(27)], enable_payload());
    assert_eq!(vec![gpio_set_low(45), gpio_set_low(47), gpio_set_low(27)], disable_payload());
}
