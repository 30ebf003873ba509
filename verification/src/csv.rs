//! Reports as lines of comma-separated values: which columns they have and
//! what stands in a field.

use vstd::prelude::*;
use crate::board::{
    catalog_entry, lemma_heater_power_bounds, sensor_at, spec_calc_heater_current, spec_calc_heater_power,
    spec_calc_heater_voltage, Board, BoardData, BoardFlags, SENSOR_COUNT,
};
use crate::heater::HeaterMode;
use crate::reading::{reading_millis, spec_reading_millis, Measurement, SensorReading};
use crate::sensors::{Calibration, Sensor};
use crate::text::{decimal, decimal_string, digit};
use crate::{ReadError, ReadResult};

verus! {

/// How a line ends.
#[derive(Debug, Copy, Clone, PartialEq, Eq, Structural)]
pub enum LineEnding {
    LF,
    CRLF,
}

impl LineEnding {
    pub open spec fn spec_to_str(self) -> Seq<char> {
        match self {
            LineEnding::LF => "\n"@,
            LineEnding::CRLF => "\r\n"@,
        }
    }

    pub fn to_str(&self) -> (s: &'static str)
        ensures
            s@ == self.spec_to_str(),
    {
        match self {
            LineEnding::LF => "\n",
            LineEnding::CRLF => "\r\n",
        }
    }
}

/// The format of a timestamp in a report, in `chrono`'s `strftime` notation.
pub const TIMESTAMP_FORMAT: &'static str = "%Y-%m-%d %T.%6f";

/// Number of columns of a raw report.
pub const CSV_RAW_FIELD_COUNT: usize = 31;

/// Number of columns of a display report.
pub const CSV_DISPLAY_FIELD_COUNT: usize = 28;

/// Number of sensor columns of a display report: the temperature sensors.
/// The voltage and current channels that follow them in the catalogue are
/// shown as the heater's voltage, current and power.
pub const DISPLAY_SENSOR_COUNT: usize = 17;

/// The heading of the column of a heater value, by its place among the six.
pub open spec fn heater_header(index: int) -> Seq<char> {
    if index == 0 {
        "heater_mode"@
    } else if index == 1 {
        "target_temp"@
    } else if index == 2 {
        "target_sensor"@
    } else if index == 3 {
        "heater_duty"@
    } else if index == 4 {
        "max_temp"@
    } else {
        "flags"@
    }
}

/// The heading of a column of a raw report: the time, the board, each
/// sensor of the catalogue by its name, and the six heater values.
pub open spec fn raw_header(index: int) -> Seq<char> {
    if index == 0 {
        "UTC"@
    } else if index == 1 {
        "board"@
    } else if index < 2 + SENSOR_COUNT {
        catalog_entry(index - 2).id@
    } else {
        heater_header(index - 2 - SENSOR_COUNT)
    }
}

/// The heading of a column of a display report: the time, the board, each
/// temperature sensor of the catalogue by its name, the heater's voltage,
/// current and power, and the six heater values.
pub open spec fn display_header(index: int) -> Seq<char> {
    if index == 0 {
        "UTC"@
    } else if index == 1 {
        "board"@
    } else if index < 2 + DISPLAY_SENSOR_COUNT {
        catalog_entry(index - 2).id@
    } else if index == 2 + DISPLAY_SENSOR_COUNT {
        "heater_voltage"@
    } else if index == 3 + DISPLAY_SENSOR_COUNT {
        "heater_curr"@
    } else if index == 4 + DISPLAY_SENSOR_COUNT {
        "heater_power"@
    } else {
        heater_header(index - 5 - DISPLAY_SENSOR_COUNT)
    }
}

fn push_heater_headers(v: &mut Vec<String>)
    ensures
        final(v)@.len() == old(v)@.len() + 6,
        forall|i: int| 0 <= i < old(v)@.len() ==> final(v)@[i] == old(v)@[i],
        forall|i: int| 0 <= i < 6 ==> (#[trigger] final(v)@[old(v)@.len() + i])@ == heater_header(i),
{
    v.push(String::from_str("heater_mode"));
    v.push(String::from_str("target_temp"));
    v.push(String::from_str("target_sensor"));
    v.push(String::from_str("heater_duty"));
    v.push(String::from_str("max_temp"));
    v.push(String::from_str("flags"));
}

fn push_sensor_headers(v: &mut Vec<String>, count: usize)
    requires
        count <= SENSOR_COUNT,
    ensures
        final(v)@.len() == old(v)@.len() + count,
        forall|i: int| 0 <= i < old(v)@.len() ==> final(v)@[i] == old(v)@[i],
        forall|i: int|
            0 <= i < count ==> (#[trigger] final(v)@[old(v)@.len() + i])@ == catalog_entry(i).id@,
{
    let mut i: usize = 0;
    while i < count
        invariant
            i <= count <= SENSOR_COUNT,
            v@.len() == old(v)@.len() + i,
            forall|k: int| 0 <= k < old(v)@.len() ==> v@[k] == old(v)@[k],
            forall|k: int| 0 <= k < i ==> (#[trigger] v@[old(v)@.len() + k])@ == catalog_entry(k).id@,
        decreases count - i,
    {
        v.push(String::from_str(sensor_at(i).id));
        i = i + 1;
    }
}

/// The texts of a list of strings.
pub open spec fn texts(line: Seq<String>) -> Seq<Seq<char>> {
    line.map_values(|s: String| s@)
}

/// The headings of a raw report.
pub open spec fn raw_header_row() -> Seq<Seq<char>> {
    Seq::new(CSV_RAW_FIELD_COUNT as nat, |i: int| raw_header(i))
}

/// The headings of a display report.
pub open spec fn display_header_row() -> Seq<Seq<char>> {
    Seq::new(CSV_DISPLAY_FIELD_COUNT as nat, |i: int| display_header(i))
}

/// The headings of a raw report, in the order of its columns.
pub fn raw_headers() -> (v: Vec<String>)
    ensures
        texts(v@) == raw_header_row(),
{
    let mut v: Vec<String> = Vec::new();
    v.push(String::from_str("UTC"));
    v.push(String::from_str("board"));
    push_sensor_headers(&mut v, SENSOR_COUNT);
    push_heater_headers(&mut v);
    assert forall|i: int| 0 <= i < CSV_RAW_FIELD_COUNT implies (#[trigger] v@[i])@ == raw_header(i) by {
        if 2 <= i < 2 + SENSOR_COUNT {
            assert(v@[2 + (i - 2)]@ == catalog_entry(i - 2).id@);
        } else if i >= 2 + SENSOR_COUNT {
            assert(v@[25 + (i - 25)]@ == heater_header(i - 25));
        }
    }
    assert(texts(v@) =~= raw_header_row());
    v
}

/// The headings of a display report, in the order of its columns.
pub fn display_headers() -> (v: Vec<String>)
    ensures
        texts(v@) == display_header_row(),
{
    let mut v: Vec<String> = Vec::new();
    v.push(String::from_str("UTC"));
    v.push(String::from_str("board"));
    push_sensor_headers(&mut v, DISPLAY_SENSOR_COUNT);
    v.push(String::from_str("heater_voltage"));
    v.push(String::from_str("heater_curr"));
    v.push(String::from_str("heater_power"));
    push_heater_headers(&mut v);
    assert forall|i: int| 0 <= i < CSV_DISPLAY_FIELD_COUNT implies (#[trigger] v@[i])@
        == display_header(i) by {
        if 2 <= i < 2 + DISPLAY_SENSOR_COUNT {
            assert(v@[2 + (i - 2)]@ == catalog_entry(i - 2).id@);
        } else if i >= 5 + DISPLAY_SENSOR_COUNT {
            assert(v@[22 + (i - 22)]@ == heater_header(i - 22));
        }
    }
    assert(texts(v@) =~= display_header_row());
    v
}

/// A value in thousandths written with two decimals: rounded to the nearest
/// hundredth, a half away from zero, with a minus sign before a negative
/// value.
pub open spec fn fixed2(value: int) -> Seq<char> {
    let magnitude = if value < 0 {
        -value
    } else {
        value
    };
    let hundredths = (magnitude + 5) / 10;
    let sign = if value < 0 {
        "-"@
    } else {
        ""@
    };
    sign + decimal((hundredths / 100) as nat) + "."@ + seq![
        digit((hundredths / 10) % 10),
        digit(hundredths % 10),
    ]
}

/// Writes a value in thousandths with two decimals.
pub fn fixed2_string(value: i64) -> (s: String)
    ensures
        s@ == fixed2(value as int),
{
    let magnitude: u64 = if value < 0 {
        (-(value as i128)) as u64
    } else {
        value as u64
    };
    let hundredths: u64 = (magnitude + 5) / 10;
    let mut s = String::from_str(
        if value < 0 {
            "-"
        } else {
            ""
        },
    );
    let whole = decimal_string(hundredths / 100);
    s.append(whole.as_str());
    s.append(".");
    let d1 = decimal_string((hundredths / 10) % 10);
    let d0 = decimal_string(hundredths % 10);
    s.append(d1.as_str());
    s.append(d0.as_str());
    proof {
        reveal_with_fuel(decimal, 2);
        assert(s@ =~= fixed2(value as int));
    }
    s
}

/// The format of the day in the name of a report's file, in `chrono`'s
/// `strftime` notation.
pub const DAY_FORMAT: &'static str = "%Y-%m-%d";

/// The text that `chrono` gives for a time in microseconds since the Unix
/// epoch, in UTC and in the given format; `None` for a time that `chrono`
/// cannot hold.
pub uninterp spec fn utc_text(micros: i64, format: Seq<char>) -> Option<Seq<char>>;

/// `chrono::DateTime::format` of the UTC time that
/// `DateTime::from_timestamp_micros` makes of `micros`, written out with
/// `to_string`. There is no text where `micros` is outside what a `DateTime`
/// holds. The text depends on `micros` and the format alone. Writing out
/// panics on a format that `chrono` does not know, so only the two formats of
/// this file are let in.
#[verifier::external_body]
fn format_utc(micros: i64, format: &str) -> (r: Option<String>)
    requires
        format@ == TIMESTAMP_FORMAT@ || format@ == DAY_FORMAT@,
    ensures
        match r {
            Some(s) => utc_text(micros, format@) == Some(s@),
            None => utc_text(micros, format@) is None,
        },
{
    match chrono::DateTime::from_timestamp_micros(micros) {
        Some(time) => Some(time.format(format).to_string()),
        None => None,
    }
}

/// The day of a time in microseconds since the Unix epoch, in UTC, as it
/// stands in the name of a report's file: year, month and day with hyphens
/// between. There is none for a time that `chrono` cannot hold.
pub fn day_text(micros: i64) -> (r: Option<String>)
    ensures
        match r {
            Some(s) => utc_text(micros, DAY_FORMAT@) == Some(s@),
            None => utc_text(micros, DAY_FORMAT@) is None,
        },
{
    format_utc(micros, DAY_FORMAT)
}

/// One field of a line.
#[derive(Debug, Copy, Clone)]
pub enum CsvData {
    /// A value in thousandths, shown with two decimals.
    Milli { millis: i64 },
    U16 { value: u16 },
    /// A time in microseconds since the Unix epoch.
    Timestamp { micros: i64 },
    HeaterMode { mode: HeaterMode },
    Sensor { sensor: Sensor },
    BoardFlags { flags: BoardFlags },
    /// A value that could not be read: an empty field.
    Error,
}

impl CsvData {
    /// The text of the field. The text of a time is the one that `chrono`
    /// gives it.
    pub open spec fn spec_text(self) -> Seq<char> {
        match self {
            CsvData::Timestamp { micros } => self.text_with(utc_text(micros, TIMESTAMP_FORMAT@)),
            _ => self.text_with(None),
        }
    }

    /// The text of the field whose time, if it is one, has the text
    /// `time_text`.
    pub open spec fn text_with(self, time_text: Option<Seq<char>>) -> Seq<char> {
        match self {
            CsvData::Milli { millis } => fixed2(millis as int),
            CsvData::U16 { value } => decimal(value as nat),
            CsvData::Timestamp { micros } => match time_text {
                Some(s) => s,
                None => ""@,
            },
            CsvData::HeaterMode { mode } => mode.name_text(),
            CsvData::Sensor { sensor } => sensor.id@,
            CsvData::BoardFlags { flags } => flags.name_text(),
            CsvData::Error => ""@,
        }
    }

    /// The text of the field. A value that could not be read gives an empty
    /// field, and so does a time that cannot be written.
    pub fn text(&self) -> (s: String)
        ensures
            s@ == self.spec_text(),
    {
        match self {
            CsvData::Timestamp { micros } => {
                let t = format_utc(*micros, TIMESTAMP_FORMAT);
                self.text_given(t)
            },
            _ => self.text_given(None),
        }
    }

    /// The text of the field, given the text of its time where it is one.
    pub fn text_given(&self, time_text: Option<String>) -> (s: String)
        ensures
            s@ == self.text_with(
                match time_text {
                    Some(t) => Some(t@),
                    None => None,
                },
            ),
    {
        match self {
            CsvData::Milli { millis } => fixed2_string(*millis),
            CsvData::U16 { value } => decimal_string(*value as u64),
            CsvData::Timestamp { micros } => match time_text {
                Some(t) => t,
                None => String::from_str(""),
            },
            CsvData::HeaterMode { mode } => String::from_str(mode.name()),
            CsvData::Sensor { sensor } => String::from_str(sensor.id),
            CsvData::BoardFlags { flags } => String::from_str(flags.name()),
            CsvData::Error => String::from_str(""),
        }
    }

    /// The field of a value in thousandths, or the empty field of an error.
    pub open spec fn spec_from_milli(value: ReadResult<i64>) -> CsvData {
        match value {
            Ok(v) => CsvData::Milli { millis: v },
            Err(_) => CsvData::Error,
        }
    }

    /// The field of a raw value, or the empty field of an error.
    pub open spec fn spec_from_raw(value: ReadResult<u16>) -> CsvData {
        match value {
            Ok(v) => CsvData::U16 { value: v },
            Err(_) => CsvData::Error,
        }
    }

    pub fn from_milli(value: &ReadResult<i64>) -> (d: CsvData)
        ensures
            d == Self::spec_from_milli(*value),
    {
        match value {
            Ok(v) => CsvData::Milli { millis: *v },
            Err(_) => CsvData::Error,
        }
    }

    pub fn from_raw(value: &ReadResult<u16>) -> (d: CsvData)
        ensures
            d == Self::spec_from_raw(*value),
    {
        match value {
            Ok(v) => CsvData::U16 { value: *v },
            Err(_) => CsvData::Error,
        }
    }
}

/// Texts put one after the other with a comma between each two.
pub open spec fn joined(fields: Seq<Seq<char>>) -> Seq<char>
    decreases fields.len(),
{
    if fields.len() == 0 {
        ""@
    } else if fields.len() == 1 {
        fields[0]
    } else {
        joined(fields.drop_last()) + ","@ + fields.last()
    }
}

/// The texts of the fields of a line.
pub open spec fn row_texts(fields: Seq<CsvData>) -> Seq<Seq<char>> {
    fields.map_values(|d: CsvData| d.spec_text())
}

/// The fields of a line of a raw report: the time, the number of the board's
/// bus, and each raw value, with an empty field for one that could not be
/// read.
pub open spec fn raw_row(micros: i64, board: Board, raw: Seq<ReadResult<u16>>) -> Seq<CsvData> {
    seq![CsvData::Timestamp { micros }, CsvData::U16 { value: board.bus.id as u16 }] + raw.map_values(
        |r: ReadResult<u16>| CsvData::spec_from_raw(r),
    )
}

/// A power in millionths of a watt as thousandths, cut off toward zero.
pub open spec fn power_millis(micro: int) -> int {
    if micro >= 0 {
        micro / 1000
    } else {
        -((-micro) / 1000)
    }
}

/// The field of a heater value.
pub open spec fn mode_field(reading: ReadResult<SensorReading<HeaterMode>>) -> CsvData {
    match reading {
        Ok(r) => CsvData::HeaterMode { mode: r.display_value },
        Err(_) => CsvData::Error,
    }
}

pub open spec fn sensor_field(reading: ReadResult<SensorReading<Sensor>>) -> CsvData {
    match reading {
        Ok(r) => CsvData::Sensor { sensor: r.display_value },
        Err(_) => CsvData::Error,
    }
}

pub open spec fn duty_field(reading: ReadResult<SensorReading<u16>>) -> CsvData {
    match reading {
        Ok(r) => CsvData::U16 { value: r.display_value },
        Err(_) => CsvData::Error,
    }
}

pub open spec fn flags_field(reading: ReadResult<SensorReading<BoardFlags>>) -> CsvData {
    match reading {
        Ok(r) => CsvData::BoardFlags { flags: r.display_value },
        Err(_) => CsvData::Error,
    }
}

/// The field of a measured value, in thousandths of its unit.
pub open spec fn measured_field(cal: Calibration, reading: ReadResult<SensorReading<Measurement>>) -> CsvData {
    match spec_reading_millis(cal, reading) {
        Ok(v) => CsvData::Milli { millis: v as i64 },
        Err(_) => CsvData::Error,
    }
}

/// The field of the heater's power.
pub open spec fn power_field(power: ReadResult<i128>) -> CsvData {
    match power {
        Ok(p) => CsvData::Milli { millis: power_millis(p as int) as i64 },
        Err(_) => CsvData::Error,
    }
}

/// The fields of the temperature sensors in a line of a display report:
/// the temperature of each, in the order of the catalogue.
pub open spec fn display_sensor_fields(cal: Calibration, data: BoardData) -> Seq<CsvData> {
    Seq::new(DISPLAY_SENSOR_COUNT as nat, |i: int| measured_field(cal, data.sensors@[i]))
}

/// The fields of the heater in a line of a display report: its voltage,
/// current and power from the averaged channels, and the six heater values.
pub open spec fn display_heater_fields(cal: Calibration, board: Board, data: BoardData) -> Seq<CsvData> {
    let v_high = spec_reading_millis(cal, data.sensors@[20]);
    let v_low = spec_reading_millis(cal, data.sensors@[21]);
    let v_curr = spec_reading_millis(cal, data.sensors@[22]);
    seq![
        CsvData::spec_from_milli(spec_calc_heater_voltage(board.version, v_high, v_low)),
        CsvData::spec_from_milli(spec_calc_heater_current(board.version, v_low, v_curr)),
        power_field(spec_calc_heater_power(board.version, v_high, v_low, v_curr)),
        mode_field(data.heater_mode),
        measured_field(cal, data.target_temp),
        sensor_field(data.target_sensor),
        duty_field(data.heater_duty),
        measured_field(cal, data.max_temp),
        flags_field(data.flags),
    ]
}

/// The fields of a line of a display report: the time, the number of the
/// board's bus, the fields of the temperature sensors and the fields of the
/// heater. A value that could not be read gives an empty field.
pub open spec fn display_row(cal: Calibration, micros: i64, board: Board, data: BoardData) -> Seq<CsvData> {
    seq![CsvData::Timestamp { micros }, CsvData::U16 { value: board.bus.id as u16 }]
        + display_sensor_fields(cal, data) + display_heater_fields(cal, board, data)
}

/// Adds the fields of the temperature sensors of a display report.
fn push_sensor_fields(fields: &mut Vec<CsvData>, cal: &Calibration, board_data: &BoardData)
    requires
        cal.wf(),
        board_data.wf(),
    ensures
        final(fields)@ == old(fields)@ + display_sensor_fields(*cal, *board_data),
{
    let mut i: usize = 0;
    while i < DISPLAY_SENSOR_COUNT
        invariant
            i <= DISPLAY_SENSOR_COUNT,
            cal.wf(),
            board_data.wf(),
            fields@ == old(fields)@ + display_sensor_fields(*cal, *board_data).take(i as int),
        decreases DISPLAY_SENSOR_COUNT - i,
    {
        fields.push(measured(cal, &board_data.sensors[i]));
        i = i + 1;
        assert(fields@ =~= old(fields)@ + display_sensor_fields(*cal, *board_data).take(i as int));
    }
    assert(display_sensor_fields(*cal, *board_data).take(i as int) =~= display_sensor_fields(
        *cal,
        *board_data,
    ));
}

/// The field of the heater's power.
fn power(heater_power: &ReadResult<i128>) -> (d: CsvData)
    requires
        *heater_power matches Ok(p) ==> -0x20_0000_0000_0000_0000 <= p <= 0x20_0000_0000_0000_0000,
    ensures
        d == power_field(*heater_power),
{
    match heater_power {
        Ok(p) => CsvData::Milli {
            millis: if *p >= 0 {
                (*p / 1000) as i64
            } else {
                (-((-*p) / 1000)) as i64
            },
        },
        Err(_) => CsvData::Error,
    }
}

/// Adds the fields of the heater of a display report.
fn push_heater_fields(fields: &mut Vec<CsvData>, cal: &Calibration, board: &Board, board_data: &BoardData)
    requires
        cal.wf(),
        board_data.wf(),
    ensures
        final(fields)@ == old(fields)@ + display_heater_fields(*cal, *board, *board_data),
{
    let v_high_avg = reading_millis(cal, &board_data.sensors[20]);
    let v_low_avg = reading_millis(cal, &board_data.sensors[21]);
    let v_curr_avg = reading_millis(cal, &board_data.sensors[22]);
    let heater_voltage = board.calc_heater_voltage(v_high_avg, v_low_avg);
    let heater_curr = board.calc_heater_current(v_low_avg, v_curr_avg);
    let heater_power = board.calc_heater_power(v_high_avg, v_low_avg, v_curr_avg);
    proof {
        if let (Ok(h), Ok(l), Ok(c)) = (v_high_avg, v_low_avg, v_curr_avg) {
            lemma_heater_power_bounds(board.version, h, l, c);
        }
    }
    fields.push(CsvData::from_milli(&heater_voltage));
    fields.push(CsvData::from_milli(&heater_curr));
    fields.push(power(&heater_power));
    fields.push(
        match board_data.heater_mode {
            Ok(r) => CsvData::HeaterMode { mode: r.display_value },
            Err(_) => CsvData::Error,
        },
    );
    fields.push(measured(cal, &board_data.target_temp));
    fields.push(
        match board_data.target_sensor {
            Ok(r) => CsvData::Sensor { sensor: r.display_value },
            Err(_) => CsvData::Error,
        },
    );
    fields.push(
        match board_data.heater_duty {
            Ok(r) => CsvData::U16 { value: r.display_value },
            Err(_) => CsvData::Error,
        },
    );
    fields.push(measured(cal, &board_data.max_temp));
    fields.push(
        match board_data.flags {
            Ok(r) => CsvData::BoardFlags { flags: r.display_value },
            Err(_) => CsvData::Error,
        },
    );
    assert(fields@ =~= old(fields)@ + display_heater_fields(*cal, *board, *board_data));
}

/// The name of the file of one day's report: `uts-data-`, the day, `-raw`
/// for a raw report, `.csv`, and `.bz2` for a compressed one.
pub fn log_file_name(day: &str, raw_log: bool, compressed: bool) -> (name: String)
    ensures
        name@ == "uts-data-"@ + day@ + (if raw_log {
            "-raw"@
        } else {
            ""@
        }) + ".csv"@ + (if compressed {
            ".bz2"@
        } else {
            ""@
        }),
{
    let mut name = String::from_str("uts-data-");
    name.append(day);
    name.append(
        if raw_log {
            "-raw"
        } else {
            ""
        },
    );
    name.append(".csv");
    name.append(
        if compressed {
            ".bz2"
        } else {
            ""
        },
    );
    name
}

/// Writes the lines of a report. It writes to nothing itself: it makes the
/// text of each line, for the caller to append to the report.
#[derive(Debug, Copy, Clone, PartialEq, Eq, Structural)]
pub struct CsvWriter {
    pub line_ending: LineEnding,
    /// Whether the report is new and begins with its headings.
    pub write_headers: bool,
}

impl CsvWriter {
    /// The writer of a report on the console.
    pub fn stdout() -> (w: CsvWriter)
        ensures
            w == (CsvWriter { line_ending: LineEnding::LF, write_headers: true }),
    {
        CsvWriter { line_ending: LineEnding::LF, write_headers: true }
    }

    /// The writer of a report in a compressed file.
    pub fn compressed_file(is_new: bool) -> (w: CsvWriter)
        ensures
            w == (CsvWriter { line_ending: LineEnding::CRLF, write_headers: is_new }),
    {
        CsvWriter { line_ending: LineEnding::CRLF, write_headers: is_new }
    }

    /// The writer of a report in a file.
    pub fn file(is_new: bool) -> (w: CsvWriter)
        ensures
            w == (CsvWriter { line_ending: LineEnding::CRLF, write_headers: is_new }),
    {
        CsvWriter { line_ending: LineEnding::CRLF, write_headers: is_new }
    }

    /// The line of headings of a raw report, where the report is new.
    pub fn write_raw_headers(&self) -> (r: Option<String>)
        ensures
            r is Some == self.write_headers,
            r matches Some(line) ==> line@ == joined(raw_header_row()) + self.line_ending.spec_to_str(),
    {
        if self.write_headers {
            let h = raw_headers();
            Some(self.write_line(&h))
        } else {
            None
        }
    }

    /// The line of headings of a display report, where the report is new.
    pub fn write_display_headers(&self) -> (r: Option<String>)
        ensures
            r is Some == self.write_headers,
            r matches Some(line) ==> line@ == joined(display_header_row())
                + self.line_ending.spec_to_str(),
    {
        if self.write_headers {
            let h = display_headers();
            Some(self.write_line(&h))
        } else {
            None
        }
    }

    /// The line of a raw report for one snapshot of a board, taken at the
    /// time `micros`, in microseconds since the Unix epoch. `raw_data` holds
    /// the raw fields of the snapshot.
    pub fn write_raw_data(&self, micros: i64, board: &Board, raw_data: &Vec<ReadResult<u16>>) -> (s: String)
        requires
            raw_data@.len() == CSV_RAW_FIELD_COUNT - 2,
        ensures
            s@ == joined(row_texts(raw_row(micros, *board, raw_data@))) + self.line_ending.spec_to_str(),
    {
        let mut data: Vec<CsvData> = Vec::new();
        data.push(CsvData::Timestamp { micros });
        data.push(CsvData::U16 { value: board.bus.id as u16 });
        let mut i: usize = 0;
        while i < raw_data.len()
            invariant
                i <= raw_data@.len(),
                data@.len() == 2 + i,
                data@[0] == (CsvData::Timestamp { micros }),
                data@[1] == (CsvData::U16 { value: board.bus.id as u16 }),
                forall|k: int| 0 <= k < i ==> data@[2 + k] == CsvData::spec_from_raw(raw_data@[k]),
            decreases raw_data@.len() - i,
        {
            data.push(CsvData::from_raw(&raw_data[i]));
            i = i + 1;
        }
        assert(data@ =~= raw_row(micros, *board, raw_data@));
        self.write_data(&data)
    }

    /// The line of a display report for one snapshot of a board, taken at
    /// the time `micros`, in microseconds since the Unix epoch.
    pub fn write_display_data(&self, cal: &Calibration, micros: i64, board: &Board, board_data: &BoardData) -> (s:
        String)
        requires
            cal.wf(),
            board_data.wf(),
        ensures
            s@ == joined(row_texts(display_row(*cal, micros, *board, *board_data)))
                + self.line_ending.spec_to_str(),
    {
        let mut data: Vec<CsvData> = Vec::new();
        data.push(CsvData::Timestamp { micros });
        data.push(CsvData::U16 { value: board.bus.id as u16 });
        push_sensor_fields(&mut data, cal, board_data);
        push_heater_fields(&mut data, cal, board, board_data);
        assert(data@ =~= display_row(*cal, micros, *board, *board_data));
        self.write_data(&data)
    }

    /// The line that holds the given fields.
    pub fn write_data(&self, data: &Vec<CsvData>) -> (s: String)
        ensures
            s@ == joined(row_texts(data@)) + self.line_ending.spec_to_str(),
    {
        let mut line: Vec<String> = Vec::new();
        let mut i: usize = 0;
        while i < data.len()
            invariant
                i <= data@.len(),
                line@.len() == i,
                forall|k: int| 0 <= k < i ==> (#[trigger] line@[k])@ == data@[k].spec_text(),
            decreases data@.len() - i,
        {
            line.push(data[i].text());
            i = i + 1;
        }
        assert(texts(line@) =~= row_texts(data@));
        self.write_line(&line)
    }

    /// The line that holds the given texts: the texts with a comma between
    /// each two, and the line ending.
    pub fn write_line(&self, line: &Vec<String>) -> (s: String)
        ensures
            s@ == joined(texts(line@)) + self.line_ending.spec_to_str(),
    {
        let mut s = String::from_str("");
        let mut i: usize = 0;
        proof {
            reveal_strlit("");
        }
        while i < line.len()
            invariant
                i <= line@.len(),
                s@ == joined(texts(line@).take(i as int)),
            decreases line@.len() - i,
        {
            if i > 0 {
                s.append(",");
            }
            s.append(line[i].as_str());
            i = i + 1;
            proof {
                reveal_strlit("");
                let t = texts(line@);
                assert(t.take(i as int).drop_last() =~= t.take(i as int - 1));
                assert(t.take(i as int).last() == line@[i as int - 1]@);
                if i == 1 {
                    assert(s@ =~= line@[0]@);
                }
                assert(s@ =~= joined(t.take(i as int)));
            }
        }
        assert(texts(line@).take(i as int) =~= texts(line@));
        s.append(self.line_ending.to_str());
        s
    }
}

/// The field of a measured value, in thousandths of its unit.
pub fn measured(cal: &Calibration, reading: &ReadResult<SensorReading<Measurement>>) -> (d: CsvData)
    requires
        cal.wf(),
    ensures
        d == measured_field(*cal, *reading),
{
    match reading_millis(cal, reading) {
        Ok(v) => CsvData::Milli { millis: v as i64 },
        Err(_) => CsvData::Error,
    }
}

} // verus!
