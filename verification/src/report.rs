//! The plain-text report of a result mapping, and the choice of output format.

use chrono::{DateTime, Utc};
use vstd::prelude::*;
use vstd::string::StringExecFns;
use crate::catalog::{Quantity, QUANTITIES};
use crate::decode::{Value, Variant};
use crate::results::ResultMap;
use crate::selection::texts;

verus! {

/// How a result mapping is written out.
#[derive(Clone, Copy, Debug, PartialEq, Eq, Structural)]
pub enum OutputFormat {
    Json,
    PrettyPrint,
}

/// The format that a name chooses: `pretty_print` the report, anything else
/// (and no name at all) JSON.
pub open spec fn format_named(name: Option<Seq<char>>) -> OutputFormat {
    if name == Some("pretty_print"@) {
        OutputFormat::PrettyPrint
    } else {
        OutputFormat::Json
    }
}

/// Whether the name is one of the two that name a format.
pub open spec fn names_a_format(name: Seq<char>) -> bool {
    name == "json"@ || name == "pretty_print"@
}

impl OutputFormat {
    /// Chooses the format by its name.
    pub fn from_name(name: Option<&str>) -> (format: OutputFormat)
        ensures
            format == format_named(
                match name {
                    Some(n) => Some(n@),
                    None => None,
                },
            ),
    {
        match name {
            Some(n) => {
                let given = String::from_str(n);
                let pretty = String::from_str("pretty_print");
                if given == pretty {
                    OutputFormat::PrettyPrint
                } else {
                    OutputFormat::Json
                }
            },
            None => OutputFormat::Json,
        }
    }

    /// Whether a name is known as a format, so that a caller can tell the
    /// operator when it fell back on the default.
    pub fn is_known_name(name: &str) -> (known: bool)
        ensures
            known == names_a_format(name@),
    {
        let given = String::from_str(name);
        let json = String::from_str("json");
        let pretty = String::from_str("pretty_print");
        given == json || given == pretty
    }
}

/// The first line of every report.
pub open spec fn header() -> Seq<char> {
    "---Inverter status---\n"@
}

/// The label under which a quantity is reported. A quantity without a label
/// is left out of the report.
pub open spec fn label_text(q: Quantity) -> Option<Seq<char>> {
    match q {
        Quantity::AccumulatedYieldEnergy => Some("Accumulated yield energy"@),
        Quantity::ActivePower => Some("Active power"@),
        Quantity::DailyYieldEnergy => Some("Daily yield energy"@),
        Quantity::DayActivePowerPeak => Some("Day active power peak"@),
        Quantity::DeviceStatus => Some("Device status"@),
        Quantity::Efficiency => Some("Efficiency"@),
        Quantity::GridFrequency => Some("Grid frequency"@),
        Quantity::GridVoltage => Some("Grid voltage"@),
        Quantity::InputPower => Some("Input power"@),
        Quantity::InsulationResistance => Some("Insulation resistance"@),
        Quantity::InternalTemperature => Some("Internal temperature"@),
        Quantity::LineVoltageAB => Some("Line voltage A-B"@),
        Quantity::LineVoltageBC => Some("Line voltage B-C"@),
        Quantity::LineVoltageCA => Some("Line voltage C-A"@),
        Quantity::ModelName => Some("Model name"@),
        Quantity::PhaseACurrent => Some("Phase A current"@),
        Quantity::PhaseAVoltage => Some("Phase A voltage"@),
        Quantity::PhaseBCurrent => Some("Phase B current"@),
        Quantity::PhaseBVoltage => Some("Phase B voltage"@),
        Quantity::PhaseCCurrent => Some("Phase C current"@),
        Quantity::PhaseCVoltage => Some("Phase C voltage"@),
        Quantity::PowerFactor => Some("Power factor"@),
        Quantity::ReactivePower => Some("Reactive power"@),
        Quantity::SerialNumber => Some("Serial number"@),
        Quantity::ShutdownTime => Some("Shutdown time"@),
        Quantity::StartupTime => Some("Startup time"@),
        _ => None,
    }
}

/// What follows the value on a quantity's line: its unit after a blank, or
/// a note for a timestamp, and the end of the line.
pub open spec fn suffix_text(q: Quantity) -> Seq<char> {
    match q {
        Quantity::AccumulatedYieldEnergy => " kWh\n"@,
        Quantity::ActivePower => " W\n"@,
        Quantity::DailyYieldEnergy => " kWh\n"@,
        Quantity::DayActivePowerPeak => " W\n"@,
        Quantity::Efficiency => " %\n"@,
        Quantity::GridFrequency => " Hz\n"@,
        Quantity::GridVoltage => " V\n"@,
        Quantity::InputPower => " W\n"@,
        Quantity::InsulationResistance => " MΩ\n"@,
        Quantity::InternalTemperature => " °C\n"@,
        Quantity::LineVoltageAB => " V\n"@,
        Quantity::LineVoltageBC => " V\n"@,
        Quantity::LineVoltageCA => " V\n"@,
        Quantity::PhaseACurrent => " A\n"@,
        Quantity::PhaseAVoltage => " V\n"@,
        Quantity::PhaseBCurrent => " A\n"@,
        Quantity::PhaseBVoltage => " V\n"@,
        Quantity::PhaseCCurrent => " A\n"@,
        Quantity::PhaseCVoltage => " V\n"@,
        Quantity::ReactivePower => " VA\n"@,
        Quantity::ShutdownTime => " (inverter's time)\n"@,
        Quantity::StartupTime => " (inverter's time)\n"@,
        _ => "\n"@,
    }
}

/// The whole seconds of a value: its quotient cut off towards zero and held
/// to the range of `i64`. Text counts as zero.
pub open spec fn whole_seconds(value: Value) -> i64 {
    match value {
        Value::Text(_) => 0,
        Value::Number { raw, gain } => {
            if gain <= 0 {
                if raw > 0 {
                    i64::MAX
                } else if raw < 0 {
                    i64::MIN
                } else {
                    0
                }
            } else if raw >= 0 {
                (raw / gain) as i64
            } else {
                (-((-raw) / gain)) as i64
            }
        },
    }
}

/// Date and time of an instant given in seconds since the epoch, in UTC and
/// in the form `YYYY-MM-DD HH:MM:SS`, as chrono writes it; `None` where
/// chrono has no date for the instant.
pub uninterp spec fn utc_text(seconds: i64) -> Option<Seq<char>>;

/// Calls chrono's `DateTime::<Utc>::from_timestamp` on the seconds and no
/// nanoseconds, and `format` with `%Y-%m-%d %H:%M:%S` on what comes back.
/// Trusted: the result depends on the seconds alone; nothing is claimed of
/// what the text holds.
#[verifier::external_body]
fn format_utc(seconds: i64) -> (text: Option<String>)
    ensures
        text is Some <==> utc_text(seconds) is Some,
        text is Some ==> text.unwrap()@ == utc_text(seconds).unwrap(),
{
    match DateTime::<Utc>::from_timestamp(seconds, 0) {
        Some(instant) => Some(instant.format("%Y-%m-%d %H:%M:%S").to_string()),
        None => None,
    }
}

/// The whole seconds of a decoded value.
pub fn seconds_of(value: &Variant) -> (seconds: i64)
    ensures
        seconds == whole_seconds(value@),
{
    match value {
        Variant::Text(_) => 0,
        Variant::Number { raw, gain } => {
            let raw: i64 = *raw;
            let gain: u64 = *gain as u64;
            if gain == 0 {
                if raw > 0 {
                    i64::MAX
                } else if raw < 0 {
                    i64::MIN
                } else {
                    0
                }
            } else if raw >= 0 {
                let whole: u64 = (raw as u64) / gain;
                assert(whole <= raw) by (nonlinear_arith)
                    requires
                        whole == (raw as int) / (gain as int),
                        raw >= 0,
                        gain >= 1,
                ;
                whole as i64
            } else {
                let size: u64 = ((-(raw + 1)) as u64) + 1;
                let whole: u64 = size / gain;
                assert(0 <= whole <= size) by (nonlinear_arith)
                    requires
                        whole == (size as int) / (gain as int),
                        size >= 0,
                        gain >= 1,
                ;
                if whole > 0x7FFF_FFFF_FFFF_FFFF {
                    i64::MIN
                } else {
                    -(whole as i64)
                }
            }
        },
    }
}

/// Renders a stored timestamp as date and time in UTC.
pub fn timestamp_to_str(timestamp: &Variant) -> (text: String)
    requires
        utc_text(whole_seconds(timestamp@)) is Some,
    ensures
        text@ == utc_text(whole_seconds(timestamp@)).unwrap(),
{
    format_utc(seconds_of(timestamp)).unwrap()
}

/// Renders a stored timestamp as date and time in UTC, where there is a date
/// for it.
pub fn checked_timestamp_to_str(timestamp: &Variant) -> (text: Option<String>)
    ensures
        text is Some <==> utc_text(whole_seconds(timestamp@)) is Some,
        text is Some ==> text.unwrap()@ == utc_text(whole_seconds(timestamp@)).unwrap(),
{
    if format_utc(seconds_of(timestamp)).is_some() {
        Some(timestamp_to_str(timestamp))
    } else {
        None
    }
}

/// The label under which a quantity is reported.
pub fn label(q: Quantity) -> (found: Option<&'static str>)
    ensures
        match found {
            Some(text) => label_text(q) == Some(text@),
            None => label_text(q) is None,
        },
{
    match q {
        Quantity::AccumulatedYieldEnergy => Some("Accumulated yield energy"),
        Quantity::ActivePower => Some("Active power"),
        Quantity::DailyYieldEnergy => Some("Daily yield energy"),
        Quantity::DayActivePowerPeak => Some("Day active power peak"),
        Quantity::DeviceStatus => Some("Device status"),
        Quantity::Efficiency => Some("Efficiency"),
        Quantity::GridFrequency => Some("Grid frequency"),
        Quantity::GridVoltage => Some("Grid voltage"),
        Quantity::InputPower => Some("Input power"),
        Quantity::InsulationResistance => Some("Insulation resistance"),
        Quantity::InternalTemperature => Some("Internal temperature"),
        Quantity::LineVoltageAB => Some("Line voltage A-B"),
        Quantity::LineVoltageBC => Some("Line voltage B-C"),
        Quantity::LineVoltageCA => Some("Line voltage C-A"),
        Quantity::ModelName => Some("Model name"),
        Quantity::PhaseACurrent => Some("Phase A current"),
        Quantity::PhaseAVoltage => Some("Phase A voltage"),
        Quantity::PhaseBCurrent => Some("Phase B current"),
        Quantity::PhaseBVoltage => Some("Phase B voltage"),
        Quantity::PhaseCCurrent => Some("Phase C current"),
        Quantity::PhaseCVoltage => Some("Phase C voltage"),
        Quantity::PowerFactor => Some("Power factor"),
        Quantity::ReactivePower => Some("Reactive power"),
        Quantity::SerialNumber => Some("Serial number"),
        Quantity::ShutdownTime => Some("Shutdown time"),
        Quantity::StartupTime => Some("Startup time"),
        _ => None,
    }
}

/// What follows the value on a quantity's line.
pub fn suffix(q: Quantity) -> (text: &'static str)
    ensures
        text@ == suffix_text(q),
{
    match q {
        Quantity::AccumulatedYieldEnergy => " kWh\n",
        Quantity::ActivePower => " W\n",
        Quantity::DailyYieldEnergy => " kWh\n",
        Quantity::DayActivePowerPeak => " W\n",
        Quantity::Efficiency => " %\n",
        Quantity::GridFrequency => " Hz\n",
        Quantity::GridVoltage => " V\n",
        Quantity::InputPower => " W\n",
        Quantity::InsulationResistance => " MΩ\n",
        Quantity::InternalTemperature => " °C\n",
        Quantity::LineVoltageAB => " V\n",
        Quantity::LineVoltageBC => " V\n",
        Quantity::LineVoltageCA => " V\n",
        Quantity::PhaseACurrent => " A\n",
        Quantity::PhaseAVoltage => " V\n",
        Quantity::PhaseBCurrent => " A\n",
        Quantity::PhaseBVoltage => " V\n",
        Quantity::PhaseCCurrent => " A\n",
        Quantity::PhaseCVoltage => " V\n",
        Quantity::ReactivePower => " VA\n",
        Quantity::ShutdownTime => " (inverter's time)\n",
        Quantity::StartupTime => " (inverter's time)\n",
        _ => "\n",
    }
}

/// How a stored value is shown: a timestamp as its date and time, text as
/// it is, and any other number as the caller has written it.
pub open spec fn shown(q: Quantity, value: Value, number: Seq<char>) -> Option<Seq<char>> {
    if q.timestamp() {
        utc_text(whole_seconds(value))
    } else {
        match value {
            Value::Text(text) => Some(text),
            Value::Number { .. } => Some(number),
        }
    }
}

/// The line of one entry: label, colon, value and suffix. An entry without a
/// label has no line; a timestamp without a date has none to give.
pub open spec fn line(q: Quantity, value: Value, number: Seq<char>) -> Option<Seq<char>> {
    match label_text(q) {
        None => Some(Seq::<char>::empty()),
        Some(label) => match shown(q, value, number) {
            Some(text) => Some(label + ": "@ + text + suffix_text(q)),
            None => None,
        },
    }
}

/// The report of the entries whose key stands before position `end`: the
/// header, then their lines in the order of the keys.
pub open spec fn report_before(
    map: Map<Quantity, Value>,
    numbers: Seq<Seq<char>>,
    end: int,
) -> Option<Seq<char>>
    decreases end,
{
    if end <= 0 {
        Some(header())
    } else {
        let q = Quantity::at(end - 1);
        let before = report_before(map, numbers, end - 1);
        if !map.contains_key(q) {
            before
        } else {
            match (before, line(q, map[q], numbers[end - 1])) {
                (Some(head), Some(tail)) => Some(head + tail),
                _ => None,
            }
        }
    }
}

/// The report of a whole mapping.
pub open spec fn report(map: Map<Quantity, Value>, numbers: Seq<Seq<char>>) -> Option<Seq<char>> {
    report_before(map, numbers, QUANTITIES as int)
}

/// The line of one entry.
pub fn print_line(q: Quantity, value: &Variant, number: &str) -> (text: Option<String>)
    ensures
        text is Some <==> line(q, value@, number@) is Some,
        text is Some ==> text.unwrap()@ == line(q, value@, number@).unwrap(),
{
    let mut text = String::new();
    match label(q) {
        None => {
            assert(text@ =~= Seq::<char>::empty());
            Some(text)
        },
        Some(name) => {
            text.append(name);
            text.append(": ");
            if q.is_timestamp() {
                match checked_timestamp_to_str(value) {
                    Some(date) => text.append(date.as_str()),
                    None => {
                        return None;
                    },
                }
            } else {
                match value {
                    Variant::Text(s) => text.append(s.as_str()),
                    Variant::Number { .. } => text.append(number),
                }
            }
            text.append(suffix(q));
            assert(text@ =~= line(q, value@, number@).unwrap());
            Some(text)
        },
    }
}

/// Writes the report of a mapping: the header line, then one line for each
/// entry that has a label, in the order of the quantities' names.
/// `numbers` holds, at the position of each quantity that is stored as a
/// number, that number written out as the caller wants it read. There is no
/// report where a stored timestamp has no date.
pub fn print(map: &ResultMap, numbers: &Vec<String>) -> (text: Option<String>)
    requires
        map.well_formed(),
        numbers.len() == QUANTITIES,
    ensures
        text is Some <==> report(map@, texts(numbers@)) is Some,
        text is Some ==> text.unwrap()@ == report(map@, texts(numbers@)).unwrap(),
{
    let mut text = String::from_str("---Inverter status---\n");
    let mut i: usize = 0;
    while i < QUANTITIES
        invariant
            i <= QUANTITIES,
            map.well_formed(),
            numbers.len() == QUANTITIES,
            report_before(map@, texts(numbers@), i as int) == Some(text@),
        decreases QUANTITIES - i,
    {
        let q = Quantity::from_index(i);
        match map.get(q) {
            None => {},
            Some(value) => {
                assert(texts(numbers@)[i as int] == numbers@[i as int]@);
                match print_line(q, value, numbers[i].as_str()) {
                    Some(tail) => text.append(tail.as_str()),
                    None => {
                        proof {
                            report_stays_none(map@, texts(numbers@), i + 1);
                        }
                        return None;
                    },
                }
            },
        }
        i += 1;
    }
    Some(text)
}

/// Once an entry has no line, no longer stretch of the mapping has a report.
proof fn report_stays_none(map: Map<Quantity, Value>, numbers: Seq<Seq<char>>, end: int)
    requires
        0 <= end <= QUANTITIES,
        report_before(map, numbers, end) is None,
    ensures
        report(map, numbers) is None,
{
    none_carries_on(map, numbers, end, QUANTITIES as int);
}

proof fn none_carries_on(map: Map<Quantity, Value>, numbers: Seq<Seq<char>>, end: int, later: int)
    requires
        0 <= end <= later,
        report_before(map, numbers, end) is None,
    ensures
        report_before(map, numbers, later) is None,
    decreases later - end,
{
    if end < later {
        none_carries_on(map, numbers, end, later - 1);
    }
}

} // verus!
