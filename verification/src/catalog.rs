//! The catalog: the closed set of quantities that an inverter reports, each
//! with its name and its register.

use vstd::prelude::*;
use vstd::string::StringExecFns;
use crate::registers::{NumericKind, NumericRegister, Register, StringRegister};

verus! {

/// A quantity of the catalog. The variants stand in the order of their names,
/// which is the order in which a result mapping is walked.
#[derive(Clone, Copy, Debug, PartialEq, Eq, Structural)]
pub enum Quantity {
    AccumulatedYieldEnergy,
    ActivePower,
    DailyYieldEnergy,
    DayActivePowerPeak,
    DeviceStatus,
    Efficiency,
    GridCurrent,
    GridFrequency,
    GridVoltage,
    InputPower,
    InsulationResistance,
    InternalTemperature,
    LineVoltageAB,
    LineVoltageBC,
    LineVoltageCA,
    ModelName,
    PhaseACurrent,
    PhaseAVoltage,
    PhaseBCurrent,
    PhaseBVoltage,
    PhaseCCurrent,
    PhaseCVoltage,
    PowerFactor,
    ReactivePower,
    SerialNumber,
    ShutdownTime,
    StartupTime,
    TimeZone,
}

/// How many quantities the catalog holds.
pub const QUANTITIES: usize = 28;

impl Quantity {
    /// Position of the quantity among all of them, by name.
    pub open spec fn position(self) -> int {
        match self {
            Quantity::AccumulatedYieldEnergy => 0,
            Quantity::ActivePower => 1,
            Quantity::DailyYieldEnergy => 2,
            Quantity::DayActivePowerPeak => 3,
            Quantity::DeviceStatus => 4,
            Quantity::Efficiency => 5,
            Quantity::GridCurrent => 6,
            Quantity::GridFrequency => 7,
            Quantity::GridVoltage => 8,
            Quantity::InputPower => 9,
            Quantity::InsulationResistance => 10,
            Quantity::InternalTemperature => 11,
            Quantity::LineVoltageAB => 12,
            Quantity::LineVoltageBC => 13,
            Quantity::LineVoltageCA => 14,
            Quantity::ModelName => 15,
            Quantity::PhaseACurrent => 16,
            Quantity::PhaseAVoltage => 17,
            Quantity::PhaseBCurrent => 18,
            Quantity::PhaseBVoltage => 19,
            Quantity::PhaseCCurrent => 20,
            Quantity::PhaseCVoltage => 21,
            Quantity::PowerFactor => 22,
            Quantity::ReactivePower => 23,
            Quantity::SerialNumber => 24,
            Quantity::ShutdownTime => 25,
            Quantity::StartupTime => 26,
            Quantity::TimeZone => 27,
        }
    }

    /// The quantity at a position.
    pub open spec fn at(position: int) -> Quantity {
        if position == 0 {
            Quantity::AccumulatedYieldEnergy
        } else if position == 1 {
            Quantity::ActivePower
        } else if position == 2 {
            Quantity::DailyYieldEnergy
        } else if position == 3 {
            Quantity::DayActivePowerPeak
        } else if position == 4 {
            Quantity::DeviceStatus
        } else if position == 5 {
            Quantity::Efficiency
        } else if position == 6 {
            Quantity::GridCurrent
        } else if position == 7 {
            Quantity::GridFrequency
        } else if position == 8 {
            Quantity::GridVoltage
        } else if position == 9 {
            Quantity::InputPower
        } else if position == 10 {
            Quantity::InsulationResistance
        } else if position == 11 {
            Quantity::InternalTemperature
        } else if position == 12 {
            Quantity::LineVoltageAB
        } else if position == 13 {
            Quantity::LineVoltageBC
        } else if position == 14 {
            Quantity::LineVoltageCA
        } else if position == 15 {
            Quantity::ModelName
        } else if position == 16 {
            Quantity::PhaseACurrent
        } else if position == 17 {
            Quantity::PhaseAVoltage
        } else if position == 18 {
            Quantity::PhaseBCurrent
        } else if position == 19 {
            Quantity::PhaseBVoltage
        } else if position == 20 {
            Quantity::PhaseCCurrent
        } else if position == 21 {
            Quantity::PhaseCVoltage
        } else if position == 22 {
            Quantity::PowerFactor
        } else if position == 23 {
            Quantity::ReactivePower
        } else if position == 24 {
            Quantity::SerialNumber
        } else if position == 25 {
            Quantity::ShutdownTime
        } else if position == 26 {
            Quantity::StartupTime
        } else {
            Quantity::TimeZone
        }
    }

    /// The identifier under which the quantity is selected and reported.
    pub open spec fn name_text(self) -> Seq<char> {
        match self {
            Quantity::AccumulatedYieldEnergy => "accumulated_yield_energy"@,
            Quantity::ActivePower => "active_power"@,
            Quantity::DailyYieldEnergy => "daily_yield_energy"@,
            Quantity::DayActivePowerPeak => "day_active_power_peak"@,
            Quantity::DeviceStatus => "device_status"@,
            Quantity::Efficiency => "efficiency"@,
            Quantity::GridCurrent => "grid_current"@,
            Quantity::GridFrequency => "grid_frequency"@,
            Quantity::GridVoltage => "grid_voltage"@,
            Quantity::InputPower => "input_power"@,
            Quantity::InsulationResistance => "insulation_resistance"@,
            Quantity::InternalTemperature => "internal_temperature"@,
            Quantity::LineVoltageAB => "line_voltage_a_b"@,
            Quantity::LineVoltageBC => "line_voltage_b_c"@,
            Quantity::LineVoltageCA => "line_voltage_c_a"@,
            Quantity::ModelName => "model_name"@,
            Quantity::PhaseACurrent => "phase_a_current"@,
            Quantity::PhaseAVoltage => "phase_a_voltage"@,
            Quantity::PhaseBCurrent => "phase_b_current"@,
            Quantity::PhaseBVoltage => "phase_b_voltage"@,
            Quantity::PhaseCCurrent => "phase_c_current"@,
            Quantity::PhaseCVoltage => "phase_c_voltage"@,
            Quantity::PowerFactor => "power_factor"@,
            Quantity::ReactivePower => "reactive_power"@,
            Quantity::SerialNumber => "serial_number"@,
            Quantity::ShutdownTime => "shutdown_time"@,
            Quantity::StartupTime => "startup_time"@,
            Quantity::TimeZone => "time_zone"@,
        }
    }

    /// The register that holds the quantity.
    pub open spec fn descriptor(self) -> Register {
        match self {
            Quantity::AccumulatedYieldEnergy => Register::Numeric(
                NumericRegister { kind: NumericKind::U32, addr: 32106, count: 2, gain: 100, unit: "kWh" },
            ),
            Quantity::ActivePower => Register::Numeric(
                NumericRegister { kind: NumericKind::I32, addr: 32080, count: 2, gain: 1, unit: "W" },
            ),
            Quantity::DailyYieldEnergy => Register::Numeric(
                NumericRegister { kind: NumericKind::U32, addr: 32114, count: 2, gain: 100, unit: "kWh" },
            ),
            Quantity::DayActivePowerPeak => Register::Numeric(
                NumericRegister { kind: NumericKind::I32, addr: 32078, count: 2, gain: 1, unit: "W" },
            ),
            Quantity::DeviceStatus => Register::Numeric(
                NumericRegister { kind: NumericKind::U16, addr: 32089, count: 1, gain: 1, unit: "" },
            ),
            Quantity::Efficiency => Register::Numeric(
                NumericRegister { kind: NumericKind::U16, addr: 32086, count: 1, gain: 100, unit: "%" },
            ),
            Quantity::GridCurrent => Register::Numeric(
                NumericRegister { kind: NumericKind::I32, addr: 32072, count: 2, gain: 1000, unit: "A" },
            ),
            Quantity::GridFrequency => Register::Numeric(
                NumericRegister { kind: NumericKind::U16, addr: 32085, count: 1, gain: 100, unit: "Hz" },
            ),
            Quantity::GridVoltage => Register::Numeric(
                NumericRegister { kind: NumericKind::U16, addr: 32066, count: 1, gain: 10, unit: "V" },
            ),
            Quantity::InputPower => Register::Numeric(
                NumericRegister { kind: NumericKind::I32, addr: 32064, count: 2, gain: 1, unit: "W" },
            ),
            Quantity::InsulationResistance => Register::Numeric(
                NumericRegister { kind: NumericKind::U16, addr: 32088, count: 1, gain: 100, unit: "MOhm" },
            ),
            Quantity::InternalTemperature => Register::Numeric(
                NumericRegister { kind: NumericKind::I16, addr: 32087, count: 1, gain: 10, unit: "°C" },
            ),
            Quantity::LineVoltageAB => Register::Numeric(
                NumericRegister { kind: NumericKind::U16, addr: 32066, count: 1, gain: 10, unit: "V" },
            ),
            Quantity::LineVoltageBC => Register::Numeric(
                NumericRegister { kind: NumericKind::U16, addr: 32067, count: 1, gain: 10, unit: "V" },
            ),
            Quantity::LineVoltageCA => Register::Numeric(
                NumericRegister { kind: NumericKind::U16, addr: 32068, count: 1, gain: 10, unit: "V" },
            ),
            Quantity::ModelName => Register::Text(StringRegister { addr: 30000, count: 15 }),
            Quantity::PhaseACurrent => Register::Numeric(
                NumericRegister { kind: NumericKind::I32, addr: 32072, count: 2, gain: 1000, unit: "A" },
            ),
            Quantity::PhaseAVoltage => Register::Numeric(
                NumericRegister { kind: NumericKind::U16, addr: 32069, count: 1, gain: 10, unit: "V" },
            ),
            Quantity::PhaseBCurrent => Register::Numeric(
                NumericRegister { kind: NumericKind::I32, addr: 32074, count: 2, gain: 1000, unit: "A" },
            ),
            Quantity::PhaseBVoltage => Register::Numeric(
                NumericRegister { kind: NumericKind::U16, addr: 32070, count: 1, gain: 10, unit: "V" },
            ),
            Quantity::PhaseCCurrent => Register::Numeric(
                NumericRegister { kind: NumericKind::I32, addr: 32076, count: 2, gain: 1000, unit: "A" },
            ),
            Quantity::PhaseCVoltage => Register::Numeric(
                NumericRegister { kind: NumericKind::U16, addr: 32071, count: 1, gain: 10, unit: "V" },
            ),
            Quantity::PowerFactor => Register::Numeric(
                NumericRegister { kind: NumericKind::I16, addr: 32084, count: 1, gain: 1000, unit: "" },
            ),
            Quantity::ReactivePower => Register::Numeric(
                NumericRegister { kind: NumericKind::I32, addr: 32082, count: 2, gain: 1, unit: "VA" },
            ),
            Quantity::SerialNumber => Register::Text(StringRegister { addr: 30015, count: 10 }),
            Quantity::ShutdownTime => Register::Numeric(
                NumericRegister { kind: NumericKind::U32, addr: 32093, count: 2, gain: 1, unit: "s" },
            ),
            Quantity::StartupTime => Register::Numeric(
                NumericRegister { kind: NumericKind::U32, addr: 32091, count: 2, gain: 1, unit: "s" },
            ),
            Quantity::TimeZone => Register::Numeric(
                NumericRegister { kind: NumericKind::I16, addr: 43006, count: 1, gain: 1, unit: "min" },
            ),
        }
    }

    /// The two quantities that hold inverter-local epoch seconds.
    pub open spec fn timestamp(self) -> bool {
        self == Quantity::StartupTime || self == Quantity::ShutdownTime
    }

    pub fn index(self) -> (i: usize)
        ensures
            i == self.position(),
            i < QUANTITIES,
    {
        match self {
            Quantity::AccumulatedYieldEnergy => 0,
            Quantity::ActivePower => 1,
            Quantity::DailyYieldEnergy => 2,
            Quantity::DayActivePowerPeak => 3,
            Quantity::DeviceStatus => 4,
            Quantity::Efficiency => 5,
            Quantity::GridCurrent => 6,
            Quantity::GridFrequency => 7,
            Quantity::GridVoltage => 8,
            Quantity::InputPower => 9,
            Quantity::InsulationResistance => 10,
            Quantity::InternalTemperature => 11,
            Quantity::LineVoltageAB => 12,
            Quantity::LineVoltageBC => 13,
            Quantity::LineVoltageCA => 14,
            Quantity::ModelName => 15,
            Quantity::PhaseACurrent => 16,
            Quantity::PhaseAVoltage => 17,
            Quantity::PhaseBCurrent => 18,
            Quantity::PhaseBVoltage => 19,
            Quantity::PhaseCCurrent => 20,
            Quantity::PhaseCVoltage => 21,
            Quantity::PowerFactor => 22,
            Quantity::ReactivePower => 23,
            Quantity::SerialNumber => 24,
            Quantity::ShutdownTime => 25,
            Quantity::StartupTime => 26,
            Quantity::TimeZone => 27,
        }
    }

    pub fn from_index(i: usize) -> (q: Quantity)
        requires
            i < QUANTITIES,
        ensures
            q == Quantity::at(i as int),
            q.position() == i,
    {
        if i == 0 {
            Quantity::AccumulatedYieldEnergy
        } else if i == 1 {
            Quantity::ActivePower
        } else if i == 2 {
            Quantity::DailyYieldEnergy
        } else if i == 3 {
            Quantity::DayActivePowerPeak
        } else if i == 4 {
            Quantity::DeviceStatus
        } else if i == 5 {
            Quantity::Efficiency
        } else if i == 6 {
            Quantity::GridCurrent
        } else if i == 7 {
            Quantity::GridFrequency
        } else if i == 8 {
            Quantity::GridVoltage
        } else if i == 9 {
            Quantity::InputPower
        } else if i == 10 {
            Quantity::InsulationResistance
        } else if i == 11 {
            Quantity::InternalTemperature
        } else if i == 12 {
            Quantity::LineVoltageAB
        } else if i == 13 {
            Quantity::LineVoltageBC
        } else if i == 14 {
            Quantity::LineVoltageCA
        } else if i == 15 {
            Quantity::ModelName
        } else if i == 16 {
            Quantity::PhaseACurrent
        } else if i == 17 {
            Quantity::PhaseAVoltage
        } else if i == 18 {
            Quantity::PhaseBCurrent
        } else if i == 19 {
            Quantity::PhaseBVoltage
        } else if i == 20 {
            Quantity::PhaseCCurrent
        } else if i == 21 {
            Quantity::PhaseCVoltage
        } else if i == 22 {
            Quantity::PowerFactor
        } else if i == 23 {
            Quantity::ReactivePower
        } else if i == 24 {
            Quantity::SerialNumber
        } else if i == 25 {
            Quantity::ShutdownTime
        } else if i == 26 {
            Quantity::StartupTime
        } else {
            Quantity::TimeZone
        }
    }

    pub fn name(self) -> (name: &'static str)
        ensures
            name@ == self.name_text(),
    {
        match self {
            Quantity::AccumulatedYieldEnergy => "accumulated_yield_energy",
            Quantity::ActivePower => "active_power",
            Quantity::DailyYieldEnergy => "daily_yield_energy",
            Quantity::DayActivePowerPeak => "day_active_power_peak",
            Quantity::DeviceStatus => "device_status",
            Quantity::Efficiency => "efficiency",
            Quantity::GridCurrent => "grid_current",
            Quantity::GridFrequency => "grid_frequency",
            Quantity::GridVoltage => "grid_voltage",
            Quantity::InputPower => "input_power",
            Quantity::InsulationResistance => "insulation_resistance",
            Quantity::InternalTemperature => "internal_temperature",
            Quantity::LineVoltageAB => "line_voltage_a_b",
            Quantity::LineVoltageBC => "line_voltage_b_c",
            Quantity::LineVoltageCA => "line_voltage_c_a",
            Quantity::ModelName => "model_name",
            Quantity::PhaseACurrent => "phase_a_current",
            Quantity::PhaseAVoltage => "phase_a_voltage",
            Quantity::PhaseBCurrent => "phase_b_current",
            Quantity::PhaseBVoltage => "phase_b_voltage",
            Quantity::PhaseCCurrent => "phase_c_current",
            Quantity::PhaseCVoltage => "phase_c_voltage",
            Quantity::PowerFactor => "power_factor",
            Quantity::ReactivePower => "reactive_power",
            Quantity::SerialNumber => "serial_number",
            Quantity::ShutdownTime => "shutdown_time",
            Quantity::StartupTime => "startup_time",
            Quantity::TimeZone => "time_zone",
        }
    }

    pub fn register(self) -> (reg: Register)
        ensures
            reg == self.descriptor(),
    {
        match self {
            Quantity::AccumulatedYieldEnergy => Register::Numeric(
                NumericRegister::new(NumericKind::U32, 32106, 2, 100, "kWh"),
            ),
            Quantity::ActivePower => Register::Numeric(
                NumericRegister::new(NumericKind::I32, 32080, 2, 1, "W"),
            ),
            Quantity::DailyYieldEnergy => Register::Numeric(
                NumericRegister::new(NumericKind::U32, 32114, 2, 100, "kWh"),
            ),
            Quantity::DayActivePowerPeak => Register::Numeric(
                NumericRegister::new(NumericKind::I32, 32078, 2, 1, "W"),
            ),
            Quantity::DeviceStatus => Register::Numeric(
                NumericRegister::new(NumericKind::U16, 32089, 1, 1, ""),
            ),
            Quantity::Efficiency => Register::Numeric(
                NumericRegister::new(NumericKind::U16, 32086, 1, 100, "%"),
            ),
            Quantity::GridCurrent => Register::Numeric(
                NumericRegister::new(NumericKind::I32, 32072, 2, 1000, "A"),
            ),
            Quantity::GridFrequency => Register::Numeric(
                NumericRegister::new(NumericKind::U16, 32085, 1, 100, "Hz"),
            ),
            Quantity::GridVoltage => Register::Numeric(
                NumericRegister::new(NumericKind::U16, 32066, 1, 10, "V"),
            ),
            Quantity::InputPower => Register::Numeric(
                NumericRegister::new(NumericKind::I32, 32064, 2, 1, "W"),
            ),
            Quantity::InsulationResistance => Register::Numeric(
                NumericRegister::new(NumericKind::U16, 32088, 1, 100, "MOhm"),
            ),
            Quantity::InternalTemperature => Register::Numeric(
                NumericRegister::new(NumericKind::I16, 32087, 1, 10, "°C"),
            ),
            Quantity::LineVoltageAB => Register::Numeric(
                NumericRegister::new(NumericKind::U16, 32066, 1, 10, "V"),
            ),
            Quantity::LineVoltageBC => Register::Numeric(
                NumericRegister::new(NumericKind::U16, 32067, 1, 10, "V"),
            ),
            Quantity::LineVoltageCA => Register::Numeric(
                NumericRegister::new(NumericKind::U16, 32068, 1, 10, "V"),
            ),
            Quantity::ModelName => Register::Text(StringRegister::new(30000, 15)),
            Quantity::PhaseACurrent => Register::Numeric(
                NumericRegister::new(NumericKind::I32, 32072, 2, 1000, "A"),
            ),
            Quantity::PhaseAVoltage => Register::Numeric(
                NumericRegister::new(NumericKind::U16, 32069, 1, 10, "V"),
            ),
            Quantity::PhaseBCurrent => Register::Numeric(
                NumericRegister::new(NumericKind::I32, 32074, 2, 1000, "A"),
            ),
            Quantity::PhaseBVoltage => Register::Numeric(
                NumericRegister::new(NumericKind::U16, 32070, 1, 10, "V"),
            ),
            Quantity::PhaseCCurrent => Register::Numeric(
                NumericRegister::new(NumericKind::I32, 32076, 2, 1000, "A"),
            ),
            Quantity::PhaseCVoltage => Register::Numeric(
                NumericRegister::new(NumericKind::U16, 32071, 1, 10, "V"),
            ),
            Quantity::PowerFactor => Register::Numeric(
                NumericRegister::new(NumericKind::I16, 32084, 1, 1000, ""),
            ),
            Quantity::ReactivePower => Register::Numeric(
                NumericRegister::new(NumericKind::I32, 32082, 2, 1, "VA"),
            ),
            Quantity::SerialNumber => Register::Text(StringRegister::new(30015, 10)),
            Quantity::ShutdownTime => Register::Numeric(
                NumericRegister::new(NumericKind::U32, 32093, 2, 1, "s"),
            ),
            Quantity::StartupTime => Register::Numeric(
                NumericRegister::new(NumericKind::U32, 32091, 2, 1, "s"),
            ),
            Quantity::TimeZone => Register::Numeric(
                NumericRegister::new(NumericKind::I16, 43006, 1, 1, "min"),
            ),
        }
    }

    pub fn is_timestamp(self) -> (b: bool)
        ensures
            b == self.timestamp(),
    {
        self == Quantity::StartupTime || self == Quantity::ShutdownTime
    }

    /// The first quantity at or after position `from` that bears the name.
    pub open spec fn first_named(name: Seq<char>, from: int) -> Option<Quantity>
        decreases QUANTITIES - from,
    {
        if from < 0 || from >= QUANTITIES {
            None
        } else if Quantity::at(from).name_text() == name {
            Some(Quantity::at(from))
        } else {
            Quantity::first_named(name, from + 1)
        }
    }

    /// The quantity that bears the name, if any does.
    pub open spec fn named(name: Seq<char>) -> Option<Quantity> {
        Quantity::first_named(name, 0)
    }

    /// Looks a name up in the catalog. The match is exact: no trimming, no
    /// folding of case.
    pub fn from_name(name: &str) -> (found: Option<Quantity>)
        ensures
            found == Quantity::named(name@),
    {
        let wanted = String::from_str(name);
        let mut i: usize = 0;
        while i < QUANTITIES
            invariant
                i <= QUANTITIES,
                wanted@ == name@,
                Quantity::named(name@) == Quantity::first_named(name@, i as int),
            decreases QUANTITIES - i,
        {
            let q = Quantity::from_index(i);
            let candidate = String::from_str(q.name());
            if candidate == wanted {
                return Some(q);
            }
            i += 1;
        }
        None
    }
}

/// The catalog in its own order, the one in which a full query reads.
pub open spec fn catalog_order() -> Seq<Quantity> {
    seq![
        Quantity::ModelName,
        Quantity::SerialNumber,
        Quantity::InputPower,
        Quantity::GridVoltage,
        Quantity::LineVoltageAB,
        Quantity::LineVoltageBC,
        Quantity::LineVoltageCA,
        Quantity::PhaseAVoltage,
        Quantity::PhaseBVoltage,
        Quantity::PhaseCVoltage,
        Quantity::GridCurrent,
        Quantity::PhaseACurrent,
        Quantity::PhaseBCurrent,
        Quantity::PhaseCCurrent,
        Quantity::DayActivePowerPeak,
        Quantity::ActivePower,
        Quantity::ReactivePower,
        Quantity::PowerFactor,
        Quantity::GridFrequency,
        Quantity::Efficiency,
        Quantity::InternalTemperature,
        Quantity::InsulationResistance,
        Quantity::DeviceStatus,
        Quantity::StartupTime,
        Quantity::ShutdownTime,
        Quantity::AccumulatedYieldEnergy,
        Quantity::DailyYieldEnergy,
        Quantity::TimeZone,
    ]
}

/// What the selection `all` stands for: the catalog in its order, without the
/// time zone, which is only ever read on behalf of a timestamp.
pub open spec fn full_selection() -> Seq<Quantity> {
    catalog_order().drop_last()
}

/// The quantities of a full query, in reading order.
pub fn full_query() -> (order: Vec<Quantity>)
    ensures
        order@ == full_selection(),
{
    let order = vec![
        Quantity::ModelName,
        Quantity::SerialNumber,
        Quantity::InputPower,
        Quantity::GridVoltage,
        Quantity::LineVoltageAB,
        Quantity::LineVoltageBC,
        Quantity::LineVoltageCA,
        Quantity::PhaseAVoltage,
        Quantity::PhaseBVoltage,
        Quantity::PhaseCVoltage,
        Quantity::GridCurrent,
        Quantity::PhaseACurrent,
        Quantity::PhaseBCurrent,
        Quantity::PhaseCCurrent,
        Quantity::DayActivePowerPeak,
        Quantity::ActivePower,
        Quantity::ReactivePower,
        Quantity::PowerFactor,
        Quantity::GridFrequency,
        Quantity::Efficiency,
        Quantity::InternalTemperature,
        Quantity::InsulationResistance,
        Quantity::DeviceStatus,
        Quantity::StartupTime,
        Quantity::ShutdownTime,
        Quantity::AccumulatedYieldEnergy,
        Quantity::DailyYieldEnergy,
    ];
    assert(order@ =~= full_selection());
    order
}

/// Every register of the catalog keeps the width rule: one word for a 16-bit
/// kind, two for a 32-bit kind, at least one for text, and a divisor of at
/// least one.
pub proof fn catalog_is_well_formed(q: Quantity)
    ensures
        q.descriptor().well_formed(),
{
}

/// Every quantity stands in the catalog order, and only the time zone is
/// missing from a full query.
pub proof fn catalog_is_complete(q: Quantity)
    ensures
        catalog_order().contains(q),
        full_selection().contains(q) <==> q != Quantity::TimeZone,
        catalog_order().no_duplicates(),
{
    let order = catalog_order();
    let full = full_selection();
    assert(order.len() == QUANTITIES);
    assert(full.len() == QUANTITIES - 1);

    let at: int = match q {
        Quantity::ModelName => 0,
        Quantity::SerialNumber => 1,
        Quantity::InputPower => 2,
        Quantity::GridVoltage => 3,
        Quantity::LineVoltageAB => 4,
        Quantity::LineVoltageBC => 5,
        Quantity::LineVoltageCA => 6,
        Quantity::PhaseAVoltage => 7,
        Quantity::PhaseBVoltage => 8,
        Quantity::PhaseCVoltage => 9,
        Quantity::GridCurrent => 10,
        Quantity::PhaseACurrent => 11,
        Quantity::PhaseBCurrent => 12,
        Quantity::PhaseCCurrent => 13,
        Quantity::DayActivePowerPeak => 14,
        Quantity::ActivePower => 15,
        Quantity::ReactivePower => 16,
        Quantity::PowerFactor => 17,
        Quantity::GridFrequency => 18,
        Quantity::Efficiency => 19,
        Quantity::InternalTemperature => 20,
        Quantity::InsulationResistance => 21,
        Quantity::DeviceStatus => 22,
        Quantity::StartupTime => 23,
        Quantity::ShutdownTime => 24,
        Quantity::AccumulatedYieldEnergy => 25,
        Quantity::DailyYieldEnergy => 26,
        Quantity::TimeZone => 27,
    };
    assert(order[at] == q);
    if q != Quantity::TimeZone {
        assert(full[at] == q);
    }
    assert forall|i: int| 0 <= i < full.len() implies full[i] != Quantity::TimeZone by {
        assert(full[i] == order[i]);
    }
}

/// A name that is found belongs to the quantity found, and a name that is
/// not found belongs to none.
pub proof fn named_is_exact(name: Seq<char>)
    ensures
        match Quantity::named(name) {
            Some(q) => q.name_text() == name,
            None => forall|q: Quantity| q.name_text() != name,
        },
{
    first_named_is_exact(name, 0);
    assert forall|q: Quantity| Quantity::named(name) is None implies q.name_text() != name by {
        assert(Quantity::at(q.position()) == q);
    }
}

proof fn first_named_is_exact(name: Seq<char>, from: int)
    requires
        0 <= from <= QUANTITIES,
    ensures
        match Quantity::first_named(name, from) {
            Some(q) => q.name_text() == name,
            None => forall|i: int| from <= i < QUANTITIES ==> Quantity::at(i).name_text() != name,
        },
    decreases QUANTITIES - from,
{
    if from < QUANTITIES && Quantity::at(from).name_text() != name {
        first_named_is_exact(name, from + 1);
    }
}

/// Whether `a` and `b` agree on their first `k` characters and part ways
/// there, `a` by ending or by the smaller character.
pub open spec fn parts_at(a: Seq<char>, b: Seq<char>, k: int) -> bool {
    &&& 0 <= k <= a.len()
    &&& k < b.len()
    &&& forall|i: int| 0 <= i < k ==> a[i] == b[i]
    &&& (k == a.len() || (a[k] as u32) < (b[k] as u32))
}

/// Whether `a` stands before `b` as in a dictionary: character by character,
/// the shorter first where one begins the other.
pub open spec fn precedes(a: Seq<char>, b: Seq<char>) -> bool {
    exists|k: int| parts_at(a, b, k)
}

/// No text stands before itself.
pub proof fn precedes_is_strict(a: Seq<char>, b: Seq<char>)
    requires
        precedes(a, b),
    ensures
        a != b,
{
}

/// What stands before a text stands before all that the text stands before.
pub proof fn precedes_is_transitive(a: Seq<char>, b: Seq<char>, c: Seq<char>)
    requires
        precedes(a, b),
        precedes(b, c),
    ensures
        precedes(a, c),
{
    let first = choose|k: int| parts_at(a, b, k);
    let second = choose|k: int| parts_at(b, c, k);
    let k = if first <= second {
        first
    } else {
        second
    };
    assert(parts_at(a, c, k));
}

/// Each quantity's name stands before the name of the next.
proof fn neighbours_are_ordered(i: int)
    requires
        0 <= i < QUANTITIES - 1,
    ensures
        precedes(Quantity::at(i).name_text(), Quantity::at(i + 1).name_text()),
{
    reveal_strlit("accumulated_yield_energy");
    reveal_strlit("active_power");
    reveal_strlit("daily_yield_energy");
    reveal_strlit("day_active_power_peak");
    reveal_strlit("device_status");
    reveal_strlit("efficiency");
    reveal_strlit("grid_current");
    reveal_strlit("grid_frequency");
    reveal_strlit("grid_voltage");
    reveal_strlit("input_power");
    reveal_strlit("insulation_resistance");
    reveal_strlit("internal_temperature");
    reveal_strlit("line_voltage_a_b");
    reveal_strlit("line_voltage_b_c");
    reveal_strlit("line_voltage_c_a");
    reveal_strlit("model_name");
    reveal_strlit("phase_a_current");
    reveal_strlit("phase_a_voltage");
    reveal_strlit("phase_b_current");
    reveal_strlit("phase_b_voltage");
    reveal_strlit("phase_c_current");
    reveal_strlit("phase_c_voltage");
    reveal_strlit("power_factor");
    reveal_strlit("reactive_power");
    reveal_strlit("serial_number");
    reveal_strlit("shutdown_time");
    reveal_strlit("startup_time");
    reveal_strlit("time_zone");
    if i == 0 {
        assert(parts_at("accumulated_yield_energy"@, "active_power"@, 2));
    } else if i == 1 {
        assert(parts_at("active_power"@, "daily_yield_energy"@, 0));
    } else if i == 2 {
        assert(parts_at("daily_yield_energy"@, "day_active_power_peak"@, 2));
    } else if i == 3 {
        assert(parts_at("day_active_power_peak"@, "device_status"@, 1));
    } else if i == 4 {
        assert(parts_at("device_status"@, "efficiency"@, 0));
    } else if i == 5 {
        assert(parts_at("efficiency"@, "grid_current"@, 0));
    } else if i == 6 {
        assert(parts_at("grid_current"@, "grid_frequency"@, 5));
    } else if i == 7 {
        assert(parts_at("grid_frequency"@, "grid_voltage"@, 5));
    } else if i == 8 {
        assert(parts_at("grid_voltage"@, "input_power"@, 0));
    } else if i == 9 {
        assert(parts_at("input_power"@, "insulation_resistance"@, 2));
    } else if i == 10 {
        assert(parts_at("insulation_resistance"@, "internal_temperature"@, 2));
    } else if i == 11 {
        assert(parts_at("internal_temperature"@, "line_voltage_a_b"@, 0));
    } else if i == 12 {
        assert(parts_at("line_voltage_a_b"@, "line_voltage_b_c"@, 13));
    } else if i == 13 {
        assert(parts_at("line_voltage_b_c"@, "line_voltage_c_a"@, 13));
    } else if i == 14 {
        assert(parts_at("line_voltage_c_a"@, "model_name"@, 0));
    } else if i == 15 {
        assert(parts_at("model_name"@, "phase_a_current"@, 0));
    } else if i == 16 {
        assert(parts_at("phase_a_current"@, "phase_a_voltage"@, 8));
    } else if i == 17 {
        assert(parts_at("phase_a_voltage"@, "phase_b_current"@, 6));
    } else if i == 18 {
        assert(parts_at("phase_b_current"@, "phase_b_voltage"@, 8));
    } else if i == 19 {
        assert(parts_at("phase_b_voltage"@, "phase_c_current"@, 6));
    } else if i == 20 {
        assert(parts_at("phase_c_current"@, "phase_c_voltage"@, 8));
    } else if i == 21 {
        assert(parts_at("phase_c_voltage"@, "power_factor"@, 1));
    } else if i == 22 {
        assert(parts_at("power_factor"@, "reactive_power"@, 0));
    } else if i == 23 {
        assert(parts_at("reactive_power"@, "serial_number"@, 0));
    } else if i == 24 {
        assert(parts_at("serial_number"@, "shutdown_time"@, 1));
    } else if i == 25 {
        assert(parts_at("shutdown_time"@, "startup_time"@, 1));
    } else if i == 26 {
        assert(parts_at("startup_time"@, "time_zone"@, 0));
    }
}

proof fn names_ascend(i: int, j: int)
    requires
        0 <= i < j < QUANTITIES,
    ensures
        precedes(Quantity::at(i).name_text(), Quantity::at(j).name_text()),
    decreases j - i,
{
    neighbours_are_ordered(j - 1);
    if i < j - 1 {
        names_ascend(i, j - 1);
        precedes_is_transitive(
            Quantity::at(i).name_text(),
            Quantity::at(j - 1).name_text(),
            Quantity::at(j).name_text(),
        );
    }
}

/// The quantities stand in the order of their names.
pub proof fn positions_follow_names(a: Quantity, b: Quantity)
    requires
        a.position() < b.position(),
    ensures
        precedes(a.name_text(), b.name_text()),
{
    names_ascend(a.position(), b.position());
    assert(Quantity::at(a.position()) == a);
    assert(Quantity::at(b.position()) == b);
}

/// No two quantities share a name.
pub proof fn names_are_distinct(a: Quantity, b: Quantity)
    requires
        a != b,
    ensures
        a.name_text() != b.name_text(),
{
    if a.position() < b.position() {
        positions_follow_names(a, b);
    } else {
        assert(Quantity::at(a.position()) == a);
        assert(Quantity::at(b.position()) == b);
        positions_follow_names(b, a);
    }
}

/// A quantity is found under its own name.
pub proof fn own_name_is_found(q: Quantity)
    ensures
        Quantity::named(q.name_text()) == Some(q),
{
    named_is_exact(q.name_text());
    match Quantity::named(q.name_text()) {
        Some(p) => {
            if p != q {
                names_are_distinct(p, q);
            }
        },
        None => {},
    }
}

/// Whether the text is an identifier: not empty, and made of small letters
/// and underscores alone.
pub open spec fn is_identifier(text: Seq<char>) -> bool {
    &&& text.len() > 0
    &&& forall|i: int|
        0 <= i < text.len() ==> ('a' <= #[trigger] text[i] && text[i] <= 'z') || text[i] == '_'
}

/// Every quantity's name is an identifier.
pub proof fn names_are_identifiers(q: Quantity)
    ensures
        is_identifier(q.name_text()),
{
    reveal_strlit("accumulated_yield_energy");
    reveal_strlit("active_power");
    reveal_strlit("daily_yield_energy");
    reveal_strlit("day_active_power_peak");
    reveal_strlit("device_status");
    reveal_strlit("efficiency");
    reveal_strlit("grid_current");
    reveal_strlit("grid_frequency");
    reveal_strlit("grid_voltage");
    reveal_strlit("input_power");
    reveal_strlit("insulation_resistance");
    reveal_strlit("internal_temperature");
    reveal_strlit("line_voltage_a_b");
    reveal_strlit("line_voltage_b_c");
    reveal_strlit("line_voltage_c_a");
    reveal_strlit("model_name");
    reveal_strlit("phase_a_current");
    reveal_strlit("phase_a_voltage");
    reveal_strlit("phase_b_current");
    reveal_strlit("phase_b_voltage");
    reveal_strlit("phase_c_current");
    reveal_strlit("phase_c_voltage");
    reveal_strlit("power_factor");
    reveal_strlit("reactive_power");
    reveal_strlit("serial_number");
    reveal_strlit("shutdown_time");
    reveal_strlit("startup_time");
    reveal_strlit("time_zone");
}

} // verus!
