use huawei_solar::catalog::{full_query, Quantity, QUANTITIES};
use huawei_solar::registers::{NumericKind, NumericRegister, Register, StringRegister};

fn all_quantities() -> Vec<Quantity> {
    (0..QUANTITIES).map(Quantity::from_index).collect()
}

#[test]
fn every_entry_keeps_the_width_rule() {
    for q in all_quantities() {
        match q.register() {
            Register::Text(reg) => {
                assert!(reg.count >= 1);
                assert!(reg.is_well_formed());
            }
            Register::Numeric(reg) => {
                let narrow = matches!(reg.kind, NumericKind::U16 | NumericKind::I16);
                assert_eq!(reg.count == 1, narrow);
                assert_eq!(reg.count == 2, !narrow);
                assert!(reg.gain >= 1);
                assert!(reg.is_well_formed());
                assert_eq!(reg.count, reg.kind.word_count());
            }
        }
    }
}

#[test]
fn the_catalog_has_twenty_eight_entries() {
    assert_eq!(QUANTITIES, 28);
    assert_eq!(all_quantities().len(), 28);
}

#[test]
fn positions_and_quantities_correspond() {
    for (i, q) in all_quantities().into_iter().enumerate() {
        assert_eq!(q.index(), i);
    }
}

#[test]
fn quantities_stand_in_the_order_of_their_names() {
    let names: Vec<&str> = all_quantities().into_iter().map(|q| q.name()).collect();
    let mut sorted = names.clone();
    sorted.sort();
    sorted.dedup();
    assert_eq!(names, sorted);
}

#[test]
fn names_are_found_again() {
    for q in all_quantities() {
        assert_eq!(Quantity::from_name(q.name()), Some(q));
    }
}

#[test]
fn other_names_are_not_found() {
    assert_eq!(Quantity::from_name(""), None);
    assert_eq!(Quantity::from_name("all"), None);
    assert_eq!(Quantity::from_name("Grid_Voltage"), None);
    assert_eq!(Quantity::from_name(" grid_voltage"), None);
    assert_eq!(Quantity::from_name("grid_voltage "), None);
    assert_eq!(Quantity::from_name("grid_voltag"), None);
}

#[test]
fn some_entries_of_the_table() {
    match Quantity::ModelName.register() {
        Register::Text(reg) => assert_eq!((reg.addr, reg.count), (30000, 15)),
        Register::Numeric(_) => panic!("model_name is text"),
    }
    match Quantity::SerialNumber.register() {
        Register::Text(reg) => assert_eq!((reg.addr, reg.count), (30015, 10)),
        Register::Numeric(_) => panic!("serial_number is text"),
    }
    let expect = |q: Quantity, kind: NumericKind, addr: u16, count: u16, gain: u32, unit: &str| {
        match q.register() {
            Register::Numeric(reg) => {
                assert_eq!(reg.kind, kind);
                assert_eq!((reg.addr, reg.count, reg.gain), (addr, count, gain));
                assert_eq!(reg.get_unit(), unit);
            }
            Register::Text(_) => panic!("numeric register expected"),
        }
    };
    expect(Quantity::InputPower, NumericKind::I32, 32064, 2, 1, "W");
    expect(Quantity::GridVoltage, NumericKind::U16, 32066, 1, 10, "V");
    expect(Quantity::LineVoltageAB, NumericKind::U16, 32066, 1, 10, "V");
    expect(Quantity::GridCurrent, NumericKind::I32, 32072, 2, 1000, "A");
    expect(Quantity::PhaseCCurrent, NumericKind::I32, 32076, 2, 1000, "A");
    expect(Quantity::ReactivePower, NumericKind::I32, 32082, 2, 1, "VA");
    expect(Quantity::PowerFactor, NumericKind::I16, 32084, 1, 1000, "");
    expect(Quantity::GridFrequency, NumericKind::U16, 32085, 1, 100, "Hz");
    expect(Quantity::Efficiency, NumericKind::U16, 32086, 1, 100, "%");
    expect(Quantity::InternalTemperature, NumericKind::I16, 32087, 1, 10, "°C");
    expect(Quantity::InsulationResistance, NumericKind::U16, 32088, 1, 100, "MOhm");
    expect(Quantity::DeviceStatus, NumericKind::U16, 32089, 1, 1, "");
    expect(Quantity::StartupTime, NumericKind::U32, 32091, 2, 1, "s");
    expect(Quantity::ShutdownTime, NumericKind::U32, 32093, 2, 1, "s");
    expect(Quantity::AccumulatedYieldEnergy, NumericKind::U32, 32106, 2, 100, "kWh");
    expect(Quantity::DailyYieldEnergy, NumericKind::U32, 32114, 2, 100, "kWh");
    expect(Quantity::TimeZone, NumericKind::I16, 43006, 1, 1, "min");
}

#[test]
fn a_full_query_reads_all_but_the_time_zone_in_catalog_order() {
    let order = full_query();
    assert_eq!(order.len(), 27);
    assert!(!order.contains(&Quantity::TimeZone));
    for q in all_quantities() {
        if q != Quantity::TimeZone {
            assert_eq!(order.iter().filter(|o| **o == q).count(), 1);
        }
    }
    assert_eq!(order[0], Quantity::ModelName);
    assert_eq!(order[1], Quantity::SerialNumber);
    assert_eq!(order[2], Quantity::InputPower);
    assert_eq!(order[10], Quantity::GridCurrent);
    assert_eq!(order[22], Quantity::DeviceStatus);
    assert_eq!(order[23], Quantity::StartupTime);
    assert_eq!(order[24], Quantity::ShutdownTime);
    assert_eq!(order[26], Quantity::DailyYieldEnergy);
    let mut addresses: Vec<u16> = order.iter().map(|q| q.register().addr()).collect();
    let read = addresses.clone();
    addresses.sort();
    assert_eq!(read, addresses);
}

#[test]
fn constructors_keep_what_they_are_given() {
    let reg = NumericRegister::new(NumericKind::I16, 7, 1, 10, "°C");
    assert_eq!(reg.kind, NumericKind::I16);
    assert_eq!((reg.addr, reg.count, reg.gain), (7, 1, 10));
    assert_eq!(reg.get_unit(), "°C");
    assert!(reg.kind.is_signed());
    assert!(!NumericKind::U32.is_signed());
    let text = StringRegister::new(9, 4);
    assert_eq!((text.addr, text.count), (9, 4));
    assert!(!StringRegister::new(9, 0).is_well_formed());
    assert!(!NumericRegister::new(NumericKind::U16, 7, 1, 0, "").is_well_formed());
    assert!(!NumericRegister::new(NumericKind::U16, 7, 2, 1, "").is_well_formed());
    let either = Register::Numeric(reg);
    assert_eq!((either.addr(), either.count()), (7, 1));
    let either = Register::Text(text);
    assert_eq!((either.addr(), either.count()), (9, 4));
}
