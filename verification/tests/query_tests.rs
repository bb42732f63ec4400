use huawei_solar::catalog::{full_query, Quantity, QUANTITIES};
use huawei_solar::decode::{DecodeError, Variant};
use huawei_solar::query::{correct_timestamp, Action, Event, Outcome, Query};
use huawei_solar::results::ResultMap;
use huawei_solar::selection::{plan, step_of, tokens, Step};
use huawei_solar::status::{code_of, describe_status, status_text};

fn zeros(q: Quantity) -> Vec<u16> {
    vec![0x0041; q.register().count() as usize]
}

/// Answers every read with the words that `answer` gives, and lists what was read.
fn drive(query: &mut Query, answer: &dyn Fn(Quantity) -> Event) -> (Vec<Quantity>, Vec<Outcome>) {
    let mut read = Vec::new();
    let mut outcomes = Vec::new();
    loop {
        match query.next_action() {
            Action::Finished => break,
            Action::Read(q) => {
                read.push(q);
                outcomes.push(query.advance(answer(q)));
            }
            Action::ReportUnknown(_) | Action::Omit(_) => {
                outcomes.push(query.advance(Event::Noted));
            }
        }
    }
    (read, outcomes)
}

#[test]
fn tokens_are_the_pieces_between_commas() {
    assert_eq!(tokens("a,b"), vec!["a".to_string(), "b".to_string()]);
    assert_eq!(tokens(""), vec!["".to_string()]);
    assert_eq!(tokens("all"), vec!["all".to_string()]);
    assert_eq!(tokens(","), vec!["".to_string(), "".to_string()]);
    assert_eq!(tokens("a,,b,"), vec!["a", "", "b", ""]);
    assert_eq!(tokens("°C,x"), vec!["°C", "x"]);
    for text in ["", "a", ",a", "model_name,grid_voltage", "a,,b,", ",,,"] {
        let expected: Vec<String> = text.split(',').map(|s| s.to_string()).collect();
        assert_eq!(tokens(text), expected);
        assert_eq!(tokens(text).join(","), text);
    }
}

#[test]
fn a_token_is_a_read_or_unknown() {
    assert_eq!(step_of(&"grid_voltage".to_string()), Step::Read(Quantity::GridVoltage));
    assert_eq!(step_of(&"grid_current".to_string()), Step::Read(Quantity::GridCurrent));
    assert_eq!(step_of(&"time_zone".to_string()), Step::Unknown("time_zone".to_string()));
    assert_eq!(step_of(&"".to_string()), Step::Unknown("".to_string()));
    assert_eq!(step_of(&"nonsense".to_string()), Step::Unknown("nonsense".to_string()));
}

#[test]
fn all_plans_the_full_catalog_without_the_time_zone() {
    let steps = plan("all");
    let expected: Vec<Step> = full_query().into_iter().map(Step::Read).collect();
    assert_eq!(steps, expected);
    assert_eq!(steps.len(), 27);
    assert!(!steps.contains(&Step::Read(Quantity::TimeZone)));
}

#[test]
fn all_counts_as_a_whole_token_only() {
    let full: Vec<Step> = full_query().into_iter().map(Step::Read).collect();
    assert_eq!(plan("grid_voltage,all"), full);
    assert_eq!(plan("all,nonsense"), full);
    assert_eq!(plan("ball"), vec![Step::Unknown("ball".to_string())]);
    assert_eq!(
        plan("all_of_it,grid_voltage"),
        vec![Step::Unknown("all_of_it".to_string()), Step::Read(Quantity::GridVoltage)]
    );
}

#[test]
fn tokens_are_planned_in_their_order() {
    assert_eq!(
        plan("serial_number,bogus,model_name,serial_number"),
        vec![
            Step::Read(Quantity::SerialNumber),
            Step::Unknown("bogus".to_string()),
            Step::Read(Quantity::ModelName),
            Step::Read(Quantity::SerialNumber),
        ]
    );
    assert_eq!(plan(""), vec![Step::Unknown("".to_string())]);
}

#[test]
fn status_lookup_hit() {
    let mut query = Query::start("device_status");
    assert_eq!(query.next_action(), Action::Read(Quantity::DeviceStatus));
    let outcome = query.advance(Event::Words(vec![0x0200]));
    assert_eq!(outcome, Outcome::Stored(Quantity::DeviceStatus));
    assert_eq!(query.next_action(), Action::Finished);
    let map = query.into_results();
    assert_eq!(map.get(Quantity::DeviceStatus), Some(&Variant::Text("On-grid".to_string())));
    assert_eq!(Quantity::DeviceStatus.name(), "device_status");
    assert_eq!(map.len(), 1);
}

#[test]
fn status_lookup_miss() {
    let mut query = Query::start("device_status");
    let outcome = query.advance(Event::Words(vec![0x9999]));
    assert_eq!(outcome, Outcome::Stored(Quantity::DeviceStatus));
    let map = query.into_results();
    assert_eq!(map.get(Quantity::DeviceStatus), Some(&Variant::Text(String::new())));
}

#[test]
fn status_table() {
    assert_eq!(status_text(0x0000), "Standby, initializing");
    assert_eq!(status_text(0x0003), "Standby, grid detecting");
    assert_eq!(status_text(0x0100), "Starting");
    assert_eq!(status_text(0x0200), "On-grid");
    assert_eq!(status_text(0x0308), "Shutdown, input underpowered");
    assert_eq!(status_text(0x0405), "Grid scheduling, Q-P curve");
    assert_eq!(status_text(0x0A00), "Running, off-grid charging");
    assert_eq!(status_text(0xA000), "Standby, no irradiation");
    assert_eq!(status_text(0x0004), "");
    assert_eq!(status_text(0xFFFF), "");
    let known = (0..=0xFFFFu16).filter(|c| !status_text(*c).is_empty()).count();
    assert_eq!(known, 30);
}

#[test]
fn status_code_is_the_whole_part_held_to_sixteen_bits() {
    assert_eq!(code_of(&Variant::Number { raw: 512, gain: 1 }), 512);
    assert_eq!(code_of(&Variant::Number { raw: 5129, gain: 10 }), 512);
    assert_eq!(code_of(&Variant::Number { raw: -3, gain: 1 }), 0);
    assert_eq!(code_of(&Variant::Number { raw: 70000, gain: 1 }), 0xFFFF);
    assert_eq!(code_of(&Variant::Number { raw: 1, gain: 0 }), 0xFFFF);
    assert_eq!(code_of(&Variant::Number { raw: 0, gain: 0 }), 0);
    assert_eq!(code_of(&Variant::Text("x".to_string())), 0);
    assert_eq!(
        describe_status(&Variant::Number { raw: 0x0300, gain: 1 }),
        Variant::Text("Shutdown, fault".to_string())
    );
}

#[test]
fn timestamp_correction() {
    let mut query = Query::start("startup_time");
    assert_eq!(query.next_action(), Action::Read(Quantity::TimeZone));
    assert_eq!(query.advance(Event::Words(vec![0x0078])), Outcome::Stored(Quantity::TimeZone));
    assert_eq!(query.next_action(), Action::Read(Quantity::StartupTime));
    assert_eq!(
        query.advance(Event::Words(vec![0x64B0, 0x0000])),
        Outcome::Stored(Quantity::StartupTime)
    );
    assert!(query.is_finished());
    let map = query.into_results();
    let raw: i64 = 0x64B0_0000;
    assert_eq!(raw, 1689255936);
    assert_eq!(
        map.get(Quantity::StartupTime),
        Some(&Variant::Number { raw: raw - 7200, gain: 1 })
    );
    assert_eq!(map.get(Quantity::TimeZone), Some(&Variant::Number { raw: 120, gain: 1 }));
    assert_eq!(map.len(), 2);
}

#[test]
fn correction_subtracts_sixty_seconds_a_minute() {
    assert_eq!(
        correct_timestamp(Variant::Number { raw: 1689665536, gain: 1 }, 120),
        Variant::Number { raw: 1689658336, gain: 1 }
    );
    assert_eq!(
        correct_timestamp(Variant::Number { raw: 1000, gain: 1 }, -90),
        Variant::Number { raw: 6400, gain: 1 }
    );
    assert_eq!(
        correct_timestamp(Variant::Number { raw: 100000, gain: 100 }, 1),
        Variant::Number { raw: 94000, gain: 100 }
    );
    assert_eq!(
        correct_timestamp(Variant::Text("x".to_string()), 5),
        Variant::Text("x".to_string())
    );
}

#[test]
fn the_time_zone_is_read_once_for_two_timestamps() {
    let mut query = Query::start("startup_time,shutdown_time");
    let (read, outcomes) = drive(&mut query, &|q| match q {
        Quantity::TimeZone => Event::Words(vec![0xFFC4]),
        Quantity::StartupTime => Event::Words(vec![0x0000, 0x0E10]),
        _ => Event::Words(vec![0x0001, 0x0000]),
    });
    assert_eq!(read, vec![Quantity::TimeZone, Quantity::StartupTime, Quantity::ShutdownTime]);
    assert_eq!(outcomes.len(), 3);
    let map = query.into_results();
    assert_eq!(map.get(Quantity::TimeZone), Some(&Variant::Number { raw: -60, gain: 1 }));
    assert_eq!(map.get(Quantity::StartupTime), Some(&Variant::Number { raw: 7200, gain: 1 }));
    assert_eq!(map.get(Quantity::ShutdownTime), Some(&Variant::Number { raw: 69136, gain: 1 }));
}

#[test]
fn without_the_time_zone_timestamps_are_left_out() {
    let mut query = Query::start("startup_time,grid_voltage,shutdown_time");
    assert_eq!(query.next_action(), Action::Read(Quantity::TimeZone));
    assert_eq!(query.advance(Event::Failed), Outcome::TransportFailed(Quantity::TimeZone));
    assert_eq!(query.next_action(), Action::Omit(Quantity::StartupTime));
    assert_eq!(query.advance(Event::Noted), Outcome::Passed);
    assert_eq!(query.next_action(), Action::Read(Quantity::GridVoltage));
    assert_eq!(query.advance(Event::Words(vec![2300])), Outcome::Stored(Quantity::GridVoltage));
    assert_eq!(query.next_action(), Action::Omit(Quantity::ShutdownTime));
    assert_eq!(query.advance(Event::Noted), Outcome::Passed);
    assert_eq!(query.next_action(), Action::Finished);
    assert_eq!(query.advance(Event::Noted), Outcome::Idle);
    let map = query.into_results();
    assert_eq!(map.len(), 1);
    assert!(map.contains_key(Quantity::GridVoltage));
    assert!(!map.contains_key(Quantity::TimeZone));
    assert!(!map.contains_key(Quantity::StartupTime));
}

#[test]
fn a_time_zone_that_does_not_decode_counts_as_failed() {
    let mut query = Query::start("shutdown_time");
    assert_eq!(
        query.advance(Event::Words(vec![1, 2])),
        Outcome::DecodeFailed(Quantity::TimeZone, DecodeError::WordCount)
    );
    assert_eq!(query.next_action(), Action::Omit(Quantity::ShutdownTime));
}

#[test]
fn a_failed_timestamp_keeps_the_time_zone() {
    let mut query = Query::start("startup_time");
    assert_eq!(query.advance(Event::Words(vec![60])), Outcome::Stored(Quantity::TimeZone));
    assert_eq!(query.advance(Event::Failed), Outcome::TransportFailed(Quantity::StartupTime));
    assert!(query.is_finished());
    let map = query.into_results();
    assert_eq!(map.len(), 1);
    assert_eq!(map.get(Quantity::TimeZone), Some(&Variant::Number { raw: 60, gain: 1 }));
}

#[test]
fn partial_failure() {
    let mut query = Query::start("model_name,grid_voltage");
    assert_eq!(query.next_action(), Action::Read(Quantity::ModelName));
    let outcome = query.advance(Event::Failed);
    assert_eq!(outcome, Outcome::TransportFailed(Quantity::ModelName));
    match outcome {
        Outcome::TransportFailed(q) => assert_eq!(q.name(), "model_name"),
        _ => unreachable!(),
    }
    assert_eq!(query.next_action(), Action::Read(Quantity::GridVoltage));
    assert_eq!(query.advance(Event::Words(vec![0x08FC])), Outcome::Stored(Quantity::GridVoltage));
    assert_eq!(query.next_action(), Action::Finished);
    let map = query.into_results();
    let entries = map.entries();
    assert_eq!(entries, vec![(Quantity::GridVoltage, Variant::Number { raw: 2300, gain: 10 })]);
}

#[test]
fn unknown_tokens_are_reported_and_passed() {
    let mut query = Query::start("bogus,grid_voltage,time_zone");
    assert_eq!(query.next_action(), Action::ReportUnknown("bogus".to_string()));
    assert_eq!(query.advance(Event::Noted), Outcome::Passed);
    assert_eq!(query.next_action(), Action::Read(Quantity::GridVoltage));
    assert_eq!(
        query.advance(Event::Words(vec![])),
        Outcome::DecodeFailed(Quantity::GridVoltage, DecodeError::WordCount)
    );
    assert_eq!(query.next_action(), Action::ReportUnknown("time_zone".to_string()));
    assert_eq!(query.advance(Event::Noted), Outcome::Passed);
    assert!(query.is_finished());
    assert_eq!(query.results().len(), 0);
}

#[test]
fn invalid_text_is_reported_and_not_stored() {
    let mut query = Query::start("serial_number");
    let outcome = query.advance(Event::Words(vec![0xFFFF; 10]));
    assert_eq!(outcome, Outcome::DecodeFailed(Quantity::SerialNumber, DecodeError::InvalidText));
    assert_eq!(query.into_results().len(), 0);
}

#[test]
fn a_full_query_stores_every_quantity_and_the_time_zone_once() {
    let mut query = Query::start("all");
    let (read, outcomes) = drive(&mut query, &|q| Event::Words(zeros(q)));
    assert_eq!(read.len(), 28);
    assert_eq!(read.iter().filter(|q| **q == Quantity::TimeZone).count(), 1);
    let mut expected = full_query();
    expected.insert(23, Quantity::TimeZone);
    assert_eq!(read, expected);
    assert!(outcomes.iter().all(|o| matches!(o, Outcome::Stored(_))));
    let map = query.into_results();
    assert_eq!(map.len(), QUANTITIES);
    let entries = map.entries();
    let keys: Vec<&str> = entries.iter().map(|e| e.0.name()).collect();
    let mut sorted = keys.clone();
    sorted.sort();
    sorted.dedup();
    assert_eq!(keys, sorted);
    assert_eq!(keys.iter().filter(|k| **k == "time_zone").count(), 1);
}

#[test]
fn a_full_query_without_timestamps_read_has_no_time_zone() {
    let mut query = Query::start("all");
    let (read, _) = drive(&mut query, &|q| match q {
        Quantity::TimeZone => Event::Failed,
        other => Event::Words(zeros(other)),
    });
    assert_eq!(read.len(), 26);
    let map = query.into_results();
    assert_eq!(map.len(), 25);
    assert!(!map.contains_key(Quantity::TimeZone));
    assert!(!map.contains_key(Quantity::StartupTime));
    assert!(!map.contains_key(Quantity::ShutdownTime));
}

#[test]
fn a_mapping_keeps_one_value_for_each_key() {
    let mut map = ResultMap::new();
    assert_eq!(map.len(), 0);
    assert_eq!(map.get(Quantity::Efficiency), None);
    map.insert(Quantity::Efficiency, Variant::Number { raw: 9750, gain: 100 });
    map.insert(Quantity::ActivePower, Variant::Number { raw: 4000, gain: 1 });
    map.insert(Quantity::Efficiency, Variant::Number { raw: 9800, gain: 100 });
    assert_eq!(map.len(), 2);
    assert!(map.contains_key(Quantity::Efficiency));
    assert!(!map.contains_key(Quantity::ModelName));
    assert_eq!(
        map.entries(),
        vec![
            (Quantity::ActivePower, Variant::Number { raw: 4000, gain: 1 }),
            (Quantity::Efficiency, Variant::Number { raw: 9800, gain: 100 }),
        ]
    );
}
