use hwmon_power::{
    counter_path, measure, name_matches, parse_u64, read_counter, strip_newline, Engine,
    EngineAction, EngineInput, MeasurementPoint, ParseError, Phase, Power, SensorOutput, Step,
};

fn candidate(path: &str, name: &str) -> EngineInput {
    EngineInput::Candidate { path: path.to_string(), name: name.to_string() }
}

fn started(interval_ms: u64) -> Engine {
    let mut e = Engine::new(interval_ms);
    let s = e.step(EngineInput::Start);
    assert_eq!(s.action, EngineAction::ListRoot);
    assert!(matches!(s.output, Some(SensorOutput::Log(ref m)) if m == "Looking for i915 sensor hwmon directory"));
    e
}

fn polling(interval_ms: u64) -> Engine {
    let mut e = started(interval_ms);
    assert_eq!(e.step(candidate("/sys/class/hwmon/hwmon0", "i915\n")).action, EngineAction::OpenCounter);
    let s = e.step(EngineInput::Opened);
    assert!(s.output.is_none());
    assert_eq!(s.action, EngineAction::ReadCounter);
    e
}

fn is_error(s: &Step) -> bool {
    matches!(s.output, Some(SensorOutput::Error(_)))
}

fn error_text(s: &Step) -> String {
    match &s.output {
        Some(SensorOutput::Error(m)) => m.clone(),
        other => panic!("expected an error, got {:?}", other),
    }
}

#[test]
fn parse_accepts_decimal() {
    assert_eq!(parse_u64("123"), Ok(123));
    assert_eq!(parse_u64("+5"), Ok(5));
    assert_eq!(parse_u64("0"), Ok(0));
    assert_eq!(parse_u64("18446744073709551615"), Ok(u64::MAX));
}

#[test]
fn parse_rejects_like_std() {
    assert_eq!(parse_u64(""), Err(ParseError::Empty));
    assert_eq!(parse_u64("+"), Err(ParseError::InvalidDigit));
    assert_eq!(parse_u64("-1"), Err(ParseError::InvalidDigit));
    assert_eq!(parse_u64("12a"), Err(ParseError::InvalidDigit));
    assert_eq!(parse_u64(" 1"), Err(ParseError::InvalidDigit));
    assert_eq!(parse_u64("18446744073709551616"), Err(ParseError::PosOverflow));
    assert_eq!(parse_u64("99999999999999999999x"), Err(ParseError::PosOverflow));
    for s in ["", "+", "-1", "12a", "18446744073709551616", "1\n"] {
        assert_eq!(parse_u64(s).is_ok(), s.parse::<u64>().is_ok(), "{:?}", s);
    }
}

#[test]
fn strip_newline_removes_one() {
    assert_eq!(strip_newline("i915\n"), "i915");
    assert_eq!(strip_newline("i915\n\n"), "i915\n");
    assert_eq!(strip_newline("i915"), "i915");
    assert_eq!(strip_newline(""), "");
}

#[test]
fn name_matching() {
    assert!(name_matches("i915\n"));
    assert!(name_matches("i915"));
    assert!(!name_matches("i915\n\n"));
    assert!(!name_matches("amdgpu\n"));
    assert!(!name_matches("i9150"));
    assert!(!name_matches(""));
}

#[test]
fn counter_path_appends_file() {
    assert_eq!(counter_path("/sys/class/hwmon/hwmon3"), "/sys/class/hwmon/hwmon3/energy1_input");
}

#[test]
fn read_counter_converts_to_joules() {
    assert_eq!(read_counter("3000000\n"), Ok(3));
    assert_eq!(read_counter("3999999"), Ok(3));
    assert_eq!(read_counter("999999\n"), Ok(0));
    assert_eq!(read_counter("18446744073709551615\n"), Ok(18446744073709));
}

#[test]
fn read_counter_quotes_bad_content() {
    let m = read_counter("abc\n").unwrap_err();
    assert_eq!(m, "Failed to parse i915 energy sensor file (content: \"abc\n\"): invalid digit found in string");
    let m = read_counter("\n").unwrap_err();
    assert!(m.ends_with("cannot parse integer from empty string"));
}

#[test]
fn measure_takes_difference() {
    let m = measure(1, 3, 1000);
    assert_eq!(m, MeasurementPoint { energy_joules: 3, power: Power { joules: 2, millis: 1000 } });
    let back = measure(5, 2, 500);
    assert_eq!(back.power.joules, -3);
}

#[test]
fn two_readings_give_power_and_energy() {
    let mut e = polling(1000);
    let s = e.step(EngineInput::Content("1000000\n".to_string()));
    assert!(s.output.is_none());
    assert_eq!(s.action, EngineAction::SleepThenRead);
    let s = e.step(EngineInput::Content("3000000\n".to_string()));
    assert_eq!(s.action, EngineAction::SleepThenRead);
    let m = match s.output {
        Some(SensorOutput::Measurement(m)) => m,
        other => panic!("expected a measurement, got {:?}", other),
    };
    let watts = m.power.joules as f64 / (m.power.millis as f64 / 1000.0);
    assert_eq!(watts, 2.0);
    let kwh = m.energy_joules as f64 / 3.6e6;
    assert_eq!(kwh, 3_000_000.0 / 1e6 / 3.6e6);
    assert_eq!(e.phase, Phase::Sampling { last_joules: 3 });
}

#[test]
fn discovery_selects_second_candidate() {
    let mut e = started(250);
    let mut steps = Vec::new();
    steps.push(e.step(candidate("/sys/class/hwmon/hwmon0", "acpitz\n")));
    assert_eq!(steps[0].action, EngineAction::NextCandidate);
    steps.push(e.step(candidate("/sys/class/hwmon/hwmon1", "i915\n")));
    assert_eq!(steps[1].action, EngineAction::OpenCounter);
    assert_eq!(e.phase, Phase::Opening);
    assert!(steps.iter().all(|s| !is_error(s)));
    assert!(matches!(&steps[1].output, Some(SensorOutput::Log(m)) if m == "Found i915 energy sensor at \"/sys/class/hwmon/hwmon1\""));
    assert!(matches!(&steps[0].output, Some(SensorOutput::Warn(_))));
}

#[test]
fn discovery_without_match_stops_once() {
    let mut e = started(250);
    let mut steps = Vec::new();
    steps.push(e.step(candidate("/sys/class/hwmon/hwmon0", "acpitz\n")));
    steps.push(e.step(EngineInput::NameUnreadable("permission denied".to_string())));
    steps.push(e.step(EngineInput::EntryUnreadable("gone".to_string())));
    steps.push(e.step(EngineInput::Exhausted));
    assert_eq!(steps[3].action, EngineAction::Stop);
    assert!(e.is_stopped());
    steps.push(e.step(EngineInput::Content("1000000\n".to_string())));
    steps.push(e.step(EngineInput::Opened));
    assert_eq!(steps.iter().filter(|s| is_error(s)).count(), 1);
    assert!(steps.iter().all(|s| !matches!(s.output, Some(SensorOutput::Measurement(_)))));
    assert_eq!(error_text(&steps[3]), "Failed to find i915 sensor!");
    assert!(matches!(&steps[1].output, Some(SensorOutput::Warn(m)) if m == "Failed to read 'name' file in hwmon subdirectory: permission denied"));
    assert!(matches!(&steps[2].output, Some(SensorOutput::Warn(m)) if m == "Failed to access hwmon subdirectory: gone"));
}

#[test]
fn parse_failure_reports_content_once() {
    let mut e = polling(1000);
    e.step(EngineInput::Content("1000000\n".to_string()));
    let s = e.step(EngineInput::Content("garbage".to_string()));
    assert!(error_text(&s).contains("garbage"));
    assert_eq!(s.action, EngineAction::Stop);
    let after = e.step(EngineInput::Content("2000000\n".to_string()));
    assert!(after.output.is_none());
    assert!(e.is_stopped());
}

#[test]
fn baseline_parse_failure_stops() {
    let mut e = polling(1000);
    let s = e.step(EngineInput::Content("12x\n".to_string()));
    assert!(error_text(&s).contains("12x\n"));
    assert!(e.is_stopped());
}

#[test]
fn io_failures_are_fatal() {
    let mut e = started(250);
    let s = e.step(EngineInput::RootUnreadable("no such directory".to_string()));
    assert_eq!(error_text(&s), "Failed to open \"/sys/class/hwmon\": no such directory");
    assert!(e.is_stopped());

    let mut e = started(250);
    e.step(candidate("/h/hwmon2", "i915"));
    let s = e.step(EngineInput::OpenFailed("denied".to_string()));
    assert_eq!(error_text(&s), "Failed to open i915 energy sensor file: denied");
    assert!(e.is_stopped());

    let mut e = polling(250);
    let s = e.step(EngineInput::SeekFailed);
    assert_eq!(error_text(&s), "Failed to seek to 0 in i915 energy sensor file");
    assert!(e.is_stopped());

    let mut e = polling(250);
    e.step(EngineInput::Content("5000000".to_string()));
    let s = e.step(EngineInput::ReadFailed("io".to_string()));
    assert_eq!(error_text(&s), "Failed to read i915 energy sensor file: io");
    assert!(e.is_stopped());
}

#[test]
fn unexpected_input_stops_silently() {
    let mut e = Engine::new(250);
    let s = e.step(EngineInput::Opened);
    assert!(s.output.is_none());
    assert_eq!(s.action, EngineAction::Stop);
    assert!(e.is_stopped());
}
