use hwmon_power::{
    handle_key, AppReturn, ChannelPoll, DrainStep, InputEvent, LogLevel, MeasurementPoint,
    Orchestrator, Power, SensorData, SensorOutput,
};

fn point(energy_joules: u64, joules: i64) -> MeasurementPoint {
    MeasurementPoint { energy_joules, power: Power { joules, millis: 1000 } }
}

fn powers(d: &SensorData, n: usize) -> Vec<(usize, i64)> {
    d.get_power_data(n).iter().map(|(i, p)| (*i, p.joules)).collect()
}

#[test]
fn measurements_set_total_and_history() {
    let mut d = SensorData::new();
    assert_eq!(d.total_energy, 0);
    for (e, p) in [(10, 1), (12, 2), (15, 3)] {
        d.handle_sensor_output(&SensorOutput::Measurement(point(e, p)));
    }
    assert_eq!(d.total_energy, 15);
    assert_eq!(powers(&d, usize::MAX), vec![(0, 1), (1, 2), (2, 3)]);
    assert!(d.get_log().is_empty());
}

#[test]
fn window_wider_than_history_is_whole() {
    let mut d = SensorData::new();
    for p in [4, 5, 6] {
        d.append_power_data(Power { joules: p, millis: 500 });
    }
    assert_eq!(powers(&d, 10), vec![(0, 4), (1, 5), (2, 6)]);
    assert_eq!(powers(&d, 3), vec![(0, 4), (1, 5), (2, 6)]);
}

#[test]
fn window_narrower_takes_last() {
    let mut d = SensorData::new();
    for p in [4, 5, 6, 7] {
        d.append_power_data(Power { joules: p, millis: 500 });
    }
    assert_eq!(powers(&d, 2), vec![(0, 6), (1, 7)]);
    assert_eq!(powers(&d, 0), vec![]);
    assert_eq!(powers(&SensorData::new(), 5), vec![]);
}

#[test]
fn messages_logged_with_severity() {
    let mut d = SensorData::new();
    d.handle_sensor_output(&SensorOutput::Log("hello".to_string()));
    d.handle_sensor_output(&SensorOutput::Warn("careful".to_string()));
    d.handle_sensor_output(&SensorOutput::Error("broken".to_string()));
    d.log_info("direct");
    let log = d.get_log();
    let levels: Vec<LogLevel> = log.iter().map(|e| e.level).collect();
    assert_eq!(levels, vec![LogLevel::Info, LogLevel::Warning, LogLevel::Error, LogLevel::Info]);
    let lines: Vec<String> = log.iter().map(|e| e.line()).collect();
    assert_eq!(lines, vec!["I: hello", "W: careful", "E: broken", "I: direct"]);
    d.log_warn("w");
    d.log_error("e");
    assert_eq!(d.get_log().len(), 6);
}

#[test]
fn empty_channel_is_not_disconnection() {
    let mut o = Orchestrator::new();
    assert_eq!(o.absorb(ChannelPoll::Empty), DrainStep::Done);
    assert!(o.data.get_log().is_empty());
    assert!(!o.sensor_lost);
    assert!(o.running);
}

#[test]
fn disconnection_logged_once() {
    let mut o = Orchestrator::new();
    assert_eq!(o.absorb(ChannelPoll::Disconnected), DrainStep::Done);
    assert_eq!(o.absorb(ChannelPoll::Disconnected), DrainStep::Done);
    let log = o.data.get_log();
    assert_eq!(log.len(), 1);
    assert_eq!(log[0].level, LogLevel::Error);
    assert_eq!(log[0].message, "Sensor thread died!");
    assert!(o.sensor_lost);
}

#[test]
fn data_keeps_draining() {
    let mut o = Orchestrator::new();
    assert_eq!(o.absorb(ChannelPoll::Data(SensorOutput::Measurement(point(7, 1)))), DrainStep::More);
    assert_eq!(o.absorb(ChannelPoll::Data(SensorOutput::Error("bad content".to_string()))), DrainStep::More);
    assert_eq!(o.data.total_energy, 7);
    assert_eq!(o.data.get_log()[0].line(), "E: bad content");
}

#[test]
fn input_decisions() {
    let mut o = Orchestrator::new();
    assert_eq!(o.on_input::<char>(Some(InputEvent::Tick)), AppReturn::Continue);
    assert!(o.running);
    assert_eq!(o.on_input(Some(InputEvent::Key('q'))), AppReturn::Exit);
    assert!(!o.running);
    let mut o = Orchestrator::new();
    assert_eq!(o.on_input::<char>(None), AppReturn::Exit);
    assert!(!o.running);
    assert_eq!(handle_key(3u8), AppReturn::Exit);
}
