use crate::sensor::{MeasurementPoint, OutputView, Power, SensorOutput};
use vstd::prelude::*;
use vstd::string::*;

verus! {

/// Severity of a log entry, which decides how it is shown.
#[derive(Debug, Clone, Copy, PartialEq, Eq, Structural)]
pub enum LogLevel {
    Info,
    Warning,
    Error,
}

/// One entry of the event log.
#[derive(Debug)]
pub struct LogEntry {
    pub level: LogLevel,
    pub message: String,
}

pub struct EntryView {
    pub level: LogLevel,
    pub message: Seq<char>,
}

impl View for LogEntry {
    type V = EntryView;

    open spec fn view(&self) -> EntryView {
        EntryView { level: self.level, message: self.message@ }
    }
}

impl LogEntry {
    /// The entry as one line of the log: a one-letter severity tag, then the
    /// message.
    pub fn line(&self) -> (r: String)
        ensures
            r@ == level_tag(self.level) + self.message@,
    {
        let tag = match self.level {
            LogLevel::Info => String::from_str("I: "),
            LogLevel::Warning => String::from_str("W: "),
            LogLevel::Error => String::from_str("E: "),
        };
        tag.concat(self.message.as_str())
    }
}

pub open spec fn level_tag(level: LogLevel) -> Seq<char> {
    match level {
        LogLevel::Info => "I: "@,
        LogLevel::Warning => "W: "@,
        LogLevel::Error => "E: "@,
    }
}

/// The state that the display is drawn from: every power sample in order of
/// arrival, the last known cumulative energy, and the event log.
#[derive(Debug, Default)]
pub struct SensorData {
    power_consumption: Vec<Power>,
    /// Total energy used so far, in joules.
    pub total_energy: u64,
    log: Vec<LogEntry>,
}

pub struct DataView {
    pub power: Seq<Power>,
    pub total_energy: u64,
    pub log: Seq<EntryView>,
}

impl View for SensorData {
    type V = DataView;

    closed spec fn view(&self) -> DataView {
        DataView {
            power: self.power_consumption@,
            total_energy: self.total_energy,
            log: self.log@.map_values(|e: LogEntry| e@),
        }
    }
}

impl DataView {
    pub open spec fn log_entry(self, level: LogLevel, message: Seq<char>) -> DataView {
        DataView { log: self.log.push(EntryView { level, message }), ..self }
    }

    /// The model after one output of the acquisition engine.
    pub open spec fn record(self, out: OutputView) -> DataView {
        match out {
            OutputView::Log(m) => self.log_entry(LogLevel::Info, m),
            OutputView::Warn(m) => self.log_entry(LogLevel::Warning, m),
            OutputView::Error(m) => self.log_entry(LogLevel::Error, m),
            OutputView::Measurement(p) => DataView {
                power: self.power.push(p.power),
                total_energy: p.energy_joules,
                log: self.log,
            },
        }
    }

    /// The model after a sequence of outputs, in order.
    pub open spec fn record_all(self, outs: Seq<OutputView>) -> DataView
        decreases outs.len(),
    {
        if outs.len() == 0 {
            self
        } else {
            self.record_all(outs.drop_last()).record(outs.last())
        }
    }
}

/// The last `n` samples of `history` (all of them if there are fewer), each
/// with its position within that window.
pub open spec fn window(history: Seq<Power>, n: nat) -> Seq<(usize, Power)> {
    let k = if n < history.len() { n } else { history.len() };
    Seq::new(k, |i: int| (i as usize, history[history.len() - k + i]))
}

pub open spec fn as_outputs(points: Seq<MeasurementPoint>) -> Seq<OutputView> {
    points.map_values(|p: MeasurementPoint| OutputView::Measurement(p))
}

pub open spec fn powers(points: Seq<MeasurementPoint>) -> Seq<Power> {
    points.map_values(|p: MeasurementPoint| p.power)
}

/// After any non-empty run of measurements, the total energy is that of the
/// last one, and the power history has grown by their powers, in order; the
/// log is untouched.
pub proof fn lemma_measurements_recorded(start: DataView, points: Seq<MeasurementPoint>)
    requires
        points.len() > 0,
    ensures
        start.record_all(as_outputs(points)).total_energy == points.last().energy_joules,
        start.record_all(as_outputs(points)).power == start.power + powers(points),
        start.record_all(as_outputs(points)).power.len() == start.power.len() + points.len(),
        start.record_all(as_outputs(points)).log == start.log,
    decreases points.len(),
{
    let outs = as_outputs(points);
    assert(outs.drop_last() =~= as_outputs(points.drop_last()));
    if points.len() == 1 {
        assert(points.drop_last().len() == 0);
        assert(start.record_all(outs.drop_last()) == start);
        assert(start.power + powers(points) =~= start.power.push(points[0].power));
    } else {
        lemma_measurements_recorded(start, points.drop_last());
        assert(start.power + powers(points) =~= (start.power + powers(points.drop_last())).push(
            points.last().power,
        ));
    }
}

/// A window at least as wide as the history is the whole history, numbered
/// from 0; a narrower one holds exactly its last `n` samples, numbered 0 to
/// `n - 1`.
pub proof fn lemma_window_bounds(history: Seq<Power>, n: nat)
    ensures
        n >= history.len() ==> window(history, n).len() == history.len() && forall|i: int|
            0 <= i < history.len() ==> #[trigger] window(history, n)[i] == (i as usize, history[i]),
        n <= history.len() ==> window(history, n).len() == n && forall|i: int|
            0 <= i < n ==> #[trigger] window(history, n)[i] == (
                i as usize,
                history[history.len() - n + i],
            ),
{
}

impl SensorData {
    pub fn new() -> (r: SensorData)
        ensures
            r@.power.len() == 0,
            r@.total_energy == 0,
            r@.log.len() == 0,
    {
        SensorData { power_consumption: Vec::new(), total_energy: 0, log: Vec::new() }
    }

    /// The last `points` samples, numbered from 0 within the window.
    pub fn get_power_data(&self, points: usize) -> (r: Vec<(usize, Power)>)
        ensures
            r@ == window(self@.power, points as nat),
    {
        let len = self.power_consumption.len();
        let k = if points < len {
            points
        } else {
            len
        };
        let first = len - k;
        let mut r: Vec<(usize, Power)> = Vec::new();
        let mut i: usize = 0;
        while i < k
            invariant
                len == self.power_consumption@.len(),
                k == (if points < len {
                    points
                } else {
                    len
                }),
                first == len - k,
                i <= k,
                r@ =~= window(self.power_consumption@, points as nat).take(i as int),
            decreases k - i,
        {
            let ghost w = window(self.power_consumption@, points as nat);
            let ghost before = r@;
            r.push((i, self.power_consumption[first + i]));
            assert(w[i as int] == (i, self.power_consumption@[first + i]));
            assert(r@ == before.push(w[i as int]));
            i = i + 1;
            assert(r@ =~= w.take(i as int));
        }
        proof {
            assert(r@ =~= window(self@.power, points as nat));
        }
        r
    }

    /// The whole log, oldest entry first.
    pub fn get_log(&self) -> (r: Vec<LogEntry>)
        ensures
            r@.map_values(|e: LogEntry| e@) == self@.log,
    {
        let mut r: Vec<LogEntry> = Vec::new();
        let mut i: usize = 0;
        while i < self.log.len()
            invariant
                i <= self.log@.len(),
                r@.map_values(|e: LogEntry| e@) =~= self.log@.map_values(|e: LogEntry| e@).take(
                    i as int,
                ),
            decreases self.log@.len() - i,
        {
            let e = &self.log[i];
            let copy = LogEntry { level: e.level, message: e.message.clone() };
            let ghost before = r@;
            assert(copy@ == e@);
            r.push(copy);
            assert(r@ == before.push(copy));
            assert(r@.map_values(|e: LogEntry| e@) =~= before.map_values(|e: LogEntry| e@).push(
                copy@,
            ));
            i = i + 1;
            assert(r@.map_values(|e: LogEntry| e@) =~= self.log@.map_values(|e: LogEntry| e@).take(
                i as int,
            ));
        }
        proof {
            assert(self.log@.map_values(|e: LogEntry| e@).take(i as int) =~= self@.log);
        }
        r
    }

    pub fn append_power_data(&mut self, power: Power)
        ensures
            final(self)@ == (DataView { power: old(self)@.power.push(power), ..old(self)@ }),
    {
        self.power_consumption.push(power);
        proof {
            assert(final(self)@.log =~= old(self)@.log);
        }
    }

    fn push_log(&mut self, level: LogLevel, msg: &str)
        ensures
            final(self)@ == old(self)@.log_entry(level, msg@),
    {
        self.log.push(LogEntry { level, message: String::from_str(msg) });
        proof {
            assert(final(self)@.log =~= old(self)@.log.push(EntryView { level, message: msg@ }));
        }
    }

    pub fn log_info(&mut self, msg: &str)
        ensures
            final(self)@ == old(self)@.log_entry(LogLevel::Info, msg@),
    {
        self.push_log(LogLevel::Info, msg)
    }

    pub fn log_warn(&mut self, msg: &str)
        ensures
            final(self)@ == old(self)@.log_entry(LogLevel::Warning, msg@),
    {
        self.push_log(LogLevel::Warning, msg)
    }

    pub fn log_error(&mut self, msg: &str)
        ensures
            final(self)@ == old(self)@.log_entry(LogLevel::Error, msg@),
    {
        self.push_log(LogLevel::Error, msg)
    }

    /// Takes in one output of the acquisition engine: a message goes to the
    /// log with its severity; a measurement extends the power history and
    /// replaces the total energy.
    pub fn handle_sensor_output(&mut self, out: &SensorOutput)
        ensures
            final(self)@ == old(self)@.record(out@),
    {
        match out {
            SensorOutput::Log(msg) => self.log_info(msg.as_str()),
            SensorOutput::Warn(msg) => self.log_warn(msg.as_str()),
            SensorOutput::Error(msg) => self.log_error(msg.as_str()),
            SensorOutput::Measurement(m) => {
                self.append_power_data(m.power);
                self.total_energy = m.energy_joules;
            },
        }
    }
}

} // verus!
