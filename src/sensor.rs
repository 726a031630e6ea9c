use crate::decimal::{parse_u64, parse_u64_spec, ParseError};
use vstd::prelude::*;
use vstd::string::*;

verus! {

/// Largest joule count that a microjoule counter held in a `u64` can give.
pub const MAX_JOULES: u64 = 18446744073709;

pub const MICROJOULES_PER_JOULE: u64 = 1000000;

/// Power over one sampling interval, kept exact: `joules` gained during
/// `millis` milliseconds. Negative only when the counter went backwards.
#[derive(Debug, Clone, Copy, PartialEq, Eq, Structural)]
pub struct Power {
    pub joules: i64,
    pub millis: u64,
}

/// One sample of the sensor.
#[derive(Debug, Clone, Copy, PartialEq, Eq, Structural)]
pub struct MeasurementPoint {
    /// Energy consumed since the counter started, in joules.
    pub energy_joules: u64,
    /// Power drawn over the last sampling interval.
    pub power: Power,
}

/// One unit of output of the acquisition engine.
#[derive(Debug)]
pub enum SensorOutput {
    Log(String),
    Warn(String),
    Error(String),
    Measurement(MeasurementPoint),
}

pub enum OutputView {
    Log(Seq<char>),
    Warn(Seq<char>),
    Error(Seq<char>),
    Measurement(MeasurementPoint),
}

impl View for SensorOutput {
    type V = OutputView;

    open spec fn view(&self) -> OutputView {
        match self {
            SensorOutput::Log(m) => OutputView::Log(m@),
            SensorOutput::Warn(m) => OutputView::Warn(m@),
            SensorOutput::Error(m) => OutputView::Error(m@),
            SensorOutput::Measurement(p) => OutputView::Measurement(*p),
        }
    }
}

/// `s` without one trailing newline, if it has one.
pub open spec fn strip_newline_spec(s: Seq<char>) -> Seq<char> {
    if s.len() > 0 && s.last() == '\n' {
        s.drop_last()
    } else {
        s
    }
}

/// The identifier that the wanted sensor writes in its `name` file.
pub open spec fn target_name() -> Seq<char> {
    seq!['i', '9', '1', '5']
}

pub open spec fn is_target(name: Seq<char>) -> bool {
    strip_newline_spec(name) == target_name()
}

/// Joules that a counter file holding `content` reports, if it holds a number.
pub open spec fn counter_joules(content: Seq<char>) -> Result<int, ParseError> {
    match parse_u64_spec(strip_newline_spec(content)) {
        Ok(v) => Ok(v / MICROJOULES_PER_JOULE as int),
        Err(e) => Err(e),
    }
}

pub open spec fn parse_error_text(e: ParseError) -> Seq<char> {
    match e {
        ParseError::Empty => "cannot parse integer from empty string"@,
        ParseError::InvalidDigit => "invalid digit found in string"@,
        ParseError::PosOverflow => "number too large to fit in target type"@,
    }
}

pub open spec fn parse_failure_message(content: Seq<char>, e: ParseError) -> Seq<char> {
    "Failed to parse i915 energy sensor file (content: \""@ + content + "\"): "@
        + parse_error_text(e)
}

/// Removes one trailing newline.
pub fn strip_newline(s: &str) -> (r: &str)
    ensures
        r@ == strip_newline_spec(s@),
{
    let n = s.unicode_len();
    if n > 0 && s.get_char(n - 1) == '\n' {
        s.substring_char(0, n - 1)
    } else {
        s
    }
}

/// Whether the content of a `name` file identifies the wanted sensor.
pub fn name_matches(name: &str) -> (r: bool)
    ensures
        r == is_target(name@),
{
    let t = strip_newline(name);
    if t.unicode_len() != 4 {
        return false;
    }
    let r = t.get_char(0) == 'i' && t.get_char(1) == '9' && t.get_char(2) == '1' && t.get_char(3)
        == '5';
    proof {
        if r {
            assert(t@ =~= target_name());
        }
    }
    r
}

/// Path of the energy counter file inside a sensor directory.
pub fn counter_path(dir: &str) -> (r: String)
    ensures
        r@ == dir@ + "/energy1_input"@,
{
    String::from_str(dir).concat("/energy1_input")
}

fn parse_error_message(e: ParseError) -> (r: String)
    ensures
        r@ == parse_error_text(e),
{
    match e {
        ParseError::Empty => String::from_str("cannot parse integer from empty string"),
        ParseError::InvalidDigit => String::from_str("invalid digit found in string"),
        ParseError::PosOverflow => String::from_str("number too large to fit in target type"),
    }
}

/// Reads the energy counter from the content of its file: a microjoule count,
/// with or without a trailing newline, turned into whole joules. On failure
/// the message quotes the content as it was read.
pub fn read_counter(content: &str) -> (r: Result<u64, String>)
    ensures
        match counter_joules(content@) {
            Ok(j) => r matches Ok(v) && v == j,
            Err(e) => r matches Err(m) && m@ == parse_failure_message(content@, e),
        },
{
    match parse_u64(strip_newline(content)) {
        Ok(v) => Ok(v / MICROJOULES_PER_JOULE),
        Err(e) => {
            let m = String::from_str("Failed to parse i915 energy sensor file (content: \"").concat(
                content,
            ).concat("\"): ").concat(parse_error_message(e).as_str());
            Err(m)
        },
    }
}

pub open spec fn power_spec(last_joules: u64, joules: u64, interval_ms: u64) -> Power {
    Power { joules: (joules - last_joules) as i64, millis: interval_ms }
}

/// The sample for a counter that went from `last_joules` to `joules` over
/// `interval_ms` milliseconds.
pub fn measure(last_joules: u64, joules: u64, interval_ms: u64) -> (r: MeasurementPoint)
    requires
        last_joules <= MAX_JOULES,
        joules <= MAX_JOULES,
    ensures
        r.energy_joules == joules,
        r.power.joules == joules - last_joules,
        r.power.millis == interval_ms,
{
    MeasurementPoint {
        energy_joules: joules,
        power: Power { joules: joules as i64 - last_joules as i64, millis: interval_ms },
    }
}

/// Where the acquisition engine stands.
#[derive(Debug, Clone, Copy, PartialEq, Eq, Structural)]
pub enum Phase {
    /// Not started.
    Idle,
    /// Going through the candidate sensor directories.
    Discover,
    /// The sensor was found; its counter file is being opened.
    Opening,
    /// The counter is open; the first reading is the baseline.
    Baseline,
    /// Sampling; the last reading, in joules.
    Sampling { last_joules: u64 },
    /// Stopped for good.
    Stopped,
}

/// What the driver of the engine does next.
#[derive(Debug, Clone, Copy, PartialEq, Eq, Structural)]
pub enum EngineAction {
    /// List the hardware-monitor root directory.
    ListRoot,
    /// Report the next candidate directory, or that there is none left.
    NextCandidate,
    /// Open the counter file of the directory just reported.
    OpenCounter,
    /// Seek the counter file to its start and read it whole.
    ReadCounter,
    /// Sleep one sampling interval, then read the counter.
    SleepThenRead,
    /// Stop: the engine produces nothing more.
    Stop,
}

/// What happened outside the engine since its last step.
#[derive(Debug)]
pub enum EngineInput {
    Start,
    /// The hardware-monitor root could not be listed.
    RootUnreadable(String),
    /// A candidate directory and the content of its `name` file.
    Candidate { path: String, name: String },
    /// The `name` file of a candidate could not be read.
    NameUnreadable(String),
    /// A directory entry could not be accessed.
    EntryUnreadable(String),
    /// No candidate is left.
    Exhausted,
    OpenFailed(String),
    Opened,
    /// Seeking the counter file did not land at offset 0.
    SeekFailed,
    ReadFailed(String),
    /// The content of the counter file.
    Content(String),
}

pub enum InputView {
    Start,
    RootUnreadable(Seq<char>),
    Candidate { path: Seq<char>, name: Seq<char> },
    NameUnreadable(Seq<char>),
    EntryUnreadable(Seq<char>),
    Exhausted,
    OpenFailed(Seq<char>),
    Opened,
    SeekFailed,
    ReadFailed(Seq<char>),
    Content(Seq<char>),
}

impl View for EngineInput {
    type V = InputView;

    open spec fn view(&self) -> InputView {
        match self {
            EngineInput::Start => InputView::Start,
            EngineInput::RootUnreadable(e) => InputView::RootUnreadable(e@),
            EngineInput::Candidate { path, name } => InputView::Candidate {
                path: path@,
                name: name@,
            },
            EngineInput::NameUnreadable(e) => InputView::NameUnreadable(e@),
            EngineInput::EntryUnreadable(e) => InputView::EntryUnreadable(e@),
            EngineInput::Exhausted => InputView::Exhausted,
            EngineInput::OpenFailed(e) => InputView::OpenFailed(e@),
            EngineInput::Opened => InputView::Opened,
            EngineInput::SeekFailed => InputView::SeekFailed,
            EngineInput::ReadFailed(e) => InputView::ReadFailed(e@),
            EngineInput::Content(c) => InputView::Content(c@),
        }
    }
}

/// What one step of the engine hands to its driver: at most one output to
/// send, and the next action.
#[derive(Debug)]
pub struct Step {
    pub output: Option<SensorOutput>,
    pub action: EngineAction,
}

pub struct StepView {
    pub phase: Phase,
    pub output: Option<OutputView>,
    pub action: EngineAction,
}

pub open spec fn output_view(o: Option<SensorOutput>) -> Option<OutputView> {
    match o {
        Some(x) => Some(x@),
        None => None,
    }
}

pub open spec fn found_message(path: Seq<char>) -> Seq<char> {
    "Found i915 energy sensor at \""@ + path + "\""@
}

pub open spec fn mismatch_message(path: Seq<char>) -> Seq<char> {
    "Not the i915 sensor: \""@ + path + "\""@
}

pub open spec fn goto(phase: Phase, output: Option<OutputView>, action: EngineAction) -> StepView {
    StepView { phase, output, action }
}

pub open spec fn stop_with(output: Option<OutputView>) -> StepView {
    goto(Phase::Stopped, output, EngineAction::Stop)
}

/// The whole behaviour of the engine: from its phase, its sampling interval
/// and an input, the next phase, the output and the action. An input that
/// does not fit the phase stops the engine silently.
pub open spec fn transition(phase: Phase, interval_ms: u64, input: InputView) -> StepView {
    match (phase, input) {
        (Phase::Idle, InputView::Start) => goto(
            Phase::Discover,
            Some(OutputView::Log("Looking for i915 sensor hwmon directory"@)),
            EngineAction::ListRoot,
        ),
        (Phase::Discover, InputView::RootUnreadable(e)) => stop_with(
            Some(OutputView::Error("Failed to open \"/sys/class/hwmon\": "@ + e)),
        ),
        (Phase::Discover, InputView::Candidate { path, name }) => if is_target(name) {
            goto(Phase::Opening, Some(OutputView::Log(found_message(path))), EngineAction::OpenCounter)
        } else {
            goto(
                Phase::Discover,
                Some(OutputView::Warn(mismatch_message(path))),
                EngineAction::NextCandidate,
            )
        },
        (Phase::Discover, InputView::NameUnreadable(e)) => goto(
            Phase::Discover,
            Some(OutputView::Warn("Failed to read 'name' file in hwmon subdirectory: "@ + e)),
            EngineAction::NextCandidate,
        ),
        (Phase::Discover, InputView::EntryUnreadable(e)) => goto(
            Phase::Discover,
            Some(OutputView::Warn("Failed to access hwmon subdirectory: "@ + e)),
            EngineAction::NextCandidate,
        ),
        (Phase::Discover, InputView::Exhausted) => stop_with(
            Some(OutputView::Error("Failed to find i915 sensor!"@)),
        ),
        (Phase::Opening, InputView::OpenFailed(e)) => stop_with(
            Some(OutputView::Error("Failed to open i915 energy sensor file: "@ + e)),
        ),
        (Phase::Opening, InputView::Opened) => goto(Phase::Baseline, None, EngineAction::ReadCounter),
        (Phase::Baseline, InputView::SeekFailed) | (Phase::Sampling { .. }, InputView::SeekFailed) =>
            stop_with(Some(OutputView::Error("Failed to seek to 0 in i915 energy sensor file"@))),
        (Phase::Baseline, InputView::ReadFailed(e)) | (Phase::Sampling { .. }, InputView::ReadFailed(e)) =>
            stop_with(Some(OutputView::Error("Failed to read i915 energy sensor file: "@ + e))),
        (Phase::Baseline, InputView::Content(c)) => match counter_joules(c) {
            Ok(j) => goto(Phase::Sampling { last_joules: j as u64 }, None, EngineAction::SleepThenRead),
            Err(e) => stop_with(Some(OutputView::Error(parse_failure_message(c, e)))),
        },
        (Phase::Sampling { last_joules }, InputView::Content(c)) => match counter_joules(c) {
            Ok(j) => goto(
                Phase::Sampling { last_joules: j as u64 },
                Some(
                    OutputView::Measurement(
                        MeasurementPoint {
                            energy_joules: j as u64,
                            power: power_spec(last_joules, j as u64, interval_ms),
                        },
                    ),
                ),
                EngineAction::SleepThenRead,
            ),
            Err(e) => stop_with(Some(OutputView::Error(parse_failure_message(c, e)))),
        },
        _ => stop_with(None),
    }
}

/// The sensor acquisition engine, without its I/O: a driver feeds it what
/// happened, sends the output it returns, and performs the action.
pub struct Engine {
    pub phase: Phase,
    /// Sampling interval, in milliseconds.
    pub interval_ms: u64,
}

impl Engine {
    pub open spec fn wf(&self) -> bool {
        self.phase matches Phase::Sampling { last_joules } ==> last_joules <= MAX_JOULES
    }

    pub fn new(interval_ms: u64) -> (r: Engine)
        ensures
            r.wf(),
            r.phase == Phase::Idle,
            r.interval_ms == interval_ms,
    {
        Engine { phase: Phase::Idle, interval_ms }
    }

    /// Whether the engine has stopped for good.
    pub fn is_stopped(&self) -> (r: bool)
        ensures
            r == (self.phase == Phase::Stopped),
    {
        self.phase == Phase::Stopped
    }

    pub fn step(&mut self, input: EngineInput) -> (r: Step)
        requires
            old(self).wf(),
        ensures
            final(self).wf(),
            final(self).interval_ms == old(self).interval_ms,
            transition(old(self).phase, old(self).interval_ms, input@) == (StepView {
                phase: final(self).phase,
                output: output_view(r.output),
                action: r.action,
            }),
    {
        let ghost input_view = input@;
        let (phase, output, action) = match (self.phase, input) {
            (Phase::Idle, EngineInput::Start) => (
                Phase::Discover,
                Some(
                    SensorOutput::Log(String::from_str("Looking for i915 sensor hwmon directory")),
                ),
                EngineAction::ListRoot,
            ),
            (Phase::Discover, EngineInput::RootUnreadable(e)) => (
                Phase::Stopped,
                Some(
                    SensorOutput::Error(
                        String::from_str("Failed to open \"/sys/class/hwmon\": ").concat(
                            e.as_str(),
                        ),
                    ),
                ),
                EngineAction::Stop,
            ),
            (Phase::Discover, EngineInput::Candidate { path, name }) => {
                if name_matches(name.as_str()) {
                    (
                        Phase::Opening,
                        Some(
                            SensorOutput::Log(
                                String::from_str("Found i915 energy sensor at \"").concat(
                                    path.as_str(),
                                ).concat("\""),
                            ),
                        ),
                        EngineAction::OpenCounter,
                    )
                } else {
                    (
                        Phase::Discover,
                        Some(
                            SensorOutput::Warn(
                                String::from_str("Not the i915 sensor: \"").concat(
                                    path.as_str(),
                                ).concat("\""),
                            ),
                        ),
                        EngineAction::NextCandidate,
                    )
                }
            },
            (Phase::Discover, EngineInput::NameUnreadable(e)) => (
                Phase::Discover,
                Some(
                    SensorOutput::Warn(
                        String::from_str(
                            "Failed to read 'name' file in hwmon subdirectory: ",
                        ).concat(e.as_str()),
                    ),
                ),
                EngineAction::NextCandidate,
            ),
            (Phase::Discover, EngineInput::EntryUnreadable(e)) => (
                Phase::Discover,
                Some(
                    SensorOutput::Warn(
                        String::from_str("Failed to access hwmon subdirectory: ").concat(
                            e.as_str(),
                        ),
                    ),
                ),
                EngineAction::NextCandidate,
            ),
            (Phase::Discover, EngineInput::Exhausted) => (
                Phase::Stopped,
                Some(SensorOutput::Error(String::from_str("Failed to find i915 sensor!"))),
                EngineAction::Stop,
            ),
            (Phase::Opening, EngineInput::OpenFailed(e)) => (
                Phase::Stopped,
                Some(
                    SensorOutput::Error(
                        String::from_str("Failed to open i915 energy sensor file: ").concat(
                            e.as_str(),
                        ),
                    ),
                ),
                EngineAction::Stop,
            ),
            (Phase::Opening, EngineInput::Opened) => (
                Phase::Baseline,
                None,
                EngineAction::ReadCounter,
            ),
            (Phase::Baseline, EngineInput::SeekFailed) | (
                Phase::Sampling { .. },
                EngineInput::SeekFailed,
            ) => (
                Phase::Stopped,
                Some(
                    SensorOutput::Error(
                        String::from_str("Failed to seek to 0 in i915 energy sensor file"),
                    ),
                ),
                EngineAction::Stop,
            ),
            (Phase::Baseline, EngineInput::ReadFailed(e)) | (
                Phase::Sampling { .. },
                EngineInput::ReadFailed(e),
            ) => (
                Phase::Stopped,
                Some(
                    SensorOutput::Error(
                        String::from_str("Failed to read i915 energy sensor file: ").concat(
                            e.as_str(),
                        ),
                    ),
                ),
                EngineAction::Stop,
            ),
            (Phase::Baseline, EngineInput::Content(c)) => match read_counter(c.as_str()) {
                Ok(j) => (
                    Phase::Sampling { last_joules: j },
                    None,
                    EngineAction::SleepThenRead,
                ),
                Err(m) => (Phase::Stopped, Some(SensorOutput::Error(m)), EngineAction::Stop),
            },
            (Phase::Sampling { last_joules }, EngineInput::Content(c)) => match read_counter(
                c.as_str(),
            ) {
                Ok(j) => (
                    Phase::Sampling { last_joules: j },
                    Some(SensorOutput::Measurement(measure(last_joules, j, self.interval_ms))),
                    EngineAction::SleepThenRead,
                ),
                Err(m) => (Phase::Stopped, Some(SensorOutput::Error(m)), EngineAction::Stop),
            },
            _ => (Phase::Stopped, None, EngineAction::Stop),
        };
        self.phase = phase;
        Step { output, action }
    }
}

/// The phase and the outputs after feeding `inputs` to an engine in `phase`,
/// one step per input, in order.
pub open spec fn run(phase: Phase, interval_ms: u64, inputs: Seq<InputView>) -> (
    Phase,
    Seq<Option<OutputView>>,
)
    decreases inputs.len(),
{
    if inputs.len() == 0 {
        (phase, Seq::empty())
    } else {
        let s = transition(phase, interval_ms, inputs[0]);
        let rest = run(s.phase, interval_ms, inputs.skip(1));
        (rest.0, seq![s.output] + rest.1)
    }
}

pub open spec fn is_error(o: Option<OutputView>) -> bool {
    o matches Some(OutputView::Error(_))
}

/// The message of an error output; empty for any other output.
pub open spec fn error_text(o: Option<OutputView>) -> Seq<char> {
    match o {
        Some(OutputView::Error(m)) => m,
        _ => Seq::empty(),
    }
}

/// Whether `part` occurs in `text`.
pub open spec fn contains(text: Seq<char>, part: Seq<char>) -> bool {
    exists|k: int|
        0 <= k && k + part.len() <= text.len() && #[trigger] text.subrange(k, k + part.len())
            == part
}

pub open spec fn is_measurement(o: Option<OutputView>) -> bool {
    o matches Some(OutputView::Measurement(_))
}

/// How many of `outs` are errors.
pub open spec fn error_count(outs: Seq<Option<OutputView>>) -> nat
    decreases outs.len(),
{
    if outs.len() == 0 {
        0
    } else {
        (if is_error(outs[0]) {
            1nat
        } else {
            0nat
        }) + error_count(outs.skip(1))
    }
}

/// A discovery input that does not lead to the sensor: a candidate with
/// another name, or one that could not be read.
pub open spec fn is_miss(input: InputView) -> bool {
    match input {
        InputView::Candidate { name, .. } => !is_target(name),
        InputView::NameUnreadable(_) => true,
        InputView::EntryUnreadable(_) => true,
        _ => false,
    }
}

/// One step per input: the outputs are as many as the inputs.
pub proof fn lemma_run_len(phase: Phase, interval_ms: u64, inputs: Seq<InputView>)
    ensures
        run(phase, interval_ms, inputs).1.len() == inputs.len(),
    decreases inputs.len(),
{
    if inputs.len() > 0 {
        let s = transition(phase, interval_ms, inputs[0]);
        lemma_run_len(s.phase, interval_ms, inputs.skip(1));
    }
}

/// Once stopped, the engine stays stopped and emits nothing, whatever it is fed.
pub proof fn lemma_stopped_stays_silent(interval_ms: u64, inputs: Seq<InputView>)
    ensures
        run(Phase::Stopped, interval_ms, inputs).0 == Phase::Stopped,
        run(Phase::Stopped, interval_ms, inputs).1.len() == inputs.len(),
        forall|k: int|
            0 <= k < inputs.len() ==> run(Phase::Stopped, interval_ms, inputs).1[k] is None,
        error_count(run(Phase::Stopped, interval_ms, inputs).1) == 0,
    decreases inputs.len(),
{
    if inputs.len() > 0 {
        lemma_stopped_stays_silent(interval_ms, inputs.skip(1));
        let outs = run(Phase::Stopped, interval_ms, inputs).1;
        assert(outs.skip(1) =~= run(Phase::Stopped, interval_ms, inputs.skip(1)).1);
    }
}

/// Discovery over candidates none of which is the sensor ends in exactly one
/// error, after which the engine is stopped and never emits a measurement,
/// whatever follows.
pub proof fn lemma_discovery_without_match(
    interval_ms: u64,
    misses: Seq<InputView>,
    rest: Seq<InputView>,
)
    requires
        forall|k: int| 0 <= k < misses.len() ==> is_miss(#[trigger] misses[k]),
    ensures
        ({
            let (phase, outs) = run(
                Phase::Discover,
                interval_ms,
                misses + seq![InputView::Exhausted] + rest,
            );
            &&& phase == Phase::Stopped
            &&& error_count(outs) == 1
            &&& forall|k: int| 0 <= k < outs.len() ==> !is_measurement(#[trigger] outs[k])
        }),
    decreases misses.len(),
{
    let inputs = misses + seq![InputView::Exhausted] + rest;
    let outs = run(Phase::Discover, interval_ms, inputs).1;
    if misses.len() == 0 {
        assert(inputs[0] == InputView::Exhausted);
        assert(inputs.skip(1) =~= rest);
        lemma_stopped_stays_silent(interval_ms, rest);
        assert(outs.skip(1) =~= run(Phase::Stopped, interval_ms, rest).1);
    } else {
        let tail = misses.skip(1);
        assert forall|k: int| 0 <= k < tail.len() implies is_miss(#[trigger] tail[k]) by {
            assert(tail[k] == misses[k + 1]);
        }
        lemma_discovery_without_match(interval_ms, tail, rest);
        assert(inputs[0] == misses[0]);
        assert(inputs.skip(1) =~= tail + seq![InputView::Exhausted] + rest);
        let later = run(Phase::Discover, interval_ms, tail + seq![InputView::Exhausted] + rest).1;
        assert(outs.skip(1) =~= later);
        assert forall|k: int| 0 <= k < outs.len() implies !is_measurement(#[trigger] outs[k]) by {
            if k > 0 {
                assert(outs[k] == later[k - 1]);
            }
        }
    }
}

/// Discovery selects the first candidate whose name is the sensor's: the
/// engine goes on to open its counter, having emitted no error, and its last
/// output names that directory.
pub proof fn lemma_discovery_selects_match(
    interval_ms: u64,
    misses: Seq<InputView>,
    path: Seq<char>,
    name: Seq<char>,
)
    requires
        forall|k: int| 0 <= k < misses.len() ==> is_miss(#[trigger] misses[k]),
        is_target(name),
    ensures
        ({
            let (phase, outs) = run(
                Phase::Discover,
                interval_ms,
                misses.push(InputView::Candidate { path, name }),
            );
            &&& phase == Phase::Opening
            &&& error_count(outs) == 0
            &&& outs.last() == Some(OutputView::Log(found_message(path)))
        }),
    decreases misses.len(),
{
    let inputs = misses.push(InputView::Candidate { path, name });
    let outs = run(Phase::Discover, interval_ms, inputs).1;
    if misses.len() == 0 {
        assert(inputs.skip(1) =~= Seq::<InputView>::empty());
        assert(run(Phase::Opening, interval_ms, inputs.skip(1)).1 =~= Seq::<
            Option<OutputView>,
        >::empty());
        assert(outs.skip(1) =~= Seq::<Option<OutputView>>::empty());
        assert(error_count(outs.skip(1)) == 0);
    } else {
        let tail = misses.skip(1);
        assert forall|k: int| 0 <= k < tail.len() implies is_miss(#[trigger] tail[k]) by {
            assert(tail[k] == misses[k + 1]);
        }
        lemma_discovery_selects_match(interval_ms, tail, path, name);
        assert(inputs[0] == misses[0]);
        assert(inputs.skip(1) =~= tail.push(InputView::Candidate { path, name }));
        let later = run(Phase::Discover, interval_ms, tail.push(InputView::Candidate { path, name })).1;
        lemma_run_len(Phase::Discover, interval_ms, tail.push(InputView::Candidate { path, name }));
        assert(outs.skip(1) =~= later);
        assert(outs.last() == later.last());
    }
}

/// Counter content that is not a number stops a polling engine with exactly
/// one error, whose message holds the content as it was read; nothing is
/// emitted afterwards.
pub proof fn lemma_parse_failure_reported(
    phase: Phase,
    interval_ms: u64,
    content: Seq<char>,
    rest: Seq<InputView>,
)
    requires
        phase == Phase::Baseline || phase is Sampling,
        counter_joules(content) is Err,
    ensures
        ({
            let (after, outs) = run(phase, interval_ms, seq![InputView::Content(content)] + rest);
            &&& after == Phase::Stopped
            &&& error_count(outs) == 1
            &&& is_error(outs[0])
            &&& contains(error_text(outs[0]), content)
            &&& forall|k: int| 1 <= k < outs.len() ==> outs[k] is None
        }),
{
    let inputs = seq![InputView::Content(content)] + rest;
    let outs = run(phase, interval_ms, inputs).1;
    assert(inputs[0] == InputView::Content(content));
    assert(inputs.skip(1) =~= rest);
    lemma_stopped_stays_silent(interval_ms, rest);
    assert(outs.skip(1) =~= run(Phase::Stopped, interval_ms, rest).1);
    let e = counter_joules(content)->Err_0;
    let m = parse_failure_message(content, e);
    let k = "Failed to parse i915 energy sensor file (content: \""@.len() as int;
    assert(m.subrange(k, k + content.len()) =~= content);
    assert(outs[0] == Some(OutputView::Error(m)));
    assert(error_count(outs.skip(1)) == 0);
    assert forall|j: int| 1 <= j < outs.len() implies outs[j] is None by {
        assert(outs[j] == run(Phase::Stopped, interval_ms, rest).1[j - 1]);
    }
}

} // verus!
