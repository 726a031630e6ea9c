use crate::data::{LogLevel, SensorData};
use crate::sensor::SensorOutput;
use vstd::prelude::*;

verus! {

/// Whether the orchestration loop goes on.
#[derive(Debug, Clone, Copy, PartialEq, Eq, Structural)]
pub enum AppReturn {
    Exit,
    Continue,
}

/// What the input poller reports: a key press, carrying the terminal's
/// description of the key, or a tick with no input.
pub enum InputEvent<K> {
    Key(K),
    Tick,
}

/// What one non-blocking read of the acquisition channel found.
#[derive(Debug)]
pub enum ChannelPoll {
    /// An output of the acquisition engine.
    Data(SensorOutput),
    /// Nothing is waiting; the engine is still there.
    Empty,
    /// The engine's end of the channel is gone.
    Disconnected,
}

/// Whether draining the acquisition channel goes on in this cycle.
#[derive(Debug, Clone, Copy, PartialEq, Eq, Structural)]
pub enum DrainStep {
    More,
    Done,
}

/// Every key press ends the program.
pub fn handle_key<K>(_key: K) -> (r: AppReturn)
    ensures
        r == AppReturn::Exit,
{
    AppReturn::Exit
}

pub open spec fn sensor_lost_message() -> Seq<char> {
    "Sensor thread died!"@
}

/// The state of the orchestration loop: the model that the display is drawn
/// from, whether the acquisition engine was found gone, and whether the loop
/// still runs.
pub struct Orchestrator {
    pub data: SensorData,
    pub sensor_lost: bool,
    pub running: bool,
}

impl Orchestrator {
    pub fn new() -> (r: Orchestrator)
        ensures
            r.data@.power.len() == 0,
            r.data@.total_energy == 0,
            r.data@.log.len() == 0,
            !r.sensor_lost,
            r.running,
    {
        Orchestrator { data: SensorData::new(), sensor_lost: false, running: true }
    }

    /// Takes in the result of one non-blocking read of the acquisition
    /// channel. Data is recorded and draining goes on. An empty channel ends
    /// draining for this cycle and changes nothing. A disconnected channel
    /// ends draining too, and is logged as an error the first time only.
    pub fn absorb(&mut self, poll: ChannelPoll) -> (r: DrainStep)
        ensures
            final(self).running == old(self).running,
            match poll {
                ChannelPoll::Data(out) => r == DrainStep::More && final(self).data@ == old(
                    self,
                ).data@.record(out@) && final(self).sensor_lost == old(self).sensor_lost,
                ChannelPoll::Empty => r == DrainStep::Done && final(self).data@ == old(self).data@
                    && final(self).sensor_lost == old(self).sensor_lost,
                ChannelPoll::Disconnected => r == DrainStep::Done && final(self).sensor_lost
                    && final(self).data@ == (if old(self).sensor_lost {
                    old(self).data@
                } else {
                    old(self).data@.log_entry(LogLevel::Error, sensor_lost_message())
                }),
            },
    {
        match poll {
            ChannelPoll::Data(out) => {
                self.data.handle_sensor_output(&out);
                DrainStep::More
            },
            ChannelPoll::Empty => DrainStep::Done,
            ChannelPoll::Disconnected => {
                if !self.sensor_lost {
                    self.data.log_error("Sensor thread died!");
                    self.sensor_lost = true;
                }
                DrainStep::Done
            },
        }
    }

    /// Decides on the result of the bounded wait for input: `None` stands
    /// for a timeout or a closed channel. A key or a missing event ends the
    /// loop; a tick keeps it running.
    pub fn on_input<K>(&mut self, received: Option<InputEvent<K>>) -> (r: AppReturn)
        ensures
            r == (match received {
                Some(InputEvent::Tick) => AppReturn::Continue,
                _ => AppReturn::Exit,
            }),
            final(self).running == (old(self).running && r == AppReturn::Continue),
            final(self).data@ == old(self).data@,
            final(self).sensor_lost == old(self).sensor_lost,
    {
        let r = match received {
            None => AppReturn::Exit,
            Some(InputEvent::Key(key)) => handle_key(key),
            Some(InputEvent::Tick) => AppReturn::Continue,
        };
        if r == AppReturn::Exit {
            self.running = false;
        }
        r
    }
}

} // verus!
