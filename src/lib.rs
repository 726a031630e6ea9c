//! Live power monitor for an energy-accounting hardware sensor: the sensor
//! acquisition state machine, the counter parser, the aggregation model that
//! feeds the display, and the decisions of the orchestration loop.


mod control;
mod data;
mod decimal;
mod sensor;


pub use control::{handle_key, AppReturn, ChannelPoll, DrainStep, InputEvent, Orchestrator};
pub use data::{LogEntry, LogLevel, SensorData};
pub use decimal::{parse_u64, ParseError};
pub use sensor::{counter_path, measure, name_matches, read_counter, strip_newline, Engine, EngineAction, EngineInput, MeasurementPoint, Phase, Power, SensorOutput, Step};
