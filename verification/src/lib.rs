//! The rules of a set of simulated home appliances for the Web of Things.
pub mod action;
pub mod brightness_switch;
pub mod cli;
pub mod clock;
pub mod config_loader;
pub mod door;
pub mod fade_switch;
pub mod fader;
pub mod float_fade_switch;
pub mod fridge;
pub mod hazard;
pub mod ident;
pub mod lamp;
pub mod option_stream;
pub mod oven;
pub mod polled;
pub mod problem;
pub mod sensor;
pub mod simulation;
pub mod sink;
pub mod status_code;
pub mod target_range;
pub mod text;
pub mod toggle_switch;

pub use cli::CliCommon;
pub use option_stream::OptionStream;
pub use simulation::{Simulation, SimulationStream};
