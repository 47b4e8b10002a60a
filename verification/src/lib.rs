//! A node of a simulated source-routed packet network, as a verified state
//! machine: every packet and every controller command is turned into the next
//! node state and the action the surrounding program has to perform.

pub mod controller_commands;
pub mod drone;
pub mod drone_settings;
pub mod guarantees;
pub mod model;
pub mod network;
pub mod outcome;
pub mod packet;
pub mod packets_filter;

pub use controller_commands::{DroneCommand, FilterCommand, RustableCommand, SettingsCommand};
pub use drone::RustableDrone;
pub use drone_settings::{DroneSettings, SleepDuration};
pub use model::DroneView;
pub use network::{NodeId, RouteView, SourceRoutingHeader};
pub use outcome::{CommandOutcome, ConfigError, Defect, Outcome, OutcomeView, Phase, Step};
pub use packet::{
    Ack, FloodRequest, FloodResponse, Fragment, Nack, NackType, NodeType, Packet, PacketType,
};
pub use packets_filter::{FilterType, FilterView, PacketFilter};
