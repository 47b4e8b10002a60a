//! The commands a controller gives to a node.

use vstd::prelude::*;
use crate::drone_settings::SleepDuration;
use crate::network::NodeId;
use crate::packets_filter::FilterType;

verus! {

/// The commands every node of the network understands.
#[derive(Clone, Copy, Debug, PartialEq, Eq, Structural)]
pub enum DroneCommand {
    /// A channel to this neighbor was opened.
    AddSender(NodeId),
    /// The channel to this neighbor was closed.
    RemoveSender(NodeId),
    /// The new drop probability, as the bits of a single-precision number.
    SetPacketDropRate(u32),
    /// Stop working.
    Crash,
}

/// Everything a controller can ask of this node.
#[derive(Clone, Debug, PartialEq, Eq)]
pub enum RustableCommand {
    DroneCommand(DroneCommand),
    SettingCommand(SettingsCommand),
    FilterCommand(FilterCommand),
    /// Switches the corruption of forwarded fragments on or off.
    Quack,
}

/// Changes one of the node's settings.
#[derive(Clone, Copy, Debug, PartialEq, Eq, Structural)]
pub enum SettingsCommand {
    LogToStdout(bool),
    SleepDuration(SleepDuration),
    AwaitQueuedPacketsOnCrash(bool),
    FilterPackets(bool),
    SendNackOnFilteredPackets(bool),
}

/// Changes the node's packet filter.
#[derive(Clone, Debug, PartialEq, Eq)]
pub enum FilterCommand {
    AddId(NodeId),
    RemoveId(NodeId),
    Clear,
    /// Replaces the list by the one given.
    SetList(Vec<NodeId>),
    SetType(FilterType),
}

impl From<DroneCommand> for RustableCommand {
    fn from(cmd: DroneCommand) -> (command: RustableCommand) {
        RustableCommand::DroneCommand(cmd)
    }
}

impl vstd::std_specs::convert::FromSpecImpl<DroneCommand> for RustableCommand {
    open spec fn obeys_from_spec() -> bool {
        true
    }

    open spec fn from_spec(cmd: DroneCommand) -> RustableCommand {
        RustableCommand::DroneCommand(cmd)
    }
}

} // verus!
