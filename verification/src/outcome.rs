//! What a node asks of the program around it after it has looked at a packet
//! or a command.

use vstd::prelude::*;
use crate::network::NodeId;
use crate::packet::{Packet, PacketView};

verus! {

/// A broken promise of the network that a node cannot recover from. The
/// program around the node has to stop it.
#[derive(Clone, Copy, Debug, PartialEq, Eq, Structural)]
pub enum Defect {
    /// The cursor of the header is zero or lies beyond the hops.
    HopIndexOutOfBounds,
    /// The header names no hop after the cursor although the cursor is not
    /// on the last hop.
    NoNextHop,
    /// A failure has to be reported to this node, and no channel leads to it.
    NoReturnChannel(NodeId),
    /// A flood request arrived without a trace of its sender.
    EmptyPathTrace,
}

/// What has to happen after a packet was handled.
#[derive(Clone, Debug, PartialEq, Eq)]
pub enum Outcome {
    /// Nothing leaves the node.
    Silent,
    /// The packet goes on to the next hop of its route.
    Forward { to: NodeId, packet: Packet },
    /// A packet made by this node goes back to the neighbor the handled
    /// packet came from.
    Reply { to: NodeId, packet: Packet },
    /// A copy of the packet goes to each of the listed neighbors.
    Broadcast { targets: Vec<NodeId>, packet: Packet },
    /// The packet goes to the controller, which delivers it.
    Shortcut { packet: Packet },
    /// The node has to stop.
    Fatal(Defect),
}

/// The mathematical value of an outcome.
pub enum OutcomeView {
    Silent,
    Forward { to: NodeId, packet: PacketView },
    Reply { to: NodeId, packet: PacketView },
    Broadcast { targets: Seq<NodeId>, packet: PacketView },
    Shortcut { packet: PacketView },
    Fatal(Defect),
}

impl View for Outcome {
    type V = OutcomeView;

    open spec fn view(&self) -> OutcomeView {
        match self {
            Outcome::Silent => OutcomeView::Silent,
            Outcome::Forward { to, packet } => OutcomeView::Forward { to: *to, packet: packet@ },
            Outcome::Reply { to, packet } => OutcomeView::Reply { to: *to, packet: packet@ },
            Outcome::Broadcast { targets, packet } => OutcomeView::Broadcast {
                targets: targets@,
                packet: packet@,
            },
            Outcome::Shortcut { packet } => OutcomeView::Shortcut { packet: packet@ },
            Outcome::Fatal(defect) => OutcomeView::Fatal(*defect),
        }
    }
}

/// Why a node could not be made.
#[derive(Clone, Copy, Debug, PartialEq, Eq, Structural)]
pub enum ConfigError {
    /// The drop rate is no probability.
    InvalidDropRate(u32),
}

/// What the node does next.
#[derive(Clone, Copy, Debug, PartialEq, Eq, Structural)]
pub enum Step {
    /// Take one command from the command inlet and handle it.
    ServeCommand,
    /// Take one packet from the packet inlet and handle it.
    ServePacket,
    /// Block until a command or a packet arrives.
    Wait,
    /// Stop for good: nothing is accepted or sent any more.
    Stop,
}

/// Where the node stands in its life.
#[derive(Clone, Copy, Debug, PartialEq, Eq, Structural)]
pub enum Phase {
    /// Commands and packets are served, commands first.
    Running,
    /// A crash was ordered: the packets already received are served, and
    /// commands are ignored.
    Draining,
    /// The node has stopped.
    Terminated,
}

/// What became of a command.
#[derive(Clone, Copy, Debug, PartialEq, Eq, Structural)]
pub enum CommandOutcome {
    /// The command changed the node as it asked.
    Applied,
    /// A channel to this neighbor exists already; nothing changed.
    SenderAlreadyKnown(NodeId),
    /// No channel leads to this node; nothing changed.
    SenderUnknown(NodeId),
    /// The drop rate is no probability; nothing changed.
    InvalidDropRate(u32),
}

} // verus!
