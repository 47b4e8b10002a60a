//! The mathematical model of a node: its state as plain values, and what it
//! does with each packet and each command, as functions of that state.

use vstd::prelude::*;
use crate::controller_commands::{DroneCommand, FilterCommand, RustableCommand, SettingsCommand};
use crate::drone_settings::{DroneSettings, SleepDuration};
use crate::network::{without, NodeId, RouteView};
use crate::outcome::{CommandOutcome, Defect, OutcomeView, Phase, Step};
use crate::packet::{
    return_route, Ack, FloodRequestView, FloodResponseView, FragmentView, Nack, NackType,
    NodeType, PacketTypeView, PacketView,
};
use crate::packets_filter::{FilterType, FilterView};

verus! {

/// The bits of the single-precision number 1.0.
pub const ONE_BITS: u32 = 0x3f80_0000;

/// The bits of the single-precision number -0.0.
pub const NEGATIVE_ZERO_BITS: u32 = 0x8000_0000;

/// Whether `bits`, read as a single-precision IEEE 754 number, is a
/// probability: a number from 0 to 1. The numbers that are not negative are
/// ordered as their bits are, so these are the patterns up to that of 1.0,
/// and that of the negative zero.
pub open spec fn is_probability(bits: u32) -> bool {
    bits <= ONE_BITS || bits == NEGATIVE_ZERO_BITS
}

/// The mathematical value of a node.
pub struct DroneView {
    pub id: NodeId,
    /// The neighbors to which a channel leads, in the order in which the
    /// channels were opened.
    pub neighbors: Seq<NodeId>,
    /// The drop probability, as the bits of a single-precision number.
    pub drop_rate: u32,
    pub settings: DroneSettings,
    pub filter: FilterView,
    /// The floods this node has passed on, oldest first.
    pub flood_ids: Seq<u64>,
    pub crashing: bool,
}

/// The nack that answers a packet with header `header`: it carries the hops
/// in opposite order.
pub open spec fn nack_packet(
    header: RouteView,
    session_id: u64,
    fragment_index: u64,
    nack_type: NackType,
) -> PacketView {
    PacketView {
        routing_header: header.reversed(),
        session_id,
        pack_type: PacketTypeView::Nack(Nack { fragment_index, nack_type }),
    }
}

impl DroneView {
    /// No neighbor and no flood is listed twice, and the drop rate is a
    /// probability.
    pub open spec fn wf(self) -> bool {
        &&& self.neighbors.no_duplicates()
        &&& self.flood_ids.no_duplicates()
        &&& is_probability(self.drop_rate)
    }

    /// A nack sent back to `from` over the channel that leads there, with
    /// the cursor one hop further than in a freshly reversed header.
    pub open spec fn send_nack(
        self,
        from: NodeId,
        header: RouteView,
        session_id: u64,
        fragment_index: u64,
        nack_type: NackType,
    ) -> OutcomeView {
        if self.neighbors.contains(from) {
            OutcomeView::Reply {
                to: from,
                packet: PacketView {
                    routing_header: header.reversed().advanced(),
                    session_id,
                    pack_type: PacketTypeView::Nack(Nack { fragment_index, nack_type }),
                },
            }
        } else {
            OutcomeView::Fatal(Defect::NoReturnChannel(from))
        }
    }

    /// The outcome of the trial where the drop rate settles it without a
    /// draw: a fragment is never dropped at rate zero, of either sign, and
    /// always at rate one.
    pub open spec fn forced_trial(self) -> Option<bool> {
        if self.drop_rate == 0 || self.drop_rate == NEGATIVE_ZERO_BITS {
            Some(false)
        } else if self.drop_rate == ONE_BITS {
            Some(true)
        } else {
            None
        }
    }

    /// Whether the trial drops a fragment, where `drawn` is what the random
    /// generator returned for the node's drop rate: the draw decides only
    /// where the drop rate does not.
    pub open spec fn trial(self, drawn: bool) -> bool {
        match self.forced_trial() {
            Some(forced) => forced,
            None => drawn,
        }
    }

    /// What the node does with a fragment; `drawn` is what the random
    /// generator returned for the node's drop rate. The trial and the filter
    /// come before the next hop is looked for.
    pub open spec fn on_fragment(
        self,
        header: RouteView,
        session_id: u64,
        fragment: FragmentView,
        drawn: bool,
    ) -> OutcomeView {
        if !header.in_transit() {
            OutcomeView::Fatal(Defect::HopIndexOutOfBounds)
        } else {
            let from = header.previous_hop().unwrap();
            let index = fragment.fragment_index;
            if header.is_last_hop() {
                self.send_nack(from, header, session_id, index, NackType::DestinationIsDrone)
            } else if self.trial(drawn) {
                self.send_nack(from, header, session_id, index, NackType::Dropped)
            } else if self.settings.filter_packets && !self.filter.allows(from) {
                if self.settings.send_nack_on_filtered_packet {
                    self.send_nack(from, header, session_id, index, NackType::Dropped)
                } else {
                    OutcomeView::Silent
                }
            } else if header.next_hop() is None {
                OutcomeView::Fatal(Defect::NoNextHop)
            } else {
                let to = header.next_hop().unwrap();
                if !self.neighbors.contains(to) {
                    self.send_nack(from, header, session_id, index, NackType::ErrorInRouting(to))
                } else if header.current_hop() != Some(self.id) {
                    self.send_nack(
                        from,
                        header,
                        session_id,
                        index,
                        NackType::UnexpectedRecipient(self.id),
                    )
                } else {
                    OutcomeView::Forward {
                        to,
                        packet: PacketView {
                            routing_header: header.advanced(),
                            session_id,
                            pack_type: PacketTypeView::MsgFragment(
                                if self.settings.quack {
                                    fragment.corrupted()
                                } else {
                                    fragment
                                },
                            ),
                        },
                    }
                }
            }
        }
    }

    /// A failure of a packet that came from `from`, reported to the
    /// controller. The node still insists on a channel back to `from`.
    pub open spec fn report(
        self,
        from: NodeId,
        header: RouteView,
        session_id: u64,
        fragment_index: u64,
        nack_type: NackType,
    ) -> OutcomeView {
        if self.neighbors.contains(from) {
            OutcomeView::Shortcut {
                packet: nack_packet(header, session_id, fragment_index, nack_type),
            }
        } else {
            OutcomeView::Fatal(Defect::NoReturnChannel(from))
        }
    }

    /// What the node does with a packet that is itself a signal (an ack, a
    /// nack or a flood response) and so never answered by a nack on its own
    /// route. `index` is the fragment index that a report carries, and `last`
    /// says whether the packet counts as standing on its last hop.
    pub open spec fn on_signal(
        self,
        header: RouteView,
        session_id: u64,
        payload: PacketTypeView,
        index: u64,
        last: bool,
    ) -> OutcomeView {
        if !header.in_transit() {
            OutcomeView::Fatal(Defect::HopIndexOutOfBounds)
        } else {
            let from = header.previous_hop().unwrap();
            if last {
                self.report(from, header, session_id, index, NackType::DestinationIsDrone)
            } else if header.next_hop() is None {
                OutcomeView::Fatal(Defect::NoNextHop)
            } else {
                let to = header.next_hop().unwrap();
                if !self.neighbors.contains(to) {
                    self.report(from, header, session_id, index, NackType::ErrorInRouting(to))
                } else if header.current_hop() != Some(self.id) {
                    self.report(
                        from,
                        header,
                        session_id,
                        index,
                        NackType::UnexpectedRecipient(self.id),
                    )
                } else {
                    OutcomeView::Forward {
                        to,
                        packet: PacketView {
                            routing_header: header.advanced(),
                            session_id,
                            pack_type: payload,
                        },
                    }
                }
            }
        }
    }

    /// What the node does with a nack.
    pub open spec fn on_nack(self, header: RouteView, session_id: u64, nack: Nack) -> OutcomeView {
        self.on_signal(
            header,
            session_id,
            PacketTypeView::Nack(nack),
            nack.fragment_index,
            header.is_last_hop(),
        )
    }

    /// What the node does with an ack.
    pub open spec fn on_ack(self, header: RouteView, session_id: u64, ack: Ack) -> OutcomeView {
        self.on_signal(
            header,
            session_id,
            PacketTypeView::Ack(ack),
            ack.fragment_index,
            header.is_last_hop(),
        )
    }

    /// What the node does with a flood response. Such a packet counts as
    /// arrived on its last hop and also when its cursor stands just behind
    /// the hops, and a report on it carries the largest fragment index there
    /// is.
    pub open spec fn on_flood_response(
        self,
        header: RouteView,
        session_id: u64,
        response: FloodResponseView,
    ) -> OutcomeView {
        self.on_signal(
            header,
            session_id,
            PacketTypeView::FloodResponse(response),
            u64::MAX,
            header.is_last_hop() || header.hop_index == header.hops.len(),
        )
    }

    /// The request with this node added to the end of its trace.
    pub open spec fn traced(self, request: FloodRequestView) -> FloodRequestView {
        FloodRequestView {
            flood_id: request.flood_id,
            initiator_id: request.initiator_id,
            path_trace: request.path_trace.push((self.id, NodeType::Drone)),
        }
    }

    /// Whether the node answers a flood request instead of passing it on:
    /// it has passed this flood on before, or it has a single neighbor.
    pub open spec fn answers_flood(self, request: FloodRequestView) -> bool {
        self.flood_ids.contains(request.flood_id) || self.neighbors.len() == 1
    }

    /// The response to a flood request: it carries the trace with this node
    /// at its end, and travels back along that trace.
    pub open spec fn flood_response(self, session_id: u64, request: FloodRequestView) -> PacketView {
        let trace = self.traced(request).path_trace;
        PacketView {
            routing_header: RouteView { hop_index: 1, hops: return_route(trace) },
            session_id,
            pack_type: PacketTypeView::FloodResponse(
                FloodResponseView { flood_id: request.flood_id, path_trace: trace },
            ),
        }
    }

    /// What the node does with a flood request. The sender is the last node
    /// of the trace.
    pub open spec fn on_flood_request(self, session_id: u64, request: FloodRequestView) -> OutcomeView {
        if request.path_trace.len() == 0 {
            OutcomeView::Fatal(Defect::EmptyPathTrace)
        } else {
            let from = request.path_trace.last().0;
            if self.answers_flood(request) {
                if self.neighbors.contains(from) {
                    OutcomeView::Reply { to: from, packet: self.flood_response(session_id, request) }
                } else {
                    OutcomeView::Fatal(Defect::NoReturnChannel(from))
                }
            } else {
                OutcomeView::Broadcast {
                    targets: without(self.neighbors, from),
                    packet: PacketView {
                        routing_header: RouteView { hop_index: 0, hops: Seq::empty() },
                        session_id,
                        pack_type: PacketTypeView::FloodRequest(self.traced(request)),
                    },
                }
            }
        }
    }

    /// The node after a flood request: a flood that it passes on is
    /// remembered, and nothing else changes.
    pub open spec fn after_flood_request(self, request: FloodRequestView) -> DroneView {
        if request.path_trace.len() > 0 && !self.answers_flood(request) {
            DroneView { flood_ids: self.flood_ids.push(request.flood_id), ..self }
        } else {
            self
        }
    }

    /// What the node does with a packet of any kind; `drawn` is looked at
    /// for fragments only.
    pub open spec fn on_packet(self, packet: PacketView, drawn: bool) -> OutcomeView {
        match packet.pack_type {
            PacketTypeView::MsgFragment(fragment) => self.on_fragment(
                packet.routing_header,
                packet.session_id,
                fragment,
                drawn,
            ),
            PacketTypeView::Nack(nack) => self.on_nack(packet.routing_header, packet.session_id, nack),
            PacketTypeView::Ack(ack) => self.on_ack(packet.routing_header, packet.session_id, ack),
            PacketTypeView::FloodRequest(request) => self.on_flood_request(
                packet.session_id,
                request,
            ),
            PacketTypeView::FloodResponse(response) => self.on_flood_response(
                packet.routing_header,
                packet.session_id,
                response,
            ),
        }
    }

    /// The node after a packet of any kind: only a flood request changes it.
    pub open spec fn after_packet(self, packet: PacketView) -> DroneView {
        match packet.pack_type {
            PacketTypeView::FloodRequest(request) => self.after_flood_request(request),
            _ => self,
        }
    }
}

/// The ids of `list` in the order of their first occurrence, each once.
pub open spec fn distinct(list: Seq<NodeId>) -> Seq<NodeId>
    decreases list.len(),
{
    if list.len() == 0 {
        Seq::empty()
    } else {
        let before = distinct(list.drop_last());
        if before.contains(list.last()) {
            before
        } else {
            before.push(list.last())
        }
    }
}

/// The node as it is made: no flood seen, not crashing, default settings and
/// an empty blacklist.
pub open spec fn initial(id: NodeId, neighbors: Seq<NodeId>, drop_rate: u32) -> DroneView {
    DroneView {
        id,
        neighbors: distinct(neighbors),
        drop_rate,
        settings: DroneSettings {
            log_to_stdout: false,
            sleep_duration: SleepDuration { secs: 0, nanos: 0 },
            await_queued_packets_on_crash: true,
            filter_packets: true,
            send_nack_on_filtered_packet: false,
            quack: false,
        },
        filter: FilterView { list: Seq::empty(), filter_type: FilterType::BlackList },
        flood_ids: Seq::empty(),
        crashing: false,
    }
}

impl DroneView {
    /// The settings after a settings command.
    pub open spec fn settings_after(self, command: SettingsCommand) -> DroneSettings {
        match command {
            SettingsCommand::LogToStdout(value) => DroneSettings {
                log_to_stdout: value,
                ..self.settings
            },
            SettingsCommand::SleepDuration(span) => DroneSettings {
                sleep_duration: span,
                ..self.settings
            },
            SettingsCommand::AwaitQueuedPacketsOnCrash(value) => DroneSettings {
                await_queued_packets_on_crash: value,
                ..self.settings
            },
            SettingsCommand::FilterPackets(value) => DroneSettings {
                filter_packets: value,
                ..self.settings
            },
            SettingsCommand::SendNackOnFilteredPackets(value) => DroneSettings {
                send_nack_on_filtered_packet: value,
                ..self.settings
            },
        }
    }

    /// The filter after a filter command.
    pub open spec fn filter_after(self, command: FilterCommand) -> FilterView {
        match command {
            FilterCommand::AddId(id) => self.filter.with_id(id),
            FilterCommand::RemoveId(id) => self.filter.without_id(id),
            FilterCommand::Clear => self.filter.cleared(),
            FilterCommand::SetList(list) => self.filter.with_list(list@),
            FilterCommand::SetType(filter_type) => self.filter.with_type(filter_type),
        }
    }

    /// What becomes of a command that every node understands: a channel is
    /// opened once and closed only where it exists, and a drop rate has to
    /// be a probability.
    pub open spec fn on_drone_command(self, command: DroneCommand) -> CommandOutcome {
        match command {
            DroneCommand::AddSender(id) => {
                if self.neighbors.contains(id) {
                    CommandOutcome::SenderAlreadyKnown(id)
                } else {
                    CommandOutcome::Applied
                }
            },
            DroneCommand::RemoveSender(id) => {
                if self.neighbors.contains(id) {
                    CommandOutcome::Applied
                } else {
                    CommandOutcome::SenderUnknown(id)
                }
            },
            DroneCommand::SetPacketDropRate(bits) => {
                if is_probability(bits) {
                    CommandOutcome::Applied
                } else {
                    CommandOutcome::InvalidDropRate(bits)
                }
            },
            DroneCommand::Crash => CommandOutcome::Applied,
        }
    }

    /// The node after a command that every node understands. A command that
    /// fails changes nothing; a neighbor whose channel is closed also leaves
    /// the filter's list.
    pub open spec fn after_drone_command(self, command: DroneCommand) -> DroneView {
        if self.on_drone_command(command) != CommandOutcome::Applied {
            self
        } else {
            match command {
                DroneCommand::AddSender(id) => DroneView {
                    neighbors: self.neighbors.push(id),
                    ..self
                },
                DroneCommand::RemoveSender(id) => DroneView {
                    neighbors: without(self.neighbors, id),
                    filter: self.filter.without_id(id),
                    ..self
                },
                DroneCommand::SetPacketDropRate(bits) => DroneView { drop_rate: bits, ..self },
                DroneCommand::Crash => DroneView { crashing: true, ..self },
            }
        }
    }

    /// What becomes of a command: settings and filter commands and the
    /// corruption toggle are always applied.
    pub open spec fn on_command(self, command: RustableCommand) -> CommandOutcome {
        match command {
            RustableCommand::DroneCommand(command) => self.on_drone_command(command),
            _ => CommandOutcome::Applied,
        }
    }

    /// The node after a command.
    pub open spec fn after_command(self, command: RustableCommand) -> DroneView {
        match command {
            RustableCommand::DroneCommand(command) => self.after_drone_command(command),
            RustableCommand::SettingCommand(command) => DroneView {
                settings: self.settings_after(command),
                ..self
            },
            RustableCommand::FilterCommand(command) => DroneView {
                filter: self.filter_after(command),
                ..self
            },
            RustableCommand::Quack => DroneView {
                settings: DroneSettings { quack: !self.settings.quack, ..self.settings },
                ..self
            },
        }
    }

    /// Whether the random generator has to be asked for this packet: it has
    /// for a fragment that is on its way and not at its last hop, unless the
    /// drop rate settles the trial.
    pub open spec fn consults_trial(self, packet: PacketView) -> bool {
        &&& packet.pack_type is MsgFragment
        &&& packet.routing_header.in_transit()
        &&& !packet.routing_header.is_last_hop()
        &&& self.forced_trial() is None
    }

    /// How long the node waits before it carries out an outcome: the
    /// configured delay before anything is sent, and no time where nothing
    /// is.
    pub open spec fn delay_before(self, outcome: OutcomeView) -> SleepDuration {
        match outcome {
            OutcomeView::Silent => SleepDuration { secs: 0, nanos: 0 },
            OutcomeView::Fatal(_) => SleepDuration { secs: 0, nanos: 0 },
            _ => self.settings.sleep_duration,
        }
    }

    /// Where the node stands in its life, as far as its state tells: whether
    /// a draining node has stopped depends on its packet inlet.
    pub open spec fn phase(self) -> Phase {
        if !self.crashing {
            Phase::Running
        } else if self.settings.await_queued_packets_on_crash {
            Phase::Draining
        } else {
            Phase::Terminated
        }
    }

    /// What the node does next, given whether a command and whether a
    /// packet is waiting. A running node serves commands before packets; a
    /// draining node serves packets as long as one is waiting.
    pub open spec fn next_step(self, command_ready: bool, packet_ready: bool) -> Step {
        match self.phase() {
            Phase::Running => if command_ready {
                Step::ServeCommand
            } else if packet_ready {
                Step::ServePacket
            } else {
                Step::Wait
            },
            Phase::Draining => if packet_ready {
                Step::ServePacket
            } else {
                Step::Stop
            },
            Phase::Terminated => Step::Stop,
        }
    }
}

} // verus!
