//! The node itself: its state, and the handlers of packets and commands.

use vstd::prelude::*;
use crate::controller_commands::{DroneCommand, FilterCommand, RustableCommand, SettingsCommand};
use crate::drone_settings::{DroneSettings, SleepDuration};
use crate::model::{
    distinct, initial, is_probability, nack_packet, DroneView, NEGATIVE_ZERO_BITS, ONE_BITS,
};
use crate::network::{
    contains_id, except, push_keeps_distinct, remove_every, without_keeps_distinct, NodeId,
    SourceRoutingHeader,
};
use crate::outcome::{CommandOutcome, ConfigError, Defect, Outcome, OutcomeView, Phase, Step};
use crate::packet::{
    return_route_of, Ack, FloodRequest, FloodResponse, Fragment, Nack, NackType, NodeType,
    Packet, PacketType,
};
use crate::packets_filter::PacketFilter;

verus! {

/// Whether `bits` is the pattern of a probability.
pub fn is_valid_drop_rate(bits: u32) -> (valid: bool)
    ensures
        valid == is_probability(bits),
{
    bits <= ONE_BITS || bits == NEGATIVE_ZERO_BITS
}

/// One node of the network.
#[derive(Clone, Debug)]
pub struct RustableDrone {
    id: NodeId,
    neighbors: Vec<NodeId>,
    drop_rate: u32,
    pub settings: DroneSettings,
    pub filter: PacketFilter,
    flood_ids: Vec<u64>,
    has_to_crash: bool,
}

impl View for RustableDrone {
    type V = DroneView;

    closed spec fn view(&self) -> DroneView {
        DroneView {
            id: self.id,
            neighbors: self.neighbors@,
            drop_rate: self.drop_rate,
            settings: self.settings,
            filter: self.filter@,
            flood_ids: self.flood_ids@,
            crashing: self.has_to_crash,
        }
    }
}

/// Whether `id` occurs in `list`.
pub fn contains_flood(list: &Vec<u64>, id: u64) -> (found: bool)
    ensures
        found == list@.contains(id),
{
    let mut i: usize = 0;
    while i < list.len()
        invariant
            i <= list.len(),
            forall|j: int| 0 <= j < i ==> list@[j] != id,
        decreases list.len() - i,
    {
        if list[i] == id {
            return true;
        }
        i += 1;
    }
    false
}

impl RustableDrone {
    /// The invariant of a node.
    pub open spec fn wf(&self) -> bool {
        self@.wf()
    }

    /// Makes a node with the given id, channels to the given neighbors (an
    /// id named twice counts once) and drop rate, which is given as the bits
    /// of a single-precision number and has to be a probability.
    pub fn new(id: NodeId, neighbors: Vec<NodeId>, pdr: u32) -> (made: Result<RustableDrone, ConfigError>)
        ensures
            is_probability(pdr) ==> made is Ok && made->Ok_0@ == initial(id, neighbors@, pdr)
                && made->Ok_0.wf(),
            !is_probability(pdr) ==> made == Err::<RustableDrone, ConfigError>(
                ConfigError::InvalidDropRate(pdr),
            ),
    {
        if !is_valid_drop_rate(pdr) {
            return Err(ConfigError::InvalidDropRate(pdr));
        }
        let mut table: Vec<NodeId> = Vec::new();
        let mut i: usize = 0;
        while i < neighbors.len()
            invariant
                i <= neighbors.len(),
                table@ == distinct(neighbors@.take(i as int)),
                table@.no_duplicates(),
            decreases neighbors.len() - i,
        {
            let neighbor: NodeId = neighbors[i];
            proof {
                assert(neighbors@.take(i + 1).drop_last() =~= neighbors@.take(i as int));
                assert(neighbors@.take(i + 1).last() == neighbor);
            }
            if !contains_id(&table, neighbor) {
                proof {
                    push_keeps_distinct(table@, neighbor);
                }
                table.push(neighbor);
            }
            i += 1;
        }
        assert(neighbors@.take(neighbors.len() as int) =~= neighbors@);
        Ok(
            RustableDrone {
                id,
                neighbors: table,
                drop_rate: pdr,
                settings: DroneSettings::default(),
                filter: PacketFilter::default(),
                flood_ids: Vec::new(),
                has_to_crash: false,
            },
        )
    }

    /// The id of this node.
    pub fn id(&self) -> (id: NodeId)
        ensures
            id == self@.id,
    {
        self.id
    }

    /// The neighbors to which a channel leads.
    pub fn neighbors(&self) -> (neighbors: &Vec<NodeId>)
        ensures
            neighbors@ == self@.neighbors,
    {
        &self.neighbors
    }

    /// The drop probability, as the bits of a single-precision number.
    pub fn drop_rate(&self) -> (bits: u32)
        ensures
            bits == self@.drop_rate,
    {
        self.drop_rate
    }

    /// The floods this node has passed on, oldest first.
    pub fn flood_ids(&self) -> (ids: &Vec<u64>)
        ensures
            ids@ == self@.flood_ids,
    {
        &self.flood_ids
    }

    /// The rules the node follows at present.
    pub fn settings(&self) -> (settings: &DroneSettings)
        ensures
            *settings == self@.settings,
    {
        &self.settings
    }

    /// The filter the node applies at present.
    pub fn filter(&self) -> (filter: &PacketFilter)
        ensures
            filter@ == self@.filter,
    {
        &self.filter
    }

    /// The outcome of the trial where the drop rate settles it without a
    /// draw: `Some(false)` at rate zero, of either sign, `Some(true)` at rate
    /// one, and `None` at every rate between.
    pub fn forced_trial(&self) -> (forced: Option<bool>)
        ensures
            forced == self@.forced_trial(),
    {
        if self.drop_rate == 0 || self.drop_rate == NEGATIVE_ZERO_BITS {
            Some(false)
        } else if self.drop_rate == ONE_BITS {
            Some(true)
        } else {
            None
        }
    }

    /// Whether a crash was ordered.
    pub fn has_to_crash(&self) -> (crashing: bool)
        ensures
            crashing == self@.crashing,
    {
        self.has_to_crash
    }

    /// Adds the channel to a neighbor, unless one leads there already.
    pub fn add_channel(&mut self, id: NodeId) -> (outcome: CommandOutcome)
        ensures
            outcome == old(self)@.on_drone_command(DroneCommand::AddSender(id)),
            final(self)@ == old(self)@.after_drone_command(DroneCommand::AddSender(id)),
            old(self).wf() ==> final(self).wf(),
    {
        if contains_id(&self.neighbors, id) {
            return CommandOutcome::SenderAlreadyKnown(id);
        }
        proof {
            if self.neighbors@.no_duplicates() {
                push_keeps_distinct(self.neighbors@, id);
            }
        }
        self.neighbors.push(id);
        CommandOutcome::Applied
    }

    /// Removes the channel to a neighbor, and the neighbor from the filter's
    /// list, if such a channel exists.
    pub fn remove_channel(&mut self, id: NodeId) -> (outcome: CommandOutcome)
        ensures
            outcome == old(self)@.on_drone_command(DroneCommand::RemoveSender(id)),
            final(self)@ == old(self)@.after_drone_command(DroneCommand::RemoveSender(id)),
            old(self).wf() ==> final(self).wf(),
    {
        proof {
            if self.neighbors@.no_duplicates() {
                without_keeps_distinct(self.neighbors@, id);
            }
        }
        if !contains_id(&self.neighbors, id) {
            return CommandOutcome::SenderUnknown(id);
        }
        remove_every(&mut self.neighbors, id);
        self.filter.remove(id);
        CommandOutcome::Applied
    }

    /// Handles a command of the controller and says what became of it.
    pub fn command_handler(&mut self, command: RustableCommand) -> (outcome: CommandOutcome)
        ensures
            outcome == old(self)@.on_command(command),
            final(self)@ == old(self)@.after_command(command),
            old(self).wf() ==> final(self).wf(),
    {
        match command {
            RustableCommand::DroneCommand(command) => match command {
                DroneCommand::AddSender(id) => self.add_channel(id),
                DroneCommand::RemoveSender(id) => self.remove_channel(id),
                DroneCommand::SetPacketDropRate(pdr) => {
                    if !is_valid_drop_rate(pdr) {
                        return CommandOutcome::InvalidDropRate(pdr);
                    }
                    self.drop_rate = pdr;
                    CommandOutcome::Applied
                },
                DroneCommand::Crash => {
                    self.has_to_crash = true;
                    CommandOutcome::Applied
                },
            },
            RustableCommand::SettingCommand(command) => {
                match command {
                    SettingsCommand::LogToStdout(value) => {
                        self.settings.log_to_stdout = value;
                    },
                    SettingsCommand::SleepDuration(span) => {
                        self.settings.sleep_duration = span;
                    },
                    SettingsCommand::AwaitQueuedPacketsOnCrash(value) => {
                        self.settings.await_queued_packets_on_crash = value;
                    },
                    SettingsCommand::FilterPackets(value) => {
                        self.settings.filter_packets = value;
                    },
                    SettingsCommand::SendNackOnFilteredPackets(value) => {
                        self.settings.send_nack_on_filtered_packet = value;
                    },
                }
                CommandOutcome::Applied
            },
            RustableCommand::FilterCommand(command) => {
                match command {
                    FilterCommand::AddId(id) => {
                        self.filter.add(id);
                    },
                    FilterCommand::RemoveId(id) => {
                        self.filter.remove(id);
                    },
                    FilterCommand::Clear => {
                        self.filter.clear();
                    },
                    FilterCommand::SetList(list) => {
                        self.filter.set(list);
                    },
                    FilterCommand::SetType(filter_type) => {
                        self.filter.set_type(filter_type);
                    },
                }
                CommandOutcome::Applied
            },
            RustableCommand::Quack => {
                self.settings.quack = !self.settings.quack;
                CommandOutcome::Applied
            },
        }
    }

    /// Whether the random generator has to be asked before this packet is
    /// handled. Where it has not, the handler's answer is the same whatever
    /// is passed as the draw.
    pub fn consults_trial(&self, packet: &Packet) -> (consulted: bool)
        ensures
            consulted == self@.consults_trial(packet@),
            !consulted ==> self@.on_packet(packet@, true) == self@.on_packet(packet@, false),
    {
        match &packet.pack_type {
            PacketType::MsgFragment(_) => {
                let header = &packet.routing_header;
                header.previous_hop().is_some() && !header.is_last_hop()
                    && self.forced_trial().is_none()
            },
            _ => false,
        }
    }

    /// How long to wait before the outcome of a handler is carried out.
    pub fn delay_before(&self, outcome: &Outcome) -> (delay: SleepDuration)
        ensures
            delay == self@.delay_before(outcome@),
    {
        match outcome {
            Outcome::Silent => SleepDuration::zero(),
            Outcome::Fatal(_) => SleepDuration::zero(),
            _ => self.settings.sleep_duration,
        }
    }

    /// Where the node stands in its life, as far as its state tells.
    pub fn phase(&self) -> (phase: Phase)
        ensures
            phase == self@.phase(),
    {
        if !self.has_to_crash {
            Phase::Running
        } else if self.settings.await_queued_packets_on_crash {
            Phase::Draining
        } else {
            Phase::Terminated
        }
    }

    /// Decides what the node does next, given whether a command and whether
    /// a packet is waiting at its inlets.
    pub fn next_step(&self, command_ready: bool, packet_ready: bool) -> (step: Step)
        ensures
            step == self@.next_step(command_ready, packet_ready),
    {
        match self.phase() {
            Phase::Running => if command_ready {
                Step::ServeCommand
            } else if packet_ready {
                Step::ServePacket
            } else {
                Step::Wait
            },
            Phase::Draining => if packet_ready {
                Step::ServePacket
            } else {
                Step::Stop
            },
            Phase::Terminated => Step::Stop,
        }
    }

    /// Builds the nack of the given type for a packet with header `header`
    /// and hands it to the channel that leads back to `from`. Without such a
    /// channel the failure cannot be reported, and the node has to stop.
    pub fn send_nack(
        &self,
        from: NodeId,
        header: &SourceRoutingHeader,
        session_id: u64,
        fragment_index: u64,
        nack_type: NackType,
    ) -> (outcome: Outcome)
        ensures
            outcome@ == self@.send_nack(from, header@, session_id, fragment_index, nack_type),
    {
        if !contains_id(&self.neighbors, from) {
            return Outcome::Fatal(Defect::NoReturnChannel(from));
        }
        let mut rev_header = header.get_reversed();
        rev_header.hop_index += 1;
        Outcome::Reply {
            to: from,
            packet: Packet {
                routing_header: rev_header,
                session_id,
                pack_type: PacketType::Nack(Nack { fragment_index, nack_type }),
            },
        }
    }

    /// Builds the nack of the given type for a packet with header `header`
    /// and hands it to the controller.
    pub fn send_nack_through_controller(
        &self,
        header: &SourceRoutingHeader,
        session_id: u64,
        fragment_index: u64,
        nack_type: NackType,
    ) -> (outcome: Outcome)
        ensures
            outcome@ == (OutcomeView::Shortcut {
                packet: nack_packet(header@, session_id, fragment_index, nack_type),
            }),
    {
        Outcome::Shortcut {
            packet: Packet {
                routing_header: header.get_reversed(),
                session_id,
                pack_type: PacketType::Nack(Nack { fragment_index, nack_type }),
            },
        }
    }

    /// Handles a fragment that arrived with the given header and session.
    /// `roll` is what the random generator returned for the node's drop
    /// rate; at rate zero and at rate one it is not looked at.
    pub fn msg_fragment_handler(
        &self,
        routing_header: SourceRoutingHeader,
        session_id: u64,
        fragment: Fragment,
        roll: bool,
    ) -> (outcome: Outcome)
        ensures
            outcome@ == self@.on_fragment(routing_header@, session_id, fragment@, roll),
    {
        let from: NodeId = match routing_header.previous_hop() {
            Some(from) => from,
            None => {
                return Outcome::Fatal(Defect::HopIndexOutOfBounds);
            },
        };
        let index: u64 = fragment.fragment_index;

        // the route ends here, and a relay is no destination
        if routing_header.is_last_hop() {
            return self.send_nack(
                from,
                &routing_header,
                session_id,
                index,
                NackType::DestinationIsDrone,
            );
        }

        // drop probability
        let dropped: bool = match self.forced_trial() {
            Some(forced) => forced,
            None => roll,
        };
        if dropped {
            return self.send_nack(from, &routing_header, session_id, index, NackType::Dropped);
        }
        // filter
        if self.settings.filter_packets && !self.filter.is_allowed(from) {
            if self.settings.send_nack_on_filtered_packet {
                return self.send_nack(from, &routing_header, session_id, index, NackType::Dropped);
            }
            return Outcome::Silent;
        }
        let to: NodeId = match routing_header.next_hop() {
            Some(to) => to,
            None => {
                return Outcome::Fatal(Defect::NoNextHop);
            },
        };
        // routing error
        if !contains_id(&self.neighbors, to) {
            return self.send_nack(
                from,
                &routing_header,
                session_id,
                index,
                NackType::ErrorInRouting(to),
            );
        }
        // unexpected recipient
        if routing_header.hops[routing_header.hop_index] != self.id {
            return self.send_nack(
                from,
                &routing_header,
                session_id,
                index,
                NackType::UnexpectedRecipient(self.id),
            );
        }
        let mut fragment = fragment;
        if self.settings.quack {
            fragment.corrupt();
        }
        let mut header = routing_header;
        assert(header.hop_index + 1 < header.hops.len());
        header.hop_index += 1;
        Outcome::Forward {
            to,
            packet: Packet {
                routing_header: header,
                session_id,
                pack_type: PacketType::MsgFragment(fragment),
            },
        }
    }
    /// The skeleton that acks, nacks and flood responses share.
    fn relay(
        &self,
        routing_header: SourceRoutingHeader,
        session_id: u64,
        pack_type: PacketType,
        index: u64,
        last: bool,
    ) -> (outcome: Outcome)
        ensures
            outcome@ == self@.on_signal(routing_header@, session_id, pack_type@, index, last),
    {
        let from: NodeId = match routing_header.previous_hop() {
            Some(from) => from,
            None => {
                return Outcome::Fatal(Defect::HopIndexOutOfBounds);
            },
        };
        let known: bool = contains_id(&self.neighbors, from);
        if last {
            if !known {
                return Outcome::Fatal(Defect::NoReturnChannel(from));
            }
            return self.send_nack_through_controller(
                &routing_header,
                session_id,
                index,
                NackType::DestinationIsDrone,
            );
        }
        let to: NodeId = match routing_header.next_hop() {
            Some(to) => to,
            None => {
                return Outcome::Fatal(Defect::NoNextHop);
            },
        };
        // routing error
        if !contains_id(&self.neighbors, to) {
            if !known {
                return Outcome::Fatal(Defect::NoReturnChannel(from));
            }
            return self.send_nack_through_controller(
                &routing_header,
                session_id,
                index,
                NackType::ErrorInRouting(to),
            );
        }
        // unexpected recipient
        if routing_header.hops[routing_header.hop_index] != self.id {
            if !known {
                return Outcome::Fatal(Defect::NoReturnChannel(from));
            }
            return self.send_nack_through_controller(
                &routing_header,
                session_id,
                index,
                NackType::UnexpectedRecipient(self.id),
            );
        }
        let mut header = routing_header;
        assert(header.hop_index + 1 < header.hops.len());
        header.hop_index += 1;
        Outcome::Forward { to, packet: Packet { routing_header: header, session_id, pack_type } }
    }

    /// Handles a nack that arrived with the given header and session.
    pub fn nack_handler(
        &self,
        routing_header: SourceRoutingHeader,
        session_id: u64,
        nack: Nack,
    ) -> (outcome: Outcome)
        ensures
            outcome@ == self@.on_nack(routing_header@, session_id, nack),
    {
        let last: bool = routing_header.is_last_hop();
        self.relay(routing_header, session_id, PacketType::Nack(nack), nack.fragment_index, last)
    }

    /// Handles an ack that arrived with the given header and session.
    pub fn ack_handler(
        &self,
        routing_header: SourceRoutingHeader,
        session_id: u64,
        ack: Ack,
    ) -> (outcome: Outcome)
        ensures
            outcome@ == self@.on_ack(routing_header@, session_id, ack),
    {
        let last: bool = routing_header.is_last_hop();
        self.relay(routing_header, session_id, PacketType::Ack(ack), ack.fragment_index, last)
    }

    /// Handles a flood response that arrived with the given header and
    /// session.
    pub fn flood_res_handler(
        &self,
        routing_header: SourceRoutingHeader,
        session_id: u64,
        response: FloodResponse,
    ) -> (outcome: Outcome)
        ensures
            outcome@ == self@.on_flood_response(routing_header@, session_id, response@),
    {
        let last: bool = routing_header.is_last_hop() || routing_header.hop_index
            == routing_header.hops.len();
        self.relay(routing_header, session_id, PacketType::FloodResponse(response), u64::MAX, last)
    }

    /// Handles a flood request of the given session: answers it where it
    /// cannot or must not travel further, and else remembers the flood and
    /// passes the request on to every neighbor but the sender.
    pub fn flood_req_handler(&mut self, session_id: u64, request: FloodRequest) -> (outcome: Outcome)
        ensures
            outcome@ == old(self)@.on_flood_request(session_id, request@),
            final(self)@ == old(self)@.after_flood_request(request@),
            old(self).wf() ==> final(self).wf(),
    {
        let mut request = request;
        let ghost before = request@;
        if request.path_trace.len() == 0 {
            return Outcome::Fatal(Defect::EmptyPathTrace);
        }
        let from: NodeId = request.path_trace[request.path_trace.len() - 1].0;
        request.path_trace.push((self.id, NodeType::Drone));
        assert(request@ == self@.traced(before));

        if contains_flood(&self.flood_ids, request.flood_id) || self.neighbors.len() == 1 {
            if !contains_id(&self.neighbors, from) {
                return Outcome::Fatal(Defect::NoReturnChannel(from));
            }
            let rev_route = return_route_of(&request.path_trace);
            return Outcome::Reply {
                to: from,
                packet: Packet {
                    routing_header: SourceRoutingHeader { hop_index: 1, hops: rev_route },
                    session_id,
                    pack_type: PacketType::FloodResponse(
                        FloodResponse {
                            flood_id: request.flood_id,
                            path_trace: request.path_trace,
                        },
                    ),
                },
            };
        }
        proof {
            if self.flood_ids@.no_duplicates() {
                push_keeps_distinct(self.flood_ids@, request.flood_id);
            }
        }
        self.flood_ids.push(request.flood_id);
        let targets = except(&self.neighbors, from);
        Outcome::Broadcast {
            targets,
            packet: Packet {
                routing_header: SourceRoutingHeader::empty_route(),
                session_id,
                pack_type: PacketType::FloodRequest(request),
            },
        }
    }

    /// Handles a packet of any kind. `roll` is what the random generator
    /// returned for the node's drop rate; it is looked at for fragments
    /// only, and not at rate zero or one.
    pub fn packet_handler(&mut self, packet: Packet, roll: bool) -> (outcome: Outcome)
        ensures
            outcome@ == old(self)@.on_packet(packet@, roll),
            final(self)@ == old(self)@.after_packet(packet@),
            old(self).wf() ==> final(self).wf(),
    {
        let Packet { routing_header, session_id, pack_type } = packet;
        match pack_type {
            PacketType::Nack(nack) => self.nack_handler(routing_header, session_id, nack),
            PacketType::Ack(ack) => self.ack_handler(routing_header, session_id, ack),
            PacketType::MsgFragment(fragment) => self.msg_fragment_handler(
                routing_header,
                session_id,
                fragment,
                roll,
            ),
            PacketType::FloodRequest(request) => self.flood_req_handler(session_id, request),
            PacketType::FloodResponse(response) => self.flood_res_handler(
                routing_header,
                session_id,
                response,
            ),
        }
    }
}

} // verus!
