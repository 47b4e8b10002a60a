//! What holds of a node whatever it is sent: statements about the handlers,
//! proved from their definitions.

use vstd::prelude::*;
use crate::controller_commands::{DroneCommand, RustableCommand};
use crate::model::{DroneView, NEGATIVE_ZERO_BITS, ONE_BITS};
use crate::network::{
    push_keeps_distinct, without, without_holds_the_others, without_keeps_distinct, NodeId,
    RouteView,
};
use crate::outcome::{OutcomeView, Phase, Step};
use crate::packets_filter::FilterType;
use crate::packet::{
    FloodRequestView, FragmentView, Nack, NackType, PacketTypeView, PacketView,
};

verus! {

/// A packet that a node forwards leaves with its cursor one hop further, on
/// the way to the hop that followed the cursor. Its hops and its session are
/// those it came with, and so is its payload, unless it is a fragment and
/// the node overwrites fragments.
pub proof fn forwarding_advances_the_cursor(node: DroneView, packet: PacketView, roll: bool)
    ensures
        match node.on_packet(packet, roll) {
            OutcomeView::Forward { to, packet: sent } => {
                &&& sent.routing_header.hop_index == packet.routing_header.hop_index + 1
                &&& sent.routing_header.hops == packet.routing_header.hops
                &&& sent.session_id == packet.session_id
                &&& packet.routing_header.next_hop() == Some(to)
                &&& packet.routing_header.current_hop() == Some(node.id)
                &&& node.neighbors.contains(to)
                &&& match packet.pack_type {
                    PacketTypeView::MsgFragment(fragment) => sent.pack_type
                        == PacketTypeView::MsgFragment(
                        if node.settings.quack {
                            fragment.corrupted()
                        } else {
                            fragment
                        },
                    ),
                    _ => sent.pack_type == packet.pack_type,
                }
            },
            _ => true,
        },
{
}

/// The header of a fragment that is neither malformed nor at its last hop,
/// arriving from a neighbor: the fragments for which the trial decides.
pub open spec fn reaches_the_trial(node: DroneView, header: RouteView) -> bool {
    &&& header.in_transit()
    &&& !header.is_last_hop()
    &&& node.neighbors.contains(header.previous_hop().unwrap())
}

/// The nack of type `Dropped` that answers a fragment, on its way back to
/// the sender of the fragment.
pub open spec fn dropped_reply(
    header: RouteView,
    session_id: u64,
    fragment: FragmentView,
) -> OutcomeView {
    OutcomeView::Reply {
        to: header.previous_hop().unwrap(),
        packet: PacketView {
            routing_header: header.reversed().advanced(),
            session_id,
            pack_type: PacketTypeView::Nack(
                Nack { fragment_index: fragment.fragment_index, nack_type: NackType::Dropped },
            ),
        },
    }
}

/// At drop rate zero, of either sign, no draw makes the node drop a
/// fragment: it is handled as one that passed the trial.
pub proof fn a_zero_rate_never_drops(
    node: DroneView,
    header: RouteView,
    session_id: u64,
    fragment: FragmentView,
    drawn: bool,
)
    requires
        node.drop_rate == 0 || node.drop_rate == NEGATIVE_ZERO_BITS,
    ensures
        !node.trial(drawn),
        node.on_fragment(header, session_id, fragment, drawn) == node.on_fragment(
            header,
            session_id,
            fragment,
            false,
        ),
        node.on_fragment(header, session_id, fragment, drawn) == dropped_reply(
            header,
            session_id,
            fragment,
        ) ==> {
            &&& node.settings.filter_packets
            &&& node.settings.send_nack_on_filtered_packet
            &&& !node.filter.allows(header.previous_hop().unwrap())
        },
{
}

/// At drop rate one, every fragment that reaches the trial is dropped,
/// whatever was drawn.
pub proof fn a_full_rate_always_drops(
    node: DroneView,
    header: RouteView,
    session_id: u64,
    fragment: FragmentView,
    drawn: bool,
)
    requires
        node.drop_rate == ONE_BITS,
        reaches_the_trial(node, header),
    ensures
        node.trial(drawn),
        node.on_fragment(header, session_id, fragment, drawn) == dropped_reply(
            header,
            session_id,
            fragment,
        ),
{
}

/// A fragment that the trial drops is answered by a nack of type `Dropped`
/// to its sender, whatever the filter and the settings say of that sender
/// and wherever the header leads.
pub proof fn the_trial_comes_before_the_filter(
    node: DroneView,
    header: RouteView,
    session_id: u64,
    fragment: FragmentView,
    drawn: bool,
)
    requires
        reaches_the_trial(node, header),
        node.trial(drawn),
    ensures
        node.on_fragment(header, session_id, fragment, drawn) == dropped_reply(
            header,
            session_id,
            fragment,
        ),
{
}

/// A fragment that passes the trial and is stopped by the filter leaves no
/// trace, unless the node is set to answer filtered fragments: then it is
/// answered as a dropped one is.
pub proof fn a_filtered_fragment_is_silent(
    node: DroneView,
    header: RouteView,
    session_id: u64,
    fragment: FragmentView,
    drawn: bool,
)
    requires
        reaches_the_trial(node, header),
        !node.trial(drawn),
        node.settings.filter_packets,
        !node.filter.allows(header.previous_hop().unwrap()),
    ensures
        !node.settings.send_nack_on_filtered_packet ==> node.on_fragment(
            header,
            session_id,
            fragment,
            drawn,
        ) == OutcomeView::Silent,
        node.settings.send_nack_on_filtered_packet ==> node.on_fragment(
            header,
            session_id,
            fragment,
            drawn,
        ) == dropped_reply(header, session_id, fragment),
{
}

/// A fragment that the trial lets pass is answered by a nack of type
/// `Dropped` only where the filter stops it and the node is set to answer
/// filtered fragments.
pub proof fn only_the_trial_and_the_filter_drop(
    node: DroneView,
    header: RouteView,
    session_id: u64,
    fragment: FragmentView,
    drawn: bool,
)
    requires
        !node.trial(drawn),
    ensures
        node.on_fragment(header, session_id, fragment, drawn) matches OutcomeView::Reply {
            to,
            packet,
        } && packet.pack_type == PacketTypeView::Nack(
            Nack { fragment_index: fragment.fragment_index, nack_type: NackType::Dropped },
        ) ==> {
            &&& node.settings.filter_packets
            &&& node.settings.send_nack_on_filtered_packet
            &&& !node.filter.allows(header.previous_hop().unwrap())
        },
{
}

/// Of two requests of one flood that reach a node with any number of
/// neighbors but one, the first is passed on to every neighbor but its
/// sender and the second is answered to its sender; the node remembers the
/// flood once.
pub proof fn a_flood_is_passed_on_once(
    node: DroneView,
    first_session: u64,
    first: FloodRequestView,
    second_session: u64,
    second: FloodRequestView,
)
    requires
        node.wf(),
        first.flood_id == second.flood_id,
        !node.flood_ids.contains(first.flood_id),
        node.neighbors.len() != 1,
        first.path_trace.len() > 0,
        second.path_trace.len() > 0,
        node.neighbors.contains(second.path_trace.last().0),
    ensures
        ({
            let between = node.after_flood_request(first);
            let after = between.after_flood_request(second);
            &&& node.on_flood_request(first_session, first) matches OutcomeView::Broadcast {
                targets,
                packet,
            } && packet.pack_type == PacketTypeView::FloodRequest(node.traced(first))
                && packet.session_id == first_session && forall|other: NodeId|
                targets.contains(other) <==> node.neighbors.contains(other) && other
                    != first.path_trace.last().0
            &&& between.on_flood_request(second_session, second) == (OutcomeView::Reply {
                to: second.path_trace.last().0,
                packet: between.flood_response(second_session, second),
            })
            &&& after.flood_ids == node.flood_ids.push(first.flood_id)
            &&& after.flood_ids.len() == node.flood_ids.len() + 1
            &&& after.wf()
        }),
{
    let between = node.after_flood_request(first);
    let sender = first.path_trace.last().0;
    without_holds_the_others(node.neighbors, sender);
    assert(between.flood_ids == node.flood_ids.push(first.flood_id));
    assert(between.flood_ids[node.flood_ids.len() as int] == first.flood_id);
    assert(between.flood_ids.contains(second.flood_id));
    push_keeps_distinct(node.flood_ids, first.flood_id);
}

/// A node with a single neighbor answers a flood request of that neighbor
/// at once, and remembers nothing of it.
pub proof fn a_dead_end_answers_the_flood(
    node: DroneView,
    session_id: u64,
    request: FloodRequestView,
    neighbor: NodeId,
)
    requires
        node.neighbors == seq![neighbor],
        request.path_trace.len() > 0,
        request.path_trace.last().0 == neighbor,
    ensures
        node.on_flood_request(session_id, request) == (OutcomeView::Reply {
            to: neighbor,
            packet: node.flood_response(session_id, request),
        }),
        node.after_flood_request(request) == node,
{
    assert(node.neighbors[0] == neighbor);
}

/// A node never forgets a flood, and a packet changes nothing else: not the
/// neighbors, the settings, the filter, the drop rate or the crash order.
pub proof fn a_packet_only_adds_a_flood(node: DroneView, packet: PacketView)
    ensures
        ({
            let after = node.after_packet(packet);
            &&& after == (DroneView { flood_ids: after.flood_ids, ..node })
            &&& after.flood_ids == node.flood_ids || exists|id: u64|
                after.flood_ids == node.flood_ids.push(id) && !node.flood_ids.contains(id)
        }),
{
    let after = node.after_packet(packet);
    if after.flood_ids != node.flood_ids {
        match packet.pack_type {
            PacketTypeView::FloodRequest(request) => {
                assert(after.flood_ids == node.flood_ids.push(request.flood_id));
            },
            _ => {},
        }
    }
}

/// A command leaves the remembered floods and the id of the node as they
/// are, and only the two commands that open or close a channel change the
/// neighbors.
pub proof fn a_command_keeps_floods_and_channels(node: DroneView, command: RustableCommand)
    ensures
        node.after_command(command).flood_ids == node.flood_ids,
        node.after_command(command).id == node.id,
        !(command matches RustableCommand::DroneCommand(DroneCommand::AddSender(_)))
            && !(command matches RustableCommand::DroneCommand(DroneCommand::RemoveSender(_)))
            ==> node.after_command(command).neighbors == node.neighbors,
{
}

/// Neither a packet nor a command breaks the invariant of a node.
pub proof fn the_invariant_is_kept(node: DroneView, packet: PacketView, command: RustableCommand)
    requires
        node.wf(),
    ensures
        node.after_packet(packet).wf(),
        node.after_command(command).wf(),
{
    match packet.pack_type {
        PacketTypeView::FloodRequest(request) => {
            if !node.flood_ids.contains(request.flood_id) {
                push_keeps_distinct(node.flood_ids, request.flood_id);
            }
        },
        _ => {},
    }
    match command {
        RustableCommand::DroneCommand(DroneCommand::AddSender(id)) => {
            if !node.neighbors.contains(id) {
                push_keeps_distinct(node.neighbors, id);
            }
        },
        RustableCommand::DroneCommand(DroneCommand::RemoveSender(id)) => {
            without_keeps_distinct(node.neighbors, id);
        },
        _ => {},
    }
}

/// After the channel to a neighbor was closed, the neighbor is no neighbor
/// and is not on the filter's list any more, however often it was listed;
/// the other neighbors, the other entries of the list and the way the list
/// is read stay.
pub proof fn a_closed_channel_leaves_table_and_filter(node: DroneView, id: NodeId, other: NodeId)
    requires
        node.neighbors.contains(id),
    ensures
        ({
            let after = node.after_command(
                RustableCommand::DroneCommand(DroneCommand::RemoveSender(id)),
            );
            &&& !after.neighbors.contains(id)
            &&& !after.filter.list.contains(id)
            &&& after.filter.allows(id) == (node.filter.filter_type == FilterType::BlackList)
            &&& after.filter.filter_type == node.filter.filter_type
            &&& other != id ==> after.neighbors.contains(other) == node.neighbors.contains(other)
            &&& other != id ==> after.filter.list.contains(other) == node.filter.list.contains(
                other,
            )
        }),
{
    without_holds_the_others(node.neighbors, id);
    without_holds_the_others(node.filter.list, id);
}

/// No command takes a crash order back.
pub proof fn a_crash_order_stays(node: DroneView, command: RustableCommand)
    requires
        node.crashing,
    ensures
        node.after_command(command).crashing,
{
}

/// None of the packets in `queue`, handled one after the other from `node`
/// on, each with the trial's outcome beside it, shows a defect of the
/// network.
pub open spec fn handled_without_defect(node: DroneView, queue: Seq<(PacketView, bool)>) -> bool
    decreases queue.len(),
{
    queue.len() == 0 || {
        &&& !(node.on_packet(queue[0].0, queue[0].1) is Fatal)
        &&& handled_without_defect(node.after_packet(queue[0].0), queue.drop_first())
    }
}

/// How many packets a node serves from now until it stops, when `queue`
/// waits at its packet inlet and nothing else arrives. A packet that shows a
/// defect of the network is the last one served. The count is taken for a
/// node that has been ordered to crash; `command_ready` says whether
/// commands wait as well.
pub open spec fn served_before_stop(
    node: DroneView,
    queue: Seq<(PacketView, bool)>,
    command_ready: bool,
) -> nat
    decreases queue.len(),
{
    if queue.len() > 0 && node.next_step(command_ready, true) == Step::ServePacket {
        if node.on_packet(queue[0].0, queue[0].1) is Fatal {
            1
        } else {
            1 + served_before_stop(
                node.after_packet(queue[0].0),
                queue.drop_first(),
                command_ready,
            )
        }
    } else {
        0
    }
}

/// After a crash order, a node that awaits its queued packets serves every
/// packet that waits at its inlet and then stops, whether or not commands
/// wait too; a node that does not await them serves none.
pub proof fn a_crash_drains_the_inlet(
    node: DroneView,
    queue: Seq<(PacketView, bool)>,
    command_ready: bool,
)
    requires
        node.settings.await_queued_packets_on_crash ==> handled_without_defect(
            node.after_command(RustableCommand::DroneCommand(DroneCommand::Crash)),
            queue,
        ),
    ensures
        ({
            let crashed = node.after_command(RustableCommand::DroneCommand(DroneCommand::Crash));
            &&& node.settings.await_queued_packets_on_crash ==> served_before_stop(
                crashed,
                queue,
                command_ready,
            ) == queue.len()
            &&& !node.settings.await_queued_packets_on_crash ==> served_before_stop(
                crashed,
                queue,
                command_ready,
            ) == 0
            &&& crashed.next_step(command_ready, false) == Step::Stop
            &&& crashed.phase() == if node.settings.await_queued_packets_on_crash {
                Phase::Draining
            } else {
                Phase::Terminated
            }
        }),
{
    let crashed = node.after_command(RustableCommand::DroneCommand(DroneCommand::Crash));
    if node.settings.await_queued_packets_on_crash {
        draining_serves_all(crashed, queue, command_ready);
    }
}

/// A draining node serves every packet that waits at its inlet.
proof fn draining_serves_all(node: DroneView, queue: Seq<(PacketView, bool)>, command_ready: bool)
    requires
        node.crashing,
        node.settings.await_queued_packets_on_crash,
        handled_without_defect(node, queue),
    ensures
        served_before_stop(node, queue, command_ready) == queue.len(),
    decreases queue.len(),
{
    if queue.len() > 0 {
        a_packet_only_adds_a_flood(node, queue[0].0);
        draining_serves_all(node.after_packet(queue[0].0), queue.drop_first(), command_ready);
    }
}

} // verus!
