//! The packets that travel between nodes, and their mathematical values.

use vstd::prelude::*;
use crate::network::{NodeId, RouteView, SourceRoutingHeader};

verus! {

/// What kind of participant a node is.
#[derive(Clone, Copy, Debug, PartialEq, Eq, Structural)]
pub enum NodeType {
    Client,
    Drone,
    Server,
}

/// Why a node could not send a packet on.
#[derive(Clone, Copy, Debug, PartialEq, Eq, Structural)]
pub enum NackType {
    /// The next hop is no neighbor of the node.
    ErrorInRouting(NodeId),
    /// The route ends at a node that only relays.
    DestinationIsDrone,
    /// The node dropped the fragment.
    Dropped,
    /// The packet reached a node that the header does not name.
    UnexpectedRecipient(NodeId),
}

/// A negative acknowledgement of one fragment.
#[derive(Clone, Copy, Debug, PartialEq, Eq, Structural)]
pub struct Nack {
    pub fragment_index: u64,
    pub nack_type: NackType,
}

/// A positive acknowledgement of one fragment.
#[derive(Clone, Copy, Debug, PartialEq, Eq, Structural)]
pub struct Ack {
    pub fragment_index: u64,
}

/// One piece of a larger message.
#[derive(Clone, Debug, PartialEq, Eq)]
pub struct Fragment {
    pub fragment_index: u64,
    pub total_n_fragments: u64,
    pub length: u8,
    pub data: Vec<u8>,
}

/// The mathematical value of a fragment.
pub struct FragmentView {
    pub fragment_index: u64,
    pub total_n_fragments: u64,
    pub length: u8,
    pub data: Seq<u8>,
}

impl View for Fragment {
    type V = FragmentView;

    open spec fn view(&self) -> FragmentView {
        FragmentView {
            fragment_index: self.fragment_index,
            total_n_fragments: self.total_n_fragments,
            length: self.length,
            data: self.data@,
        }
    }
}

/// A discovery packet that spreads through the network and records the nodes
/// it visits.
#[derive(Clone, Debug, PartialEq, Eq)]
pub struct FloodRequest {
    pub flood_id: u64,
    pub initiator_id: NodeId,
    pub path_trace: Vec<(NodeId, NodeType)>,
}

/// The mathematical value of a flood request.
pub struct FloodRequestView {
    pub flood_id: u64,
    pub initiator_id: NodeId,
    pub path_trace: Seq<(NodeId, NodeType)>,
}

impl View for FloodRequest {
    type V = FloodRequestView;

    open spec fn view(&self) -> FloodRequestView {
        FloodRequestView {
            flood_id: self.flood_id,
            initiator_id: self.initiator_id,
            path_trace: self.path_trace@,
        }
    }
}

/// The answer to a flood request: the trace gathered on the way.
#[derive(Clone, Debug, PartialEq, Eq)]
pub struct FloodResponse {
    pub flood_id: u64,
    pub path_trace: Vec<(NodeId, NodeType)>,
}

/// The mathematical value of a flood response.
pub struct FloodResponseView {
    pub flood_id: u64,
    pub path_trace: Seq<(NodeId, NodeType)>,
}

impl View for FloodResponse {
    type V = FloodResponseView;

    open spec fn view(&self) -> FloodResponseView {
        FloodResponseView { flood_id: self.flood_id, path_trace: self.path_trace@ }
    }
}

/// The five kinds of payload.
#[derive(Clone, Debug, PartialEq, Eq)]
pub enum PacketType {
    MsgFragment(Fragment),
    Ack(Ack),
    Nack(Nack),
    FloodRequest(FloodRequest),
    FloodResponse(FloodResponse),
}

/// The mathematical value of a payload.
pub enum PacketTypeView {
    MsgFragment(FragmentView),
    Ack(Ack),
    Nack(Nack),
    FloodRequest(FloodRequestView),
    FloodResponse(FloodResponseView),
}

impl View for PacketType {
    type V = PacketTypeView;

    open spec fn view(&self) -> PacketTypeView {
        match self {
            PacketType::MsgFragment(fragment) => PacketTypeView::MsgFragment(fragment@),
            PacketType::Ack(ack) => PacketTypeView::Ack(*ack),
            PacketType::Nack(nack) => PacketTypeView::Nack(*nack),
            PacketType::FloodRequest(request) => PacketTypeView::FloodRequest(request@),
            PacketType::FloodResponse(response) => PacketTypeView::FloodResponse(response@),
        }
    }
}

/// A payload with the route it follows and the session it belongs to.
#[derive(Clone, Debug, PartialEq, Eq)]
pub struct Packet {
    pub routing_header: SourceRoutingHeader,
    pub session_id: u64,
    pub pack_type: PacketType,
}

/// The mathematical value of a packet.
pub struct PacketView {
    pub routing_header: RouteView,
    pub session_id: u64,
    pub pack_type: PacketTypeView,
}

impl View for Packet {
    type V = PacketView;

    open spec fn view(&self) -> PacketView {
        PacketView {
            routing_header: self.routing_header@,
            session_id: self.session_id,
            pack_type: self.pack_type@,
        }
    }
}

/// The node ids of a trace, read back to front: the route that leads from
/// the last node of the trace to its first.
pub open spec fn return_route(trace: Seq<(NodeId, NodeType)>) -> Seq<NodeId> {
    Seq::new(trace.len(), |i: int| trace[trace.len() - 1 - i].0)
}

/// The route that leads back along `trace`.
pub fn return_route_of(trace: &Vec<(NodeId, NodeType)>) -> (route: Vec<NodeId>)
    ensures
        route@ == return_route(trace@),
{
    let n: usize = trace.len();
    let mut route: Vec<NodeId> = Vec::new();
    let mut i: usize = 0;
    while i < n
        invariant
            n == trace.len(),
            i <= n,
            route.len() == i,
            forall|j: int| 0 <= j < i ==> route@[j] == trace@[n - 1 - j].0,
        decreases n - i,
    {
        route.push(trace[n - 1 - i].0);
        i += 1;
    }
    assert(route@ =~= return_route(trace@));
    route
}

/// The length of the marker that a node in corruption mode writes over a
/// fragment's data: the five ASCII letters of "QUACK".
pub const MARKER_LEN: usize = 5;

/// The byte of the marker at position `i`, for `i` below the marker's length.
pub open spec fn marker_byte(i: int) -> u8 {
    if i == 0 {
        0x51
    } else if i == 1 {
        0x55
    } else if i == 2 {
        0x41
    } else if i == 3 {
        0x43
    } else {
        0x4b
    }
}

/// `len` bytes of the marker, repeated from its start.
pub open spec fn marker_fill(len: nat) -> Seq<u8> {
    Seq::new(len, |i: int| marker_byte(i % 5))
}

impl FragmentView {
    /// The fragment with every byte of its data overwritten by the marker.
    pub open spec fn corrupted(self) -> FragmentView {
        FragmentView {
            fragment_index: self.fragment_index,
            total_n_fragments: self.total_n_fragments,
            length: self.length,
            data: marker_fill(self.data.len()),
        }
    }
}

/// The byte of the marker at position `i`.
fn marker_at(i: usize) -> (byte: u8)
    requires
        i < MARKER_LEN,
    ensures
        byte == marker_byte(i as int),
{
    if i == 0 {
        0x51
    } else if i == 1 {
        0x55
    } else if i == 2 {
        0x41
    } else if i == 3 {
        0x43
    } else {
        0x4b
    }
}

impl Fragment {
    /// Overwrites every byte of the data with the repeated marker. The
    /// length of the data and the other fields stay.
    pub fn corrupt(&mut self)
        ensures
            final(self)@ == old(self)@.corrupted(),
    {
        let n: usize = self.data.len();
        let mut i: usize = 0;
        while i < n
            invariant
                i <= n,
                self.data.len() == n,
                n == old(self).data.len(),
                self.fragment_index == old(self).fragment_index,
                self.total_n_fragments == old(self).total_n_fragments,
                self.length == old(self).length,
                forall|j: int| 0 <= j < i ==> self.data@[j] == marker_byte(j % 5),
            decreases n - i,
        {
            let byte: u8 = marker_at(i % MARKER_LEN);
            self.data.set(i, byte);
            i += 1;
        }
        assert(self.data@ =~= marker_fill(n as nat));
    }
}

} // verus!
