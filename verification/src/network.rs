//! Node identifiers and source-routing headers.

use vstd::prelude::*;

verus! {

/// Identifies one participant of the network.
pub type NodeId = u8;

/// An ordered list of hops and a zero-based cursor into it.
#[derive(Clone, Debug, PartialEq, Eq)]
pub struct SourceRoutingHeader {
    pub hop_index: usize,
    pub hops: Vec<NodeId>,
}

/// The mathematical value of a routing header.
pub struct RouteView {
    pub hop_index: nat,
    pub hops: Seq<NodeId>,
}

impl View for SourceRoutingHeader {
    type V = RouteView;

    open spec fn view(&self) -> RouteView {
        RouteView { hop_index: self.hop_index as nat, hops: self.hops@ }
    }
}

impl RouteView {
    /// The cursor points at a hop that has a predecessor: the header of a
    /// packet that some node sent on to another.
    pub open spec fn in_transit(self) -> bool {
        1 <= self.hop_index <= self.hops.len()
    }

    /// The hop just before the cursor.
    pub open spec fn previous_hop(self) -> Option<NodeId> {
        if 1 <= self.hop_index <= self.hops.len() {
            Some(self.hops[self.hop_index as int - 1])
        } else {
            None
        }
    }

    /// The hop under the cursor.
    pub open spec fn current_hop(self) -> Option<NodeId> {
        if self.hop_index < self.hops.len() {
            Some(self.hops[self.hop_index as int])
        } else {
            None
        }
    }

    /// The hop just after the cursor.
    pub open spec fn next_hop(self) -> Option<NodeId> {
        if self.hop_index + 1 < self.hops.len() {
            Some(self.hops[self.hop_index as int + 1])
        } else {
            None
        }
    }

    /// The cursor stands on the final hop.
    pub open spec fn is_last_hop(self) -> bool {
        self.hop_index == self.hops.len() - 1
    }

    /// The same hops with the cursor moved one step forward.
    pub open spec fn advanced(self) -> RouteView {
        RouteView { hop_index: self.hop_index + 1, hops: self.hops }
    }

    /// The hops in opposite order, with the cursor on the second of them.
    pub open spec fn reversed(self) -> RouteView {
        RouteView { hop_index: 1, hops: reversed_hops(self.hops) }
    }
}

/// The sequence read back to front.
pub open spec fn reversed_hops(hops: Seq<NodeId>) -> Seq<NodeId> {
    Seq::new(hops.len(), |i: int| hops[hops.len() - 1 - i])
}

/// `list` without `id`: every occurrence of it leaves, the other entries
/// keep their order.
pub open spec fn without(list: Seq<NodeId>, id: NodeId) -> Seq<NodeId>
    decreases list.len(),
{
    if list.len() == 0 {
        Seq::empty()
    } else {
        let front = without(list.drop_last(), id);
        if list.last() == id {
            front
        } else {
            front.push(list.last())
        }
    }
}

/// What is left after an id was taken out is exactly the other entries: the
/// id itself is gone, and nothing else is.
pub proof fn without_holds_the_others(list: Seq<NodeId>, id: NodeId)
    ensures
        forall|other: NodeId| #[trigger]
            without(list, id).contains(other) <==> (list.contains(other) && other != id),
        !without(list, id).contains(id),
    decreases list.len(),
{
    if list.len() > 0 {
        let front = list.drop_last();
        let rest = without(front, id);
        let last = list.last();
        without_holds_the_others(front, id);
        assert forall|other: NodeId| #[trigger]
            without(list, id).contains(other) <==> (list.contains(other) && other != id) by {
            if list.contains(other) {
                let i = choose|i: int| 0 <= i < list.len() && list[i] == other;
                if i < front.len() {
                    assert(front[i] == other);
                }
            }
            if front.contains(other) {
                let i = choose|i: int| 0 <= i < front.len() && front[i] == other;
                assert(list[i] == other);
            }
            assert(list[list.len() - 1] == last);
            if last != id {
                let grown = rest.push(last);
                if grown.contains(other) {
                    let i = choose|i: int| 0 <= i < grown.len() && grown[i] == other;
                    if i < rest.len() {
                        assert(rest[i] == other);
                    }
                }
                if rest.contains(other) {
                    let i = choose|i: int| 0 <= i < rest.len() && rest[i] == other;
                    assert(grown[i] == other);
                }
                assert(grown[rest.len() as int] == last);
            }
        }
    }
}

/// Taking out an id that the list does not hold changes nothing, so taking
/// an id out twice is the same as taking it out once.
pub proof fn without_is_idempotent(list: Seq<NodeId>, id: NodeId)
    ensures
        !list.contains(id) ==> without(list, id) == list,
        without(without(list, id), id) == without(list, id),
{
    without_leaves_a_list_that_lacks_it(list, id);
    without_holds_the_others(list, id);
    without_leaves_a_list_that_lacks_it(without(list, id), id);
}

/// Taking out an id that the list does not hold changes nothing.
proof fn without_leaves_a_list_that_lacks_it(list: Seq<NodeId>, id: NodeId)
    ensures
        !list.contains(id) ==> without(list, id) == list,
    decreases list.len(),
{
    if list.len() > 0 && !list.contains(id) {
        let front = list.drop_last();
        without_leaves_a_list_that_lacks_it(front, id);
        if front.contains(id) {
            let i = choose|i: int| 0 <= i < front.len() && front[i] == id;
            assert(list[i] == id);
        }
        assert(list[list.len() - 1] == list.last());
        assert(front.push(list.last()) =~= list);
    } else if list.len() == 0 {
        assert(without(list, id) =~= list);
    }
}

/// A list without duplicates stays one when an entry that it lacks is
/// appended.
pub proof fn push_keeps_distinct<T>(list: Seq<T>, item: T)
    requires
        list.no_duplicates(),
        !list.contains(item),
    ensures
        list.push(item).no_duplicates(),
{
    let grown = list.push(item);
    assert forall|i: int, j: int|
        0 <= i < grown.len() && 0 <= j < grown.len() && i != j implies grown[i] != grown[j] by {
        if i < list.len() {
            assert(list[i] == grown[i]);
        }
        if j < list.len() {
            assert(list[j] == grown[j]);
        }
    }
}

/// A list without duplicates stays one when an id is taken out.
pub proof fn without_keeps_distinct(list: Seq<NodeId>, id: NodeId)
    requires
        list.no_duplicates(),
    ensures
        without(list, id).no_duplicates(),
    decreases list.len(),
{
    if list.len() > 0 {
        let front = list.drop_last();
        let last = list.last();
        without_keeps_distinct(front, id);
        if last != id {
            without_holds_the_others(front, id);
            if front.contains(last) {
                let i = choose|i: int| 0 <= i < front.len() && front[i] == last;
                assert(list[i] == list[list.len() - 1]);
            }
            push_keeps_distinct(without(front, id), last);
        }
    }
}

/// Whether `id` occurs in `list`.
pub fn contains_id(list: &Vec<NodeId>, id: NodeId) -> (found: bool)
    ensures
        found == list@.contains(id),
{
    let mut i: usize = 0;
    while i < list.len()
        invariant
            i <= list.len(),
            forall|j: int| 0 <= j < i ==> list@[j] != id,
        decreases list.len() - i,
    {
        if list[i] == id {
            return true;
        }
        i += 1;
    }
    false
}

impl SourceRoutingHeader {
    /// A header without hops, cursor at zero: what a flooded packet carries.
    pub fn empty_route() -> (header: SourceRoutingHeader)
        ensures
            header@ == (RouteView { hop_index: 0, hops: Seq::empty() }),
    {
        SourceRoutingHeader { hop_index: 0, hops: Vec::new() }
    }

    pub fn previous_hop(&self) -> (hop: Option<NodeId>)
        ensures
            hop == self@.previous_hop(),
    {
        if 1 <= self.hop_index && self.hop_index <= self.hops.len() {
            Some(self.hops[self.hop_index - 1])
        } else {
            None
        }
    }

    pub fn current_hop(&self) -> (hop: Option<NodeId>)
        ensures
            hop == self@.current_hop(),
    {
        if self.hop_index < self.hops.len() {
            Some(self.hops[self.hop_index])
        } else {
            None
        }
    }

    pub fn next_hop(&self) -> (hop: Option<NodeId>)
        ensures
            hop == self@.next_hop(),
    {
        if self.hop_index < self.hops.len() && self.hop_index + 1 < self.hops.len() {
            Some(self.hops[self.hop_index + 1])
        } else {
            None
        }
    }

    pub fn is_last_hop(&self) -> (last: bool)
        ensures
            last == self@.is_last_hop(),
    {
        self.hops.len() >= 1 && self.hop_index == self.hops.len() - 1
    }

    /// The header that leads back along the hops already listed.
    pub fn get_reversed(&self) -> (header: SourceRoutingHeader)
        ensures
            header@ == self@.reversed(),
    {
        let hops = reverse_of(&self.hops);
        SourceRoutingHeader { hop_index: 1, hops }
    }
}

/// A copy of `list` without `id`.
pub fn except(list: &Vec<NodeId>, id: NodeId) -> (rest: Vec<NodeId>)
    ensures
        rest@ == without(list@, id),
{
    let mut rest: Vec<NodeId> = Vec::new();
    let mut i: usize = 0;
    while i < list.len()
        invariant
            i <= list.len(),
            rest@ == without(list@.take(i as int), id),
        decreases list.len() - i,
    {
        let entry: NodeId = list[i];
        proof {
            assert(list@.take(i + 1).drop_last() =~= list@.take(i as int));
            assert(list@.take(i + 1).last() == entry);
        }
        if entry != id {
            rest.push(entry);
        }
        i += 1;
    }
    assert(list@.take(list.len() as int) =~= list@);
    rest
}

/// Takes every occurrence of `id` out of `list` and says whether there was
/// one.
pub fn remove_every(list: &mut Vec<NodeId>, id: NodeId) -> (removed: bool)
    ensures
        removed == old(list)@.contains(id),
        final(list)@ == without(old(list)@, id),
{
    let removed: bool = contains_id(list, id);
    let rest = except(list, id);
    *list = rest;
    removed
}

/// A copy of `hops` in opposite order.
pub fn reverse_of(hops: &Vec<NodeId>) -> (rev: Vec<NodeId>)
    ensures
        rev@ == reversed_hops(hops@),
{
    let n: usize = hops.len();
    let mut rev: Vec<NodeId> = Vec::new();
    let mut i: usize = 0;
    while i < n
        invariant
            n == hops.len(),
            i <= n,
            rev.len() == i,
            forall|j: int| 0 <= j < i ==> rev@[j] == hops@[n - 1 - j],
        decreases n - i,
    {
        rev.push(hops[n - 1 - i]);
        i += 1;
    }
    assert(rev@ =~= reversed_hops(hops@));
    rev
}

} // verus!
