//! The allow/deny list that decides whose fragments a node lets through.

use vstd::prelude::*;
use crate::network::{contains_id, remove_every, without, without_holds_the_others, without_is_idempotent, NodeId};

verus! {

/// How the list of a filter is read.
#[derive(Clone, Copy, Debug, PartialEq, Eq, Structural)]
pub enum FilterType {
    /// Everyone passes but the listed nodes.
    BlackList,
    /// Only the listed nodes pass.
    WhiteList,
}

/// Filters fragments by the node they come from. The default is an empty
/// black list, which lets everything pass.
#[derive(Clone, Debug, PartialEq, Eq)]
pub struct PacketFilter {
    list: Vec<NodeId>,
    filter_type: FilterType,
}

/// The mathematical value of a filter.
pub struct FilterView {
    pub list: Seq<NodeId>,
    pub filter_type: FilterType,
}

impl FilterView {
    /// Whether a packet coming from `id` passes.
    pub open spec fn allows(self, id: NodeId) -> bool {
        match self.filter_type {
            FilterType::BlackList => !self.list.contains(id),
            FilterType::WhiteList => self.list.contains(id),
        }
    }

    /// The filter after `id` was added: a listed id is not listed again.
    pub open spec fn with_id(self, id: NodeId) -> FilterView {
        if self.list.contains(id) {
            self
        } else {
            FilterView { list: self.list.push(id), filter_type: self.filter_type }
        }
    }

    /// The filter after `id` was removed: every occurrence of it leaves the
    /// list, the other entries keep their order.
    pub open spec fn without_id(self, id: NodeId) -> FilterView {
        FilterView { list: without(self.list, id), filter_type: self.filter_type }
    }

    /// The filter with its list emptied.
    pub open spec fn cleared(self) -> FilterView {
        FilterView { list: Seq::empty(), filter_type: self.filter_type }
    }

    /// The filter with its list replaced.
    pub open spec fn with_list(self, list: Seq<NodeId>) -> FilterView {
        FilterView { list, filter_type: self.filter_type }
    }

    /// The filter with its list read in another way.
    pub open spec fn with_type(self, filter_type: FilterType) -> FilterView {
        FilterView { list: self.list, filter_type }
    }
}

/// A removed id is no longer listed, whatever the list held: a blacklist lets
/// it pass and a whitelist stops it, the other ids are judged as before, and
/// removing it once more changes nothing.
pub proof fn removed_id_is_gone(filter: FilterView, id: NodeId, other: NodeId)
    ensures
        !filter.without_id(id).list.contains(id),
        filter.without_id(id).allows(id) == (filter.filter_type == FilterType::BlackList),
        other != id ==> filter.without_id(id).allows(other) == filter.allows(other),
        filter.without_id(id).without_id(id) == filter.without_id(id),
{
    without_holds_the_others(filter.list, id);
    without_is_idempotent(filter.list, id);
}

/// A whitelist lets every id of its list pass and a blacklist lets none of
/// them pass, whatever the filter held before the list was set.
pub proof fn listed_id_passes_whitelist_only(filter: FilterView, list: Seq<NodeId>, id: NodeId)
    requires
        list.contains(id),
    ensures
        filter.with_list(list).with_type(FilterType::WhiteList).allows(id),
        !filter.with_list(list).with_type(FilterType::BlackList).allows(id),
{
}

/// After a clear, a blacklist lets every id pass and a whitelist none.
pub proof fn cleared_blacklist_allows_all(filter: FilterView, id: NodeId)
    ensures
        filter.cleared().with_type(FilterType::BlackList).allows(id),
        !filter.cleared().with_type(FilterType::WhiteList).allows(id),
{
}


impl View for PacketFilter {
    type V = FilterView;

    closed spec fn view(&self) -> FilterView {
        FilterView { list: self.list@, filter_type: self.filter_type }
    }
}

impl Default for PacketFilter {
    fn default() -> (filter: PacketFilter)
        ensures
            filter@ == (FilterView { list: Seq::empty(), filter_type: FilterType::BlackList }),
    {
        PacketFilter { list: Vec::new(), filter_type: FilterType::BlackList }
    }
}

impl PacketFilter {
    /// Adds a node id to the list, unless it is listed already.
    pub fn add(&mut self, id: NodeId)
        ensures
            final(self)@ == old(self)@.with_id(id),
    {
        if !contains_id(&self.list, id) {
            self.list.push(id);
        }
    }

    /// Removes a node id from the list: every occurrence of it leaves, so a
    /// second removal changes nothing.
    pub fn remove(&mut self, id: NodeId)
        ensures
            final(self)@ == old(self)@.without_id(id),
    {
        remove_every(&mut self.list, id);
    }

    /// Whether a packet coming from `id` passes the filter.
    pub fn is_allowed(&self, id: NodeId) -> (allowed: bool)
        ensures
            allowed == self@.allows(id),
    {
        match self.filter_type {
            FilterType::BlackList => !contains_id(&self.list, id),
            FilterType::WhiteList => contains_id(&self.list, id),
        }
    }

    /// Empties the list; the type stays.
    pub fn clear(&mut self)
        ensures
            final(self)@ == old(self)@.cleared(),
    {
        self.list.clear();
    }

    /// Replaces the list by the one given, entry for entry; the type stays.
    pub fn set(&mut self, list: Vec<NodeId>)
        ensures
            final(self)@ == old(self)@.with_list(list@),
    {
        self.list = list;
    }

    /// Sets how the list is read; the list stays.
    pub fn set_type(&mut self, t: FilterType)
        ensures
            final(self)@ == old(self)@.with_type(t),
    {
        self.filter_type = t;
    }

    /// The listed ids, in the order in which they were added.
    pub fn ids(&self) -> (list: &Vec<NodeId>)
        ensures
            list@ == self@.list,
    {
        &self.list
    }

    /// How the list is read at present.
    pub fn filter_type(&self) -> (t: FilterType)
        ensures
            t == self@.filter_type,
    {
        self.filter_type
    }
}

} // verus!
