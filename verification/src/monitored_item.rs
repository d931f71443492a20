//! Monitored items: the unit of sampling that a subscription owns, and the
//! three bulk operations on the set of items of one subscription.

use crate::seq_facts::{lemma_take_ends, lemma_take_step};
use std::collections::HashMap;
use vstd::prelude::*;

verus! {

broadcast use vstd::std_specs::hash::group_hash_axioms;

/// A binary64 number carried as its bit pattern. The
/// library stores and returns such numbers and never computes with them.
#[derive(Clone, Copy, Debug, PartialEq, Eq, Structural)]
pub struct Binary64 {
    pub bits: u64,
}

impl Binary64 {
    pub fn from_bits(bits: u64) -> (number: Binary64)
        ensures
            number.bits == bits,
    {
        Binary64 { bits }
    }

    pub fn to_bits(&self) -> (bits: u64)
        ensures
            bits == self.bits,
    {
        self.bits
    }
}

/// How far a value has to move before a change is reported.
#[derive(Clone, Copy, Debug, PartialEq, Eq, Structural)]
pub enum DeadbandMode {
    Off,
    Absolute,
    Percent,
}

/// The data-change filter of a monitored item.
#[derive(Clone, Copy, Debug, PartialEq, Eq, Structural)]
pub struct DataChangeFilter {
    pub mode: DeadbandMode,
    pub deadband: Binary64,
}

/// One watched data source with its sampling and reporting settings.
#[derive(Clone, Copy, Debug, PartialEq, Eq, Structural)]
pub struct MonitoredItem {
    /// Identity, unique within the owning subscription.
    pub id: u32,
    /// Opaque correlation id chosen by the client.
    pub client_handle: u32,
    /// Sampling interval in milliseconds.
    pub sampling_interval: Binary64,
    pub queue_size: u32,
    pub discard_oldest: bool,
    pub filter: DataChangeFilter,
}

/// Request to add a monitored item to a subscription.
#[derive(Clone, Copy, Debug, PartialEq, Eq, Structural)]
pub struct CreateMonitoredItem {
    pub id: u32,
    pub client_handle: u32,
    pub sampling_interval: Binary64,
    pub queue_size: u32,
    pub discard_oldest: bool,
    pub filter: DataChangeFilter,
}

/// Request to change the sampling parameters of a monitored item.
#[derive(Clone, Copy, Debug, PartialEq, Eq, Structural)]
pub struct ModifyMonitoredItem {
    pub id: u32,
    pub sampling_interval: Binary64,
    pub queue_size: u32,
}

impl CreateMonitoredItem {
    /// The item that the request describes.
    pub open spec fn item(self) -> MonitoredItem {
        MonitoredItem {
            id: self.id,
            client_handle: self.client_handle,
            sampling_interval: self.sampling_interval,
            queue_size: self.queue_size,
            discard_oldest: self.discard_oldest,
            filter: self.filter,
        }
    }

    pub fn to_item(&self) -> (item: MonitoredItem)
        ensures
            item == self.item(),
    {
        MonitoredItem {
            id: self.id,
            client_handle: self.client_handle,
            sampling_interval: self.sampling_interval,
            queue_size: self.queue_size,
            discard_oldest: self.discard_oldest,
            filter: self.filter,
        }
    }
}

impl ModifyMonitoredItem {
    /// The item with the sampling interval and queue size of the request,
    /// everything else as it was.
    pub open spec fn applied(self, item: MonitoredItem) -> MonitoredItem {
        MonitoredItem {
            sampling_interval: self.sampling_interval,
            queue_size: self.queue_size,
            ..item
        }
    }

    pub fn apply(&self, item: MonitoredItem) -> (changed: MonitoredItem)
        ensures
            changed == self.applied(item),
    {
        MonitoredItem {
            id: item.id,
            client_handle: item.client_handle,
            sampling_interval: self.sampling_interval,
            queue_size: self.queue_size,
            discard_oldest: item.discard_oldest,
            filter: item.filter,
        }
    }
}

/// Every item is stored under its own id.
pub open spec fn keyed_by_id(items: Map<u32, MonitoredItem>) -> bool {
    forall|id: u32| items.contains_key(id) ==> (#[trigger] items[id]).id == id
}

/// The items after the requests were served one after the other: each adds
/// its item under the item's id and replaces an item that was there.
pub open spec fn items_inserted(
    items: Map<u32, MonitoredItem>,
    creates: Seq<CreateMonitoredItem>,
) -> Map<u32, MonitoredItem>
    decreases creates.len(),
{
    if creates.len() == 0 {
        items
    } else {
        items_inserted(items, creates.drop_last()).insert(creates.last().id, creates.last().item())
    }
}

/// The items after the requests were served one after the other: each
/// changes the item of its id and does nothing where there is none.
pub open spec fn items_modified(
    items: Map<u32, MonitoredItem>,
    modifies: Seq<ModifyMonitoredItem>,
) -> Map<u32, MonitoredItem>
    decreases modifies.len(),
{
    if modifies.len() == 0 {
        items
    } else {
        let before = items_modified(items, modifies.drop_last());
        let request = modifies.last();
        if before.contains_key(request.id) {
            before.insert(request.id, request.applied(before[request.id]))
        } else {
            before
        }
    }
}

/// The items whose id is not in the list.
pub open spec fn items_deleted(items: Map<u32, MonitoredItem>, ids: Seq<u32>) -> Map<
    u32,
    MonitoredItem,
> {
    items.remove_keys(ids.to_set())
}

/// Some request of the list asks for an item of this id.
pub open spec fn requests_id(creates: Seq<CreateMonitoredItem>, id: u32) -> bool {
    exists|i: int| 0 <= i < creates.len() && (#[trigger] creates[i]).id == id
}

/// Serving insert requests adds exactly the requested ids and keeps every
/// item under its own id.
pub proof fn lemma_items_inserted(items: Map<u32, MonitoredItem>, creates: Seq<CreateMonitoredItem>)
    ensures
        forall|id: u32|
            #[trigger] items_inserted(items, creates).contains_key(id) <==> items.contains_key(id)
                || requests_id(creates, id),
        keyed_by_id(items) ==> keyed_by_id(items_inserted(items, creates)),
    decreases creates.len(),
{
    if creates.len() > 0 {
        let front = creates.drop_last();
        lemma_items_inserted(items, front);
        assert forall|id: u32|
            #[trigger] items_inserted(items, creates).contains_key(id) <==> items.contains_key(id)
                || requests_id(creates, id) by {
            assert(items_inserted(items, front).contains_key(id) <==> items.contains_key(id)
                || requests_id(front, id));
            if requests_id(creates, id) {
                let i = choose|i: int| 0 <= i < creates.len() && (#[trigger] creates[i]).id == id;
                if i < front.len() {
                    assert(front[i].id == id);
                }
            }
        }
    }
}

/// Serving modify requests neither adds nor removes an item, leaves the
/// items that no request names as they were, and keeps every item under its
/// own id.
pub proof fn lemma_items_modified(items: Map<u32, MonitoredItem>, modifies: Seq<ModifyMonitoredItem>)
    ensures
        items_modified(items, modifies).dom() == items.dom(),
        forall|id: u32|
            items.contains_key(id) && (forall|i: int|
                0 <= i < modifies.len() ==> (#[trigger] modifies[i]).id != id)
                ==> items_modified(items, modifies)[id] == items[id],
        keyed_by_id(items) ==> keyed_by_id(items_modified(items, modifies)),
    decreases modifies.len(),
{
    if modifies.len() > 0 {
        lemma_items_modified(items, modifies.drop_last());
    }
}

/// Adds each requested item under its id, in the order of the requests.
pub fn insert_items(items: &mut HashMap<u32, MonitoredItem>, creates: &[CreateMonitoredItem])
    ensures
        final(items)@ == items_inserted(old(items)@, creates@),
{
    let mut i: usize = 0;
    while i < creates.len()
        invariant
            i <= creates.len(),
            items@ == items_inserted(old(items)@, creates@.take(i as int)),
        decreases creates.len() - i,
    {
        proof {
            lemma_take_step(creates@, i as int);
        }
        items.insert(creates[i].id, creates[i].to_item());
        i += 1;
    }
    proof {
        lemma_take_ends(creates@);
    }
}

/// Changes the sampling parameters of each named item, in the order of the
/// requests, and skips the requests that name no item.
pub fn modify_items(items: &mut HashMap<u32, MonitoredItem>, modifies: &[ModifyMonitoredItem])
    ensures
        final(items)@ == items_modified(old(items)@, modifies@),
{
    let mut i: usize = 0;
    while i < modifies.len()
        invariant
            i <= modifies.len(),
            items@ == items_modified(old(items)@, modifies@.take(i as int)),
        decreases modifies.len() - i,
    {
        proof {
            lemma_take_step(modifies@, i as int);
        }
        let request = modifies[i];
        let found = match items.get(&request.id) {
            Some(item) => Some(*item),
            None => None,
        };
        match found {
            Some(item) => {
                items.insert(request.id, request.apply(item));
            },
            None => {},
        }
        i += 1;
    }
    proof {
        lemma_take_ends(modifies@);
    }
}

/// Removes the items whose id is in the list and skips the ids of no item.
pub fn delete_items(items: &mut HashMap<u32, MonitoredItem>, ids: &[u32])
    ensures
        final(items)@ == items_deleted(old(items)@, ids@),
{
    let mut i: usize = 0;
    while i < ids.len()
        invariant
            i <= ids.len(),
            items@ == items_deleted(old(items)@, ids@.take(i as int)),
        decreases ids.len() - i,
    {
        proof {
            lemma_take_step(ids@, i as int);
        }
        items.remove(&ids[i]);
        i += 1;
    }
    proof {
        lemma_take_ends(ids@);
    }
}

} // verus!
