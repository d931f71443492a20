//! The subscription registry of one session: a map from subscription id to
//! subscription. The registry stores and forwards; an operation on an id that
//! it does not hold changes nothing and is no error.

use crate::monitored_item::{Binary64, CreateMonitoredItem, ModifyMonitoredItem};
use crate::seq_facts::{lemma_take_ends, lemma_take_step};
use crate::subscription::{
    DataChangeNotification, LifecycleState, PublishAction, Subscription, SubscriptionView,
};
use std::collections::HashMap;
use vstd::prelude::*;
use vstd::std_specs::iter::IteratorSpec;

verus! {

broadcast use vstd::std_specs::hash::group_hash_axioms;

/// The subscriptions of a map as mathematical values.
pub open spec fn views(subscriptions: Map<u32, Subscription>) -> Map<u32, SubscriptionView> {
    subscriptions.map_values(|subscription: Subscription| subscription@)
}

/// The registry holds finitely many subscriptions, each under its own id and
/// each well formed.
pub open spec fn registry_wf(registry: Map<u32, SubscriptionView>) -> bool {
    &&& registry.dom().finite()
    &&& forall|id: u32|
        registry.contains_key(id) ==> (#[trigger] registry[id]).subscription_id == id
            && registry[id].wf()
}

/// The registry after the publishing flag of every listed subscription was
/// set. Ids that the registry does not hold play no part.
pub open spec fn publishing_set(
    registry: Map<u32, SubscriptionView>,
    ids: Seq<u32>,
    publishing_enabled: bool,
) -> Map<u32, SubscriptionView> {
    Map::new(
        |id: u32| registry.contains_key(id),
        |id: u32|
            if ids.contains(id) {
                registry[id].with_publishing(publishing_enabled)
            } else {
                registry[id]
            },
    )
}

/// The registry after one tick of the subscription `id`: the subscription
/// moves on, and leaves the registry if the tick closed it.
pub open spec fn ticked(registry: Map<u32, SubscriptionView>, id: u32, publish_ready: bool) -> Map<
    u32,
    SubscriptionView,
> {
    if !registry.contains_key(id) {
        registry
    } else if registry[id].after_tick(publish_ready).is_closed() {
        registry.remove(id)
    } else {
        registry.insert(id, registry[id].after_tick(publish_ready))
    }
}

/// Among the candidates that the registry holds, the one at position `at`
/// has the highest priority, and is the earliest in the list of those that
/// have it.
pub open spec fn drains_first(
    registry: Map<u32, SubscriptionView>,
    candidates: Seq<u32>,
    at: int,
) -> bool {
    &&& 0 <= at < candidates.len()
    &&& registry.contains_key(candidates[at])
    &&& forall|i: int|
        0 <= i < candidates.len() && registry.contains_key(#[trigger] candidates[i])
            ==> registry[candidates[i]].priority <= registry[candidates[at]].priority
    &&& forall|i: int|
        0 <= i < at && registry.contains_key(#[trigger] candidates[i])
            ==> registry[candidates[i]].priority < registry[candidates[at]].priority
}

/// Holds the live subscription state
pub struct SubscriptionState {
    /// Subscriptions (key = subscription_id)
    subscriptions: HashMap<u32, Subscription>,
}

impl View for SubscriptionState {
    type V = Map<u32, SubscriptionView>;

    closed spec fn view(&self) -> Map<u32, SubscriptionView> {
        views(self.subscriptions@)
    }
}

impl SubscriptionState {
    pub open spec fn wf(&self) -> bool {
        registry_wf(self@)
    }

    /// An empty registry.
    pub fn new() -> (registry: SubscriptionState)
        ensures
            registry@ == Map::<u32, SubscriptionView>::empty(),
            registry.wf(),
    {
        let registry = SubscriptionState { subscriptions: HashMap::new() };
        assert(registry@ =~= Map::<u32, SubscriptionView>::empty());
        registry
    }

    /// Empties the registry and hands its subscriptions to the caller.
    pub fn drain_subscriptions(&mut self) -> (drained: HashMap<u32, Subscription>)
        ensures
            views(drained@) == old(self)@,
            final(self)@ == Map::<u32, SubscriptionView>::empty(),
            final(self).wf(),
    {
        let mut drained: HashMap<u32, Subscription> = HashMap::new();
        core::mem::swap(&mut drained, &mut self.subscriptions);
        drained
    }

    /// The ids of all subscriptions, each once and in no particular order,
    /// or `None` where the registry holds no subscription.
    pub fn subscription_ids(&self) -> (ids: Option<Vec<u32>>)
        ensures
            ids is None <==> self@.dom().is_empty(),
            ids matches Some(ids) ==> ids@.no_duplicates() && ids@.to_set() == self@.dom()
                && ids@.len() == self@.dom().len(),
    {
        if self.subscriptions.is_empty() {
            None
        } else {
            let mut ids: Vec<u32> = Vec::new();
            let keys = self.subscriptions.keys();
            let ghost all = keys.remaining().unref();
            for key in iter: keys
                invariant
                    iter.seq().unref() == all,
                    ids@ == all.take(iter.index()),
            {
                ids.push(*key);
            }
            assert(ids@ =~= all);
            Some(ids)
        }
    }

    /// The number of subscriptions.
    pub fn len(&self) -> (count: usize)
        ensures
            count == self@.len(),
    {
        assert(self@.dom() =~= self.subscriptions@.dom());
        self.subscriptions.len()
    }

    pub fn is_empty(&self) -> (empty: bool)
        ensures
            empty == self@.dom().is_empty(),
    {
        self.subscriptions.is_empty()
    }

    pub fn subscription_exists(&self, subscription_id: u32) -> (exists: bool)
        ensures
            exists == self@.contains_key(subscription_id),
    {
        self.subscriptions.contains_key(&subscription_id)
    }

    /// A read-only view of the subscription, if the registry holds it.
    pub fn get(&self, subscription_id: u32) -> (found: Option<&Subscription>)
        ensures
            match found {
                Some(subscription) => self@.contains_key(subscription_id) && subscription@
                    == self@[subscription_id],
                None => !self@.contains_key(subscription_id),
            },
    {
        self.subscriptions.get(&subscription_id)
    }

    /// Stores the subscription under its own id. A subscription that was
    /// stored under that id is replaced.
    pub fn add_subscription(&mut self, subscription: Subscription)
        requires
            old(self).wf(),
            subscription@.wf(),
        ensures
            final(self).wf(),
            final(self)@ == old(self)@.insert(subscription@.subscription_id, subscription@),
    {
        self.subscriptions.insert(subscription.subscription_id(), subscription);
    }

    /// Changes the five settings of the subscription. The monitored items,
    /// the counters, the queue and the state stay as they are. Does nothing
    /// where the registry does not hold the id.
    pub fn modify_subscription(
        &mut self,
        subscription_id: u32,
        publishing_interval: Binary64,
        lifetime_count: u32,
        max_keep_alive_count: u32,
        max_notifications_per_publish: u32,
        priority: u8,
    )
        requires
            old(self).wf(),
        ensures
            final(self).wf(),
            !old(self)@.contains_key(subscription_id) ==> final(self)@ == old(self)@,
            old(self)@.contains_key(subscription_id) ==> final(self)@ == old(self)@.insert(
                subscription_id,
                old(self)@[subscription_id].modified(
                    publishing_interval,
                    lifetime_count,
                    max_keep_alive_count,
                    max_notifications_per_publish,
                    priority,
                ),
            ),
    {
        match self.subscriptions.remove(&subscription_id) {
            Some(mut subscription) => {
                subscription.set_publishing_interval(publishing_interval);
                subscription.set_lifetime_count(lifetime_count);
                subscription.set_max_keep_alive_count(max_keep_alive_count);
                subscription.set_max_notifications_per_publish(max_notifications_per_publish);
                subscription.set_priority(priority);
                self.subscriptions.insert(subscription_id, subscription);
                assert(self@ =~= old(self)@.insert(
                    subscription_id,
                    old(self)@[subscription_id].modified(
                        publishing_interval,
                        lifetime_count,
                        max_keep_alive_count,
                        max_notifications_per_publish,
                        priority,
                    ),
                ));
            },
            None => {
                assert(self@ =~= old(self)@);
            },
        }
    }

    /// Takes the subscription out of the registry and returns it, or returns
    /// `None` where the registry does not hold the id.
    pub fn delete_subscription(&mut self, subscription_id: u32) -> (removed: Option<Subscription>)
        requires
            old(self).wf(),
        ensures
            final(self).wf(),
            final(self)@ == old(self)@.remove(subscription_id),
            match removed {
                Some(subscription) => old(self)@.contains_key(subscription_id) && subscription@
                    == old(self)@[subscription_id],
                None => !old(self)@.contains_key(subscription_id),
            },
    {
        let removed = self.subscriptions.remove(&subscription_id);
        assert(self@ =~= old(self)@.remove(subscription_id));
        removed
    }

    /// Sets the publishing flag of every listed subscription that the
    /// registry holds and passes over the other ids.
    pub fn set_publishing_mode(&mut self, subscription_ids: &[u32], publishing_enabled: bool)
        requires
            old(self).wf(),
        ensures
            final(self).wf(),
            final(self)@ == publishing_set(old(self)@, subscription_ids@, publishing_enabled),
    {
        let mut i: usize = 0;
        while i < subscription_ids.len()
            invariant
                i <= subscription_ids.len(),
                self.wf(),
                self@ == publishing_set(
                    old(self)@,
                    subscription_ids@.take(i as int),
                    publishing_enabled,
                ),
            decreases subscription_ids.len() - i,
        {
            let subscription_id = subscription_ids[i];
            let ghost before = self@;
            proof {
                lemma_take_step(subscription_ids@, i as int);
            }
            match self.subscriptions.remove(&subscription_id) {
                Some(mut subscription) => {
                    subscription.set_publishing_enabled(publishing_enabled);
                    self.subscriptions.insert(subscription_id, subscription);
                    assert(self@ =~= before.insert(
                        subscription_id,
                        before[subscription_id].with_publishing(publishing_enabled),
                    ));
                },
                None => {
                    assert(self@ =~= before);
                },
            }
            i += 1;
        }
        proof {
            lemma_take_ends(subscription_ids@);
        }
    }

    /// Queues the change records at the subscription, in the order given.
    /// Does nothing where the registry does not hold the id.
    pub fn subscription_data_change(
        &mut self,
        subscription_id: u32,
        data_change_notifications: Vec<DataChangeNotification>,
    )
        requires
            old(self).wf(),
        ensures
            final(self).wf(),
            !old(self)@.contains_key(subscription_id) ==> final(self)@ == old(self)@,
            old(self)@.contains_key(subscription_id) ==> final(self)@ == old(self)@.insert(
                subscription_id,
                old(self)@[subscription_id].with_data(data_change_notifications@),
            ),
    {
        match self.subscriptions.remove(&subscription_id) {
            Some(mut subscription) => {
                subscription.data_change(data_change_notifications);
                self.subscriptions.insert(subscription_id, subscription);
                assert(self@ =~= old(self)@.insert(
                    subscription_id,
                    old(self)@[subscription_id].with_data(data_change_notifications@),
                ));
            },
            None => {
                assert(self@ =~= old(self)@);
            },
        }
    }

    /// Adds the monitored items to the subscription. Does nothing where the
    /// registry does not hold the id.
    pub fn insert_monitored_items(
        &mut self,
        subscription_id: u32,
        items_to_create: &[CreateMonitoredItem],
    )
        requires
            old(self).wf(),
        ensures
            final(self).wf(),
            !old(self)@.contains_key(subscription_id) ==> final(self)@ == old(self)@,
            old(self)@.contains_key(subscription_id) ==> final(self)@ == old(self)@.insert(
                subscription_id,
                old(self)@[subscription_id].with_items_inserted(items_to_create@),
            ),
    {
        match self.subscriptions.remove(&subscription_id) {
            Some(mut subscription) => {
                subscription.insert_monitored_items(items_to_create);
                self.subscriptions.insert(subscription_id, subscription);
                assert(self@ =~= old(self)@.insert(
                    subscription_id,
                    old(self)@[subscription_id].with_items_inserted(items_to_create@),
                ));
            },
            None => {
                assert(self@ =~= old(self)@);
            },
        }
    }

    /// Changes monitored items of the subscription. Does nothing where the
    /// registry does not hold the id.
    pub fn modify_monitored_items(
        &mut self,
        subscription_id: u32,
        items_to_modify: &[ModifyMonitoredItem],
    )
        requires
            old(self).wf(),
        ensures
            final(self).wf(),
            !old(self)@.contains_key(subscription_id) ==> final(self)@ == old(self)@,
            old(self)@.contains_key(subscription_id) ==> final(self)@ == old(self)@.insert(
                subscription_id,
                old(self)@[subscription_id].with_items_modified(items_to_modify@),
            ),
    {
        match self.subscriptions.remove(&subscription_id) {
            Some(mut subscription) => {
                subscription.modify_monitored_items(items_to_modify);
                self.subscriptions.insert(subscription_id, subscription);
                assert(self@ =~= old(self)@.insert(
                    subscription_id,
                    old(self)@[subscription_id].with_items_modified(items_to_modify@),
                ));
            },
            None => {
                assert(self@ =~= old(self)@);
            },
        }
    }

    /// Removes monitored items from the subscription. Does nothing where the
    /// registry does not hold the id.
    pub fn delete_monitored_items(&mut self, subscription_id: u32, items_to_delete: &[u32])
        requires
            old(self).wf(),
        ensures
            final(self).wf(),
            !old(self)@.contains_key(subscription_id) ==> final(self)@ == old(self)@,
            old(self)@.contains_key(subscription_id) ==> final(self)@ == old(self)@.insert(
                subscription_id,
                old(self)@[subscription_id].with_items_deleted(items_to_delete@),
            ),
    {
        match self.subscriptions.remove(&subscription_id) {
            Some(mut subscription) => {
                subscription.delete_monitored_items(items_to_delete);
                self.subscriptions.insert(subscription_id, subscription);
                assert(self@ =~= old(self)@.insert(
                    subscription_id,
                    old(self)@[subscription_id].with_items_deleted(items_to_delete@),
                ));
            },
            None => {
                assert(self@ =~= old(self)@);
            },
        }
    }

    /// Picks, among subscriptions that compete for one publish, the one to
    /// serve first: the position in `candidates` of the subscription with the
    /// highest priority, the earliest of them where several have it. Ids
    /// that the registry does not hold are passed over; `None` where it
    /// holds none of them.
    pub fn first_to_publish(&self, candidates: &[u32]) -> (chosen: Option<usize>)
        ensures
            match chosen {
                Some(at) => drains_first(self@, candidates@, at as int),
                None => forall|i: int|
                    0 <= i < candidates@.len() ==> !self@.contains_key(#[trigger] candidates@[i]),
            },
    {
        let mut chosen: Option<usize> = None;
        let mut highest: u8 = 0;
        let mut i: usize = 0;
        while i < candidates.len()
            invariant
                i <= candidates.len(),
                match chosen {
                    Some(at) => drains_first(self@, candidates@.take(i as int), at as int)
                        && highest == self@[candidates@[at as int]].priority,
                    None => forall|k: int|
                        0 <= k < i ==> !self@.contains_key(#[trigger] candidates@[k]),
                },
            decreases candidates.len() - i,
        {
            match self.subscriptions.get(&candidates[i]) {
                Some(subscription) => {
                    let priority = subscription.priority();
                    match chosen {
                        Some(_) => {
                            if priority > highest {
                                chosen = Some(i);
                                highest = priority;
                            }
                        },
                        None => {
                            chosen = Some(i);
                            highest = priority;
                        },
                    }
                },
                None => {},
            }
            i += 1;
        }
        assert(candidates@.take(candidates.len() as int) =~= candidates@);
        chosen
    }

    /// One tick of the publish timer for the subscription `subscription_id`.
    /// Returns what the tick sends, or `None` where the registry does not
    /// hold the id. A subscription that the tick closed leaves the registry.
    pub fn tick_subscription(
        &mut self,
        subscription_id: u32,
        publish_ready: bool,
    ) -> (action: Option<PublishAction>)
        requires
            old(self).wf(),
        ensures
            final(self).wf(),
            final(self)@ == ticked(old(self)@, subscription_id, publish_ready),
            match action {
                Some(action) => old(self)@.contains_key(subscription_id)
                    && action@ == old(self)@[subscription_id].tick_action(publish_ready),
                None => !old(self)@.contains_key(subscription_id),
            },
    {
        match self.subscriptions.remove(&subscription_id) {
            Some(mut subscription) => {
                let action = subscription.tick(publish_ready);
                match subscription.state() {
                    LifecycleState::Closed => {
                        assert(self@ =~= old(self)@.remove(subscription_id));
                    },
                    _ => {
                        self.subscriptions.insert(subscription_id, subscription);
                        assert(self@ =~= old(self)@.insert(
                            subscription_id,
                            old(self)@[subscription_id].after_tick(publish_ready),
                        ));
                    },
                }
                Some(action)
            },
            None => {
                assert(self@ =~= old(self)@);
                None
            },
        }
    }
}

/// An addition to the registry or a deletion from it.
pub enum RegistryOp {
    Add { subscription: SubscriptionView },
    Delete { subscription_id: u32 },
}

impl RegistryOp {
    /// The id that the operation is about.
    pub open spec fn id(self) -> u32 {
        match self {
            RegistryOp::Add { subscription } => subscription.subscription_id,
            RegistryOp::Delete { subscription_id } => subscription_id,
        }
    }
}

/// The registry after the operation, as `add_subscription` and
/// `delete_subscription` leave it.
pub open spec fn after_op(registry: Map<u32, SubscriptionView>, op: RegistryOp) -> Map<
    u32,
    SubscriptionView,
> {
    match op {
        RegistryOp::Add { subscription } => registry.insert(
            subscription.subscription_id,
            subscription,
        ),
        RegistryOp::Delete { subscription_id } => registry.remove(subscription_id),
    }
}

/// The registry after the operations, first to last.
pub open spec fn after_ops(registry: Map<u32, SubscriptionView>, ops: Seq<RegistryOp>) -> Map<
    u32,
    SubscriptionView,
>
    decreases ops.len(),
{
    if ops.len() == 0 {
        registry
    } else {
        after_op(after_ops(registry, ops.drop_last()), ops.last())
    }
}

/// After any additions and deletions, the registry holds an id if and only
/// if the last operation on that id was an addition; an id that no operation
/// was about is held if and only if it was held before. A deleted id does
/// not come back by itself.
pub proof fn law_exists_reflects_last_operation(
    registry: Map<u32, SubscriptionView>,
    ops: Seq<RegistryOp>,
    id: u32,
)
    ensures
        (forall|j: int| 0 <= j < ops.len() ==> (#[trigger] ops[j]).id() != id) ==> (after_ops(
            registry,
            ops,
        ).contains_key(id) <==> registry.contains_key(id)),
        forall|i: int|
            0 <= i < ops.len() && (#[trigger] ops[i]).id() == id && (forall|j: int|
                i < j < ops.len() ==> (#[trigger] ops[j]).id() != id) ==> (after_ops(
                registry,
                ops,
            ).contains_key(id) <==> ops[i] is Add),
    decreases ops.len(),
{
    if ops.len() > 0 {
        let front = ops.drop_last();
        law_exists_reflects_last_operation(registry, front, id);
        if ops.last().id() != id {
            assert forall|i: int|
                0 <= i < ops.len() && (#[trigger] ops[i]).id() == id && (forall|j: int|
                    i < j < ops.len() ==> (#[trigger] ops[j]).id() != id) implies (after_ops(
                registry,
                ops,
            ).contains_key(id) <==> ops[i] is Add) by {
                assert(front[i].id() == id);
            }
        }
    }
}

} // verus!
