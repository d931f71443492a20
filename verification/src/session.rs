//! The state of one session and the subscription services on it.
//!
//! A session owns its subscription registry, hands out subscription ids in
//! rising order starting at 1, and counts the publish requests that the
//! client has queued. A tick may send a message only while such a request is
//! queued, and each message uses one up. The network path and the publish
//! timer both work on the session under one exclusive lock, which the caller
//! holds for the length of each call.

use crate::monitored_item::{
    Binary64, CreateMonitoredItem, ModifyMonitoredItem, MonitoredItem,
};
use crate::seq_facts::{lemma_take_ends, lemma_take_step};
use crate::status::StatusCode;
use crate::subscription::{
    DataChangeNotification, PublishAction, Publication, Subscription, SubscriptionView,
};
use crate::subscription_state::{publishing_set, registry_wf, ticked, views, SubscriptionState};
use std::collections::HashMap;
use vstd::prelude::*;

verus! {

/// Server-wide settings that the subscription services read.
#[derive(Clone, Copy, Debug, PartialEq, Eq, Structural)]
pub struct ServerState {
    /// How many subscriptions one session may hold.
    pub max_subscriptions: usize,
}

/// A session as a mathematical value.
#[verifier::ext_equal]
pub struct SessionView {
    pub subscriptions: Map<u32, SubscriptionView>,
    /// The id given to the subscription created last; 0 before the first.
    pub last_subscription_id: u32,
    /// Publish requests that wait for a message to answer them with.
    pub publish_requests: u32,
}

/// One status per listed id, in the order of the list: `Good` where the id
/// is held, `missing` where it is not.
pub open spec fn presence_results(held: Set<u32>, ids: Seq<u32>, missing: StatusCode) -> Seq<
    StatusCode,
> {
    Seq::new(
        ids.len(),
        |i: int|
            if held.contains(ids[i]) {
                StatusCode::Good
            } else {
                missing
            },
    )
}

/// One status per listed id, in the order of the list, where each held id
/// is taken away as it is met: `Good` where the id is held and stands in the
/// list for the first time, `missing` otherwise.
pub open spec fn removal_results(held: Set<u32>, ids: Seq<u32>, missing: StatusCode) -> Seq<
    StatusCode,
> {
    Seq::new(
        ids.len(),
        |i: int|
            if held.contains(ids[i]) && !ids.take(i).contains(ids[i]) {
                StatusCode::Good
            } else {
                missing
            },
    )
}

/// One status per modify request, in the order of the requests: `Good`
/// where the subscription has an item of the id, `BadMonitoredItemIdInvalid`
/// where it has none.
pub open spec fn modify_results(
    items: Map<u32, MonitoredItem>,
    modifies: Seq<ModifyMonitoredItem>,
) -> Seq<StatusCode> {
    Seq::new(
        modifies.len(),
        |i: int|
            if items.contains_key(modifies[i].id) {
                StatusCode::Good
            } else {
                StatusCode::BadMonitoredItemIdInvalid
            },
    )
}

/// Whether the id at position `at` stands earlier in the list too.
fn seen_before(ids: &[u32], at: usize) -> (seen: bool)
    requires
        at < ids.len(),
    ensures
        seen == ids@.take(at as int).contains(ids@[at as int]),
{
    let mut k: usize = 0;
    while k < at
        invariant
            k <= at < ids.len(),
            !ids@.take(k as int).contains(ids@[at as int]),
        decreases at - k,
    {
        if ids[k] == ids[at] {
            assert(ids@.take(at as int)[k as int] == ids@[at as int]);
            return true;
        }
        proof {
            lemma_take_step(ids@, k as int);
        }
        k += 1;
    }
    false
}

impl SessionView {
    /// The registry is well formed, every id in it was handed out by this
    /// session, and no subscription in it is closed.
    pub open spec fn wf(self) -> bool {
        &&& registry_wf(self.subscriptions)
        &&& forall|id: u32| #[trigger]
            self.subscriptions.contains_key(id) ==> 1 <= id <= self.last_subscription_id
                && !self.subscriptions[id].is_closed()
    }

    /// The session has room for a subscription and an id to give it.
    pub open spec fn can_create(self, server: ServerState) -> bool {
        self.subscriptions.len() < server.max_subscriptions && self.last_subscription_id
            < u32::MAX
    }

    /// The session with one more subscription, new and under the next id.
    pub open spec fn with_created(
        self,
        publishing_interval: Binary64,
        lifetime_count: u32,
        max_keep_alive_count: u32,
        max_notifications_per_publish: u32,
        priority: u8,
        publishing_enabled: bool,
    ) -> SessionView {
        let id = (self.last_subscription_id + 1) as u32;
        SessionView {
            subscriptions: self.subscriptions.insert(
                id,
                SubscriptionView::created(
                    id,
                    publishing_interval,
                    lifetime_count,
                    max_keep_alive_count,
                    max_notifications_per_publish,
                    priority,
                    publishing_enabled,
                ),
            ),
            last_subscription_id: id,
            ..self
        }
    }

    /// The session with `changed` in the place of the subscription `id`.
    pub open spec fn with_subscription(self, id: u32, changed: SubscriptionView) -> SessionView {
        SessionView { subscriptions: self.subscriptions.insert(id, changed), ..self }
    }

    /// The session after one tick of the subscription `id`. The tick may
    /// send while a publish request is queued; a message uses one up.
    pub open spec fn after_tick(self, id: u32) -> SessionView {
        if !self.subscriptions.contains_key(id) {
            self
        } else {
            let publish_ready = self.publish_requests > 0;
            SessionView {
                subscriptions: ticked(self.subscriptions, id, publish_ready),
                publish_requests: if self.subscriptions[id].tick_action(publish_ready)
                    == Publication::Nothing {
                    self.publish_requests
                } else {
                    (self.publish_requests - 1) as u32
                },
                ..self
            }
        }
    }
}

/// The state of one session.
pub struct SessionState {
    subscriptions: SubscriptionState,
    last_subscription_id: u32,
    publish_requests: u32,
}

impl View for SessionState {
    type V = SessionView;

    closed spec fn view(&self) -> SessionView {
        SessionView {
            subscriptions: self.subscriptions@,
            last_subscription_id: self.last_subscription_id,
            publish_requests: self.publish_requests,
        }
    }
}

impl SessionState {
    /// A session without subscriptions and without queued publish requests.
    pub fn new() -> (session: SessionState)
        ensures
            session@.wf(),
            session@ == (SessionView {
                subscriptions: Map::empty(),
                last_subscription_id: 0,
                publish_requests: 0,
            }),
    {
        SessionState {
            subscriptions: SubscriptionState::new(),
            last_subscription_id: 0,
            publish_requests: 0,
        }
    }

    /// A read-only view of the registry.
    pub fn subscriptions(&self) -> (registry: &SubscriptionState)
        ensures
            registry@ == self@.subscriptions,
    {
        &self.subscriptions
    }

    pub fn last_subscription_id(&self) -> (id: u32)
        ensures
            id == self@.last_subscription_id,
    {
        self.last_subscription_id
    }

    pub fn publish_requests(&self) -> (count: u32)
        ensures
            count == self@.publish_requests,
    {
        self.publish_requests
    }

    /// Creates a subscription under the next id and returns the id, which
    /// no subscription of the session has and which is larger than theirs. Fails
    /// with `BadTooManySubscriptions`, and changes nothing, where the session
    /// is full or has no id left.
    pub fn create_subscription(
        &mut self,
        server: &ServerState,
        publishing_interval: Binary64,
        lifetime_count: u32,
        max_keep_alive_count: u32,
        max_notifications_per_publish: u32,
        priority: u8,
        publishing_enabled: bool,
    ) -> (created: Result<u32, StatusCode>)
        requires
            old(self)@.wf(),
        ensures
            final(self)@.wf(),
            old(self)@.can_create(*server) ==> created == Ok::<u32, StatusCode>(
                (old(self)@.last_subscription_id + 1) as u32,
            ) && final(self)@ == old(self)@.with_created(
                publishing_interval,
                lifetime_count,
                max_keep_alive_count,
                max_notifications_per_publish,
                priority,
                publishing_enabled,
            ),
            !old(self)@.can_create(*server) ==> created == Err::<u32, StatusCode>(
                StatusCode::BadTooManySubscriptions,
            ) && final(self)@ == old(self)@,
            created matches Ok(id) ==> !old(self)@.subscriptions.contains_key(id) && forall|
                held: u32,
            | #[trigger] old(self)@.subscriptions.contains_key(held) ==> held < id,
    {
        if self.subscriptions.len() >= server.max_subscriptions || self.last_subscription_id
            == u32::MAX {
            return Err(StatusCode::BadTooManySubscriptions);
        }
        let subscription_id = self.last_subscription_id + 1;
        let subscription = Subscription::new(
            subscription_id,
            publishing_interval,
            lifetime_count,
            max_keep_alive_count,
            max_notifications_per_publish,
            priority,
            publishing_enabled,
        );
        self.subscriptions.add_subscription(subscription);
        self.last_subscription_id = subscription_id;
        Ok(subscription_id)
    }

    /// Changes the settings of a subscription. Fails with
    /// `BadSubscriptionIdInvalid`, and changes nothing, where the session
    /// holds no subscription of the id.
    pub fn modify_subscription(
        &mut self,
        subscription_id: u32,
        publishing_interval: Binary64,
        lifetime_count: u32,
        max_keep_alive_count: u32,
        max_notifications_per_publish: u32,
        priority: u8,
    ) -> (modified: Result<(), StatusCode>)
        requires
            old(self)@.wf(),
        ensures
            final(self)@.wf(),
            old(self)@.subscriptions.contains_key(subscription_id) ==> modified is Ok
                && final(self)@ == old(self)@.with_subscription(
                subscription_id,
                old(self)@.subscriptions[subscription_id].modified(
                    publishing_interval,
                    lifetime_count,
                    max_keep_alive_count,
                    max_notifications_per_publish,
                    priority,
                ),
            ),
            !old(self)@.subscriptions.contains_key(subscription_id) ==> modified == Err::<
                (),
                StatusCode,
            >(StatusCode::BadSubscriptionIdInvalid) && final(self)@ == old(self)@,
    {
        if !self.subscriptions.subscription_exists(subscription_id) {
            return Err(StatusCode::BadSubscriptionIdInvalid);
        }
        self.subscriptions.modify_subscription(
            subscription_id,
            publishing_interval,
            lifetime_count,
            max_keep_alive_count,
            max_notifications_per_publish,
            priority,
        );
        Ok(())
    }

    /// Deletes the listed subscriptions one after the other and returns one
    /// status per id: `Good` where a subscription was deleted,
    /// `BadSubscriptionIdInvalid` where the session held none of that id. An
    /// id that fails does not keep the others from being served.
    pub fn delete_subscriptions(&mut self, subscription_ids: &[u32]) -> (results: Vec<StatusCode>)
        requires
            old(self)@.wf(),
        ensures
            final(self)@.wf(),
            final(self)@ == (SessionView {
                subscriptions: old(self)@.subscriptions.remove_keys(subscription_ids@.to_set()),
                ..old(self)@
            }),
            results@ == removal_results(
                old(self)@.subscriptions.dom(),
                subscription_ids@,
                StatusCode::BadSubscriptionIdInvalid,
            ),
    {
        let mut results: Vec<StatusCode> = Vec::new();
        let mut i: usize = 0;
        proof {
            lemma_take_ends(subscription_ids@);
        }
        while i < subscription_ids.len()
            invariant
                i <= subscription_ids.len(),
                self@.wf(),
                self@ == (SessionView {
                    subscriptions: old(self)@.subscriptions.remove_keys(
                        subscription_ids@.take(i as int).to_set(),
                    ),
                    ..old(self)@
                }),
                results@ == removal_results(
                    old(self)@.subscriptions.dom(),
                    subscription_ids@,
                    StatusCode::BadSubscriptionIdInvalid,
                ).take(i as int),
            decreases subscription_ids.len() - i,
        {
            proof {
                lemma_take_step(subscription_ids@, i as int);
            }
            let removed = self.subscriptions.delete_subscription(subscription_ids[i]);
            match removed {
                Some(_) => results.push(StatusCode::Good),
                None => results.push(StatusCode::BadSubscriptionIdInvalid),
            }
            i += 1;
        }
        proof {
            lemma_take_ends(subscription_ids@);
        }
        results
    }

    /// Sets the publishing flag of the listed subscriptions and returns one
    /// status per id: `Good` where the session holds the subscription,
    /// `BadSubscriptionIdInvalid` where it does not.
    pub fn set_publishing_mode(
        &mut self,
        publishing_enabled: bool,
        subscription_ids: &[u32],
    ) -> (results: Vec<StatusCode>)
        requires
            old(self)@.wf(),
        ensures
            final(self)@.wf(),
            final(self)@ == (SessionView {
                subscriptions: publishing_set(
                    old(self)@.subscriptions,
                    subscription_ids@,
                    publishing_enabled,
                ),
                ..old(self)@
            }),
            results@ == presence_results(
                old(self)@.subscriptions.dom(),
                subscription_ids@,
                StatusCode::BadSubscriptionIdInvalid,
            ),
    {
        let mut results: Vec<StatusCode> = Vec::new();
        let mut i: usize = 0;
        while i < subscription_ids.len()
            invariant
                i <= subscription_ids.len(),
                self@ == old(self)@,
                results@ == presence_results(
                    old(self)@.subscriptions.dom(),
                    subscription_ids@,
                    StatusCode::BadSubscriptionIdInvalid,
                ).take(i as int),
            decreases subscription_ids.len() - i,
        {
            if self.subscriptions.subscription_exists(subscription_ids[i]) {
                results.push(StatusCode::Good);
            } else {
                results.push(StatusCode::BadSubscriptionIdInvalid);
            }
            i += 1;
        }
        self.subscriptions.set_publishing_mode(subscription_ids, publishing_enabled);
        results
    }

    /// Adds monitored items to a subscription and returns one status per
    /// request, each `Good`. Fails with `BadSubscriptionIdInvalid`, and
    /// changes nothing, where the session holds no subscription of the id.
    pub fn create_monitored_items(
        &mut self,
        subscription_id: u32,
        items_to_create: &[CreateMonitoredItem],
    ) -> (created: Result<Vec<StatusCode>, StatusCode>)
        requires
            old(self)@.wf(),
        ensures
            final(self)@.wf(),
            !old(self)@.subscriptions.contains_key(subscription_id) ==> created == Err::<
                Vec<StatusCode>,
                StatusCode,
            >(StatusCode::BadSubscriptionIdInvalid) && final(self)@ == old(self)@,
            old(self)@.subscriptions.contains_key(subscription_id) ==> final(self)@
                == old(self)@.with_subscription(
                subscription_id,
                old(self)@.subscriptions[subscription_id].with_items_inserted(items_to_create@),
            ) && (created matches Ok(results) && results@ == Seq::new(
                items_to_create@.len(),
                |i: int| StatusCode::Good,
            )),
    {
        if !self.subscriptions.subscription_exists(subscription_id) {
            return Err(StatusCode::BadSubscriptionIdInvalid);
        }
        let mut results: Vec<StatusCode> = Vec::new();
        let mut i: usize = 0;
        while i < items_to_create.len()
            invariant
                i <= items_to_create.len(),
                results@ == Seq::new(i as nat, |k: int| StatusCode::Good),
            decreases items_to_create.len() - i,
        {
            results.push(StatusCode::Good);
            i += 1;
        }
        self.subscriptions.insert_monitored_items(subscription_id, items_to_create);
        Ok(results)
    }

    /// Changes monitored items of a subscription and returns one status per
    /// request: `Good` where the item was changed,
    /// `BadMonitoredItemIdInvalid` where the subscription has no item of the
    /// id. Fails with `BadSubscriptionIdInvalid`, and changes nothing, where
    /// the session holds no subscription of the id.
    pub fn modify_monitored_items(
        &mut self,
        subscription_id: u32,
        items_to_modify: &[ModifyMonitoredItem],
    ) -> (modified: Result<Vec<StatusCode>, StatusCode>)
        requires
            old(self)@.wf(),
        ensures
            final(self)@.wf(),
            !old(self)@.subscriptions.contains_key(subscription_id) ==> modified == Err::<
                Vec<StatusCode>,
                StatusCode,
            >(StatusCode::BadSubscriptionIdInvalid) && final(self)@ == old(self)@,
            old(self)@.subscriptions.contains_key(subscription_id) ==> final(self)@
                == old(self)@.with_subscription(
                subscription_id,
                old(self)@.subscriptions[subscription_id].with_items_modified(items_to_modify@),
            ) && (modified matches Ok(results) && results@ == modify_results(
                old(self)@.subscriptions[subscription_id].monitored_items,
                items_to_modify@,
            )),
    {
        let mut results: Vec<StatusCode> = Vec::new();
        match self.subscriptions.get(subscription_id) {
            None => {
                return Err(StatusCode::BadSubscriptionIdInvalid);
            },
            Some(subscription) => {
                let mut i: usize = 0;
                while i < items_to_modify.len()
                    invariant
                        i <= items_to_modify.len(),
                        results@ == modify_results(
                            subscription@.monitored_items,
                            items_to_modify@,
                        ).take(i as int),
                    decreases items_to_modify.len() - i,
                {
                    match subscription.monitored_item(items_to_modify[i].id) {
                        Some(_) => results.push(StatusCode::Good),
                        None => results.push(StatusCode::BadMonitoredItemIdInvalid),
                    }
                    i += 1;
                }
            },
        }
        self.subscriptions.modify_monitored_items(subscription_id, items_to_modify);
        Ok(results)
    }

    /// Removes monitored items from a subscription, one after the other, and
    /// returns one status per id: `Good` where an item was removed,
    /// `BadMonitoredItemIdInvalid` where the subscription had none of the id.
    /// Fails with `BadSubscriptionIdInvalid`, and changes nothing, where the
    /// session holds no subscription of the id.
    pub fn delete_monitored_items(
        &mut self,
        subscription_id: u32,
        items_to_delete: &[u32],
    ) -> (deleted: Result<Vec<StatusCode>, StatusCode>)
        requires
            old(self)@.wf(),
        ensures
            final(self)@.wf(),
            !old(self)@.subscriptions.contains_key(subscription_id) ==> deleted == Err::<
                Vec<StatusCode>,
                StatusCode,
            >(StatusCode::BadSubscriptionIdInvalid) && final(self)@ == old(self)@,
            old(self)@.subscriptions.contains_key(subscription_id) ==> final(self)@
                == old(self)@.with_subscription(
                subscription_id,
                old(self)@.subscriptions[subscription_id].with_items_deleted(items_to_delete@),
            ) && (deleted matches Ok(results) && results@ == removal_results(
                old(self)@.subscriptions[subscription_id].monitored_items.dom(),
                items_to_delete@,
                StatusCode::BadMonitoredItemIdInvalid,
            )),
    {
        let mut results: Vec<StatusCode> = Vec::new();
        match self.subscriptions.get(subscription_id) {
            None => {
                return Err(StatusCode::BadSubscriptionIdInvalid);
            },
            Some(subscription) => {
                let mut i: usize = 0;
                while i < items_to_delete.len()
                    invariant
                        i <= items_to_delete.len(),
                        results@ == removal_results(
                            subscription@.monitored_items.dom(),
                            items_to_delete@,
                            StatusCode::BadMonitoredItemIdInvalid,
                        ).take(i as int),
                    decreases items_to_delete.len() - i,
                {
                    let held = subscription.monitored_item(items_to_delete[i]).is_some();
                    if held && !seen_before(items_to_delete, i) {
                        results.push(StatusCode::Good);
                    } else {
                        results.push(StatusCode::BadMonitoredItemIdInvalid);
                    }
                    i += 1;
                }
            },
        }
        self.subscriptions.delete_monitored_items(subscription_id, items_to_delete);
        Ok(results)
    }

    /// Queues one publish request. Fails with `BadNoSubscription` where the
    /// session has no subscription and with `BadTooManyPublishRequests` where
    /// the queue is full; a failed request changes nothing.
    pub fn publish(&mut self) -> (queued: Result<(), StatusCode>)
        requires
            old(self)@.wf(),
        ensures
            final(self)@.wf(),
            queued == if old(self)@.subscriptions.dom().is_empty() {
                Err::<(), StatusCode>(StatusCode::BadNoSubscription)
            } else if old(self)@.publish_requests == u32::MAX {
                Err::<(), StatusCode>(StatusCode::BadTooManyPublishRequests)
            } else {
                Ok::<(), StatusCode>(())
            },
            final(self)@ == if queued is Ok {
                SessionView {
                    publish_requests: (old(self)@.publish_requests + 1) as u32,
                    ..old(self)@
                }
            } else {
                old(self)@
            },
    {
        if self.subscriptions.is_empty() {
            Err(StatusCode::BadNoSubscription)
        } else if self.publish_requests == u32::MAX {
            Err(StatusCode::BadTooManyPublishRequests)
        } else {
            self.publish_requests = self.publish_requests + 1;
            Ok(())
        }
    }

    /// Queues change records at a subscription. Does nothing where the
    /// session holds no subscription of the id.
    pub fn subscription_data_change(
        &mut self,
        subscription_id: u32,
        data_change_notifications: Vec<DataChangeNotification>,
    )
        requires
            old(self)@.wf(),
        ensures
            final(self)@.wf(),
            !old(self)@.subscriptions.contains_key(subscription_id) ==> final(self)@ == old(self)@,
            old(self)@.subscriptions.contains_key(subscription_id) ==> final(self)@
                == old(self)@.with_subscription(
                subscription_id,
                old(self)@.subscriptions[subscription_id].with_data(data_change_notifications@),
            ),
    {
        self.subscriptions.subscription_data_change(subscription_id, data_change_notifications);
    }

    /// One tick of the publish timer for a subscription. Returns what the
    /// tick sends, or `None` where the session holds no subscription of the
    /// id. A subscription that the tick closed leaves the session.
    pub fn tick_subscription(&mut self, subscription_id: u32) -> (action: Option<PublishAction>)
        requires
            old(self)@.wf(),
        ensures
            final(self)@.wf(),
            final(self)@ == old(self)@.after_tick(subscription_id),
            match action {
                Some(action) => old(self)@.subscriptions.contains_key(subscription_id)
                    && action@ == old(self)@.subscriptions[subscription_id].tick_action(
                    old(self)@.publish_requests > 0,
                ),
                None => !old(self)@.subscriptions.contains_key(subscription_id),
            },
    {
        let publish_ready = self.publish_requests > 0;
        let action = self.subscriptions.tick_subscription(subscription_id, publish_ready);
        match &action {
            Some(PublishAction::KeepAlive { .. }) => {
                self.publish_requests = self.publish_requests - 1;
            },
            Some(PublishAction::DataChange { .. }) => {
                self.publish_requests = self.publish_requests - 1;
            },
            _ => {},
        }
        action
    }

    /// Empties the session's registry and hands its subscriptions to the
    /// caller, to move them to another session or to drop them.
    pub fn drain_subscriptions(&mut self) -> (drained: HashMap<u32, Subscription>)
        requires
            old(self)@.wf(),
        ensures
            final(self)@.wf(),
            views(drained@) == old(self)@.subscriptions,
            final(self)@ == (SessionView { subscriptions: Map::empty(), ..old(self)@ }),
    {
        self.subscriptions.drain_subscriptions()
    }
}

} // verus!
