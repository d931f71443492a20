//! A subscription: its settings, its monitored items, the queue of pending
//! notifications and the publish state machine that the publish timer drives.
//!
//! The timer calls `tick` once per publishing interval and says whether the
//! dispatch layer can take a message. A tick sends at most one message: a
//! batch of pending notifications, or an empty keep-alive once there was
//! nothing to publish for `max_keep_alive_count` ticks in a row. With
//! publishing disabled no batch is sent, only keep-alives. Each message carries
//! the next sequence number, starting at 1. A tick on which a message was due
//! and could not go out makes the subscription late. Ticks without a message
//! count against the lifetime, except while the last message was a
//! keep-alive and nothing has been due since; a message resets the count, and
//! `lifetime_count` counted ticks in a row close the subscription.

use crate::monitored_item::{
    delete_items, insert_items, items_deleted, items_inserted, items_modified, keyed_by_id,
    lemma_items_inserted, lemma_items_modified, modify_items, Binary64, CreateMonitoredItem,
    ModifyMonitoredItem, MonitoredItem,
};
use std::collections::HashMap;
use vstd::prelude::*;

verus! {

broadcast use vstd::std_specs::hash::group_hash_axioms;

/// Where a subscription stands in its life.
#[derive(Clone, Copy, Debug, PartialEq, Eq, Structural)]
pub enum LifecycleState {
    /// Created and not yet started.
    Creating,
    /// Publishing, or ready to.
    Normal,
    /// A message was due on the last tick and could not be sent.
    Late,
    /// The last message was a keep-alive and nothing has been due since.
    KeepAlive,
    /// Expired. A closed subscription holds nothing, sends nothing and
    /// stays closed.
    Closed,
}

/// One change record of a monitored item, as the sampling side hands it in.
#[derive(Clone, Debug, PartialEq, Eq)]
pub struct DataChangeNotification {
    /// The client handle of the monitored item that changed.
    pub client_handle: u32,
    /// The new value in its encoded form.
    pub value: Vec<u8>,
}

/// What a tick sends, as a mathematical value.
pub enum Publication {
    /// No message.
    Nothing,
    /// An empty message that tells the client the subscription is alive.
    KeepAlive { sequence_number: u32 },
    /// A batch of notifications, oldest first, and whether more are waiting.
    DataChange {
        sequence_number: u32,
        notifications: Seq<DataChangeNotification>,
        more_notifications: bool,
    },
}

/// What a tick asks the publish timer to send.
#[derive(Debug, PartialEq, Eq)]
pub enum PublishAction {
    Nothing,
    KeepAlive { sequence_number: u32 },
    DataChange {
        sequence_number: u32,
        notifications: Vec<DataChangeNotification>,
        more_notifications: bool,
    },
}

impl View for PublishAction {
    type V = Publication;

    open spec fn view(&self) -> Publication {
        match *self {
            PublishAction::Nothing => Publication::Nothing,
            PublishAction::KeepAlive { sequence_number } => Publication::KeepAlive {
                sequence_number,
            },
            PublishAction::DataChange { sequence_number, notifications, more_notifications } => {
                Publication::DataChange {
                    sequence_number,
                    notifications: notifications@,
                    more_notifications,
                }
            },
        }
    }
}

impl Publication {
    /// The sequence number of the message, if one is sent.
    pub open spec fn sequence_number(self) -> Option<u32> {
        match self {
            Publication::Nothing => None,
            Publication::KeepAlive { sequence_number } => Some(sequence_number),
            Publication::DataChange { sequence_number, .. } => Some(sequence_number),
        }
    }
}

/// A subscription as a mathematical value.
#[verifier::ext_equal]
pub struct SubscriptionView {
    pub subscription_id: u32,
    /// Publishing interval in milliseconds.
    pub publishing_interval: Binary64,
    /// Ticks in a row without a message after which the subscription closes.
    pub lifetime_count: u32,
    /// Ticks in a row with nothing pending after which a keep-alive is due.
    pub max_keep_alive_count: u32,
    /// Largest batch of one message; 0 stands for no limit.
    pub max_notifications_per_publish: u32,
    pub priority: u8,
    pub publishing_enabled: bool,
    pub state: LifecycleState,
    pub keep_alive_counter: u32,
    pub lifetime_counter: u32,
    /// The sequence number of the last message sent; 0 before the first.
    pub sequence_number: u32,
    pub monitored_items: Map<u32, MonitoredItem>,
    /// Notifications that wait for a publish, oldest first.
    pub pending: Seq<DataChangeNotification>,
}

impl SubscriptionView {
    /// Every monitored item is stored under its own id, there are finitely
    /// many, and a closed subscription holds neither items nor notifications.
    pub open spec fn wf(self) -> bool {
        &&& keyed_by_id(self.monitored_items)
        &&& self.monitored_items.dom().finite()
        &&& self.state == LifecycleState::Closed ==> self.monitored_items.dom().is_empty()
            && self.pending.len() == 0
    }

    /// A subscription as `new` makes it.
    pub open spec fn created(
        subscription_id: u32,
        publishing_interval: Binary64,
        lifetime_count: u32,
        max_keep_alive_count: u32,
        max_notifications_per_publish: u32,
        priority: u8,
        publishing_enabled: bool,
    ) -> SubscriptionView {
        SubscriptionView {
            subscription_id,
            publishing_interval,
            lifetime_count,
            max_keep_alive_count,
            max_notifications_per_publish,
            priority,
            publishing_enabled,
            state: LifecycleState::Creating,
            keep_alive_counter: 0,
            lifetime_counter: 0,
            sequence_number: 0,
            monitored_items: Map::empty(),
            pending: Seq::empty(),
        }
    }

    pub open spec fn is_closed(self) -> bool {
        self.state == LifecycleState::Closed
    }

    /// The subscription with the five settings that a modify request carries.
    pub open spec fn modified(
        self,
        publishing_interval: Binary64,
        lifetime_count: u32,
        max_keep_alive_count: u32,
        max_notifications_per_publish: u32,
        priority: u8,
    ) -> SubscriptionView {
        SubscriptionView {
            publishing_interval,
            lifetime_count,
            max_keep_alive_count,
            max_notifications_per_publish,
            priority,
            ..self
        }
    }

    pub open spec fn with_publishing(self, publishing_enabled: bool) -> SubscriptionView {
        SubscriptionView { publishing_enabled, ..self }
    }

    /// The subscription after the notifications joined the end of the queue.
    /// A closed subscription takes none.
    pub open spec fn with_data(self, notifications: Seq<DataChangeNotification>) -> SubscriptionView {
        if self.is_closed() {
            self
        } else {
            SubscriptionView { pending: self.pending + notifications, ..self }
        }
    }

    /// The subscription after the insert requests. A closed one takes none.
    pub open spec fn with_items_inserted(self, creates: Seq<CreateMonitoredItem>) -> SubscriptionView {
        if self.is_closed() {
            self
        } else {
            SubscriptionView {
                monitored_items: items_inserted(self.monitored_items, creates),
                ..self
            }
        }
    }

    /// The subscription after the modify requests.
    pub open spec fn with_items_modified(self, modifies: Seq<ModifyMonitoredItem>) -> SubscriptionView {
        if self.is_closed() {
            self
        } else {
            SubscriptionView {
                monitored_items: items_modified(self.monitored_items, modifies),
                ..self
            }
        }
    }

    /// The subscription without the items of the listed ids.
    pub open spec fn with_items_deleted(self, ids: Seq<u32>) -> SubscriptionView {
        if self.is_closed() {
            self
        } else {
            SubscriptionView { monitored_items: items_deleted(self.monitored_items, ids), ..self }
        }
    }

    /// Notifications are waiting and publishing is enabled.
    pub open spec fn data_due(self) -> bool {
        self.publishing_enabled && self.pending.len() > 0
    }

    /// The keep-alive counter after one more tick with nothing to publish.
    /// The counter holds how many ticks in a row had nothing to publish, and
    /// stops at `max_keep_alive_count`.
    pub open spec fn counted_keep_alive(self) -> u32 {
        if self.keep_alive_counter < self.max_keep_alive_count {
            (self.keep_alive_counter + 1) as u32
        } else {
            self.keep_alive_counter
        }
    }

    /// Nothing is to be published and this tick is the last of
    /// `max_keep_alive_count` such ticks in a row.
    pub open spec fn keep_alive_due(self) -> bool {
        !self.data_due() && self.counted_keep_alive() >= self.max_keep_alive_count
    }

    /// The lifetime counter after one more tick without a message. It stops
    /// at `lifetime_count`.
    pub open spec fn counted_lifetime(self) -> u32 {
        if self.lifetime_counter < self.lifetime_count {
            (self.lifetime_counter + 1) as u32
        } else {
            self.lifetime_counter
        }
    }

    /// This tick is the last that the subscription may pass without a message.
    pub open spec fn lifetime_over(self) -> bool {
        self.counted_lifetime() >= self.lifetime_count
    }

    /// A message can go out: the dispatch layer takes one and a sequence
    /// number is left.
    pub open spec fn can_send(self, publish_ready: bool) -> bool {
        publish_ready && self.sequence_number < u32::MAX
    }

    /// How many notifications the next message takes.
    pub open spec fn batch_len(self) -> int {
        if self.max_notifications_per_publish == 0 || self.pending.len()
            <= self.max_notifications_per_publish {
            self.pending.len() as int
        } else {
            self.max_notifications_per_publish as int
        }
    }

    /// A subscription starts once it has a monitored item or publishing is
    /// enabled.
    pub open spec fn started(self) -> bool {
        self.state != LifecycleState::Creating || self.publishing_enabled
            || !self.monitored_items.dom().is_empty()
    }

    /// After a tick that sent a batch.
    pub open spec fn published(self) -> SubscriptionView {
        SubscriptionView {
            state: LifecycleState::Normal,
            keep_alive_counter: 0,
            lifetime_counter: 0,
            sequence_number: (self.sequence_number + 1) as u32,
            pending: self.pending.subrange(self.batch_len(), self.pending.len() as int),
            ..self
        }
    }

    /// After a tick that sent a keep-alive.
    pub open spec fn kept_alive(self) -> SubscriptionView {
        SubscriptionView {
            state: LifecycleState::KeepAlive,
            keep_alive_counter: 0,
            lifetime_counter: 0,
            sequence_number: (self.sequence_number + 1) as u32,
            ..self
        }
    }

    /// After a tick without a message that counts against the lifetime: the
    /// subscription closes and drops its items and notifications if its
    /// lifetime is over, and goes on in the given state if not.
    pub open spec fn aged(self, state: LifecycleState, keep_alive_counter: u32) -> SubscriptionView {
        if self.lifetime_over() {
            SubscriptionView {
                state: LifecycleState::Closed,
                keep_alive_counter,
                lifetime_counter: self.counted_lifetime(),
                monitored_items: Map::empty(),
                pending: Seq::empty(),
                ..self
            }
        } else {
            SubscriptionView {
                state,
                keep_alive_counter,
                lifetime_counter: self.counted_lifetime(),
                ..self
            }
        }
    }

    /// After a tick on which nothing was due. While the last message was a
    /// keep-alive the lifetime counter stays reset; otherwise the tick counts
    /// against the lifetime. A subscription that has started leaves
    /// `Creating`.
    pub open spec fn idled(self) -> SubscriptionView {
        if self.state == LifecycleState::KeepAlive {
            SubscriptionView {
                keep_alive_counter: self.counted_keep_alive(),
                lifetime_counter: 0,
                ..self
            }
        } else if self.state == LifecycleState::Creating && self.started() {
            self.aged(LifecycleState::Normal, self.counted_keep_alive())
        } else {
            self.aged(self.state, self.counted_keep_alive())
        }
    }

    /// The subscription after one tick of the publish timer.
    pub open spec fn after_tick(self, publish_ready: bool) -> SubscriptionView {
        if self.is_closed() {
            self
        } else if self.data_due() {
            if self.can_send(publish_ready) {
                self.published()
            } else {
                self.aged(LifecycleState::Late, 0)
            }
        } else if self.keep_alive_due() {
            if self.can_send(publish_ready) {
                self.kept_alive()
            } else {
                self.aged(LifecycleState::Late, self.counted_keep_alive())
            }
        } else {
            self.idled()
        }
    }

    /// What one tick of the publish timer sends.
    pub open spec fn tick_action(self, publish_ready: bool) -> Publication {
        if self.is_closed() || !self.can_send(publish_ready) {
            Publication::Nothing
        } else if self.data_due() {
            Publication::DataChange {
                sequence_number: (self.sequence_number + 1) as u32,
                notifications: self.pending.subrange(0, self.batch_len()),
                more_notifications: self.batch_len() < self.pending.len(),
            }
        } else if self.keep_alive_due() {
            Publication::KeepAlive { sequence_number: (self.sequence_number + 1) as u32 }
        } else {
            Publication::Nothing
        }
    }
}

/// A subscription of one session.
pub struct Subscription {
    subscription_id: u32,
    publishing_interval: Binary64,
    lifetime_count: u32,
    max_keep_alive_count: u32,
    max_notifications_per_publish: u32,
    priority: u8,
    publishing_enabled: bool,
    state: LifecycleState,
    keep_alive_counter: u32,
    lifetime_counter: u32,
    sequence_number: u32,
    monitored_items: HashMap<u32, MonitoredItem>,
    pending: Vec<DataChangeNotification>,
}

impl View for Subscription {
    type V = SubscriptionView;

    closed spec fn view(&self) -> SubscriptionView {
        SubscriptionView {
            subscription_id: self.subscription_id,
            publishing_interval: self.publishing_interval,
            lifetime_count: self.lifetime_count,
            max_keep_alive_count: self.max_keep_alive_count,
            max_notifications_per_publish: self.max_notifications_per_publish,
            priority: self.priority,
            publishing_enabled: self.publishing_enabled,
            state: self.state,
            keep_alive_counter: self.keep_alive_counter,
            lifetime_counter: self.lifetime_counter,
            sequence_number: self.sequence_number,
            monitored_items: self.monitored_items@,
            pending: self.pending@,
        }
    }
}

impl Subscription {
    /// A subscription in state `Creating` with no monitored items, nothing
    /// pending, both counters at zero and no message sent yet.
    pub fn new(
        subscription_id: u32,
        publishing_interval: Binary64,
        lifetime_count: u32,
        max_keep_alive_count: u32,
        max_notifications_per_publish: u32,
        priority: u8,
        publishing_enabled: bool,
    ) -> (subscription: Subscription)
        ensures
            subscription@ == SubscriptionView::created(
                subscription_id,
                publishing_interval,
                lifetime_count,
                max_keep_alive_count,
                max_notifications_per_publish,
                priority,
                publishing_enabled,
            ),
            subscription@.wf(),
    {
        Subscription {
            subscription_id,
            publishing_interval,
            lifetime_count,
            max_keep_alive_count,
            max_notifications_per_publish,
            priority,
            publishing_enabled,
            state: LifecycleState::Creating,
            keep_alive_counter: 0,
            lifetime_counter: 0,
            sequence_number: 0,
            monitored_items: HashMap::new(),
            pending: Vec::new(),
        }
    }

    pub fn subscription_id(&self) -> (id: u32)
        ensures
            id == self@.subscription_id,
    {
        self.subscription_id
    }

    pub fn publishing_interval(&self) -> (interval: Binary64)
        ensures
            interval == self@.publishing_interval,
    {
        self.publishing_interval
    }

    pub fn lifetime_count(&self) -> (count: u32)
        ensures
            count == self@.lifetime_count,
    {
        self.lifetime_count
    }

    pub fn max_keep_alive_count(&self) -> (count: u32)
        ensures
            count == self@.max_keep_alive_count,
    {
        self.max_keep_alive_count
    }

    pub fn max_notifications_per_publish(&self) -> (count: u32)
        ensures
            count == self@.max_notifications_per_publish,
    {
        self.max_notifications_per_publish
    }

    pub fn priority(&self) -> (priority: u8)
        ensures
            priority == self@.priority,
    {
        self.priority
    }

    pub fn publishing_enabled(&self) -> (enabled: bool)
        ensures
            enabled == self@.publishing_enabled,
    {
        self.publishing_enabled
    }

    pub fn state(&self) -> (state: LifecycleState)
        ensures
            state == self@.state,
    {
        self.state
    }

    pub fn keep_alive_counter(&self) -> (counter: u32)
        ensures
            counter == self@.keep_alive_counter,
    {
        self.keep_alive_counter
    }

    pub fn lifetime_counter(&self) -> (counter: u32)
        ensures
            counter == self@.lifetime_counter,
    {
        self.lifetime_counter
    }

    /// The sequence number of the last message sent; 0 before the first.
    pub fn sequence_number(&self) -> (number: u32)
        ensures
            number == self@.sequence_number,
    {
        self.sequence_number
    }

    /// The monitored item of this id, if the subscription has one.
    pub fn monitored_item(&self, id: u32) -> (item: Option<MonitoredItem>)
        ensures
            item == if self@.monitored_items.contains_key(id) {
                Some(self@.monitored_items[id])
            } else {
                None
            },
    {
        match self.monitored_items.get(&id) {
            Some(item) => Some(*item),
            None => None,
        }
    }

    pub fn monitored_item_count(&self) -> (count: usize)
        ensures
            count == self@.monitored_items.len(),
    {
        self.monitored_items.len()
    }

    /// How many notifications wait for a publish.
    pub fn pending_count(&self) -> (count: usize)
        ensures
            count == self@.pending.len(),
    {
        self.pending.len()
    }

    pub fn set_publishing_interval(&mut self, publishing_interval: Binary64)
        ensures
            final(self)@ == (SubscriptionView { publishing_interval, ..old(self)@ }),
    {
        self.publishing_interval = publishing_interval;
    }

    pub fn set_lifetime_count(&mut self, lifetime_count: u32)
        ensures
            final(self)@ == (SubscriptionView { lifetime_count, ..old(self)@ }),
    {
        self.lifetime_count = lifetime_count;
    }

    pub fn set_max_keep_alive_count(&mut self, max_keep_alive_count: u32)
        ensures
            final(self)@ == (SubscriptionView { max_keep_alive_count, ..old(self)@ }),
    {
        self.max_keep_alive_count = max_keep_alive_count;
    }

    pub fn set_max_notifications_per_publish(&mut self, max_notifications_per_publish: u32)
        ensures
            final(self)@ == (SubscriptionView { max_notifications_per_publish, ..old(self)@ }),
    {
        self.max_notifications_per_publish = max_notifications_per_publish;
    }

    pub fn set_priority(&mut self, priority: u8)
        ensures
            final(self)@ == (SubscriptionView { priority, ..old(self)@ }),
    {
        self.priority = priority;
    }

    /// Switches the sending of data notifications on or off. The counters,
    /// the queue and the monitored items stay as they are.
    pub fn set_publishing_enabled(&mut self, publishing_enabled: bool)
        ensures
            final(self)@ == old(self)@.with_publishing(publishing_enabled),
    {
        self.publishing_enabled = publishing_enabled;
    }

    /// Appends the change records to the queue of pending notifications, in
    /// the order in which they arrive.
    pub fn data_change(&mut self, notifications: Vec<DataChangeNotification>)
        requires
            old(self)@.wf(),
        ensures
            final(self)@.wf(),
            final(self)@ == old(self)@.with_data(notifications@),
    {
        if self.state != LifecycleState::Closed {
            let mut incoming = notifications;
            self.pending.append(&mut incoming);
        }
    }

    /// Adds each requested item under its id; an item that was stored under
    /// the id is replaced.
    pub fn insert_monitored_items(&mut self, items_to_create: &[CreateMonitoredItem])
        requires
            old(self)@.wf(),
        ensures
            final(self)@.wf(),
            final(self)@ == old(self)@.with_items_inserted(items_to_create@),
    {
        if self.state != LifecycleState::Closed {
            proof {
                lemma_items_inserted(self.monitored_items@, items_to_create@);
            }
            insert_items(&mut self.monitored_items, items_to_create);
        }
    }

    /// Updates the sampling parameters of the named items; a request that
    /// names no item of this subscription is skipped.
    pub fn modify_monitored_items(&mut self, items_to_modify: &[ModifyMonitoredItem])
        requires
            old(self)@.wf(),
        ensures
            final(self)@.wf(),
            final(self)@ == old(self)@.with_items_modified(items_to_modify@),
            final(self)@.monitored_items.dom() == old(self)@.monitored_items.dom(),
    {
        proof {
            lemma_items_modified(self.monitored_items@, items_to_modify@);
        }
        if self.state != LifecycleState::Closed {
            modify_items(&mut self.monitored_items, items_to_modify);
        }
    }

    /// Removes the items of the listed ids; an id of no item is skipped. The
    /// subscription stays, also without items.
    pub fn delete_monitored_items(&mut self, items_to_delete: &[u32])
        requires
            old(self)@.wf(),
        ensures
            final(self)@.wf(),
            final(self)@ == old(self)@.with_items_deleted(items_to_delete@),
            final(self)@.state == old(self)@.state,
    {
        if self.state != LifecycleState::Closed {
            delete_items(&mut self.monitored_items, items_to_delete);
        }
    }

    /// Closes the subscription if its lifetime is over with this tick, and
    /// puts it in the given state if not.
    fn age(&mut self, state: LifecycleState, keep_alive_counter: u32)
        requires
            old(self)@.wf(),
            state != LifecycleState::Closed,
        ensures
            final(self)@.wf(),
            final(self)@ == old(self)@.aged(state, keep_alive_counter),
    {
        if self.lifetime_counter < self.lifetime_count {
            self.lifetime_counter = self.lifetime_counter + 1;
        }
        self.keep_alive_counter = keep_alive_counter;
        if self.lifetime_counter >= self.lifetime_count {
            self.monitored_items.clear();
            self.pending.clear();
            self.state = LifecycleState::Closed;
        } else {
            self.state = state;
        }
    }

    /// One tick of the publish timer. `publish_ready` says whether the
    /// dispatch layer can take a message on this tick.
    pub fn tick(&mut self, publish_ready: bool) -> (action: PublishAction)
        requires
            old(self)@.wf(),
        ensures
            final(self)@.wf(),
            final(self)@ == old(self)@.after_tick(publish_ready),
            action@ == old(self)@.tick_action(publish_ready),
            match action@.sequence_number() {
                Some(number) => number == old(self)@.sequence_number + 1
                    && number == final(self)@.sequence_number,
                None => final(self)@.sequence_number == old(self)@.sequence_number,
            },
    {
        if self.state == LifecycleState::Closed {
            return PublishAction::Nothing;
        }
        let can_send = publish_ready && self.sequence_number < u32::MAX;
        if self.publishing_enabled && self.pending.len() > 0 {
            if can_send {
                let waiting = self.pending.len();
                let limit = self.max_notifications_per_publish as usize;
                let count = if self.max_notifications_per_publish == 0 || waiting <= limit {
                    waiting
                } else {
                    limit
                };
                let mut notifications = self.pending.split_off(count);
                core::mem::swap(&mut notifications, &mut self.pending);
                self.sequence_number = self.sequence_number + 1;
                self.keep_alive_counter = 0;
                self.lifetime_counter = 0;
                self.state = LifecycleState::Normal;
                PublishAction::DataChange {
                    sequence_number: self.sequence_number,
                    notifications,
                    more_notifications: count < waiting,
                }
            } else {
                self.age(LifecycleState::Late, 0);
                PublishAction::Nothing
            }
        } else {
            let keep_alive_counter = if self.keep_alive_counter < self.max_keep_alive_count {
                self.keep_alive_counter + 1
            } else {
                self.keep_alive_counter
            };
            if keep_alive_counter >= self.max_keep_alive_count {
                if can_send {
                    self.sequence_number = self.sequence_number + 1;
                    self.keep_alive_counter = 0;
                    self.lifetime_counter = 0;
                    self.state = LifecycleState::KeepAlive;
                    PublishAction::KeepAlive { sequence_number: self.sequence_number }
                } else {
                    self.age(LifecycleState::Late, keep_alive_counter);
                    PublishAction::Nothing
                }
            } else {
                match self.state {
                    LifecycleState::KeepAlive => {
                        self.keep_alive_counter = keep_alive_counter;
                        self.lifetime_counter = 0;
                    },
                    LifecycleState::Creating => {
                        if self.publishing_enabled || !self.monitored_items.is_empty() {
                            self.age(LifecycleState::Normal, keep_alive_counter);
                        } else {
                            self.age(LifecycleState::Creating, keep_alive_counter);
                        }
                    },
                    LifecycleState::Normal => {
                        self.age(LifecycleState::Normal, keep_alive_counter);
                    },
                    _ => {
                        self.age(LifecycleState::Late, keep_alive_counter);
                    },
                }
                PublishAction::Nothing
            }
        }
    }
}

} // verus!
