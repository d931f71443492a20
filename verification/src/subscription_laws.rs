//! What holds of a subscription over its whole life, whatever is done to it.

use crate::monitored_item::{
    items_inserted, lemma_items_inserted, lemma_items_modified, Binary64, CreateMonitoredItem,
    ModifyMonitoredItem, MonitoredItem,
};
use crate::subscription::{DataChangeNotification, LifecycleState, Publication, SubscriptionView};
use vstd::prelude::*;

verus! {

/// One thing that can happen to a subscription.
pub enum SubscriptionEvent {
    Tick { publish_ready: bool },
    DataChange { notifications: Seq<DataChangeNotification> },
    SetPublishingEnabled { publishing_enabled: bool },
    Modify {
        publishing_interval: Binary64,
        lifetime_count: u32,
        max_keep_alive_count: u32,
        max_notifications_per_publish: u32,
        priority: u8,
    },
    InsertMonitoredItems { creates: Seq<CreateMonitoredItem> },
    ModifyMonitoredItems { modifies: Seq<ModifyMonitoredItem> },
    DeleteMonitoredItems { ids: Seq<u32> },
}

/// The subscription after the event.
pub open spec fn after_event(subscription: SubscriptionView, event: SubscriptionEvent) -> SubscriptionView {
    match event {
        SubscriptionEvent::Tick { publish_ready } => subscription.after_tick(publish_ready),
        SubscriptionEvent::DataChange { notifications } => subscription.with_data(notifications),
        SubscriptionEvent::SetPublishingEnabled { publishing_enabled } => subscription.with_publishing(
            publishing_enabled,
        ),
        SubscriptionEvent::Modify {
            publishing_interval,
            lifetime_count,
            max_keep_alive_count,
            max_notifications_per_publish,
            priority,
        } => subscription.modified(
            publishing_interval,
            lifetime_count,
            max_keep_alive_count,
            max_notifications_per_publish,
            priority,
        ),
        SubscriptionEvent::InsertMonitoredItems { creates } => subscription.with_items_inserted(
            creates,
        ),
        SubscriptionEvent::ModifyMonitoredItems { modifies } => subscription.with_items_modified(
            modifies,
        ),
        SubscriptionEvent::DeleteMonitoredItems { ids } => subscription.with_items_deleted(ids),
    }
}

/// What the event makes the subscription send. Only a tick sends.
pub open spec fn sent_on_event(subscription: SubscriptionView, event: SubscriptionEvent) -> Publication {
    match event {
        SubscriptionEvent::Tick { publish_ready } => subscription.tick_action(publish_ready),
        _ => Publication::Nothing,
    }
}

/// The subscription after the events, first to last.
pub open spec fn after_events(subscription: SubscriptionView, events: Seq<SubscriptionEvent>) -> SubscriptionView
    decreases events.len(),
{
    if events.len() == 0 {
        subscription
    } else {
        after_event(after_events(subscription, events.drop_last()), events.last())
    }
}

/// The sequence numbers of the messages that the subscription sends over
/// the events, in the order in which it sends them.
pub open spec fn sequence_numbers_sent(
    subscription: SubscriptionView,
    events: Seq<SubscriptionEvent>,
) -> Seq<u32>
    decreases events.len(),
{
    if events.len() == 0 {
        Seq::empty()
    } else {
        let earlier = sequence_numbers_sent(subscription, events.drop_last());
        let before = after_events(subscription, events.drop_last());
        match sent_on_event(before, events.last()).sequence_number() {
            Some(number) => earlier.push(number),
            None => earlier,
        }
    }
}

/// The subscription after the ticks, first to last.
pub open spec fn after_ticks(subscription: SubscriptionView, ticks: Seq<bool>) -> SubscriptionView
    decreases ticks.len(),
{
    if ticks.len() == 0 {
        subscription
    } else {
        after_ticks(subscription, ticks.drop_last()).after_tick(ticks.last())
    }
}

/// Whatever happens to a subscription, in whatever order, the messages it
/// sends are numbered one after the other without a gap and without a
/// repeat: the first message after a given moment carries the number that
/// follows the last one sent before, and each later message the number that
/// follows its predecessor. The subscription keeps the number of the last
/// message it sent.
pub proof fn law_sequence_numbers_are_consecutive(
    subscription: SubscriptionView,
    events: Seq<SubscriptionEvent>,
)
    ensures
        forall|k: int|
            0 <= k < sequence_numbers_sent(subscription, events).len()
                ==> #[trigger] sequence_numbers_sent(subscription, events)[k]
                == subscription.sequence_number + 1 + k,
        after_events(subscription, events).sequence_number == subscription.sequence_number
            + sequence_numbers_sent(subscription, events).len(),
    decreases events.len(),
{
    if events.len() > 0 {
        law_sequence_numbers_are_consecutive(subscription, events.drop_last());
    }
}

/// The notifications that the subscription sends over the events, in the
/// order in which it sends them.
pub open spec fn notifications_sent(
    subscription: SubscriptionView,
    events: Seq<SubscriptionEvent>,
) -> Seq<DataChangeNotification>
    decreases events.len(),
{
    if events.len() == 0 {
        Seq::empty()
    } else {
        let earlier = notifications_sent(subscription, events.drop_last());
        let before = after_events(subscription, events.drop_last());
        match sent_on_event(before, events.last()) {
            Publication::DataChange { notifications, .. } => earlier + notifications,
            _ => earlier,
        }
    }
}

/// The notifications that the events hand to the subscription, in the order
/// in which they arrive.
pub open spec fn notifications_arrived(events: Seq<SubscriptionEvent>) -> Seq<
    DataChangeNotification,
>
    decreases events.len(),
{
    if events.len() == 0 {
        Seq::empty()
    } else {
        let earlier = notifications_arrived(events.drop_last());
        match events.last() {
            SubscriptionEvent::DataChange { notifications } => earlier + notifications,
            _ => earlier,
        }
    }
}

/// Nothing changes the state of a closed subscription: whatever happens to
/// it, it stays closed, holds no monitored item and no notification, sends
/// no message and keeps its counters and its sequence number.
pub proof fn law_closed_is_terminal(subscription: SubscriptionView, events: Seq<SubscriptionEvent>)
    requires
        subscription.wf(),
        subscription.is_closed(),
    ensures
        after_events(subscription, events).is_closed(),
        after_events(subscription, events).wf(),
        after_events(subscription, events).monitored_items == subscription.monitored_items,
        after_events(subscription, events).pending == subscription.pending,
        after_events(subscription, events).keep_alive_counter == subscription.keep_alive_counter,
        after_events(subscription, events).lifetime_counter == subscription.lifetime_counter,
        after_events(subscription, events).sequence_number == subscription.sequence_number,
        sequence_numbers_sent(subscription, events).len() == 0,
    decreases events.len(),
{
    if events.len() > 0 {
        law_closed_is_terminal(subscription, events.drop_last());
    }
}

/// A subscription that is still open has lost no notification, sent none
/// twice and none out of turn: what it has sent so far, followed by what
/// still waits, is what waited at the start followed by what arrived since,
/// in the order of arrival.
pub proof fn law_notifications_leave_in_arrival_order(
    subscription: SubscriptionView,
    events: Seq<SubscriptionEvent>,
)
    requires
        subscription.wf(),
        !after_events(subscription, events).is_closed(),
    ensures
        notifications_sent(subscription, events) + after_events(subscription, events).pending
            == subscription.pending + notifications_arrived(events),
    decreases events.len(),
{
    if events.len() > 0 {
        let front = events.drop_last();
        let before = after_events(subscription, front);
        lemma_events_keep_wf(subscription, front);
        if before.is_closed() {
            law_closed_is_terminal(before, seq![events.last()]);
        } else {
            law_notifications_leave_in_arrival_order(subscription, front);
            if let SubscriptionEvent::DataChange { notifications } = events.last() {
                let sent = notifications_sent(subscription, front);
                assert(sent + (before.pending + notifications) =~= (sent + before.pending)
                    + notifications);
            }
        }
    }
}

/// Every event leaves a well-formed subscription well formed.
pub proof fn lemma_events_keep_wf(subscription: SubscriptionView, events: Seq<SubscriptionEvent>)
    requires
        subscription.wf(),
    ensures
        after_events(subscription, events).wf(),
    decreases events.len(),
{
    if events.len() > 0 {
        lemma_events_keep_wf(subscription, events.drop_last());
        let before = after_events(subscription, events.drop_last());
        match events.last() {
            SubscriptionEvent::InsertMonitoredItems { creates } => {
                lemma_items_inserted(before.monitored_items, creates);
                lemma_inserted_is_finite(before.monitored_items, creates);
            },
            SubscriptionEvent::ModifyMonitoredItems { modifies } => {
                lemma_items_modified(before.monitored_items, modifies);
            },
            SubscriptionEvent::DeleteMonitoredItems { ids } => {
                assert(before.monitored_items.remove_keys(ids.to_set()).dom()
                    =~= before.monitored_items.dom().difference(ids.to_set()));
            },
            _ => {},
        }
    }
}

/// Serving insert requests on finitely many items leaves finitely many.
proof fn lemma_inserted_is_finite(
    items: Map<u32, MonitoredItem>,
    creates: Seq<CreateMonitoredItem>,
)
    requires
        items.dom().finite(),
    ensures
        items_inserted(items, creates).dom().finite(),
    decreases creates.len(),
{
    if creates.len() > 0 {
        lemma_inserted_is_finite(items, creates.drop_last());
    }
}

/// A new subscription with publishing disabled and without monitored items
/// closes on the tick number `lifetime_count`, and not before, if no tick up
/// to then sends a message.
pub proof fn law_abandoned_subscription_expires(
    subscription_id: u32,
    publishing_interval: Binary64,
    lifetime_count: u32,
    max_keep_alive_count: u32,
    max_notifications_per_publish: u32,
    priority: u8,
    ticks: Seq<bool>,
)
    requires
        lifetime_count > 0,
        ticks.len() == lifetime_count,
        forall|k: int|
            0 <= k < ticks.len() ==> (#[trigger] after_ticks(
                SubscriptionView::created(
                    subscription_id,
                    publishing_interval,
                    lifetime_count,
                    max_keep_alive_count,
                    max_notifications_per_publish,
                    priority,
                    false,
                ),
                ticks.take(k),
            )).tick_action(ticks[k]) == Publication::Nothing,
    ensures
        after_ticks(
            SubscriptionView::created(
                subscription_id,
                publishing_interval,
                lifetime_count,
                max_keep_alive_count,
                max_notifications_per_publish,
                priority,
                false,
            ),
            ticks,
        ).state == LifecycleState::Closed,
        forall|k: int|
            0 <= k < ticks.len() ==> (#[trigger] after_ticks(
                SubscriptionView::created(
                    subscription_id,
                    publishing_interval,
                    lifetime_count,
                    max_keep_alive_count,
                    max_notifications_per_publish,
                    priority,
                    false,
                ),
                ticks.take(k),
            )).state != LifecycleState::Closed,
{
    let start = SubscriptionView::created(
        subscription_id,
        publishing_interval,
        lifetime_count,
        max_keep_alive_count,
        max_notifications_per_publish,
        priority,
        false,
    );
    assert forall|k: int| 0 <= k < ticks.len() implies (#[trigger] after_ticks(
        start,
        ticks.take(k),
    )).state != LifecycleState::Closed by {
        lemma_unanswered_ticks(start, ticks, k);
    }
    lemma_unanswered_ticks(start, ticks, ticks.len() as int);
    assert(ticks.take(ticks.len() as int) =~= ticks);
}

/// A subscription that has passed `ticks` ticks, none of which sent a
/// message: nothing is enabled or monitored, every tick was counted against
/// the lifetime, and it is closed if and only if the lifetime is used up.
spec fn unanswered(subscription: SubscriptionView, ticks: int) -> bool {
    &&& !subscription.publishing_enabled
    &&& subscription.monitored_items.dom().is_empty()
    &&& subscription.lifetime_counter == ticks
    &&& subscription.state != LifecycleState::KeepAlive
    &&& subscription.state == LifecycleState::Closed <==> ticks >= subscription.lifetime_count
}

proof fn lemma_unanswered_ticks(start: SubscriptionView, ticks: Seq<bool>, k: int)
    requires
        0 <= k <= ticks.len(),
        ticks.len() == start.lifetime_count,
        start.lifetime_count > 0,
        unanswered(start, 0),
        forall|j: int|
            0 <= j < ticks.len() ==> (#[trigger] after_ticks(start, ticks.take(j))).tick_action(
                ticks[j],
            ) == Publication::Nothing,
    ensures
        unanswered(after_ticks(start, ticks.take(k)), k),
        after_ticks(start, ticks.take(k)).lifetime_count == start.lifetime_count,
    decreases k,
{
    if k > 0 {
        lemma_unanswered_ticks(start, ticks, k - 1);
        assert(ticks.take(k).drop_last() =~= ticks.take(k - 1));
    }
}

} // verus!
