use opcua_pubsub::monitored_item::{
    Binary64, CreateMonitoredItem, DataChangeFilter, DeadbandMode, ModifyMonitoredItem,
};
use opcua_pubsub::subscription::{
    DataChangeNotification, LifecycleState, PublishAction, Subscription,
};
use opcua_pubsub::subscription_state::SubscriptionState;

fn millis(value: f64) -> Binary64 {
    Binary64::from_bits(value.to_bits())
}

fn subscription(id: u32) -> Subscription {
    Subscription::new(id, millis(500.0), 3, 2, 0, 0, false)
}

fn with_priority(id: u32, priority: u8) -> Subscription {
    Subscription::new(id, millis(500.0), 3, 2, 0, priority, true)
}

fn create(id: u32) -> CreateMonitoredItem {
    CreateMonitoredItem {
        id,
        client_handle: id,
        sampling_interval: millis(100.0),
        queue_size: 1,
        discard_oldest: false,
        filter: DataChangeFilter { mode: DeadbandMode::Absolute, deadband: millis(0.5) },
    }
}

fn sorted(mut ids: Vec<u32>) -> Vec<u32> {
    ids.sort();
    ids
}

#[test]
fn a_new_registry_is_empty() {
    let registry = SubscriptionState::new();
    assert_eq!(registry.len(), 0);
    assert!(registry.is_empty());
    assert_eq!(registry.subscription_ids(), None);
    assert!(!registry.subscription_exists(0));
    assert!(registry.get(0).is_none());
}

#[test]
fn exists_follows_the_last_add_or_delete() {
    let mut registry = SubscriptionState::new();
    assert!(!registry.subscription_exists(7));
    registry.add_subscription(subscription(7));
    assert!(registry.subscription_exists(7));
    registry.add_subscription(subscription(8));
    assert!(registry.subscription_exists(7));
    assert!(registry.delete_subscription(7).is_some());
    assert!(!registry.subscription_exists(7));
    assert!(registry.subscription_exists(8));
    assert!(registry.delete_subscription(8).is_some());
    assert!(!registry.subscription_exists(7));
    registry.add_subscription(subscription(9));
    assert!(!registry.subscription_exists(7));
    registry.add_subscription(subscription(7));
    assert!(registry.subscription_exists(7));
    assert!(registry.delete_subscription(7).is_some());
    assert!(registry.delete_subscription(7).is_none());
    assert!(!registry.subscription_exists(7));
}

#[test]
fn subscription_ids_lists_each_id_once() {
    let mut registry = SubscriptionState::new();
    registry.add_subscription(subscription(3));
    assert_eq!(registry.subscription_ids(), Some(vec![3]));
    registry.add_subscription(subscription(1));
    registry.add_subscription(subscription(2));
    registry.add_subscription(subscription(3));
    assert_eq!(registry.subscription_ids().map(sorted), Some(vec![1, 2, 3]));
    assert_eq!(registry.len(), 3);
    registry.delete_subscription(1);
    registry.delete_subscription(2);
    registry.delete_subscription(3);
    assert_eq!(registry.subscription_ids(), None);
}

#[test]
fn get_returns_the_stored_subscription() {
    let mut registry = SubscriptionState::new();
    registry.add_subscription(Subscription::new(4, millis(250.0), 30, 10, 5, 9, true));
    let found = registry.get(4).unwrap();
    assert_eq!(found.subscription_id(), 4);
    assert_eq!(found.publishing_interval(), millis(250.0));
    assert_eq!(found.lifetime_count(), 30);
    assert_eq!(found.max_keep_alive_count(), 10);
    assert_eq!(found.max_notifications_per_publish(), 5);
    assert_eq!(found.priority(), 9);
    assert!(found.publishing_enabled());
    assert!(registry.get(5).is_none());
}

#[test]
fn add_replaces_a_subscription_of_the_same_id() {
    let mut registry = SubscriptionState::new();
    registry.add_subscription(with_priority(4, 1));
    registry.add_subscription(with_priority(4, 2));
    assert_eq!(registry.len(), 1);
    assert_eq!(registry.get(4).unwrap().priority(), 2);
}

#[test]
fn delete_returns_the_subscription() {
    let mut registry = SubscriptionState::new();
    registry.add_subscription(with_priority(4, 17));
    let removed = registry.delete_subscription(4).unwrap();
    assert_eq!(removed.subscription_id(), 4);
    assert_eq!(removed.priority(), 17);
    assert!(registry.is_empty());
}

#[test]
fn modify_changes_the_five_settings_only() {
    let mut registry = SubscriptionState::new();
    registry.add_subscription(subscription(4));
    registry.insert_monitored_items(4, &[create(1)]);
    registry.subscription_data_change(
        4,
        vec![DataChangeNotification { client_handle: 1, value: vec![1] }],
    );
    assert_eq!(registry.tick_subscription(4, false), Some(PublishAction::Nothing));

    registry.modify_subscription(4, millis(125.0), 40, 20, 7, 3);

    let changed = registry.get(4).unwrap();
    assert_eq!(changed.publishing_interval(), millis(125.0));
    assert_eq!(changed.lifetime_count(), 40);
    assert_eq!(changed.max_keep_alive_count(), 20);
    assert_eq!(changed.max_notifications_per_publish(), 7);
    assert_eq!(changed.priority(), 3);
    assert!(!changed.publishing_enabled());
    assert_eq!(changed.monitored_item_count(), 1);
    assert_eq!(changed.pending_count(), 1);
    assert_eq!(changed.keep_alive_counter(), 1);
    assert_eq!(changed.lifetime_counter(), 1);
    assert_eq!(changed.state(), LifecycleState::Normal);
    assert_eq!(changed.sequence_number(), 0);
}

#[test]
fn modify_of_an_unknown_id_changes_nothing() {
    let mut registry = SubscriptionState::new();
    registry.add_subscription(Subscription::new(4, millis(250.0), 30, 10, 5, 9, true));
    registry.modify_subscription(5, millis(1.0), 1, 1, 1, 1);
    assert_eq!(registry.len(), 1);
    assert!(!registry.subscription_exists(5));
    let kept = registry.get(4).unwrap();
    assert_eq!(kept.publishing_interval(), millis(250.0));
    assert_eq!(kept.lifetime_count(), 30);
    assert_eq!(kept.max_keep_alive_count(), 10);
    assert_eq!(kept.max_notifications_per_publish(), 5);
    assert_eq!(kept.priority(), 9);
}

#[test]
fn set_publishing_mode_skips_unknown_ids() {
    let mut registry = SubscriptionState::new();
    registry.add_subscription(subscription(1));
    registry.add_subscription(subscription(2));
    registry.set_publishing_mode(&[1, 99], true);
    assert!(registry.get(1).unwrap().publishing_enabled());
    assert!(!registry.get(2).unwrap().publishing_enabled());
    assert!(!registry.subscription_exists(99));
    assert_eq!(registry.len(), 2);
}

#[test]
fn set_publishing_mode_goes_on_after_an_unknown_id() {
    let mut registry = SubscriptionState::new();
    registry.add_subscription(with_priority(1, 0));
    registry.add_subscription(with_priority(2, 0));
    registry.add_subscription(with_priority(3, 0));
    registry.set_publishing_mode(&[99, 1, 98, 3, 1], false);
    assert!(!registry.get(1).unwrap().publishing_enabled());
    assert!(registry.get(2).unwrap().publishing_enabled());
    assert!(!registry.get(3).unwrap().publishing_enabled());
    registry.set_publishing_mode(&[], true);
    assert!(!registry.get(1).unwrap().publishing_enabled());
}

#[test]
fn operations_on_an_unknown_subscription_do_nothing() {
    let mut registry = SubscriptionState::new();
    registry.add_subscription(subscription(1));
    registry.insert_monitored_items(2, &[create(1)]);
    registry.modify_monitored_items(
        2,
        &[ModifyMonitoredItem { id: 1, sampling_interval: millis(1.0), queue_size: 1 }],
    );
    registry.delete_monitored_items(2, &[1]);
    registry.subscription_data_change(
        2,
        vec![DataChangeNotification { client_handle: 1, value: vec![] }],
    );
    assert_eq!(registry.tick_subscription(2, true), None);
    assert_eq!(registry.len(), 1);
    let kept = registry.get(1).unwrap();
    assert_eq!(kept.monitored_item_count(), 0);
    assert_eq!(kept.pending_count(), 0);
    assert_eq!(kept.state(), LifecycleState::Creating);
}

#[test]
fn monitored_items_reach_the_named_subscription() {
    let mut registry = SubscriptionState::new();
    registry.add_subscription(subscription(1));
    registry.add_subscription(subscription(2));
    registry.insert_monitored_items(1, &[create(10), create(11)]);
    registry.modify_monitored_items(
        1,
        &[ModifyMonitoredItem { id: 10, sampling_interval: millis(7.0), queue_size: 70 }],
    );
    registry.delete_monitored_items(1, &[11]);
    let one = registry.get(1).unwrap();
    assert_eq!(one.monitored_item_count(), 1);
    assert_eq!(one.monitored_item(10).map(|item| item.queue_size), Some(70));
    assert_eq!(one.monitored_item(10).map(|item| item.sampling_interval), Some(millis(7.0)));
    assert_eq!(one.monitored_item(11), None);
    assert_eq!(registry.get(2).unwrap().monitored_item_count(), 0);
}

#[test]
fn data_changes_queue_in_arrival_order() {
    let mut registry = SubscriptionState::new();
    registry.add_subscription(with_priority(1, 0));
    let first = DataChangeNotification { client_handle: 1, value: vec![1] };
    let second = DataChangeNotification { client_handle: 2, value: vec![2, 2] };
    registry.subscription_data_change(1, vec![first.clone()]);
    registry.subscription_data_change(1, vec![second.clone()]);
    assert_eq!(
        registry.tick_subscription(1, true),
        Some(PublishAction::DataChange {
            sequence_number: 1,
            notifications: vec![first, second],
            more_notifications: false,
        })
    );
}

#[test]
fn drain_hands_out_everything_and_empties_the_registry() {
    let mut registry = SubscriptionState::new();
    registry.add_subscription(subscription(5));
    registry.add_subscription(subscription(9));
    let drained = registry.drain_subscriptions();
    assert_eq!(drained.len(), 2);
    assert_eq!(drained.get(&5).map(|s| s.subscription_id()), Some(5));
    assert_eq!(drained.get(&9).map(|s| s.subscription_id()), Some(9));
    assert_eq!(sorted(drained.keys().copied().collect()), vec![5, 9]);
    assert_eq!(registry.subscription_ids(), None);
    assert!(!registry.subscription_exists(5));
    assert!(!registry.subscription_exists(9));
    assert_eq!(registry.len(), 0);
    assert!(registry.drain_subscriptions().is_empty());
}

#[test]
fn a_subscription_that_a_tick_closes_leaves_the_registry() {
    let mut registry = SubscriptionState::new();
    registry.add_subscription(Subscription::new(1, millis(500.0), 2, 5, 0, 0, false));
    registry.add_subscription(subscription(2));
    assert_eq!(registry.tick_subscription(1, false), Some(PublishAction::Nothing));
    assert!(registry.subscription_exists(1));
    assert_eq!(registry.get(1).unwrap().lifetime_counter(), 1);
    assert_eq!(registry.tick_subscription(1, false), Some(PublishAction::Nothing));
    assert!(!registry.subscription_exists(1));
    assert!(registry.subscription_exists(2));
    assert_eq!(registry.tick_subscription(1, false), None);
}

#[test]
fn tick_reports_what_the_subscription_sends() {
    let mut registry = SubscriptionState::new();
    registry.add_subscription(Subscription::new(1, millis(500.0), 3, 2, 0, 0, true));
    assert_eq!(registry.tick_subscription(1, true), Some(PublishAction::Nothing));
    assert_eq!(
        registry.tick_subscription(1, true),
        Some(PublishAction::KeepAlive { sequence_number: 1 })
    );
    assert_eq!(registry.get(1).unwrap().state(), LifecycleState::KeepAlive);
    assert_eq!(registry.get(1).unwrap().sequence_number(), 1);
}

#[test]
fn the_highest_priority_publishes_first() {
    let mut registry = SubscriptionState::new();
    registry.add_subscription(with_priority(1, 10));
    registry.add_subscription(with_priority(2, 200));
    registry.add_subscription(with_priority(3, 50));
    assert_eq!(registry.first_to_publish(&[1, 2, 3]), Some(1));
    assert_eq!(registry.first_to_publish(&[3, 1]), Some(0));
    assert_eq!(registry.first_to_publish(&[1]), Some(0));
    assert_eq!(registry.first_to_publish(&[99, 1, 98, 3]), Some(3));
}

#[test]
fn equal_priorities_publish_in_list_order() {
    let mut registry = SubscriptionState::new();
    registry.add_subscription(with_priority(1, 5));
    registry.add_subscription(with_priority(2, 5));
    registry.add_subscription(with_priority(3, 0));
    assert_eq!(registry.first_to_publish(&[3, 2, 1]), Some(1));
    assert_eq!(registry.first_to_publish(&[3, 1, 2]), Some(1));
    assert_eq!(registry.first_to_publish(&[3, 3]), Some(0));
}

#[test]
fn no_candidate_publishes_where_none_is_held() {
    let mut registry = SubscriptionState::new();
    assert_eq!(registry.first_to_publish(&[]), None);
    assert_eq!(registry.first_to_publish(&[1, 2]), None);
    registry.add_subscription(with_priority(1, 0));
    assert_eq!(registry.first_to_publish(&[]), None);
    assert_eq!(registry.first_to_publish(&[2, 3]), None);
    assert_eq!(registry.first_to_publish(&[2, 1]), Some(1));
}
