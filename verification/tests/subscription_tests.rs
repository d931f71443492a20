use opcua_pubsub::monitored_item::{
    Binary64, CreateMonitoredItem, DataChangeFilter, DeadbandMode, ModifyMonitoredItem,
    MonitoredItem,
};
use opcua_pubsub::subscription::{
    DataChangeNotification, LifecycleState, PublishAction, Subscription,
};

fn millis(value: f64) -> Binary64 {
    Binary64::from_bits(value.to_bits())
}

fn subscription(lifetime_count: u32, max_keep_alive_count: u32, enabled: bool) -> Subscription {
    Subscription::new(1, millis(500.0), lifetime_count, max_keep_alive_count, 0, 0, enabled)
}

fn change(client_handle: u32, byte: u8) -> DataChangeNotification {
    DataChangeNotification { client_handle, value: vec![byte] }
}

fn create(id: u32, queue_size: u32) -> CreateMonitoredItem {
    CreateMonitoredItem {
        id,
        client_handle: id + 1000,
        sampling_interval: millis(100.0),
        queue_size,
        discard_oldest: true,
        filter: DataChangeFilter { mode: DeadbandMode::Off, deadband: millis(0.0) },
    }
}

#[test]
fn binary64_keeps_its_bits() {
    let interval = millis(500.0);
    assert_eq!(interval.to_bits(), 500.0f64.to_bits());
    assert_eq!(f64::from_bits(interval.to_bits()), 500.0);
    assert_ne!(millis(500.0), millis(250.0));
}

#[test]
fn a_new_subscription_is_creating_and_has_sent_nothing() {
    let s = Subscription::new(42, millis(500.0), 30, 10, 5, 7, true);
    assert_eq!(s.subscription_id(), 42);
    assert_eq!(s.publishing_interval(), millis(500.0));
    assert_eq!(s.lifetime_count(), 30);
    assert_eq!(s.max_keep_alive_count(), 10);
    assert_eq!(s.max_notifications_per_publish(), 5);
    assert_eq!(s.priority(), 7);
    assert!(s.publishing_enabled());
    assert_eq!(s.state(), LifecycleState::Creating);
    assert_eq!(s.keep_alive_counter(), 0);
    assert_eq!(s.lifetime_counter(), 0);
    assert_eq!(s.sequence_number(), 0);
    assert_eq!(s.monitored_item_count(), 0);
    assert_eq!(s.pending_count(), 0);
}

#[test]
fn setters_change_one_setting_each() {
    let mut s = subscription(3, 2, true);
    s.set_publishing_interval(millis(250.0));
    s.set_lifetime_count(9);
    s.set_max_keep_alive_count(4);
    s.set_max_notifications_per_publish(6);
    s.set_priority(200);
    s.set_publishing_enabled(false);
    assert_eq!(s.publishing_interval(), millis(250.0));
    assert_eq!(s.lifetime_count(), 9);
    assert_eq!(s.max_keep_alive_count(), 4);
    assert_eq!(s.max_notifications_per_publish(), 6);
    assert_eq!(s.priority(), 200);
    assert!(!s.publishing_enabled());
    assert_eq!(s.subscription_id(), 1);
    assert_eq!(s.state(), LifecycleState::Creating);
    assert_eq!(s.sequence_number(), 0);
}

#[test]
fn keep_alive_after_two_idle_ticks() {
    let mut s = Subscription::new(1, millis(500.0), 3, 2, 0, 0, true);

    assert_eq!(s.tick(true), PublishAction::Nothing);
    assert_eq!(s.state(), LifecycleState::Normal);
    assert_eq!(s.keep_alive_counter(), 1);
    assert_eq!(s.lifetime_counter(), 1);

    assert_eq!(s.tick(true), PublishAction::KeepAlive { sequence_number: 1 });
    assert_eq!(s.state(), LifecycleState::KeepAlive);
    assert_eq!(s.keep_alive_counter(), 0);
    assert_eq!(s.lifetime_counter(), 0);
    assert_eq!(s.sequence_number(), 1);

    assert_eq!(s.tick(true), PublishAction::Nothing);
    assert_eq!(s.state(), LifecycleState::KeepAlive);
    assert_eq!(s.keep_alive_counter(), 1);
    assert_eq!(s.lifetime_counter(), 0);
    assert_eq!(s.sequence_number(), 1);
}

#[test]
fn keep_alives_go_on_while_nothing_changes() {
    let mut s = subscription(3, 2, true);
    let mut sent = vec![];
    for _ in 0..8 {
        if let PublishAction::KeepAlive { sequence_number } = s.tick(true) {
            sent.push(sequence_number);
        }
        assert_ne!(s.state(), LifecycleState::Closed);
    }
    assert_eq!(sent, vec![1, 2, 3, 4]);
}

#[test]
fn an_abandoned_subscription_closes_after_lifetime_count_ticks() {
    let mut s = subscription(3, 10, false);
    assert_eq!(s.tick(false), PublishAction::Nothing);
    assert_eq!(s.state(), LifecycleState::Creating);
    assert_eq!(s.lifetime_counter(), 1);
    assert_eq!(s.tick(false), PublishAction::Nothing);
    assert_eq!(s.state(), LifecycleState::Creating);
    assert_eq!(s.lifetime_counter(), 2);
    assert_eq!(s.tick(false), PublishAction::Nothing);
    assert_eq!(s.state(), LifecycleState::Closed);
    assert_eq!(s.lifetime_counter(), 3);
    assert_eq!(s.sequence_number(), 0);
}

#[test]
fn an_abandoned_subscription_closes_also_when_keep_alives_fall_due() {
    let mut s = subscription(4, 2, false);
    assert_eq!(s.tick(false), PublishAction::Nothing);
    assert_eq!(s.state(), LifecycleState::Creating);
    assert_eq!(s.tick(false), PublishAction::Nothing);
    assert_eq!(s.state(), LifecycleState::Late);
    assert_eq!(s.tick(false), PublishAction::Nothing);
    assert_eq!(s.state(), LifecycleState::Late);
    assert_eq!(s.lifetime_counter(), 3);
    assert_eq!(s.tick(false), PublishAction::Nothing);
    assert_eq!(s.state(), LifecycleState::Closed);
}

#[test]
fn a_lifetime_of_one_closes_on_the_first_unanswered_tick() {
    let mut s = subscription(1, 5, false);
    assert_eq!(s.tick(true), PublishAction::Nothing);
    assert_eq!(s.state(), LifecycleState::Closed);
}

#[test]
fn a_disabled_subscription_still_sends_keep_alives() {
    let mut s = subscription(10, 2, false);
    s.data_change(vec![change(1, 1), change(2, 2)]);
    assert_eq!(s.tick(true), PublishAction::Nothing);
    assert_eq!(s.state(), LifecycleState::Creating);
    assert_eq!(s.tick(true), PublishAction::KeepAlive { sequence_number: 1 });
    assert_eq!(s.state(), LifecycleState::KeepAlive);
    assert_eq!(s.pending_count(), 2);

    s.set_publishing_enabled(true);
    assert_eq!(
        s.tick(true),
        PublishAction::DataChange {
            sequence_number: 2,
            notifications: vec![change(1, 1), change(2, 2)],
            more_notifications: false,
        }
    );
    assert_eq!(s.state(), LifecycleState::Normal);
}

#[test]
fn a_creating_subscription_starts_once_it_has_an_item() {
    let mut s = subscription(10, 5, false);
    assert_eq!(s.tick(true), PublishAction::Nothing);
    assert_eq!(s.state(), LifecycleState::Creating);
    s.insert_monitored_items(&[create(1, 1)]);
    assert_eq!(s.tick(true), PublishAction::Nothing);
    assert_eq!(s.state(), LifecycleState::Normal);
}

#[test]
fn notifications_go_out_oldest_first() {
    let mut s = subscription(10, 5, true);
    s.data_change(vec![change(1, 10), change(2, 20)]);
    s.data_change(vec![change(3, 30)]);
    assert_eq!(s.pending_count(), 3);
    assert_eq!(
        s.tick(true),
        PublishAction::DataChange {
            sequence_number: 1,
            notifications: vec![change(1, 10), change(2, 20), change(3, 30)],
            more_notifications: false,
        }
    );
    assert_eq!(s.pending_count(), 0);
    assert_eq!(s.state(), LifecycleState::Normal);
    assert_eq!(s.keep_alive_counter(), 0);
    assert_eq!(s.lifetime_counter(), 0);
}

#[test]
fn a_batch_holds_at_most_max_notifications_per_publish() {
    let mut s = Subscription::new(1, millis(500.0), 10, 5, 2, 0, true);
    s.data_change(vec![change(1, 1), change(2, 2), change(3, 3), change(4, 4), change(5, 5)]);
    assert_eq!(
        s.tick(true),
        PublishAction::DataChange {
            sequence_number: 1,
            notifications: vec![change(1, 1), change(2, 2)],
            more_notifications: true,
        }
    );
    assert_eq!(s.pending_count(), 3);
    assert_eq!(
        s.tick(true),
        PublishAction::DataChange {
            sequence_number: 2,
            notifications: vec![change(3, 3), change(4, 4)],
            more_notifications: true,
        }
    );
    assert_eq!(
        s.tick(true),
        PublishAction::DataChange {
            sequence_number: 3,
            notifications: vec![change(5, 5)],
            more_notifications: false,
        }
    );
    assert_eq!(s.pending_count(), 0);
    assert_eq!(s.sequence_number(), 3);
}

#[test]
fn a_batch_of_exactly_the_limit_leaves_nothing() {
    let mut s = Subscription::new(1, millis(500.0), 10, 5, 2, 0, true);
    s.data_change(vec![change(1, 1), change(2, 2)]);
    assert_eq!(
        s.tick(true),
        PublishAction::DataChange {
            sequence_number: 1,
            notifications: vec![change(1, 1), change(2, 2)],
            more_notifications: false,
        }
    );
}

#[test]
fn sequence_numbers_rise_by_one_over_data_and_keep_alives() {
    let mut s = subscription(100, 1, true);
    let mut numbers = vec![];
    let ready = [true, false, true, true, false, false, true, true, true, false, true];
    for (round, publish_ready) in ready.iter().enumerate() {
        if round % 3 == 0 {
            s.data_change(vec![change(round as u32, 0)]);
        }
        if round == 4 {
            s.set_publishing_enabled(false);
        }
        if round == 7 {
            s.set_publishing_enabled(true);
            s.set_max_keep_alive_count(2);
        }
        match s.tick(*publish_ready) {
            PublishAction::Nothing => {}
            PublishAction::KeepAlive { sequence_number } => numbers.push(sequence_number),
            PublishAction::DataChange { sequence_number, .. } => numbers.push(sequence_number),
        }
        assert_eq!(s.sequence_number() as usize, numbers.len());
    }
    assert!(numbers.len() >= 4);
    for (position, number) in numbers.iter().enumerate() {
        assert_eq!(*number as usize, position + 1);
    }
}

#[test]
fn a_missed_publish_makes_the_subscription_late() {
    let mut s = subscription(3, 5, true);
    s.data_change(vec![change(1, 1)]);
    assert_eq!(s.tick(false), PublishAction::Nothing);
    assert_eq!(s.state(), LifecycleState::Late);
    assert_eq!(s.lifetime_counter(), 1);
    assert_eq!(s.pending_count(), 1);

    assert_eq!(
        s.tick(true),
        PublishAction::DataChange {
            sequence_number: 1,
            notifications: vec![change(1, 1)],
            more_notifications: false,
        }
    );
    assert_eq!(s.state(), LifecycleState::Normal);
    assert_eq!(s.lifetime_counter(), 0);
}

#[test]
fn a_late_subscription_closes_when_its_lifetime_is_over() {
    let mut s = subscription(2, 5, true);
    s.insert_monitored_items(&[create(1, 1), create(2, 1)]);
    s.data_change(vec![change(1, 1)]);
    assert_eq!(s.tick(false), PublishAction::Nothing);
    assert_eq!(s.state(), LifecycleState::Late);
    assert_eq!(s.tick(false), PublishAction::Nothing);
    assert_eq!(s.state(), LifecycleState::Closed);
    assert_eq!(s.monitored_item_count(), 0);
    assert_eq!(s.pending_count(), 0);
}

#[test]
fn nothing_changes_a_closed_subscription() {
    let mut s = subscription(1, 5, true);
    assert_eq!(s.tick(false), PublishAction::Nothing);
    assert_eq!(s.state(), LifecycleState::Closed);

    s.data_change(vec![change(1, 1)]);
    s.insert_monitored_items(&[create(1, 1)]);
    s.modify_monitored_items(&[ModifyMonitoredItem {
        id: 1,
        sampling_interval: millis(1.0),
        queue_size: 1,
    }]);
    s.delete_monitored_items(&[1]);
    assert_eq!(s.pending_count(), 0);
    assert_eq!(s.monitored_item_count(), 0);

    assert_eq!(s.tick(true), PublishAction::Nothing);
    assert_eq!(s.tick(true), PublishAction::Nothing);
    assert_eq!(s.state(), LifecycleState::Closed);
    assert_eq!(s.sequence_number(), 0);
    assert_eq!(s.lifetime_counter(), 1);
}

#[test]
fn a_keep_alive_count_of_zero_sends_on_every_idle_tick() {
    let mut s = subscription(5, 0, true);
    assert_eq!(s.tick(true), PublishAction::KeepAlive { sequence_number: 1 });
    assert_eq!(s.tick(true), PublishAction::KeepAlive { sequence_number: 2 });
    assert_eq!(s.tick(false), PublishAction::Nothing);
    assert_eq!(s.state(), LifecycleState::Late);
    assert_eq!(s.tick(true), PublishAction::KeepAlive { sequence_number: 3 });
}

#[test]
fn a_missed_publish_starts_the_keep_alive_count_anew() {
    let mut s = subscription(10, 3, true);
    assert_eq!(s.tick(true), PublishAction::Nothing);
    assert_eq!(s.tick(true), PublishAction::Nothing);
    assert_eq!(s.keep_alive_counter(), 2);
    s.data_change(vec![change(1, 1)]);
    assert_eq!(s.tick(false), PublishAction::Nothing);
    assert_eq!(s.keep_alive_counter(), 0);
    assert_eq!(s.state(), LifecycleState::Late);
}

#[test]
fn monitored_items_are_stored_under_their_ids() {
    let mut s = subscription(10, 5, true);
    s.insert_monitored_items(&[create(3, 10), create(4, 20)]);
    assert_eq!(s.monitored_item_count(), 2);
    assert_eq!(
        s.monitored_item(3),
        Some(MonitoredItem {
            id: 3,
            client_handle: 1003,
            sampling_interval: millis(100.0),
            queue_size: 10,
            discard_oldest: true,
            filter: DataChangeFilter { mode: DeadbandMode::Off, deadband: millis(0.0) },
        })
    );
    assert_eq!(s.monitored_item(4).map(|item| item.queue_size), Some(20));
    assert_eq!(s.monitored_item(5), None);
}

#[test]
fn inserting_an_id_twice_keeps_the_later_item() {
    let mut s = subscription(10, 5, true);
    s.insert_monitored_items(&[create(3, 10), create(3, 99)]);
    assert_eq!(s.monitored_item_count(), 1);
    assert_eq!(s.monitored_item(3).map(|item| item.queue_size), Some(99));
    s.insert_monitored_items(&[create(3, 7)]);
    assert_eq!(s.monitored_item(3).map(|item| item.queue_size), Some(7));
}

#[test]
fn modify_changes_sampling_parameters_and_skips_unknown_ids() {
    let mut s = subscription(10, 5, true);
    s.insert_monitored_items(&[create(3, 10), create(4, 20)]);
    s.modify_monitored_items(&[
        ModifyMonitoredItem { id: 3, sampling_interval: millis(5.0), queue_size: 11 },
        ModifyMonitoredItem { id: 9, sampling_interval: millis(5.0), queue_size: 11 },
    ]);
    assert_eq!(s.monitored_item_count(), 2);
    let changed = s.monitored_item(3).unwrap();
    assert_eq!(changed.sampling_interval, millis(5.0));
    assert_eq!(changed.queue_size, 11);
    assert_eq!(changed.client_handle, 1003);
    assert!(changed.discard_oldest);
    assert_eq!(s.monitored_item(4).map(|item| item.queue_size), Some(20));
    assert_eq!(s.monitored_item(9), None);
}

#[test]
fn deleting_the_last_item_keeps_the_subscription() {
    let mut s = subscription(10, 5, true);
    s.insert_monitored_items(&[create(3, 10), create(4, 20)]);
    assert_eq!(s.tick(true), PublishAction::Nothing);
    s.delete_monitored_items(&[4, 8]);
    assert_eq!(s.monitored_item_count(), 1);
    assert_eq!(s.monitored_item(4), None);
    s.delete_monitored_items(&[3, 3]);
    assert_eq!(s.monitored_item_count(), 0);
    assert_eq!(s.state(), LifecycleState::Normal);
    assert_eq!(s.subscription_id(), 1);
}

#[test]
fn item_operations_leave_counters_and_queue_alone() {
    let mut s = subscription(10, 5, true);
    s.data_change(vec![change(1, 1)]);
    assert_eq!(s.tick(false), PublishAction::Nothing);
    s.insert_monitored_items(&[create(3, 10)]);
    s.modify_monitored_items(&[ModifyMonitoredItem {
        id: 3,
        sampling_interval: millis(1.0),
        queue_size: 2,
    }]);
    s.delete_monitored_items(&[3]);
    assert_eq!(s.pending_count(), 1);
    assert_eq!(s.lifetime_counter(), 1);
    assert_eq!(s.state(), LifecycleState::Late);
    assert_eq!(s.sequence_number(), 0);
}
