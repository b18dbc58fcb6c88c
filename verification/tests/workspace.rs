//! Applications that start, come to the front and end.

use std::cell::Cell;

use zanei_macos::channel::BoundedChannel;
use zanei_macos::schema::{EmptyData, EventData, Window};
use zanei_macos::workspace::collector::{
    CollectorError, QueuedNotification, WorkspaceCollector, WorkspaceNotifications,
    CALLBACK_QUEUE_CAPACITY,
};
use zanei_macos::workspace::{
    decode_notification, lifecycle_raw_event, notification_channel, process_startup,
    process_workspace_event, ActivationTracker, ApplicationActivationPolicy, ApplicationInfo,
    NativeApplication, NotificationKind, WorkspaceEvent,
};

fn app(name: &str, bundle_id: &str, pid: i64) -> ApplicationInfo {
    ApplicationInfo {
        name: name.to_owned(),
        bundle_id: Some(bundle_id.to_owned()),
        pid,
        activation_policy: ApplicationActivationPolicy::Regular,
    }
}

fn native(pid: i32) -> NativeApplication {
    NativeApplication {
        name: Some("Example".to_owned()),
        bundle_id: Some("dev.example.App".to_owned()),
        pid,
        activation_policy: 0,
    }
}

#[test]
fn lifecycle_events_use_the_workspace_source() {
    let app = app("Example", "dev.example.App", 42);
    let event = lifecycle_raw_event("app.launch", &app, EventData::AppLaunch(EmptyData {}));

    assert_eq!(event.source, "macos.workspace");
    assert_eq!(event.event_type, "app.launch");
    assert_eq!(event.app.pid, Some(42));
    assert!(matches!(event.data, EventData::AppLaunch(_)));
}

#[test]
fn startup_emits_the_initial_activation_with_no_previous_app() {
    let mut sender = BoundedChannel::new(1);
    let mut dropped = 0;
    process_startup(
        Vec::new(),
        || Some(app("Example", "dev.example.App", 42)),
        &|_| Some(Window { title: Some("Initial".to_owned()), id: Some(7) }),
        &mut ActivationTracker::default(),
        &mut sender,
        &mut Vec::new(),
        &mut dropped,
    );

    let event = sender.try_recv().expect("initial activation");
    assert_eq!(event.event_type, "app.activate");
    assert_eq!(event.window.and_then(|window| window.id), Some(7));
    let EventData::AppActivate(data) = event.data else {
        panic!("expected app.activate payload");
    };
    assert_eq!(data, EmptyData {});
}

#[test]
fn queued_activation_wins_over_snapshot_and_duplicates_are_suppressed() {
    let queued = app("Queued", "dev.example.Queued", 43);
    let mut sender = BoundedChannel::new(2);
    let mut dropped = 0;
    process_startup(
        vec![WorkspaceEvent::Activated(queued.clone()), WorkspaceEvent::Activated(queued)],
        || panic!("snapshot must not run when activation is already queued"),
        &|_| Some(Window { title: Some("Queued".to_owned()), id: Some(8) }),
        &mut ActivationTracker::default(),
        &mut sender,
        &mut Vec::new(),
        &mut dropped,
    );

    assert_eq!(sender.try_recv().expect("queued activation").app.pid, Some(43));
    assert!(sender.try_recv().is_none());
}

#[test]
fn termination_lets_the_next_activation_through() {
    let mut tracker = ActivationTracker::default();
    let mut sender = BoundedChannel::new(8);
    let mut subscribers = vec![notification_channel()];
    let mut dropped = 0;
    let example = || app("Example", "dev.example.App", 42);
    for event in [
        WorkspaceEvent::Activated(example()),
        WorkspaceEvent::Activated(example()),
        WorkspaceEvent::Terminated(example()),
        WorkspaceEvent::Activated(example()),
        WorkspaceEvent::DidWake,
    ] {
        process_workspace_event(
            event,
            &mut tracker,
            &|_| None,
            &mut sender,
            &mut subscribers,
            &mut dropped,
        );
    }
    let types: Vec<String> = sender.drain().into_iter().map(|event| event.event_type).collect();
    assert_eq!(types, vec!["app.activate", "app.terminate", "app.activate"]);
    let notified = subscribers[0].drain();
    assert_eq!(notified.len(), 4);
    assert_eq!(notified[3], WorkspaceEvent::DidWake);
    assert_eq!(dropped, 0);
}

#[test]
fn full_channels_are_counted() {
    let mut sender = BoundedChannel::new(0);
    let mut full = BoundedChannel::new(1);
    assert!(full.try_send(WorkspaceEvent::DidWake).is_ok());
    let mut subscribers = vec![full];
    let mut dropped = 0;
    process_workspace_event(
        WorkspaceEvent::Launched(app("Example", "dev.example.App", 42)),
        &mut ActivationTracker::default(),
        &|_| None,
        &mut sender,
        &mut subscribers,
        &mut dropped,
    );
    assert_eq!(dropped, 2);
}

#[test]
fn applications_need_a_name_a_process_and_a_known_policy() {
    assert_eq!(native(7).decode().map(|app| app.pid), Some(7));
    assert_eq!(native(0).decode(), None);
    assert_eq!(NativeApplication { name: None, ..native(7) }.decode(), None);
    assert_eq!(NativeApplication { activation_policy: 3, ..native(7) }.decode(), None);
    let accessory = NativeApplication { activation_policy: 1, ..native(7) };
    assert_eq!(
        accessory.decode().map(|app| app.activation_policy),
        Some(ApplicationActivationPolicy::Accessory)
    );
    assert_eq!(
        ApplicationActivationPolicy::from_raw(2),
        Some(ApplicationActivationPolicy::Prohibited)
    );
}

#[test]
fn only_a_wake_up_needs_no_application() {
    assert_eq!(
        decode_notification(NotificationKind::DidWake, None),
        Some(WorkspaceEvent::DidWake)
    );
    assert_eq!(decode_notification(NotificationKind::Launched, None), None);
    assert!(matches!(
        decode_notification(NotificationKind::Launched, Some(native(7))),
        Some(WorkspaceEvent::Launched(_))
    ));
    assert!(matches!(
        decode_notification(NotificationKind::Terminated, Some(native(7))),
        Some(WorkspaceEvent::Terminated(_))
    ));
}

fn queued(kind: NotificationKind, notification: u64) -> QueuedNotification {
    QueuedNotification { kind, notification }
}

#[test]
fn notifications_count_only_while_the_collector_listens() {
    let mut notifications = WorkspaceNotifications::new();
    assert!(!notifications.enqueue(queued(NotificationKind::DidWake, 1)));
    assert!(notifications.poll(&|_| None).is_empty());

    notifications.enable();
    assert!(notifications.enqueue(queued(NotificationKind::Activated, 2)));
    notifications.enqueue(queued(NotificationKind::Launched, 3));
    notifications.enqueue(queued(NotificationKind::DidWake, 4));
    let reads = Cell::new(0);
    let events = notifications.poll(&|notification| {
        reads.set(reads.get() + 1);
        if notification == 2 {
            Some(native(7))
        } else {
            None
        }
    });
    assert_eq!(reads.get(), 2);
    assert_eq!(events.len(), 2);
    assert!(matches!(events[0], WorkspaceEvent::Activated(_)));
    assert_eq!(events[1], WorkspaceEvent::DidWake);

    notifications.disable();
    notifications.enqueue(queued(NotificationKind::DidWake, 5));
    assert!(notifications.poll(&|_| None).is_empty());
}

#[test]
fn notifications_without_room_are_counted_once() {
    let mut notifications = WorkspaceNotifications::new();
    notifications.enable();
    for notification in 0..=CALLBACK_QUEUE_CAPACITY {
        notifications.enqueue(queued(NotificationKind::DidWake, notification as u64));
    }
    assert_eq!(notifications.take_dropped_events(), 1);
    assert_eq!(notifications.take_dropped_events(), 0);
    notifications.enable();
    assert!(notifications.poll(&|_| None).is_empty());
}

#[test]
fn collector_goes_through_its_stages() {
    let mut collector = WorkspaceCollector::default();
    assert!(matches!(
        collector.start(),
        Err(CollectorError::Start { message, .. })
            if message == "workspace observer was not prepared on the main thread"
    ));
    assert!(collector.prepare_main_thread(|| Ok(())).is_ok());
    assert!(matches!(
        collector.prepare_main_thread(|| panic!("already prepared")),
        Err(CollectorError::AlreadyRunning { collector }) if collector == "workspace"
    ));
    let mut events = collector.start().expect("prepared");
    assert!(collector.finish_start(Ok(())).is_ok());
    assert!(matches!(collector.start(), Err(CollectorError::AlreadyRunning { .. })));
    for notification in 0..CALLBACK_QUEUE_CAPACITY + 3 {
        events.enqueue(queued(NotificationKind::DidWake, notification as u64));
    }
    collector.stop(Some(events));
    assert_eq!(collector.dropped_events(), 3);
    let kept = collector.events.as_mut().expect("returned");
    assert!(!kept.enqueue(queued(NotificationKind::DidWake, 1)));
    assert!(collector.start().is_ok());
}

#[test]
fn collector_reports_what_could_not_be_made() {
    let mut collector = WorkspaceCollector::new(Vec::new());
    assert_eq!(
        collector.prepare_main_thread(|| Err("no observer".to_owned())),
        Err(CollectorError::Start {
            collector: "workspace".to_owned(),
            message: "no observer".to_owned(),
        })
    );
    assert!(collector.prepare_main_thread(|| Ok(())).is_ok());
    assert!(collector.start().is_ok());
    assert_eq!(
        collector.finish_start(Err("no thread".to_owned())),
        Err(CollectorError::Start {
            collector: "workspace".to_owned(),
            message: "no thread".to_owned(),
        })
    );
    assert!(collector.start().is_err());
    collector.stop(None);
    assert_eq!(collector.dropped_events(), 0);
}
