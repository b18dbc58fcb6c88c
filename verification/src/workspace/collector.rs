//! Collecting application lifecycle notifications.

use vstd::prelude::*;

use crate::channel;
use crate::channel::{count_up, join_counts, BoundedChannel};
use crate::subject::Subject;
use crate::workspace;
use crate::workspace::{decode_notification, NativeApplication, NotificationKind, WorkspaceEvent};

verus! {

/// Notifications that wait for the collector.
pub const CALLBACK_QUEUE_CAPACITY: usize = 256;

/// The name of the collector.
pub const COLLECTOR_NAME: &'static str = "workspace";

pub const NOT_PREPARED: &'static str = "workspace observer was not prepared on the main thread";

/// A notification by its kind and the number under which it is kept.
#[derive(Clone, Copy, Debug, PartialEq, Eq, Structural)]
pub struct QueuedNotification {
    pub kind: NotificationKind,
    pub notification: u64,
}

/// What the collector knows of waiting notifications.
pub struct NotificationsModel {
    pub items: Seq<QueuedNotification>,
    pub dropped: u64,
    pub enabled: bool,
}

impl NotificationsModel {
    /// Whether a notification would be kept.
    pub open spec fn keeps(self) -> bool {
        self.enabled && self.items.len() < CALLBACK_QUEUE_CAPACITY
    }

    /// A notification counts only while the collector listens. One without room
    /// is lost and counted.
    pub open spec fn notified(self, notification: QueuedNotification) -> NotificationsModel {
        if !self.enabled {
            self
        } else if self.items.len() < CALLBACK_QUEUE_CAPACITY {
            NotificationsModel { items: self.items.push(notification), ..self }
        } else {
            NotificationsModel { dropped: channel::next_count(self.dropped), ..self }
        }
    }
}

/// Whether `apps` are the applications of some notifications. A wake-up has none.
pub open spec fn read_apps<R: Fn(u64) -> Option<NativeApplication>>(
    read_app: R,
    items: Seq<QueuedNotification>,
    apps: Seq<Option<NativeApplication>>,
) -> bool {
    &&& apps.len() == items.len()
    &&& forall|i: int|
        0 <= i < items.len() ==> if items[i].kind == NotificationKind::DidWake {
            #[trigger] apps[i] is None
        } else {
            call_ensures(read_app, (items[i].notification,), apps[i])
        }
}

/// Whether the applications of some notifications can be read.
pub open spec fn apps_readable<R: Fn(u64) -> Option<NativeApplication>>(
    read_app: R,
    items: Seq<QueuedNotification>,
) -> bool {
    forall|i: int|
        0 <= i < items.len() && (#[trigger] items[i]).kind != NotificationKind::DidWake
            ==> call_requires(read_app, (items[i].notification,))
}

/// The events that some notifications stand for, in their order.
pub open spec fn events_of(
    items: Seq<QueuedNotification>,
    apps: Seq<Option<NativeApplication>>,
) -> Seq<WorkspaceEvent>
    decreases items.len(),
{
    if items.len() == 0 || apps.len() != items.len() {
        Seq::empty()
    } else {
        let before = events_of(items.drop_last(), apps.drop_last());
        match workspace::notified(items.last().kind, apps.last()) {
            Some(event) => before.push(event),
            None => before,
        }
    }
}

/// The notifications that wait for the collector.
#[derive(Debug)]
pub struct WorkspaceNotifications {
    queue: BoundedChannel<QueuedNotification>,
    dropped: u64,
    enabled: bool,
}

impl View for WorkspaceNotifications {
    type V = NotificationsModel;

    closed spec fn view(&self) -> NotificationsModel {
        NotificationsModel {
            items: self.queue@.items,
            dropped: self.dropped,
            enabled: self.enabled,
        }
    }
}

impl WorkspaceNotifications {
    pub closed spec fn wf(self) -> bool {
        &&& self.queue@.wf()
        &&& self.queue@.capacity == CALLBACK_QUEUE_CAPACITY
        &&& self.queue@.connected
    }

    /// Notifications that are not listened to yet.
    pub fn new() -> (notifications: Self)
        ensures
            notifications.wf(),
            notifications@ == (NotificationsModel {
                items: Seq::empty(),
                dropped: 0,
                enabled: false,
            }),
    {
        WorkspaceNotifications {
            queue: BoundedChannel::new(CALLBACK_QUEUE_CAPACITY),
            dropped: 0,
            enabled: false,
        }
    }

    /// Takes note of a notification; tells whether it is kept.
    pub fn enqueue(&mut self, notification: QueuedNotification) -> (kept: bool)
        requires
            old(self).wf(),
        ensures
            final(self).wf(),
            final(self)@ == old(self)@.notified(notification),
            kept == old(self)@.keeps(),
    {
        if !self.enabled {
            return false;
        }
        if self.queue.try_send(notification).is_err() {
            self.dropped = count_up(self.dropped);
            return false;
        }
        true
    }

    /// Begins to listen. What waited before is discarded.
    pub fn enable(&mut self)
        requires
            old(self).wf(),
        ensures
            final(self).wf(),
            final(self)@ == (NotificationsModel {
                items: Seq::empty(),
                dropped: old(self)@.dropped,
                enabled: true,
            }),
    {
        let _ = self.queue.drain();
        self.enabled = true;
    }

    /// Stops to listen. What waits stays.
    pub fn disable(&mut self)
        requires
            old(self).wf(),
        ensures
            final(self).wf(),
            final(self)@ == (NotificationsModel { enabled: false, ..old(self)@ }),
    {
        self.enabled = false;
    }

    /// Takes every waiting notification, oldest first, as far as it can be decoded.
    pub fn poll<R: Fn(u64) -> Option<NativeApplication>>(&mut self, read_app: &R) -> (events: Vec<
        WorkspaceEvent,
    >)
        requires
            old(self).wf(),
            apps_readable(*read_app, old(self)@.items),
        ensures
            final(self).wf(),
            final(self)@ == (NotificationsModel { items: Seq::empty(), ..old(self)@ }),
            exists|apps: Seq<Option<NativeApplication>>| #[trigger]
                read_apps(*read_app, old(self)@.items, apps) && events@ == events_of(
                    old(self)@.items,
                    apps,
                ),
    {
        let mut waiting = self.queue.drain();
        let mut events: Vec<WorkspaceEvent> = Vec::new();
        let ghost items = old(self)@.items;
        let ghost mut apps: Seq<Option<NativeApplication>> = Seq::empty();
        assert(items.take(0) =~= Seq::empty());
        assert(items.skip(0) =~= items);
        while waiting.len() > 0
            invariant
                apps.len() + waiting@.len() == items.len(),
                waiting@ == items.skip(apps.len() as int),
                apps_readable(*read_app, items),
                read_apps(*read_app, items.take(apps.len() as int), apps),
                events@ == events_of(items.take(apps.len() as int), apps),
            decreases waiting.len(),
        {
            let ghost index = apps.len() as int;
            let ghost before = apps;
            match waiting.pop_front() {
                Some(queued) => {
                    assert(queued == items[index]);
                    let app = if let NotificationKind::DidWake = queued.kind {
                        None
                    } else {
                        read_app(queued.notification)
                    };
                    proof {
                        apps = apps.push(app);
                        assert(waiting@ =~= items.skip(index + 1));
                        let now = items.take(index + 1);
                        assert(now.drop_last() =~= items.take(index));
                        assert(apps.drop_last() =~= before);
                        assert(now.last() == queued);
                        assert forall|i: int| 0 <= i < now.len() implies if now[i].kind
                            == NotificationKind::DidWake {
                            #[trigger] apps[i] is None
                        } else {
                            call_ensures(*read_app, (now[i].notification,), apps[i])
                        } by {
                            if i < index {
                                assert(before[i] == apps[i]);
                                assert(items.take(index)[i] == now[i]);
                            }
                        }
                    }
                    match decode_notification(queued.kind, app) {
                        Some(event) => {
                            events.push(event);
                        },
                        None => {},
                    }
                },
                None => {},
            }
        }
        assert(items.take(apps.len() as int) =~= items);
        events
    }

    /// How many notifications were lost, once.
    pub fn take_dropped_events(&mut self) -> (dropped: u64)
        requires
            old(self).wf(),
        ensures
            final(self).wf(),
            dropped == old(self)@.dropped,
            final(self)@ == (NotificationsModel { dropped: 0, ..old(self)@ }),
    {
        let dropped: u64 = self.dropped;
        self.dropped = 0;
        dropped
    }
}

/// Why the collector does not run.
#[derive(Debug, PartialEq, Eq)]
pub enum CollectorError {
    AlreadyRunning { collector: String },
    Start { collector: String, message: String },
}

impl CollectorError {
    pub open spec fn is_already_running(self) -> bool {
        self is AlreadyRunning && self->AlreadyRunning_collector@ == COLLECTOR_NAME@
    }

    pub open spec fn is_start(self, message: Seq<char>) -> bool {
        &&& self is Start
        &&& self->Start_collector@ == COLLECTOR_NAME@
        &&& self->message@ == message
    }
}

fn start_error(message: String) -> (error: CollectorError)
    ensures
        error.is_start(message@),
{
    CollectorError::Start { collector: COLLECTOR_NAME.to_owned(), message }
}

fn already_running() -> (error: CollectorError)
    ensures
        error.is_already_running(),
{
    CollectorError::AlreadyRunning { collector: COLLECTOR_NAME.to_owned() }
}

/// The stages of the collector. Its notifications are either at rest here or with
/// the worker.
#[derive(Debug)]
pub struct WorkspaceCollector {
    pub subscribers: Vec<BoundedChannel<WorkspaceEvent>>,
    pub events: Option<WorkspaceNotifications>,
    pub running: bool,
    pub dropped: u64,
}

impl WorkspaceCollector {
    pub open spec fn wf(self) -> bool {
        &&& self.events is Some ==> self.events->0.wf()
        &&& self.running ==> self.events is None
    }

    /// A collector that is not prepared yet.
    #[must_use]
    pub fn new(subscribers: Vec<BoundedChannel<WorkspaceEvent>>) -> (collector: Self)
        ensures
            collector.wf(),
            collector.subscribers == subscribers,
            collector.events is None,
            !collector.running,
            collector.dropped == 0,
    {
        WorkspaceCollector { subscribers, events: None, running: false, dropped: 0 }
    }

    /// How many events were lost so far.
    #[must_use]
    pub fn dropped_events(&self) -> (dropped: u64)
        ensures
            dropped == self.dropped,
    {
        self.dropped
    }

    /// Prepares the notifications, once the native observer was made or failed.
    /// A collector that is prepared or runs is left alone, and `observe` is not
    /// called.
    pub fn prepare_main_thread<O: FnOnce() -> Result<(), String>>(&mut self, observe: O) -> (
        prepared: Result<(), CollectorError>)
        requires
            old(self).wf(),
            old(self).events is None && !old(self).running ==> call_requires(observe, ()),
        ensures
            final(self).wf(),
            final(self).subscribers == old(self).subscribers,
            final(self).running == old(self).running,
            final(self).dropped == old(self).dropped,
            old(self).events is Some || old(self).running ==> prepared is Err
                && prepared->Err_0.is_already_running() && *final(self) == *old(self),
            old(self).events is None && !old(self).running ==> exists|observed: Result<(), String>|
                #[trigger] call_ensures(observe, (), observed) && match observed {
                    Ok(()) => prepared is Ok && final(self).events is Some
                        && final(self).events->0@ == (NotificationsModel {
                        items: Seq::empty(),
                        dropped: 0,
                        enabled: false,
                    }),
                    Err(message) => prepared is Err && prepared->Err_0.is_start(message@)
                        && final(self).events is None,
                },
    {
        if self.events.is_some() || self.running {
            return Err(already_running());
        }
        match observe() {
            Ok(()) => {
                self.events = Some(WorkspaceNotifications::new());
                Ok(())
            },
            Err(message) => Err(start_error(message)),
        }
    }

    /// Hands the notifications over to a worker, which `finish_start` confirms.
    /// From here on the collector listens.
    pub fn start(&mut self) -> (events: Result<WorkspaceNotifications, CollectorError>)
        requires
            old(self).wf(),
        ensures
            final(self).wf(),
            final(self).subscribers == old(self).subscribers,
            final(self).running == old(self).running,
            final(self).dropped == old(self).dropped,
            final(self).events is None,
            match events {
                Ok(events) => !old(self).running && old(self).events is Some && events.wf()
                    && events@ == (NotificationsModel {
                    items: Seq::empty(),
                    dropped: old(self).events->0@.dropped,
                    enabled: true,
                }),
                Err(error) => (old(self).running ==> error.is_already_running()) && (!old(
                    self,
                ).running ==> old(self).events is None && error.is_start(NOT_PREPARED@)),
            },
    {
        if self.running {
            return Err(already_running());
        }
        match self.events.take() {
            Some(mut events) => {
                events.enable();
                Ok(events)
            },
            None => Err(start_error(NOT_PREPARED.to_owned())),
        }
    }

    /// Takes note of whether the worker was made. Without it the notifications
    /// are lost, and the collector has to be prepared again.
    pub fn finish_start(&mut self, spawned: Result<(), String>) -> (started: Result<
        (),
        CollectorError,
    >)
        requires
            old(self).wf(),
            old(self).events is None,
        ensures
            final(self).wf(),
            final(self).subscribers == old(self).subscribers,
            final(self).events is None,
            final(self).dropped == old(self).dropped,
            match spawned {
                Ok(()) => started is Ok && final(self).running,
                Err(message) => started is Err && started->Err_0.is_start(message@)
                    && final(self).running == old(self).running,
            },
    {
        match spawned {
            Ok(()) => {
                self.running = true;
                Ok(())
            },
            Err(message) => Err(start_error(message)),
        }
    }

    /// Takes the notifications back from a worker that was stopped; they do not
    /// listen any more. A worker that failed has none to give back.
    pub fn stop(&mut self, returned: Option<WorkspaceNotifications>)
        requires
            old(self).wf(),
            returned is Some ==> returned->0.wf(),
        ensures
            final(self).wf(),
            final(self).subscribers == old(self).subscribers,
            !final(self).running,
            !old(self).running ==> *final(self) == *old(self),
            old(self).running ==> match returned {
                Some(events) => final(self).events is Some
                    && final(self).events->0@ == (NotificationsModel {
                    dropped: 0,
                    enabled: false,
                    ..events@
                })
                    && final(self).dropped == channel::joined(old(self).dropped, events@.dropped),
                None => final(self).events is None && final(self).dropped == old(self).dropped,
            },
    {
        if !self.running {
            return ;
        }
        self.running = false;
        if let Some(mut events) = returned {
            events.disable();
            self.dropped = join_counts(self.dropped, events.take_dropped_events());
            self.events = Some(events);
        }
    }
}

impl Default for WorkspaceCollector {
    /// A collector without subscribers.
    fn default() -> (collector: Self)
        ensures
            collector.wf(),
            collector.subscribers@.len() == 0,
            collector.events is None,
            !collector.running,
            collector.dropped == 0,
    {
        WorkspaceCollector::new(Vec::new())
    }
}

/// Nothing that arrives while the collector does not listen is kept or counted.
pub proof fn law_silent_until_enabled(model: NotificationsModel, notification: QueuedNotification)
    requires
        !model.enabled,
    ensures
        model.notified(notification) == model,
{
}

/// While the collector listens, every notification is either kept or counted as
/// lost.
pub proof fn law_notification_is_kept_or_counted(
    model: NotificationsModel,
    notification: QueuedNotification,
)
    requires
        model.enabled,
    ensures
        ({
            let after = model.notified(notification);
            ||| after.items == model.items.push(notification) && after.dropped == model.dropped
            ||| after.items == model.items && after.dropped == channel::next_count(model.dropped)
        }),
{
}

/// A wake-up is always reported.
pub proof fn law_wake_is_reported(
    items: Seq<QueuedNotification>,
    apps: Seq<Option<NativeApplication>>,
    index: int,
)
    requires
        items.len() == apps.len(),
        0 <= index < items.len(),
        items[index].kind == NotificationKind::DidWake,
    ensures
        events_of(items, apps).contains(WorkspaceEvent::DidWake),
    decreases items.len(),
{
    let before = events_of(items.drop_last(), apps.drop_last());
    let all = events_of(items, apps);
    if index == items.len() - 1 {
        assert(all[all.len() - 1] == WorkspaceEvent::DidWake);
    } else {
        law_wake_is_reported(items.drop_last(), apps.drop_last(), index);
        let at = before.index_of(WorkspaceEvent::DidWake);
        assert(all[at] == WorkspaceEvent::DidWake);
    }
}

/// While it listens, a collector keeps notifications in their order, up to 256, and counts those beyond
/// them; before and after it neither keeps nor counts any.
pub proof fn law_notifications_are_kept_while_listening(
    call: Subject<WorkspaceNotifications>,
    notification: QueuedNotification,
    kept: bool,
)
    requires
        call.on.wf(),
        call_ensures(WorkspaceNotifications::enqueue, (call.on, notification), kept),
    ensures
        kept <==> old(call.on)@.enabled && old(call.on)@.items.len() < 256,
        kept ==> final(call.on)@.items == old(call.on)@.items.push(notification)
            && final(call.on)@.dropped == old(call.on)@.dropped,
        !kept ==> final(call.on)@.items == old(call.on)@.items,
        !old(call.on)@.enabled ==> final(call.on)@ == old(call.on)@,
        old(call.on)@.enabled && !kept && old(call.on)@.dropped < u64::MAX ==> final(call.on)@.dropped
            == old(call.on)@.dropped + 1,
{
}

/// Listening begins with nothing kept and ends without losing what is; counts are handed out once.
pub proof fn law_listening_begins_afresh(
    begun: Subject<WorkspaceNotifications>,
    ended: Subject<WorkspaceNotifications>,
    counted: Subject<WorkspaceNotifications>,
    dropped: u64,
)
    requires
        begun.on.wf() && ended.on.wf() && counted.on.wf(),
        call_ensures(WorkspaceNotifications::enable, (begun.on,), ()),
        call_ensures(WorkspaceNotifications::disable, (ended.on,), ()),
        call_ensures(WorkspaceNotifications::take_dropped_events, (counted.on,), dropped),
    ensures
        final(begun.on)@.enabled && final(begun.on)@.items.len() == 0,
        final(begun.on)@.dropped == old(begun.on)@.dropped,
        !final(ended.on)@.enabled && final(ended.on)@.items == old(ended.on)@.items,
        dropped == old(counted.on)@.dropped,
        final(counted.on)@.dropped == 0 && final(counted.on)@.items == old(counted.on)@.items,
{
}

/// Kept notifications become events in their order, each of its own kind; one whose application cannot
/// be told becomes none.
pub proof fn law_kept_notifications_become_events(
    items: Seq<QueuedNotification>,
    apps: Seq<Option<NativeApplication>>,
    notification: QueuedNotification,
    app: Option<NativeApplication>,
)
    requires
        apps.len() == items.len(),
    ensures
        notification.kind is DidWake ==> events_of(
            items.push(notification),
            apps.push(app),
        ) == events_of(items, apps).push(WorkspaceEvent::DidWake),
        notification.kind !is DidWake && app is None ==> events_of(
            items.push(notification),
            apps.push(app),
        ) == events_of(items, apps),
        events_of(items.push(notification), apps.push(app)) != events_of(items, apps) ==> {
            let event = events_of(items.push(notification), apps.push(app)).last();
            &&& events_of(items.push(notification), apps.push(app)).drop_last() == events_of(
                items,
                apps,
            )
            &&& event is Launched <==> notification.kind is Launched
            &&& event is Terminated <==> notification.kind is Terminated
            &&& event is Activated <==> notification.kind is Activated
        },
        events_of(Seq::empty(), Seq::empty()).len() == 0,
{
    let all = items.push(notification);
    assert(all.drop_last() =~= items);
    assert(apps.push(app).drop_last() =~= apps);
    let before = events_of(items, apps);
    assert(forall|event: WorkspaceEvent| #[trigger] before.push(event).drop_last() =~= before);
}

/// A collector starts only once, and only after it was prepared: then it hands its notifications over,
/// empty and listening. A start that succeeds makes it run, a failed one does not, and stopping ends it.
pub proof fn law_collectors_start_once_prepared(
    started: Subject<WorkspaceCollector>,
    events: Result<WorkspaceNotifications, CollectorError>,
    finished: Subject<WorkspaceCollector>,
    spawned: Result<(), String>,
    running: Result<(), CollectorError>,
    stopped: Subject<WorkspaceCollector>,
    returned: Option<WorkspaceNotifications>,
)
    requires
        started.on.wf() && finished.on.wf() && stopped.on.wf(),
        finished.on.events is None && !finished.on.running,
        returned is Some ==> returned->0.wf(),
        call_ensures(WorkspaceCollector::start, (started.on,), events),
        call_ensures(WorkspaceCollector::finish_start, (finished.on, spawned), running),
        call_ensures(WorkspaceCollector::stop, (stopped.on, returned), ()),
    ensures
        events is Ok <==> !old(started.on).running && old(started.on).events is Some,
        events matches Ok(handed) ==> handed@.enabled && handed@.items.len() == 0,
        old(started.on).running ==> (events matches Err(error) && error is AlreadyRunning),
        !old(started.on).running && old(started.on).events is None ==> (events matches Err(error)
            && error is Start),
        final(started.on).events is None,
        running is Ok <==> spawned is Ok,
        final(finished.on).running <==> spawned is Ok,
        !final(stopped.on).running,
        !old(stopped.on).running ==> *final(stopped.on) == *old(stopped.on),
        old(stopped.on).running && returned is Some ==> final(stopped.on).events is Some
            && !final(stopped.on).events->0@.enabled,
{
}

} // verus!
