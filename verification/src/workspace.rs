//! Application lifecycle: activation, launch, termination and wake-up.

pub mod collector;

use vstd::prelude::*;

use crate::channel;
use crate::channel::{count_up, BoundedChannel, ChannelModel};
use crate::schema::{App, CaptureContext, EmptyData, EventData, RawEvent, Window};
use crate::text;
use crate::text::{copy_text, same_text};
use crate::window_list::same_number;

verus! {

/// Notifications that wait for one subscriber.
pub const WORKSPACE_CHANNEL_CAPACITY: usize = 256;

/// How an application takes part in the user interface.
#[derive(Clone, Copy, Debug, PartialEq, Eq, Structural)]
pub enum ApplicationActivationPolicy {
    Regular,
    Accessory,
    Prohibited,
}

impl ApplicationActivationPolicy {
    pub open spec fn spec_from_raw(value: i64) -> Option<ApplicationActivationPolicy> {
        if value == 0 {
            Some(ApplicationActivationPolicy::Regular)
        } else if value == 1 {
            Some(ApplicationActivationPolicy::Accessory)
        } else if value == 2 {
            Some(ApplicationActivationPolicy::Prohibited)
        } else {
            None
        }
    }

    /// The policy behind a native number.
    pub fn from_raw(value: i64) -> (policy: Option<ApplicationActivationPolicy>)
        ensures
            policy == ApplicationActivationPolicy::spec_from_raw(value),
    {
        match value {
            0 => Some(ApplicationActivationPolicy::Regular),
            1 => Some(ApplicationActivationPolicy::Accessory),
            2 => Some(ApplicationActivationPolicy::Prohibited),
            _ => None,
        }
    }
}

/// A running application.
#[derive(Debug, PartialEq, Eq)]
pub struct ApplicationInfo {
    pub name: String,
    pub bundle_id: Option<String>,
    pub pid: i64,
    pub activation_policy: ApplicationActivationPolicy,
}

impl Clone for ApplicationInfo {
    fn clone(&self) -> (copy: ApplicationInfo)
        ensures
            copy == *self,
    {
        ApplicationInfo {
            name: self.name.clone(),
            bundle_id: copy_text(&self.bundle_id),
            pid: self.pid,
            activation_policy: self.activation_policy,
        }
    }
}

impl ApplicationInfo {
    pub open spec fn spec_raw_app(self) -> App {
        App { name: self.name, bundle_id: self.bundle_id, pid: Some(self.pid) }
    }

    /// The application as events name it.
    pub fn raw_app(&self) -> (app: App)
        ensures
            app == self.spec_raw_app(),
    {
        App {
            name: self.name.clone(),
            bundle_id: copy_text(&self.bundle_id),
            pid: Some(self.pid),
        }
    }
}

/// What the native side tells of an application, as far as it could be read.
#[derive(Debug, PartialEq, Eq)]
pub struct NativeApplication {
    pub name: Option<String>,
    pub bundle_id: Option<String>,
    pub pid: i32,
    pub activation_policy: i64,
}

impl NativeApplication {
    /// The application, when it has a name, a process and a known policy.
    pub open spec fn spec_decoded(self) -> Option<ApplicationInfo> {
        match (
            self.name,
            ApplicationActivationPolicy::spec_from_raw(self.activation_policy),
        ) {
            (Some(name), Some(activation_policy)) => if self.pid > 0 {
                Some(
                    ApplicationInfo {
                        name,
                        bundle_id: self.bundle_id,
                        pid: self.pid as i64,
                        activation_policy,
                    },
                )
            } else {
                None
            },
            _ => None,
        }
    }

    /// The application, when it has a name, a process and a known policy.
    pub fn decode(self) -> (app: Option<ApplicationInfo>)
        ensures
            app == self.spec_decoded(),
    {
        let policy = ApplicationActivationPolicy::from_raw(self.activation_policy);
        match (self.name, policy) {
            (Some(name), Some(activation_policy)) => {
                if self.pid > 0 {
                    Some(
                        ApplicationInfo {
                            name,
                            bundle_id: self.bundle_id,
                            pid: self.pid as i64,
                            activation_policy,
                        },
                    )
                } else {
                    None
                }
            },
            _ => None,
        }
    }
}

/// What happened to applications.
#[derive(Debug, PartialEq, Eq)]
pub enum WorkspaceEvent {
    Activated(ApplicationInfo),
    Launched(ApplicationInfo),
    Terminated(ApplicationInfo),
    DidWake,
}

impl Clone for WorkspaceEvent {
    fn clone(&self) -> (copy: WorkspaceEvent)
        ensures
            copy == *self,
    {
        match self {
            WorkspaceEvent::Activated(app) => WorkspaceEvent::Activated(app.clone()),
            WorkspaceEvent::Launched(app) => WorkspaceEvent::Launched(app.clone()),
            WorkspaceEvent::Terminated(app) => WorkspaceEvent::Terminated(app.clone()),
            WorkspaceEvent::DidWake => WorkspaceEvent::DidWake,
        }
    }
}

/// The kind of a native notification.
#[derive(Clone, Copy, Debug, PartialEq, Eq, Structural)]
pub enum NotificationKind {
    Activated,
    Launched,
    Terminated,
    DidWake,
}

pub open spec fn notified(kind: NotificationKind, app: Option<NativeApplication>) -> Option<
    WorkspaceEvent,
> {
    match kind {
        NotificationKind::DidWake => Some(WorkspaceEvent::DidWake),
        _ => match app {
            Some(native) => match native.spec_decoded() {
                Some(app) => Some(
                    match kind {
                        NotificationKind::Activated => WorkspaceEvent::Activated(app),
                        NotificationKind::Launched => WorkspaceEvent::Launched(app),
                        _ => WorkspaceEvent::Terminated(app),
                    },
                ),
                None => None,
            },
            None => None,
        },
    }
}

/// Decodes a native notification: a wake-up needs no application, the others do.
pub fn decode_notification(kind: NotificationKind, app: Option<NativeApplication>) -> (event:
    Option<WorkspaceEvent>)
    ensures
        event == notified(kind, app),
{
    if let NotificationKind::DidWake = kind {
        return Some(WorkspaceEvent::DidWake);
    }
    match app {
        Some(native) => match native.decode() {
            Some(app) => Some(
                match kind {
                    NotificationKind::Activated => WorkspaceEvent::Activated(app),
                    NotificationKind::Launched => WorkspaceEvent::Launched(app),
                    _ => WorkspaceEvent::Terminated(app),
                },
            ),
            None => None,
        },
        None => None,
    }
}

/// A queue for one subscriber to workspace events.
#[must_use]
pub fn notification_channel() -> (channel: BoundedChannel<WorkspaceEvent>)
    ensures
        channel@ == (ChannelModel {
            capacity: WORKSPACE_CHANNEL_CAPACITY as nat,
            items: Seq::<WorkspaceEvent>::empty(),
            connected: true,
        }),
        channel@.wf(),
{
    BoundedChannel::new(WORKSPACE_CHANNEL_CAPACITY)
}

/// The application that was last reported as active.
#[derive(Debug, PartialEq, Eq)]
pub struct ActivationTracker {
    pub current_pid: Option<i64>,
    pub current_bundle_id: Option<String>,
}

/// Whether an event is a plain lifecycle event of an application.
pub open spec fn is_lifecycle_event(
    event: RawEvent,
    event_type: Seq<char>,
    app: ApplicationInfo,
    window: Option<Window>,
    data: EventData,
) -> bool {
    &&& event.observed_at is None
    &&& event.source@ == "macos.workspace"@
    &&& event.event_type@ == event_type
    &&& event.app == app.spec_raw_app()
    &&& event.window == window
    &&& event.element is None
    &&& event.data == data
    &&& event.capture_context == CaptureContext::empty()
}

impl Default for ActivationTracker {
    fn default() -> (tracker: ActivationTracker)
        ensures
            tracker.current_pid is None,
            tracker.current_bundle_id is None,
    {
        ActivationTracker { current_pid: None, current_bundle_id: None }
    }
}

impl ActivationTracker {
    /// Whether the application is the one last reported.
    pub open spec fn reported(self, app: ApplicationInfo) -> bool {
        self.current_pid == Some(app.pid) && text::text_view(self.current_bundle_id)
            == text::text_view(app.bundle_id)
    }

    /// Whether the application would be reported when it is activated.
    pub fn is_new(&self, app: &ApplicationInfo) -> (new: bool)
        ensures
            new == !self.reported(*app),
    {
        !(same_number(self.current_pid, Some(app.pid)) && same_text(
            &self.current_bundle_id,
            &app.bundle_id,
        ))
    }

    /// The event of an activation; none when the application was just reported.
    pub fn event(&mut self, app: &ApplicationInfo, window: Option<Window>) -> (event: Option<
        RawEvent,
    >)
        ensures
            old(self).reported(*app) ==> event is None && *final(self) == *old(self),
            !old(self).reported(*app) ==> {
                &&& event matches Some(sent) && is_lifecycle_event(
                    sent,
                    "app.activate"@,
                    *app,
                    window,
                    EventData::AppActivate(EmptyData {  }),
                )
                &&& final(self).current_pid == Some(app.pid)
                &&& final(self).current_bundle_id == app.bundle_id
            },
    {
        if !self.is_new(app) {
            return None;
        }
        let event = RawEvent {
            observed_at: None,
            source: "macos.workspace".to_owned(),
            event_type: "app.activate".to_owned(),
            app: app.raw_app(),
            window,
            element: None,
            data: EventData::AppActivate(EmptyData {  }),
            capture_context: CaptureContext::default(),
        };
        self.current_pid = Some(app.pid);
        self.current_bundle_id = copy_text(&app.bundle_id);
        Some(event)
    }

    /// Forgets the application when it is the one last reported.
    pub fn terminated(&mut self, app: &ApplicationInfo)
        ensures
            *final(self) == if old(self).current_pid == Some(app.pid) {
                ActivationTracker { current_pid: None, current_bundle_id: None }
            } else {
                *old(self)
            },
    {
        if same_number(self.current_pid, Some(app.pid)) {
            self.current_pid = None;
            self.current_bundle_id = None;
        }
    }
}

/// A launch or termination event.
pub fn lifecycle_raw_event(event_type: &str, app: &ApplicationInfo, data: EventData) -> (event:
    RawEvent)
    ensures
        is_lifecycle_event(event, event_type@, *app, None, data),
{
    RawEvent {
        observed_at: None,
        source: "macos.workspace".to_owned(),
        event_type: event_type.to_owned(),
        app: app.raw_app(),
        window: None,
        element: None,
        data,
        capture_context: CaptureContext::default(),
    }
}

/// Whether every queue holds no more than its capacity.
pub open spec fn all_wf(subscribers: Seq<BoundedChannel<WorkspaceEvent>>) -> bool {
    forall|i: int| 0 <= i < subscribers.len() ==> (#[trigger] subscribers[i])@.wf()
}

/// The count after offering an event to the first `offered` subscribers: one
/// more for each that refuses it.
pub open spec fn refused(
    subscribers: Seq<BoundedChannel<WorkspaceEvent>>,
    offered: nat,
    count: u64,
) -> u64
    decreases offered,
{
    if offered == 0 {
        count
    } else {
        let earlier = refused(subscribers, (offered - 1) as nat, count);
        if subscribers[offered - 1]@.accepts() {
            earlier
        } else {
            channel::next_count(earlier)
        }
    }
}

/// Offers an event to every subscriber, counting those that refuse it.
pub fn notify_subscribers(
    notification: &WorkspaceEvent,
    subscribers: &mut Vec<BoundedChannel<WorkspaceEvent>>,
    dropped_events: &mut u64,
)
    requires
        all_wf(old(subscribers)@),
    ensures
        all_wf(final(subscribers)@),
        final(subscribers)@.len() == old(subscribers)@.len(),
        forall|i: int|
            #![trigger final(subscribers)@[i]]
            0 <= i < old(subscribers)@.len() ==> final(subscribers)@[i]@ == old(
                subscribers,
            )@[i]@.offered(*notification),
        *final(dropped_events) == refused(
            old(subscribers)@,
            old(subscribers)@.len(),
            *old(dropped_events),
        ),
{
    let ghost before = subscribers@;
    let ghost count = *dropped_events;
    let mut index: usize = 0;
    while index < subscribers.len()
        invariant
            all_wf(before),
            all_wf(subscribers@),
            subscribers@.len() == before.len(),
            0 <= index <= before.len(),
            forall|i: int|
                #![trigger subscribers@[i]]
                0 <= i < index ==> subscribers@[i]@ == before[i]@.offered(*notification),
            forall|i: int|
                #![trigger subscribers@[i]]
                index <= i < before.len() ==> subscribers@[i] == before[i],
            *dropped_events == refused(before, index as nat, count),
        decreases before.len() - index,
    {
        let sent = subscribers[index].try_send(notification.clone());
        if sent.is_err() {
            *dropped_events = count_up(*dropped_events);
        }
        index = index + 1;
    }
}

/// What an event is announced as; an activation that was just reported is
/// announced to nobody.
pub open spec fn announced(tracker: ActivationTracker, event: WorkspaceEvent) -> bool {
    event matches WorkspaceEvent::Activated(app) ==> !tracker.reported(app)
}

/// Whether `raw` is the event that is recorded for a workspace event.
pub open spec fn recorded(
    tracker: ActivationTracker,
    event: WorkspaceEvent,
    window: Option<Window>,
    raw: Option<RawEvent>,
) -> bool {
    match event {
        WorkspaceEvent::Activated(app) => if tracker.reported(app) {
            raw is None
        } else {
            raw matches Some(sent) && is_lifecycle_event(
                sent,
                "app.activate"@,
                app,
                window,
                EventData::AppActivate(EmptyData {  }),
            )
        },
        WorkspaceEvent::Launched(app) => raw matches Some(sent) && is_lifecycle_event(
            sent,
            "app.launch"@,
            app,
            None,
            EventData::AppLaunch(EmptyData {  }),
        ),
        WorkspaceEvent::Terminated(app) => raw matches Some(sent) && is_lifecycle_event(
            sent,
            "app.terminate"@,
            app,
            None,
            EventData::AppTerminate(EmptyData {  }),
        ),
        WorkspaceEvent::DidWake => raw is None,
    }
}

/// The tracker after an event.
pub open spec fn followed(tracker: ActivationTracker, event: WorkspaceEvent) -> ActivationTracker {
    match event {
        WorkspaceEvent::Activated(app) => if tracker.reported(app) {
            tracker
        } else {
            ActivationTracker { current_pid: Some(app.pid), current_bundle_id: app.bundle_id }
        },
        WorkspaceEvent::Terminated(app) => if tracker.current_pid == Some(app.pid) {
            ActivationTracker { current_pid: None, current_bundle_id: None }
        } else {
            tracker
        },
        _ => tracker,
    }
}

/// The event to record for a workspace event. The front window is read for every
/// activation, also for one that is not reported.
pub fn record_workspace_event<W: Fn(i64) -> Option<Window>>(
    event: &WorkspaceEvent,
    tracker: &mut ActivationTracker,
    front_window: &W,
) -> (raw: Option<RawEvent>)
    requires
        event matches WorkspaceEvent::Activated(app) ==> call_requires(*front_window, (app.pid,)),
    ensures
        *final(tracker) == followed(*old(tracker), *event),
        exists|window: Option<Window>|
            {
                &&& #[trigger] recorded(*old(tracker), *event, window, raw)
                &&& event matches WorkspaceEvent::Activated(app) ==> call_ensures(
                    *front_window,
                    (app.pid,),
                    window,
                )
            },
{
    match event {
        WorkspaceEvent::Activated(app) => {
            let window = front_window(app.pid);
            let raw = tracker.event(app, window);
            assert(recorded(*old(tracker), *event, window, raw));
            raw
        },
        WorkspaceEvent::Launched(app) => {
            let raw = Some(
                lifecycle_raw_event("app.launch", app, EventData::AppLaunch(EmptyData {  })),
            );
            assert(recorded(*old(tracker), *event, None, raw));
            raw
        },
        WorkspaceEvent::Terminated(app) => {
            tracker.terminated(app);
            let raw = Some(
                lifecycle_raw_event("app.terminate", app, EventData::AppTerminate(EmptyData {  })),
            );
            assert(recorded(*old(tracker), *event, None, raw));
            raw
        },
        WorkspaceEvent::DidWake => {
            assert(recorded(*old(tracker), *event, None, None));
            None
        },
    }
}

/// The state that workspace events change.
pub struct WorkspaceModel {
    pub tracker: ActivationTracker,
    pub sender: ChannelModel<RawEvent>,
    pub subscribers: Seq<BoundedChannel<WorkspaceEvent>>,
    pub dropped: u64,
}

impl WorkspaceModel {
    pub open spec fn wf(self) -> bool {
        self.sender.wf() && all_wf(self.subscribers)
    }

    /// The count once an announced event was offered to every subscriber.
    pub open spec fn counted(self, event: WorkspaceEvent) -> u64 {
        if announced(self.tracker, event) {
            refused(self.subscribers, self.subscribers.len(), self.dropped)
        } else {
            self.dropped
        }
    }

    /// Whether `after` is what an event makes of this state, with `window` as
    /// the front window and `raw` as the recorded event.
    pub open spec fn becomes(
        self,
        event: WorkspaceEvent,
        window: Option<Window>,
        raw: Option<RawEvent>,
        after: WorkspaceModel,
    ) -> bool {
        &&& recorded(self.tracker, event, window, raw)
        &&& after.tracker == followed(self.tracker, event)
        &&& after.subscribers.len() == self.subscribers.len()
        &&& forall|i: int|
            #![trigger after.subscribers[i]]
            0 <= i < self.subscribers.len() ==> after.subscribers[i]@ == if announced(
                self.tracker,
                event,
            ) {
                self.subscribers[i]@.offered(event)
            } else {
                self.subscribers[i]@
            }
        &&& match raw {
            Some(sent) => {
                &&& after.sender == self.sender.offered(sent)
                &&& after.dropped == if self.sender.accepts() {
                    self.counted(event)
                } else {
                    channel::next_count(self.counted(event))
                }
            },
            None => after.sender == self.sender && after.dropped == self.counted(event),
        }
    }
}

/// Whether `after` is what an event makes of `before` with some front window
/// that `front_window` gives.
pub open spec fn processed<W: Fn(i64) -> Option<Window>>(
    before: WorkspaceModel,
    event: WorkspaceEvent,
    front_window: W,
    after: WorkspaceModel,
) -> bool {
    exists|window: Option<Window>, raw: Option<RawEvent>|
        {
            &&& #[trigger] before.becomes(event, window, raw, after)
            &&& event matches WorkspaceEvent::Activated(app) ==> call_ensures(
                front_window,
                (app.pid,),
                window,
            )
        }
}

/// Announces a workspace event to the subscribers and queues the event that is
/// recorded for it, counting every refusal.
pub fn process_workspace_event<W: Fn(i64) -> Option<Window>>(
    event: WorkspaceEvent,
    tracker: &mut ActivationTracker,
    front_window: &W,
    sender: &mut BoundedChannel<RawEvent>,
    subscribers: &mut Vec<BoundedChannel<WorkspaceEvent>>,
    dropped_events: &mut u64,
)
    requires
        event matches WorkspaceEvent::Activated(app) ==> call_requires(*front_window, (app.pid,)),
        old(sender)@.wf(),
        all_wf(old(subscribers)@),
    ensures
        final(sender)@.wf(),
        all_wf(final(subscribers)@),
        processed(
            (WorkspaceModel {
                tracker: *old(tracker),
                sender: old(sender)@,
                subscribers: old(subscribers)@,
                dropped: *old(dropped_events),
            }),
            event,
            *front_window,
            (WorkspaceModel {
                tracker: *final(tracker),
                sender: final(sender)@,
                subscribers: final(subscribers)@,
                dropped: *final(dropped_events),
            }),
        ),
{
    let ghost before = WorkspaceModel {
        tracker: *tracker,
        sender: sender@,
        subscribers: subscribers@,
        dropped: *dropped_events,
    };
    let reported = match &event {
        WorkspaceEvent::Activated(app) => !tracker.is_new(app),
        _ => false,
    };
    let raw = record_workspace_event(&event, tracker, front_window);
    let ghost sent_raw = raw;
    let ghost window = choose|window: Option<Window>|
        {
            &&& #[trigger] recorded(before.tracker, event, window, sent_raw)
            &&& event matches WorkspaceEvent::Activated(app) ==> call_ensures(
                *front_window,
                (app.pid,),
                window,
            )
        };
    if !reported {
        notify_subscribers(&event, subscribers, dropped_events);
        if let Some(sent) = raw {
            let delivered = sender.try_send(sent);
            if delivered.is_err() {
                *dropped_events = count_up(*dropped_events);
            }
        }
    }
    proof {
        let after = WorkspaceModel {
            tracker: *tracker,
            sender: sender@,
            subscribers: subscribers@,
            dropped: *dropped_events,
        };
        assert(before.becomes(event, window, sent_raw, after));
    }
}

/// Whether `states` leads from its first to its last entry through `events`.
pub open spec fn processed_all<W: Fn(i64) -> Option<Window>>(
    states: Seq<WorkspaceModel>,
    events: Seq<WorkspaceEvent>,
    front_window: W,
) -> bool {
    &&& states.len() == events.len() + 1
    &&& forall|i: int|
        #![trigger events[i]]
        0 <= i < events.len() ==> processed(states[i], events[i], front_window, states[i + 1])
}

/// Processes what was queued at startup. When no activation is queued, the
/// frontmost application counts as activated.
pub fn process_startup<F: FnOnce() -> Option<ApplicationInfo>, W: Fn(i64) -> Option<Window>>(
    events: Vec<WorkspaceEvent>,
    frontmost: F,
    front_window: &W,
    tracker: &mut ActivationTracker,
    sender: &mut BoundedChannel<RawEvent>,
    subscribers: &mut Vec<BoundedChannel<WorkspaceEvent>>,
    dropped_events: &mut u64,
)
    requires
        !queued_activation(events@) ==> call_requires(frontmost, ()),
        forall|i: int|
            0 <= i < events@.len() ==> (#[trigger] events@[i] matches WorkspaceEvent::Activated(app)
                ==> call_requires(*front_window, (app.pid,))),
        !queued_activation(events@) ==> forall|last: Option<ApplicationInfo>| #[trigger]
            call_ensures(frontmost, (), last) ==> (last matches Some(app) ==> call_requires(
                *front_window,
                (app.pid,),
            )),
        old(sender)@.wf(),
        all_wf(old(subscribers)@),
    ensures
        final(sender)@.wf(),
        all_wf(final(subscribers)@),
        exists|states: Seq<WorkspaceModel>, last: Option<ApplicationInfo>|
            {
                &&& #[trigger] startup_answer(events@, frontmost, last)
                &&& #[trigger] processed_all(
                    states,
                    startup_events(events@, last),
                    *front_window,
                )
                &&& states.first() == (WorkspaceModel {
                    tracker: *old(tracker),
                    sender: old(sender)@,
                    subscribers: old(subscribers)@,
                    dropped: *old(dropped_events),
                })
                &&& states.last() == (WorkspaceModel {
                    tracker: *final(tracker),
                    sender: final(sender)@,
                    subscribers: final(subscribers)@,
                    dropped: *final(dropped_events),
                })
            },
{
    let ghost queued = events@;
    let ghost mut states: Seq<WorkspaceModel> = seq![
        WorkspaceModel {
            tracker: *tracker,
            sender: sender@,
            subscribers: subscribers@,
            dropped: *dropped_events,
        },
    ];
    let found = has_activation(&events);
    let mut index: usize = 0;
    while index < events.len()
        invariant
            events@ == queued,
            0 <= index <= queued.len(),
            forall|i: int|
                0 <= i < queued.len() ==> (#[trigger] queued[i] matches WorkspaceEvent::Activated(
                    app,
                ) ==> call_requires(*front_window, (app.pid,))),
            sender@.wf(),
            all_wf(subscribers@),
            processed_all(states, queued.take(index as int), *front_window),
            states.first() == (WorkspaceModel {
                tracker: *old(tracker),
                sender: old(sender)@,
                subscribers: old(subscribers)@,
                dropped: *old(dropped_events),
            }),
            states.last() == (WorkspaceModel {
                tracker: *tracker,
                sender: sender@,
                subscribers: subscribers@,
                dropped: *dropped_events,
            }),
        decreases events.len() - index,
    {
        let event = events[index].clone();
        process_workspace_event(
            event,
            tracker,
            front_window,
            sender,
            subscribers,
            dropped_events,
        );
        proof {
            let ghost_after = WorkspaceModel {
                tracker: *tracker,
                sender: sender@,
                subscribers: subscribers@,
                dropped: *dropped_events,
            };
            lemma_processed_push(
                states,
                queued.take(index as int),
                *front_window,
                event,
                ghost_after,
            );
            assert(queued.take(index + 1) =~= queued.take(index as int).push(event));
            states = states.push(ghost_after);
        }
        index = index + 1;
    }
    assert(queued.take(index as int) =~= queued);
    if found {
        assert(startup_answer(queued, frontmost, None));
        assert(processed_all(states, startup_events(queued, None), *front_window));
        return ;
    }
    let front = frontmost();
    let ghost answer = front;
    assert(startup_answer(queued, frontmost, answer));
    proof {
        if answer is None {
            assert(processed_all(states, startup_events(queued, answer), *front_window));
        }
    }
    if let Some(app) = front {
        let event = WorkspaceEvent::Activated(app);
        let ghost activated = event;
        process_workspace_event(event, tracker, front_window, sender, subscribers, dropped_events);
        proof {
            let after = WorkspaceModel {
                tracker: *tracker,
                sender: sender@,
                subscribers: subscribers@,
                dropped: *dropped_events,
            };
            lemma_processed_push(states, queued, *front_window, activated, after);
            states = states.push(after);
            assert(processed_all(states, startup_events(queued, answer), *front_window));
        }
    }
}

/// Whether an activation is among the events.
pub open spec fn queued_activation(events: Seq<WorkspaceEvent>) -> bool {
    exists|i: int| 0 <= i < events.len() && (#[trigger] events[i]) is Activated
}

/// The events of a startup: what was queued, then the frontmost application.
pub open spec fn startup_events(
    events: Seq<WorkspaceEvent>,
    frontmost: Option<ApplicationInfo>,
) -> Seq<WorkspaceEvent> {
    match frontmost {
        Some(app) => events.push(WorkspaceEvent::Activated(app)),
        None => events,
    }
}

/// What was learnt of the frontmost application at startup: it is asked for only
/// when no activation is queued.
pub open spec fn startup_answer<F: FnOnce() -> Option<ApplicationInfo>>(
    events: Seq<WorkspaceEvent>,
    frontmost: F,
    answer: Option<ApplicationInfo>,
) -> bool {
    if queued_activation(events) {
        answer is None
    } else {
        call_ensures(frontmost, (), answer)
    }
}

/// Whether the events queued at startup already hold an activation, so that the
/// frontmost application need not be asked for.
pub fn has_activation(events: &Vec<WorkspaceEvent>) -> (found: bool)
    ensures
        found == queued_activation(events@),
{
    let mut index: usize = 0;
    while index < events.len()
        invariant
            0 <= index <= events.len(),
            forall|i: int| 0 <= i < index ==> !((#[trigger] events@[i]) is Activated),
        decreases events.len() - index,
    {
        if let WorkspaceEvent::Activated(_) = &events[index] {
            assert(events@[index as int] is Activated);
            return true;
        }
        index = index + 1;
    }
    false
}

proof fn lemma_processed_push<W: Fn(i64) -> Option<Window>>(
    states: Seq<WorkspaceModel>,
    events: Seq<WorkspaceEvent>,
    front_window: W,
    event: WorkspaceEvent,
    after: WorkspaceModel,
)
    requires
        processed_all(states, events, front_window),
        processed(states.last(), event, front_window, after),
    ensures
        processed_all(states.push(after), events.push(event), front_window),
{
    let longer = states.push(after);
    let more = events.push(event);
    assert forall|i: int| #![trigger more[i]] 0 <= i < more.len() implies processed(
        longer[i],
        more[i],
        front_window,
        longer[i + 1],
    ) by {
        if i < events.len() {
            assert(more[i] == events[i]);
            assert(longer[i] == states[i]);
            assert(longer[i + 1] == states[i + 1]);
        } else {
            assert(longer[i] == states.last());
        }
    }
}

/// An activation is reported once: repeating it records and announces nothing
/// until another application is activated or it terminates.
pub proof fn law_repeated_activation_is_silent(
    tracker: ActivationTracker,
    app: ApplicationInfo,
    window: Option<Window>,
    raw: Option<RawEvent>,
)
    ensures
        followed(tracker, WorkspaceEvent::Activated(app)).reported(app),
        !announced(
            followed(tracker, WorkspaceEvent::Activated(app)),
            WorkspaceEvent::Activated(app),
        ),
        recorded(
            followed(tracker, WorkspaceEvent::Activated(app)),
            WorkspaceEvent::Activated(app),
            window,
            raw,
        ) ==> raw is None,
        announced(
            followed(
                followed(tracker, WorkspaceEvent::Activated(app)),
                WorkspaceEvent::Terminated(app),
            ),
            WorkspaceEvent::Activated(app),
        ),
{
}

/// The recorded event names what happened: a launch is recorded as a launch, a
/// termination as a termination and a new activation as an activation, each of the
/// application it happened to; a wake-up is not recorded. What is recorded is queued
/// last, where there is room.
pub proof fn law_recorded_event_names_what_happened(
    before: WorkspaceModel,
    event: WorkspaceEvent,
    window: Option<Window>,
    raw: Option<RawEvent>,
    after: WorkspaceModel,
)
    requires
        before.becomes(event, window, raw, after),
    ensures
        event matches WorkspaceEvent::Launched(app) ==> (raw matches Some(sent) && sent.data
            is AppLaunch && sent.event_type@ == "app.launch"@ && sent.window is None
            && sent.app.name == app.name && sent.app.bundle_id == app.bundle_id && sent.app.pid
            == Some(app.pid)),
        event matches WorkspaceEvent::Terminated(app) ==> (raw matches Some(sent) && sent.data
            is AppTerminate && sent.event_type@ == "app.terminate"@ && sent.window is None
            && sent.app.name == app.name && sent.app.bundle_id == app.bundle_id && sent.app.pid
            == Some(app.pid)),
        event matches WorkspaceEvent::Activated(app) ==> (raw matches Some(sent) ==> sent.data
            is AppActivate && sent.event_type@ == "app.activate"@ && sent.window == window
            && sent.app.name == app.name && sent.app.bundle_id == app.bundle_id && sent.app.pid
            == Some(app.pid)),
        event is DidWake ==> raw is None,
        raw matches Some(sent) ==> sent.element is None && sent.observed_at is None
            && sent.source@ == "macos.workspace"@,
        raw is Some && before.sender.connected && before.sender.items.len()
            < before.sender.capacity ==> after.sender.items == before.sender.items.push(raw->0),
        raw is None || !before.sender.connected || before.sender.items.len()
            >= before.sender.capacity ==> after.sender == before.sender,
{
}

/// A launch, a termination and an activation are never recorded alike.
pub proof fn law_recorded_events_differ_in_type(
    first: WorkspaceModel,
    second: WorkspaceModel,
    event: WorkspaceEvent,
    other: WorkspaceEvent,
    window: Option<Window>,
    other_window: Option<Window>,
    raw: RawEvent,
    other_raw: RawEvent,
    first_after: WorkspaceModel,
    second_after: WorkspaceModel,
)
    requires
        first.becomes(event, window, Some(raw), first_after),
        second.becomes(other, other_window, Some(other_raw), second_after),
    ensures
        raw.event_type@ == other_raw.event_type@ <==> (event is Launched && other is Launched) || (
        event is Terminated && other is Terminated) || (event is Activated && other is Activated),
        raw.event_type@ != other_raw.event_type@ ==> raw.data != other_raw.data,
{
    reveal_strlit("app.launch");
    reveal_strlit("app.terminate");
    reveal_strlit("app.activate");
    assert("app.launch"@[4] == 'l');
    assert("app.terminate"@[4] == 't');
    assert("app.activate"@[4] == 'a');
}

/// An activation is recorded exactly where the process or its bundle identifier is
/// another than at the last one; launches and terminations always are.
pub proof fn law_new_activations_are_recorded(
    before: WorkspaceModel,
    event: WorkspaceEvent,
    window: Option<Window>,
    raw: Option<RawEvent>,
    after: WorkspaceModel,
)
    requires
        before.becomes(event, window, raw, after),
    ensures
        event matches WorkspaceEvent::Activated(app) ==> {
            &&& raw is None <==> before.tracker.current_pid == Some(app.pid) && text::text_view(
                before.tracker.current_bundle_id,
            ) == text::text_view(app.bundle_id)
            &&& after.tracker.current_pid == Some(app.pid)
            &&& text::text_view(after.tracker.current_bundle_id) == text::text_view(app.bundle_id)
        },
        event matches WorkspaceEvent::Terminated(app) ==> {
            &&& after.tracker.current_pid is None <==> before.tracker.current_pid is None
                || before.tracker.current_pid == Some(app.pid)
            &&& before.tracker.current_pid != Some(app.pid) ==> after.tracker == before.tracker
            &&& before.tracker.current_pid == Some(app.pid) ==> after.tracker.current_bundle_id
                is None
        },
        event is Launched || event is DidWake ==> after.tracker == before.tracker,
{
}

/// Every subscriber with room gets what is announced: launches, terminations,
/// wake-ups and new activations. A repeated activation reaches none.
pub proof fn law_subscribers_hear_of_news(
    before: WorkspaceModel,
    event: WorkspaceEvent,
    window: Option<Window>,
    raw: Option<RawEvent>,
    after: WorkspaceModel,
    i: int,
)
    requires
        before.becomes(event, window, raw, after),
        0 <= i < before.subscribers.len(),
    ensures
        after.subscribers.len() == before.subscribers.len(),
        before.subscribers[i]@.connected && before.subscribers[i]@.items.len()
            < before.subscribers[i]@.capacity && (event is Activated ==> raw is Some)
            ==> after.subscribers[i]@.items == before.subscribers[i]@.items.push(event),
        event is Activated && raw is None ==> after.subscribers[i]@ == before.subscribers[i]@
            && after.dropped == before.dropped && after.sender == before.sender,
{
    assert(after.subscribers[i]@ == if announced(before.tracker, event) {
        before.subscribers[i]@.offered(event)
    } else {
        before.subscribers[i]@
    });
}

/// A refused announcement is counted once for each subscriber that refuses it, and an
/// accepted one is not.
pub proof fn law_refusals_are_counted(
    subscribers: Seq<BoundedChannel<WorkspaceEvent>>,
    offered: nat,
    count: u64,
)
    requires
        0 < offered <= subscribers.len(),
        refused(subscribers, (offered - 1) as nat, count) < u64::MAX,
    ensures
        refused(subscribers, 0, count) == count,
        refused(subscribers, offered, count) == refused(subscribers, (offered - 1) as nat, count)
            + if subscribers[offered - 1]@.connected && subscribers[offered - 1]@.items.len()
            < subscribers[offered - 1]@.capacity {
            0int
        } else {
            1
        },
{
}

/// A native notification keeps its kind and its application; one that names no
/// application with a name, a process and a known policy is dropped, but a wake-up
/// never is.
pub proof fn law_notifications_keep_their_kind(
    kind: NotificationKind,
    native: Option<NativeApplication>,
    event: Option<WorkspaceEvent>,
)
    requires
        call_ensures(decode_notification, (kind, native), event),
    ensures
        kind is DidWake <==> event == Some(WorkspaceEvent::DidWake),
        kind !is DidWake ==> (event is Some <==> (native matches Some(app) && app.name is Some
            && app.pid >= 1 && 0 <= app.activation_policy <= 2)),
        event matches Some(WorkspaceEvent::Activated(_)) ==> kind is Activated,
        event matches Some(WorkspaceEvent::Launched(_)) ==> kind is Launched,
        event matches Some(WorkspaceEvent::Terminated(_)) ==> kind is Terminated,
        event matches Some(WorkspaceEvent::Activated(app)) ==> decoded_from(app, native),
        event matches Some(WorkspaceEvent::Launched(app)) ==> decoded_from(app, native),
        event matches Some(WorkspaceEvent::Terminated(app)) ==> decoded_from(app, native),
{
}

/// Whether an application says what its native description says.
pub open spec fn decoded_from(app: ApplicationInfo, native: Option<NativeApplication>) -> bool {
    native matches Some(described) && described.name == Some(app.name) && app.bundle_id
        == described.bundle_id && app.pid == described.pid && (app.activation_policy is Regular
        <==> described.activation_policy == 0) && (app.activation_policy is Accessory
        <==> described.activation_policy == 1) && (app.activation_policy is Prohibited
        <==> described.activation_policy == 2)
}

/// At the start the frontmost application is activated last, and only where no
/// activation waits already; the waiting events come first, unchanged.
pub proof fn law_startup_adds_one_activation<F: FnOnce() -> Option<ApplicationInfo>>(
    events: Seq<WorkspaceEvent>,
    frontmost: F,
    answer: Option<ApplicationInfo>,
    i: int,
)
    requires
        startup_answer(events, frontmost, answer),
        0 <= i < events.len(),
    ensures
        startup_events(events, answer)[i] == events[i],
        events[i] is Activated ==> startup_events(events, answer) == events,
        answer matches Some(app) ==> startup_events(events, answer).len() == events.len() + 1
            && startup_events(events, answer).last() == WorkspaceEvent::Activated(app),
        answer is None ==> startup_events(events, answer) == events,
{
}

/// Policies are told by their numbers, and any other number is none. An application is told by its own name,
/// bundle and process.
pub proof fn law_policies_are_told_by_number(
    value: i64,
    policy: Option<ApplicationActivationPolicy>,
    info: ApplicationInfo,
    app: App,
)
    requires
        call_ensures(ApplicationActivationPolicy::from_raw, (value,), policy),
        call_ensures(ApplicationInfo::raw_app, (&info,), app),
    ensures
        (policy is Some && policy->0 is Regular) <==> value == 0,
        (policy is Some && policy->0 is Accessory) <==> value == 1,
        (policy is Some && policy->0 is Prohibited) <==> value == 2,
        policy is None <==> value < 0 || value > 2,
        app.name == info.name && app.bundle_id == info.bundle_id && app.pid == Some(info.pid),
{
}

/// An activation is found among events exactly where one stands.
pub proof fn law_activations_are_found(events: Vec<WorkspaceEvent>, found: bool, index: int)
    requires
        call_ensures(has_activation, (&events,), found),
    ensures
        0 <= index < events@.len() && events@[index] is Activated ==> found,
        found ==> exists|i: int| 0 <= i < events@.len() && (#[trigger] events@[i]) is Activated,
        events@.len() == 0 ==> !found,
{
}

} // verus!
