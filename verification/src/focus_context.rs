//! Single authority for the frontmost application, its window and its field.

use vstd::prelude::*;

use crate::channel;
use crate::channel::{count_up, BoundedChannel, ChannelModel, TrySendError};
use crate::focused_field::FocusedField;
use crate::subject::Subject;
use crate::text;
use crate::text_capture::focused_target;
use crate::window_list;
use crate::window_list::{copy_window, same_number, same_title, window_id, NativeWindow};
use crate::workspace::ApplicationInfo;

verus! {

/// Transitions that wait for one subscriber.
pub const TRANSITION_CHANNEL_CAPACITY: usize = 256;

/// The focus at one time.
#[derive(Debug, PartialEq, Eq)]
pub struct FocusSnapshot {
    pub app: ApplicationInfo,
    pub window: Option<NativeWindow>,
    pub generation: u64,
    pub focused_field: Option<FocusedField>,
    pub field_generation: u64,
}

impl Clone for FocusSnapshot {
    fn clone(&self) -> (copy: FocusSnapshot)
        ensures
            copy == *self,
    {
        FocusSnapshot {
            app: self.app.clone(),
            window: copy_window(&self.window),
            generation: self.generation,
            focused_field: self.focused_field,
            field_generation: self.field_generation,
        }
    }
}

/// A change of the focus.
#[derive(Debug, PartialEq, Eq)]
pub struct FocusTransition {
    pub previous: Option<FocusSnapshot>,
    pub current: Option<FocusSnapshot>,
    pub resynced: bool,
}

impl Clone for FocusTransition {
    fn clone(&self) -> (copy: FocusTransition)
        ensures
            copy == *self,
    {
        FocusTransition {
            previous: copy_snapshot(&self.previous),
            current: copy_snapshot(&self.current),
            resynced: self.resynced,
        }
    }
}

fn copy_snapshot(snapshot: &Option<FocusSnapshot>) -> (copy: Option<FocusSnapshot>)
    ensures
        copy == *snapshot,
{
    match snapshot {
        Some(snapshot) => Some(snapshot.clone()),
        None => None,
    }
}

/// What the focus may move to: an application and its window.
pub type FocusCandidate = Option<(ApplicationInfo, Option<NativeWindow>)>;

/// Whether a candidate has the same process, window and title.
pub open spec fn identical(current: Option<FocusSnapshot>, candidate: FocusCandidate) -> bool {
    match (current, candidate) {
        (None, None) => true,
        (Some(current), Some((app, window))) => {
            &&& current.app.pid == app.pid
            &&& window_list::window_id_of(current.window) == window_list::window_id_of(window)
            &&& window_list::window_title_of(current.window) == window_list::window_title_of(
                window,
            )
        },
        _ => false,
    }
}

/// Whether a candidate has the same process and window, so that the focused
/// field still applies.
pub open spec fn shares_field(current: Option<FocusSnapshot>, candidate: FocusCandidate) -> bool {
    match (current, candidate) {
        (None, None) => true,
        (Some(current), Some((app, window))) => {
            &&& current.app.pid == app.pid
            &&& window_list::window_id_of(current.window) == window_list::window_id_of(window)
        },
        _ => false,
    }
}

/// One subscriber with its queue.
#[derive(Debug)]
pub struct Subscriber {
    pub id: u64,
    pub channel: BoundedChannel<FocusTransition>,
}

/// One subscriber, as plain data.
pub struct SubscriberModel {
    pub id: u64,
    pub channel: ChannelModel<FocusTransition>,
}

/// The subscribers that remain among the first `count` after a transition was
/// offered to each: those that left are dropped.
pub open spec fn published(
    subscribers: Seq<SubscriberModel>,
    transition: FocusTransition,
    count: nat,
) -> Seq<SubscriberModel>
    decreases count,
{
    if count == 0 {
        Seq::empty()
    } else {
        let earlier = published(subscribers, transition, (count - 1) as nat);
        let subscriber = subscribers[count - 1];
        if subscriber.channel.connected {
            earlier.push(
                SubscriberModel {
                    id: subscriber.id,
                    channel: subscriber.channel.offered(transition),
                },
            )
        } else {
            earlier
        }
    }
}

/// The count of lost transitions after offering one to the first `count`.
pub open spec fn lost(subscribers: Seq<SubscriberModel>, count: nat, dropped: u64) -> u64
    decreases count,
{
    if count == 0 {
        dropped
    } else {
        let earlier = lost(subscribers, (count - 1) as nat, dropped);
        if subscribers[count - 1].channel.accepts() {
            earlier
        } else {
            channel::next_count(earlier)
        }
    }
}

/// Every queue holds no more than its capacity and has its own number.
pub open spec fn subscribers_wf(subscribers: Seq<SubscriberModel>, next: u64) -> bool {
    &&& forall|i: int|
        0 <= i < subscribers.len() ==> {
            &&& (#[trigger] subscribers[i]).channel.wf()
            &&& subscribers[i].id < next
        }
    &&& forall|i: int, j: int|
        0 <= i < j < subscribers.len() ==> (#[trigger] subscribers[i]).id != (
        #[trigger] subscribers[j]).id
}

/// The focus and its subscribers.
pub struct FocusModel {
    pub current: Option<FocusSnapshot>,
    pub generation: u64,
    pub field_generation: u64,
    pub subscribers: Seq<SubscriberModel>,
    pub next_subscriber: u64,
    pub dropped: u64,
}

impl FocusModel {
    pub open spec fn wf(self) -> bool {
        subscribers_wf(self.subscribers, self.next_subscriber)
    }

    /// The snapshot that a candidate gets: a field carries over within the same
    /// window, and a new scope gets a new field generation.
    pub open spec fn next_snapshot(self, candidate: FocusCandidate) -> Option<FocusSnapshot> {
        match candidate {
            Some((app, window)) => Some(
                FocusSnapshot {
                    app,
                    window,
                    generation: focused_target::next_of(self.generation),
                    focused_field: if shares_field(self.current, candidate) {
                        match self.current {
                            Some(current) => current.focused_field,
                            None => None,
                        }
                    } else {
                        None
                    },
                    field_generation: self.next_field_generation(candidate),
                },
            ),
            None => None,
        }
    }

    pub open spec fn next_field_generation(self, candidate: FocusCandidate) -> u64 {
        if shares_field(self.current, candidate) {
            self.field_generation
        } else {
            focused_target::next_of(self.field_generation)
        }
    }

    /// The transition that a move to `candidate` publishes: none when it is the
    /// focus already and no resync is asked for.
    pub open spec fn transition(self, candidate: FocusCandidate, force: bool) -> Option<
        FocusTransition,
    > {
        if !force && identical(self.current, candidate) {
            None
        } else {
            Some(
                FocusTransition {
                    previous: self.current,
                    current: self.next_snapshot(candidate),
                    resynced: force,
                },
            )
        }
    }

    /// The focus after a move to `candidate`. Without a transition only the
    /// description of the application and its window is taken over.
    pub open spec fn moved(self, candidate: FocusCandidate, force: bool) -> FocusModel {
        match self.transition(candidate, force) {
            None => FocusModel {
                current: match (self.current, candidate) {
                    (Some(current), Some((app, window))) => Some(
                        FocusSnapshot { app, window, ..current },
                    ),
                    _ => self.current,
                },
                ..self
            },
            Some(transition) => FocusModel {
                current: transition.current,
                generation: focused_target::next_of(self.generation),
                field_generation: self.next_field_generation(candidate),
                subscribers: published(self.subscribers, transition, self.subscribers.len()),
                next_subscriber: self.next_subscriber,
                dropped: lost(self.subscribers, self.subscribers.len(), self.dropped),
            },
        }
    }

    /// The focus after the field of a process was observed: only a change in
    /// the frontmost process counts, and it has its own generation.
    pub open spec fn with_field(self, pid: i32, focused_field: Option<FocusedField>) -> FocusModel {
        match self.current {
            Some(current) => if current.app.pid == pid && current.focused_field != focused_field {
                FocusModel {
                    current: Some(
                        FocusSnapshot {
                            focused_field,
                            field_generation: focused_target::next_of(self.field_generation),
                            ..current
                        },
                    ),
                    field_generation: focused_target::next_of(self.field_generation),
                    ..self
                }
            } else {
                self
            },
            None => self,
        }
    }

    /// The position of a subscriber.
    pub open spec fn position(self, id: u64) -> Option<int> {
        if exists|i: int| 0 <= i < self.subscribers.len() && (#[trigger] self.subscribers[i]).id == id {
            Some(
                choose|i: int|
                    0 <= i < self.subscribers.len() && (#[trigger] self.subscribers[i]).id == id,
            )
        } else {
            None
        }
    }
}

/// The frontmost application and window, shared by every collector.
#[derive(Debug)]
pub struct FocusContext {
    current: Option<FocusSnapshot>,
    generation: u64,
    field_generation: u64,
    subscribers: Vec<Subscriber>,
    next_subscriber: u64,
    dropped: u64,
}

/// One side of a subscription; the context holds the queue.
#[derive(Debug)]
pub struct FocusTransitionReceiver {
    id: u64,
}

impl FocusTransitionReceiver {
    pub closed spec fn spec_id(self) -> u64 {
        self.id
    }
}

/// Why nothing was received.
#[derive(Clone, Copy, Debug, PartialEq, Eq, Structural)]
pub enum TryRecvError {
    Empty,
    Disconnected,
}

spec fn subscriber_model(subscriber: Subscriber) -> SubscriberModel {
    SubscriberModel { id: subscriber.id, channel: subscriber.channel@ }
}

spec fn subscriber_models(subscribers: Seq<Subscriber>) -> Seq<SubscriberModel> {
    subscribers.map_values(|subscriber: Subscriber| subscriber_model(subscriber))
}

impl View for FocusContext {
    type V = FocusModel;

    closed spec fn view(&self) -> FocusModel {
        FocusModel {
            current: self.current,
            generation: self.generation,
            field_generation: self.field_generation,
            subscribers: subscriber_models(self.subscribers@),
            next_subscriber: self.next_subscriber,
            dropped: self.dropped,
        }
    }
}

impl FocusContext {
    /// No focus and no subscribers.
    #[must_use]
    pub fn new() -> (context: Self)
        ensures
            context@ == (FocusModel {
                current: None,
                generation: 0,
                field_generation: 0,
                subscribers: Seq::empty(),
                next_subscriber: 0,
                dropped: 0,
            }),
            context@.wf(),
    {
        let context = FocusContext {
            current: None,
            generation: 0,
            field_generation: 0,
            subscribers: Vec::new(),
            next_subscriber: 0,
            dropped: 0,
        };
        assert(context@.subscribers =~= Seq::empty());
        context
    }

    /// The current focus.
    #[must_use]
    pub fn current(&self) -> (current: Option<FocusSnapshot>)
        ensures
            current == self@.current,
    {
        copy_snapshot(&self.current)
    }

    /// How often the focus changed.
    #[must_use]
    pub fn generation(&self) -> (generation: u64)
        ensures
            generation == self@.generation,
    {
        self.generation
    }

    /// How often the focused field changed.
    #[must_use]
    pub fn field_generation(&self) -> (generation: u64)
        ensures
            generation == self@.field_generation,
    {
        self.field_generation
    }

    /// Transitions that a subscriber did not get.
    #[must_use]
    pub fn dropped_transitions(&self) -> (dropped: u64)
        ensures
            dropped == self@.dropped,
    {
        self.dropped
    }

    /// Adds a subscriber that gets every later transition.
    #[must_use]
    pub fn subscribe(&mut self) -> (receiver: FocusTransitionReceiver)
        requires
            old(self)@.wf(),
            old(self)@.next_subscriber < u64::MAX,
        ensures
            final(self)@.wf(),
            receiver.spec_id() == old(self)@.next_subscriber,
            final(self)@ == (FocusModel {
                subscribers: old(self)@.subscribers.push(
                    SubscriberModel {
                        id: old(self)@.next_subscriber,
                        channel: ChannelModel {
                            capacity: TRANSITION_CHANNEL_CAPACITY as nat,
                            items: Seq::empty(),
                            connected: true,
                        },
                    },
                ),
                next_subscriber: (old(self)@.next_subscriber + 1) as u64,
                ..old(self)@
            }),
    {
        let ghost before = self@;
        let id: u64 = self.next_subscriber;
        self.next_subscriber = id + 1;
        self.subscribers.push(
            Subscriber { id, channel: BoundedChannel::new(TRANSITION_CHANNEL_CAPACITY) },
        );
        proof {
            let added = SubscriberModel {
                id,
                channel: ChannelModel {
                    capacity: TRANSITION_CHANNEL_CAPACITY as nat,
                    items: Seq::empty(),
                    connected: true,
                },
            };
            assert(self@.subscribers =~= before.subscribers.push(added));
        }
        FocusTransitionReceiver { id }
    }

    /// The focus moved to an application and its window.
    pub fn activate(
        &mut self,
        app: ApplicationInfo,
        window: Option<NativeWindow>,
    ) -> (transition: Option<FocusTransition>)
        requires
            old(self)@.wf(),
        ensures
            final(self)@.wf(),
            final(self)@ == old(self)@.moved(Some((app, window)), false),
            transition == old(self)@.transition(Some((app, window)), false),
    {
        self.transition_to(Some((app, window)), false)
    }

    /// Publishes the focus anew, even when it did not move.
    #[must_use]
    pub fn resync(
        &mut self,
        app: ApplicationInfo,
        window: Option<NativeWindow>,
    ) -> (transition: FocusTransition)
        requires
            old(self)@.wf(),
        ensures
            final(self)@.wf(),
            final(self)@ == old(self)@.moved(Some((app, window)), true),
            old(self)@.transition(Some((app, window)), true) == Some(transition),
    {
        self.resync_to(Some((app, window)))
    }

    /// Publishes that nothing has the focus.
    #[must_use]
    pub fn resync_without_focus(&mut self) -> (transition: FocusTransition)
        requires
            old(self)@.wf(),
        ensures
            final(self)@.wf(),
            final(self)@ == old(self)@.moved(None, true),
            old(self)@.transition(None, true) == Some(transition),
    {
        self.resync_to(None)
    }

    fn resync_to(&mut self, candidate: FocusCandidate) -> (transition: FocusTransition)
        requires
            old(self)@.wf(),
        ensures
            final(self)@.wf(),
            final(self)@ == old(self)@.moved(candidate, true),
            old(self)@.transition(candidate, true) == Some(transition),
    {
        let transition = self.transition_to(candidate, true);
        transition.unwrap()
    }

    /// A window of a process was observed; only the frontmost process counts.
    pub fn observe_window(&mut self, pid: i32, window: NativeWindow) -> (transition: Option<
        FocusTransition,
    >)
        requires
            old(self)@.wf(),
        ensures
            final(self)@.wf(),
            match old(self)@.current {
                Some(current) if current.app.pid == pid => {
                    &&& final(self)@ == old(self)@.moved(Some((current.app, Some(window))), false)
                    &&& transition == old(self)@.transition(
                        Some((current.app, Some(window))),
                        false,
                    )
                },
                _ => final(self)@ == old(self)@ && transition is None,
            },
    {
        let current = match self.current() {
            Some(current) => current,
            None => {
                return None;
            },
        };
        if current.app.pid != pid as i64 {
            return None;
        }
        self.transition_to(Some((current.app, Some(window))), false)
    }

    /// A process ended; only the frontmost one counts.
    pub fn terminate(&mut self, pid: i64) -> (transition: Option<FocusTransition>)
        requires
            old(self)@.wf(),
        ensures
            final(self)@.wf(),
            match old(self)@.current {
                Some(current) if current.app.pid == pid => {
                    &&& final(self)@ == old(self)@.moved(None, false)
                    &&& transition == old(self)@.transition(None, false)
                },
                _ => final(self)@ == old(self)@ && transition is None,
            },
    {
        let frontmost = match &self.current {
            Some(current) => current.app.pid == pid,
            None => false,
        };
        if frontmost {
            self.transition_to(None, false)
        } else {
            None
        }
    }

    /// The focused field of a process was observed.
    pub fn update_focused_field(&mut self, pid: i32, focused_field: Option<FocusedField>)
        requires
            old(self)@.wf(),
        ensures
            final(self)@.wf(),
            final(self)@ == old(self)@.with_field(pid, focused_field),
    {
        let changed = match &self.current {
            Some(current) => current.app.pid == pid as i64 && !same_field(
                current.focused_field,
                focused_field,
            ),
            None => false,
        };
        if !changed {
            return ;
        }
        self.field_generation = self.field_generation.saturating_add(1);
        let field_generation: u64 = self.field_generation;
        let current = self.current.take();
        self.current =
        match current {
            Some(snapshot) => Some(
                FocusSnapshot { focused_field, field_generation, ..snapshot },
            ),
            None => None,
        };
    }

    /// Takes the oldest transition that waits for a subscriber.
    pub fn try_recv(&mut self, receiver: &FocusTransitionReceiver) -> (received: Result<
        FocusTransition,
        TryRecvError,
    >)
        requires
            old(self)@.wf(),
        ensures
            final(self)@.wf(),
            match old(self)@.position(receiver.spec_id()) {
                None => {
                    &&& received == Err::<FocusTransition, TryRecvError>(
                        TryRecvError::Disconnected,
                    )
                    &&& final(self)@ == old(self)@
                },
                Some(at) => {
                    let waiting = old(self)@.subscribers[at].channel;
                    if waiting.items.len() == 0 {
                        &&& received == Err::<FocusTransition, TryRecvError>(TryRecvError::Empty)
                        &&& final(self)@ == old(self)@
                    } else {
                        &&& received == Ok::<FocusTransition, TryRecvError>(waiting.items[0])
                        &&& final(self)@ == (FocusModel {
                            subscribers: old(self)@.subscribers.update(
                                at,
                                SubscriberModel {
                                    id: receiver.spec_id(),
                                    channel: ChannelModel {
                                        items: waiting.items.drop_first(),
                                        ..waiting
                                    },
                                },
                            ),
                            ..old(self)@
                        })
                    }
                },
            },
    {
        let ghost before = self@;
        let mut index: usize = 0;
        while index < self.subscribers.len()
            invariant
                self@ == before,
                before == old(self)@,
                before.wf(),
                0 <= index <= self.subscribers.len(),
                before.subscribers.len() == self.subscribers.len(),
                forall|i: int|
                    0 <= i < index ==> (#[trigger] before.subscribers[i]).id != receiver.id,
            decreases self.subscribers.len() - index,
        {
            assert(before.subscribers[index as int] == subscriber_model(
                self.subscribers@[index as int],
            ));
            if self.subscribers[index].id == receiver.id {
                assert(before.position(receiver.id) == Some(index as int));
                let received = self.subscribers[index].channel.try_recv();
                proof {
                    let waiting = before.subscribers[index as int].channel;
                    if waiting.items.len() > 0 {
                        assert(self@.subscribers =~= before.subscribers.update(
                            index as int,
                            SubscriberModel {
                                id: receiver.id,
                                channel: ChannelModel {
                                    items: waiting.items.drop_first(),
                                    ..waiting
                                },
                            },
                        ));
                    } else {
                        assert(self@.subscribers =~= before.subscribers);
                    }
                }
                return match received {
                    Some(transition) => Ok(transition),
                    None => Err(TryRecvError::Empty),
                };
            }
            index = index + 1;
        }
        Err(TryRecvError::Disconnected)
    }

    /// Ends a subscription: the next transition drops its queue.
    pub fn unsubscribe(&mut self, receiver: FocusTransitionReceiver)
        requires
            old(self)@.wf(),
        ensures
            final(self)@.wf(),
            final(self)@ == match old(self)@.position(receiver.spec_id()) {
                None => old(self)@,
                Some(at) => FocusModel {
                    subscribers: old(self)@.subscribers.update(
                        at,
                        SubscriberModel {
                            id: receiver.spec_id(),
                            channel: ChannelModel {
                                connected: false,
                                ..old(self)@.subscribers[at].channel
                            },
                        },
                    ),
                    ..old(self)@
                },
            },
    {
        let ghost before = self@;
        let mut index: usize = 0;
        while index < self.subscribers.len()
            invariant
                self@ == before,
                before == old(self)@,
                before.wf(),
                0 <= index <= self.subscribers.len(),
                before.subscribers.len() == self.subscribers.len(),
                forall|i: int|
                    0 <= i < index ==> (#[trigger] before.subscribers[i]).id != receiver.id,
            decreases self.subscribers.len() - index,
        {
            assert(before.subscribers[index as int] == subscriber_model(
                self.subscribers@[index as int],
            ));
            if self.subscribers[index].id == receiver.id {
                assert(before.position(receiver.id) == Some(index as int));
                self.subscribers[index].channel.disconnect();
                assert(self@.subscribers =~= before.subscribers.update(
                    index as int,
                    SubscriberModel {
                        id: receiver.id,
                        channel: ChannelModel {
                            connected: false,
                            ..before.subscribers[index as int].channel
                        },
                    },
                ));
                return ;
            }
            index = index + 1;
        }
    }

    fn transition_to(&mut self, candidate: FocusCandidate, force: bool) -> (transition: Option<
        FocusTransition,
    >)
        requires
            old(self)@.wf(),
        ensures
            final(self)@.wf(),
            final(self)@ == old(self)@.moved(candidate, force),
            transition == old(self)@.transition(candidate, force),
    {
        if !force && same_identity(&self.current, &candidate) {
            if let Some((app, window)) = candidate {
                let current = self.current.take();
                self.current =
                match current {
                    Some(snapshot) => Some(FocusSnapshot { app, window, ..snapshot }),
                    None => None,
                };
            }
            return None;
        }
        let preserve_field = same_field_scope(&self.current, &candidate);
        self.generation = self.generation.saturating_add(1);
        if !preserve_field {
            self.field_generation = self.field_generation.saturating_add(1);
        }
        let focused_field = if preserve_field {
            match &self.current {
                Some(current) => current.focused_field,
                None => None,
            }
        } else {
            None
        };
        let generation: u64 = self.generation;
        let field_generation: u64 = self.field_generation;
        let current = match candidate {
            Some((app, window)) => Some(
                FocusSnapshot { app, window, generation, focused_field, field_generation },
            ),
            None => None,
        };
        let previous = self.current.take();
        self.current = copy_snapshot(&current);
        let transition = FocusTransition { previous, current, resynced: force };
        self.publish(&transition);
        Some(transition)
    }

    fn publish(&mut self, transition: &FocusTransition)
        requires
            old(self)@.wf(),
        ensures
            final(self)@.wf(),
            final(self)@ == (FocusModel {
                subscribers: published(
                    old(self)@.subscribers,
                    *transition,
                    old(self)@.subscribers.len(),
                ),
                dropped: lost(
                    old(self)@.subscribers,
                    old(self)@.subscribers.len(),
                    old(self)@.dropped,
                ),
                ..old(self)@
            }),
    {
        let ghost before = self@;
        let ghost models = before.subscribers;
        let mut waiting: Vec<Subscriber> = Vec::new();
        waiting.append(&mut self.subscribers);
        let ghost all = waiting@;
        assert(subscriber_models(all) =~= models);
        let mut retained: Vec<Subscriber> = Vec::new();
        let ghost mut taken: nat = 0;
        assert(subscriber_models(retained@) =~= published(models, *transition, 0));
        assert(waiting@ =~= all.skip(0));
        while waiting.len() > 0
            invariant
                before.wf(),
                models == before.subscribers,
                subscriber_models(all) == models,
                all.len() == models.len(),
                taken <= all.len(),
                waiting@ == all.skip(taken as int),
                subscriber_models(retained@) == published(models, *transition, taken),
                retained@.len() <= taken,
                self.dropped == lost(models, taken, before.dropped),
                self.current == before.current,
                self.generation == before.generation,
                self.field_generation == before.field_generation,
                self.next_subscriber == before.next_subscriber,
            decreases waiting.len(),
        {
            let mut subscriber = waiting.remove(0);
            assert(subscriber == all[taken as int]);
            assert(models[taken as int] == subscriber_model(all[taken as int]));
            let ghost shown = retained@;
            let sent = subscriber.channel.try_send(transition.clone());
            let kept = match sent {
                Ok(_) => true,
                Err(TrySendError::Full(_)) => {
                    self.dropped = count_up(self.dropped);
                    true
                },
                Err(TrySendError::Disconnected(_)) => {
                    self.dropped = count_up(self.dropped);
                    false
                },
            };
            if kept {
                retained.push(subscriber);
            }
            proof {
                taken = taken + 1;
                assert(waiting@ =~= all.skip(taken as int));
                if kept {
                    assert(subscriber_models(retained@) =~= subscriber_models(shown).push(
                        subscriber_model(subscriber),
                    ));
                }
            }
        }
        self.subscribers = retained;
        proof {
            lemma_published_wf(models, before.next_subscriber, *transition, models.len());
        }
    }
}

proof fn lemma_published_wf(
    subscribers: Seq<SubscriberModel>,
    next: u64,
    transition: FocusTransition,
    count: nat,
)
    requires
        subscribers_wf(subscribers, next),
        count <= subscribers.len(),
    ensures
        subscribers_wf(published(subscribers, transition, count), next),
        forall|i: int|
            #![trigger published(subscribers, transition, count)[i]]
            0 <= i < published(subscribers, transition, count).len() ==> exists|j: int|
                0 <= j < count && (#[trigger] subscribers[j]).id == published(
                    subscribers,
                    transition,
                    count,
                )[i].id,
    decreases count,
{
    if count > 0 {
        lemma_published_wf(subscribers, next, transition, (count - 1) as nat);
        let last = subscribers[count - 1];
        let earlier = published(subscribers, transition, (count - 1) as nat);
        let now = published(subscribers, transition, count);
        let offered = SubscriberModel { id: last.id, channel: last.channel.offered(transition) };
        assert(now == if last.channel.connected {
            earlier.push(offered)
        } else {
            earlier
        });
        assert forall|i: int| #![trigger now[i]] 0 <= i < now.len() implies exists|j: int|
            0 <= j < count && (#[trigger] subscribers[j]).id == now[i].id by {
            if i < earlier.len() {
                assert(now[i] == earlier[i]);
                let j = choose|j: int|
                    0 <= j < count - 1 && (#[trigger] subscribers[j]).id == earlier[i].id;
                assert(subscribers[j].id == now[i].id);
            } else {
                assert(subscribers[count - 1].id == now[i].id);
            }
        }
        assert forall|i: int, j: int| 0 <= i < j < now.len() implies (#[trigger] now[i]).id != (
        #[trigger] now[j]).id by {
            assert(now[i] == earlier[i]);
            if j >= earlier.len() {
                let k = choose|k: int|
                    0 <= k < count - 1 && (#[trigger] subscribers[k]).id == earlier[i].id;
                assert(subscribers[k].id != last.id);
            } else {
                assert(now[j] == earlier[j]);
            }
        }
        assert forall|i: int| 0 <= i < now.len() implies (#[trigger] now[i]).channel.wf()
            && now[i].id < next by {
            if i < earlier.len() {
                assert(now[i] == earlier[i]);
            }
        }
    }
}

fn same_field(left: Option<FocusedField>, right: Option<FocusedField>) -> (same: bool)
    ensures
        same == (left == right),
{
    match (left, right) {
        (Some(a), Some(b)) => a == b,
        (None, None) => true,
        _ => false,
    }
}

fn same_field_scope(current: &Option<FocusSnapshot>, candidate: &FocusCandidate) -> (same: bool)
    ensures
        same == shares_field(*current, *candidate),
{
    match (current, candidate) {
        (Some(current), Some((app, window))) => current.app.pid == app.pid && same_number(
            window_id(&current.window),
            window_id(window),
        ),
        (None, None) => true,
        _ => false,
    }
}

fn same_identity(current: &Option<FocusSnapshot>, candidate: &FocusCandidate) -> (same: bool)
    ensures
        same == identical(*current, *candidate),
{
    match (current, candidate) {
        (None, None) => true,
        (Some(current), Some((app, window))) => current.app.pid == app.pid && same_number(
            window_id(&current.window),
            window_id(window),
        ) && same_title(&current.window, window),
        _ => false,
    }
}

/// Every published transition has a new generation, and its current focus
/// carries it.
pub proof fn law_transition_advances_the_generation(
    focus: FocusModel,
    candidate: FocusCandidate,
    force: bool,
)
    requires
        focus.generation < u64::MAX,
    ensures
        focus.transition(candidate, force) matches Some(transition) ==> {
            &&& focus.moved(candidate, force).generation == focus.generation + 1
            &&& transition.previous == focus.current
            &&& transition.current == focus.moved(candidate, force).current
            &&& transition.current matches Some(current) ==> current.generation == focus.generation
                + 1
        },
        focus.transition(candidate, force) is None ==> focus.moved(candidate, force).generation
            == focus.generation,
        force ==> focus.transition(candidate, force) is Some,
{
}

/// A field never outlives its window: once another process or window has the
/// focus, no field is known.
pub proof fn law_field_does_not_cross_windows(
    focus: FocusModel,
    candidate: FocusCandidate,
    force: bool,
)
    requires
        !shares_field(focus.current, candidate),
        focus.field_generation < u64::MAX,
    ensures
        focus.moved(candidate, force).current matches Some(current) ==> current.focused_field is None,
        focus.moved(candidate, force).field_generation == focus.field_generation + 1,
{
}

/// Observing a field publishes nothing and leaves the focus generation.
pub proof fn law_field_change_is_not_a_transition(
    focus: FocusModel,
    pid: i32,
    focused_field: Option<FocusedField>,
)
    ensures
        focus.with_field(pid, focused_field).generation == focus.generation,
        focus.with_field(pid, focused_field).subscribers == focus.subscribers,
        focus.with_field(pid, focused_field).dropped == focus.dropped,
        focus.current matches Some(current) && current.app.pid != pid ==> focus.with_field(
            pid,
            focused_field,
        ) == focus,
{
}

/// Activating the focused application and window again publishes nothing.
pub proof fn law_repeated_activation_publishes_nothing(focus: FocusModel, candidate: FocusCandidate)
    ensures
        focus.moved(candidate, false).transition(candidate, false) is None,
{
}

/// An activation moves the focus exactly where the process, the window's number or its title is
/// another. Then it tells the focus before and after and counts as one change; the field stays
/// known only within the same window of the same process. An activation that moves nothing only
/// refreshes what is known of the application.
pub proof fn law_activation_moves_the_focus(
    call: Subject<FocusContext>,
    app: ApplicationInfo,
    window: Option<NativeWindow>,
    transition: Option<FocusTransition>,
)
    requires
        call.on@.wf(),
        call_ensures(FocusContext::activate, (call.on, app, window), transition),
        call.on@.generation < u64::MAX && call.on@.field_generation < u64::MAX,
    ensures
        transition is None <==> (old(call.on)@.current matches Some(current) && current.app.pid
            == app.pid && window_list::window_id_of(current.window) == window_list::window_id_of(
            window,
        ) && window_list::window_title_of(current.window) == window_list::window_title_of(window)),
        transition matches Some(moved) ==> {
            &&& moved.previous == old(call.on)@.current
            &&& moved.current == final(call.on)@.current
            &&& !moved.resynced
            &&& final(call.on)@.generation == old(call.on)@.generation + 1
        },
        transition is None ==> final(call.on)@.generation == old(call.on)@.generation
            && final(call.on)@.field_generation == old(call.on)@.field_generation
            && final(call.on)@.subscribers == old(call.on)@.subscribers,
        final(call.on)@.current is Some,
        final(call.on)@.current->0.app == app,
        final(call.on)@.current->0.window == window,
        final(call.on)@.current->0.generation == if transition is Some {
            final(call.on)@.generation
        } else {
            old(call.on)@.current->0.generation
        },
        (old(call.on)@.current matches Some(current) && current.app.pid == app.pid
            && window_list::window_id_of(current.window) == window_list::window_id_of(window)) ==> {
            &&& final(call.on)@.current->0.focused_field == old(call.on)@.current->0.focused_field
            &&& final(call.on)@.field_generation == old(call.on)@.field_generation
        },
        !(old(call.on)@.current matches Some(current) && current.app.pid == app.pid
            && window_list::window_id_of(current.window) == window_list::window_id_of(window)) ==> {
            &&& final(call.on)@.current->0.focused_field is None
            &&& final(call.on)@.field_generation == old(call.on)@.field_generation + 1
        },
{
}

/// A resynchronization is always told, as such, though nothing moved; without a focus it leaves
/// none.
pub proof fn law_resynchronization_is_always_told(
    call: Subject<FocusContext>,
    app: ApplicationInfo,
    window: Option<NativeWindow>,
    transition: FocusTransition,
    cleared: Subject<FocusContext>,
    lost_focus: FocusTransition,
)
    requires
        call.on@.wf() && cleared.on@.wf(),
        call_ensures(FocusContext::resync, (call.on, app, window), transition),
        call_ensures(FocusContext::resync_without_focus, (cleared.on,), lost_focus),
        call.on@.generation < u64::MAX && cleared.on@.generation < u64::MAX,
    ensures
        transition.resynced && lost_focus.resynced,
        transition.previous == old(call.on)@.current,
        transition.current == final(call.on)@.current,
        final(call.on)@.current is Some && final(call.on)@.current->0.app == app
            && final(call.on)@.current->0.window == window,
        final(call.on)@.generation == old(call.on)@.generation + 1,
        lost_focus.previous == old(cleared.on)@.current,
        lost_focus.current is None && final(cleared.on)@.current is None,
        final(cleared.on)@.generation == old(cleared.on)@.generation + 1,
{
}

/// A window is taken over, and a termination clears the focus, only where the process has the
/// focus.
pub proof fn law_only_the_focused_process_counts(
    shown: Subject<FocusContext>,
    pid: i32,
    window: NativeWindow,
    moved: Option<FocusTransition>,
    ended: Subject<FocusContext>,
    ended_pid: i64,
    cleared: Option<FocusTransition>,
)
    requires
        shown.on@.wf() && ended.on@.wf(),
        call_ensures(FocusContext::observe_window, (shown.on, pid, window), moved),
        call_ensures(FocusContext::terminate, (ended.on, ended_pid), cleared),
    ensures
        !(old(shown.on)@.current matches Some(current) && current.app.pid == pid) ==> moved is None
            && final(shown.on)@ == old(shown.on)@,
        (old(shown.on)@.current matches Some(current) && current.app.pid == pid) ==> {
            &&& final(shown.on)@.current is Some
            &&& final(shown.on)@.current->0.app == old(shown.on)@.current->0.app
            &&& final(shown.on)@.current->0.window == Some(window)
            &&& moved is None <==> window_list::window_id_of(old(shown.on)@.current->0.window)
                == window.id && window_list::window_title_of(old(shown.on)@.current->0.window)
                == text::text_view(window.title)
        },
        !(old(ended.on)@.current matches Some(current) && current.app.pid == ended_pid) ==> cleared
            is None && final(ended.on)@ == old(ended.on)@,
        (old(ended.on)@.current matches Some(current) && current.app.pid == ended_pid)
            ==> final(ended.on)@.current is None && (cleared matches Some(transition)
            && transition.previous == old(ended.on)@.current && transition.current is None
            && !transition.resynced),
{
}

/// A focused field is taken over for the focused process alone, and counts as a change of the field
/// exactly where it is another; the focus itself does not move by it.
pub proof fn law_fields_change_within_the_focus(
    call: Subject<FocusContext>,
    pid: i32,
    focused_field: Option<FocusedField>,
)
    requires
        call.on@.wf(),
        call_ensures(FocusContext::update_focused_field, (call.on, pid, focused_field), ()),
        call.on@.field_generation < u64::MAX,
    ensures
        final(call.on)@.generation == old(call.on)@.generation,
        final(call.on)@.subscribers == old(call.on)@.subscribers,
        !(old(call.on)@.current matches Some(current) && current.app.pid == pid) ==> final(call.on)@
            == old(call.on)@,
        (old(call.on)@.current matches Some(current) && current.app.pid == pid) ==> {
            let before = old(call.on)@.current->0;
            let after = final(call.on)@.current->0;
            &&& final(call.on)@.current is Some
            &&& after.focused_field == focused_field
            &&& after.app == before.app && after.window == before.window && after.generation
                == before.generation
            &&& before.focused_field == focused_field ==> final(call.on)@ == old(call.on)@
            &&& before.focused_field != focused_field ==> final(call.on)@.field_generation
                == old(call.on)@.field_generation + 1 && after.field_generation
                == final(call.on)@.field_generation
        },
{
}

/// Every subscriber that is there and has room gets a transition last; one that is gone is
/// forgotten.
pub proof fn law_transitions_reach_every_subscriber(
    subscribers: Seq<SubscriberModel>,
    transition: FocusTransition,
    count: nat,
    index: int,
)
    requires
        count <= subscribers.len(),
        forall|i: int| 0 <= i < subscribers.len() ==> (#[trigger] subscribers[i]).channel.connected,
        0 <= index < count,
    ensures
        published(subscribers, transition, count).len() == count,
        published(subscribers, transition, count)[index].id == subscribers[index].id,
        subscribers[index].channel.items.len() < subscribers[index].channel.capacity ==> published(
            subscribers,
            transition,
            count,
        )[index].channel.items == subscribers[index].channel.items.push(transition),
        subscribers[index].channel.items.len() >= subscribers[index].channel.capacity ==> published(
            subscribers,
            transition,
            count,
        )[index].channel == subscribers[index].channel,
    decreases count,
{
    lemma_published_length(subscribers, transition, (count - 1) as nat);
    assert(subscribers[count - 1].channel.connected);
    if index < count - 1 {
        law_transitions_reach_every_subscriber(
            subscribers,
            transition,
            (count - 1) as nat,
            index,
        );
    }
}

proof fn lemma_published_length(
    subscribers: Seq<SubscriberModel>,
    transition: FocusTransition,
    count: nat,
)
    requires
        count <= subscribers.len(),
        forall|i: int| 0 <= i < subscribers.len() ==> (#[trigger] subscribers[i]).channel.connected,
    ensures
        published(subscribers, transition, count).len() == count,
    decreases count,
{
    if count > 0 {
        lemma_published_length(subscribers, transition, (count - 1) as nat);
        assert(subscribers[count - 1].channel.connected);
    }
}

/// A new subscriber starts with nothing waiting and room for 256 transitions, under a number of its
/// own; it takes transitions in the order they were told.
pub proof fn law_subscribers_receive_in_order(
    joined: Subject<FocusContext>,
    receiver: FocusTransitionReceiver,
    asked: Subject<FocusContext>,
    reader: FocusTransitionReceiver,
    received: Result<FocusTransition, TryRecvError>,
    index: int,
)
    requires
        joined.on@.wf() && joined.on@.next_subscriber < u64::MAX && asked.on@.wf(),
        call_ensures(FocusContext::subscribe, (joined.on,), receiver),
        call_ensures(FocusContext::try_recv, (asked.on, &reader), received),
        0 <= index < asked.on@.subscribers.len(),
        asked.on@.subscribers[index].id == reader.spec_id(),
    ensures
        final(joined.on)@.subscribers.len() == old(joined.on)@.subscribers.len() + 1,
        final(joined.on)@.subscribers.last().id == receiver.spec_id(),
        final(joined.on)@.subscribers.last().channel.items.len() == 0,
        final(joined.on)@.subscribers.last().channel.capacity == 256,
        final(joined.on)@.subscribers.last().channel.connected,
        final(joined.on)@.current == old(joined.on)@.current,
        received is Ok <==> old(asked.on)@.subscribers[index].channel.items.len() > 0,
        received matches Ok(transition) ==> transition
            == old(asked.on)@.subscribers[index].channel.items[0],
        received matches Err(error) ==> error is Empty && final(asked.on)@ == old(asked.on)@,
        received is Ok ==> final(asked.on)@.subscribers[index].channel.items
            == old(asked.on)@.subscribers[index].channel.items.skip(1),
{
    let id = reader.spec_id();
    let before = asked.on@;
    assert(before.subscribers[index].id == id);
    let at = choose|i: int|
        0 <= i < before.subscribers.len() && (#[trigger] before.subscribers[i]).id == id;
    assert(at == index) by {
        if at < index {
            assert(before.subscribers[at].id != before.subscribers[index].id);
        } else if at > index {
            assert(before.subscribers[index].id != before.subscribers[at].id);
        }
    }
    assert(before.position(id) == Some(index));
}

} // verus!
