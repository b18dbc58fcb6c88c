//! Event construction and delivery of the event tap.

use time::OffsetDateTime;
use vstd::prelude::*;

use super::clipboard::ClipboardOutput;
use super::native::NativeContext;
use crate::channel;
use crate::channel::{count_up, BoundedChannel, ChannelModel, TrySendError};
use crate::clock::Instant;
use crate::schema::{App, CaptureContext, EventData, RawEvent};
use crate::subject::Subject;
use crate::text;
use crate::text::as_text;
use crate::text_capture::authorization::{
    AuthorizationState, InputAuthorization, InputAuthorizations, LedgerModel,
};
use crate::text_capture::policy::{CapturePolicy, TextContentDecision};
use crate::text_capture::quarantine::{
    HeldBodyKind, HeldEvent, QuarantineModel, ReleasedEvent, TextQuarantine,
};
use crate::text_capture::routing;
use crate::text_capture::routing::{route_text_body, TextBodyRoute};
use crate::window_list;

verus! {

/// Whether an event of the event tap describes this context and data.
pub open spec fn describes(
    event: RawEvent,
    event_type: Seq<char>,
    context: NativeContext,
    data: EventData,
    policy: CapturePolicy,
    observed_at: OffsetDateTime,
) -> bool {
    &&& event.observed_at == Some(observed_at)
    &&& event.source@ == "macos.eventtap"@
    &&& event.event_type@ == event_type
    &&& event.app == context.app.spec_raw_app()
    &&& context.window matches Some(native) && event.window == Some(
        crate::schema::Window { title: native.title, id: native.id },
    )
    &&& event.element is None
    &&& event.data == data
    &&& event.capture_context == policy.spec_decision(
        context.app.spec_raw_app(),
        window_list::window_id_of(context.window),
        None,
    ).capture_context
}

/// Whether `event` is what is built for a context: nothing without a window.
pub open spec fn built(
    event: Option<RawEvent>,
    event_type: Seq<char>,
    context: NativeContext,
    data: EventData,
    policy: CapturePolicy,
    observed_at: OffsetDateTime,
) -> bool {
    match event {
        Some(event) => describes(event, event_type, context, data, policy, observed_at),
        None => context.window is None,
    }
}

/// Builds an event; without a window there is none.
pub fn raw_event(
    event_type: &str,
    context: &NativeContext,
    data: EventData,
    policy: &CapturePolicy,
    observed_at: OffsetDateTime,
) -> (event: Option<RawEvent>)
    ensures
        built(event, event_type@, *context, data, *policy, observed_at),
        event is None <==> context.window is None,
{
    match &context.window {
        None => None,
        Some(window) => {
            let app = context.app.raw_app();
            let capture_context = policy.decision(&app, window.id, None).capture_context();
            Some(
                RawEvent {
                    observed_at: Some(observed_at),
                    source: "macos.eventtap".to_owned(),
                    event_type: event_type.to_owned(),
                    app,
                    window: Some(window.to_window()),
                    element: None,
                    data,
                    capture_context,
                },
            )
        },
    }
}

/// Whether an event reports a clipboard change that nobody can be named for.
pub open spec fn is_unknown_clipboard_event(
    event: RawEvent,
    data: EventData,
    observed_at: OffsetDateTime,
) -> bool {
    &&& event.observed_at == Some(observed_at)
    &&& event.source@ == "macos.eventtap"@
    &&& event.event_type@ == "clipboard.copy"@
    &&& event.app.name@ == "Unknown"@
    &&& event.app.bundle_id is None
    &&& event.app.pid is None
    &&& event.window is None
    &&& event.element is None
    &&& event.data == data
    &&& event.capture_context == CaptureContext::empty()
}

/// The event of a clipboard change that nobody can be named for.
pub fn unknown_clipboard_event(data: EventData, observed_at: OffsetDateTime) -> (event: RawEvent)
    ensures
        is_unknown_clipboard_event(event, data, observed_at),
{
    RawEvent {
        observed_at: Some(observed_at),
        source: "macos.eventtap".to_owned(),
        event_type: "clipboard.copy".to_owned(),
        app: App { name: "Unknown".to_owned(), bundle_id: None, pid: None },
        window: None,
        element: None,
        data,
        capture_context: CaptureContext::default(),
    }
}

/// What became of an event.
#[derive(Clone, Copy, Debug, PartialEq, Eq, Structural)]
pub enum EmitResult {
    Sent,
    Filtered,
    Dropped,
    Disconnected,
}

impl EmitResult {
    pub open spec fn spec_continues(self) -> bool {
        !(self is Disconnected)
    }

    pub open spec fn spec_name(self) -> Seq<char> {
        match self {
            EmitResult::Sent => "sent"@,
            EmitResult::Filtered => "filtered"@,
            EmitResult::Dropped => "dropped"@,
            EmitResult::Disconnected => "disconnected"@,
        }
    }

    /// Whether the worker goes on: the consumer is still there.
    pub fn continues(self) -> (continues: bool)
        ensures
            continues == self.spec_continues(),
    {
        !matches!(self, EmitResult::Disconnected)
    }

    /// A short name for diagnostics.
    pub fn name(self) -> (name: &'static str)
        ensures
            name@ == self.spec_name(),
    {
        match self {
            EmitResult::Sent => "sent",
            EmitResult::Filtered => "filtered",
            EmitResult::Dropped => "dropped",
            EmitResult::Disconnected => "disconnected",
        }
    }
}

/// What offering a value to a queue comes to.
pub open spec fn offer_result<T>(queue: ChannelModel<T>) -> EmitResult {
    if !queue.connected {
        EmitResult::Disconnected
    } else if queue.items.len() >= queue.capacity {
        EmitResult::Dropped
    } else {
        EmitResult::Sent
    }
}

/// The count of lost events after offering one.
pub open spec fn offer_count<T>(queue: ChannelModel<T>, dropped: u64) -> u64 {
    if queue.accepts() {
        dropped
    } else {
        channel::next_count(dropped)
    }
}

/// Offers a value to a queue and counts a refusal.
pub fn try_send_counted<T>(
    sender: &mut BoundedChannel<T>,
    value: T,
    dropped_events: &mut u64,
) -> (result: EmitResult)
    requires
        old(sender)@.wf(),
    ensures
        final(sender)@.wf(),
        final(sender)@ == old(sender)@.offered(value),
        *final(dropped_events) == offer_count(old(sender)@, *old(dropped_events)),
        result == offer_result(old(sender)@),
{
    match sender.try_send(value) {
        Ok(()) => EmitResult::Sent,
        Err(TrySendError::Full(_)) => {
            *dropped_events = count_up(*dropped_events);
            EmitResult::Dropped
        },
        Err(TrySendError::Disconnected(_)) => {
            *dropped_events = count_up(*dropped_events);
            EmitResult::Disconnected
        },
    }
}

/// The queue, the quarantine and the count that delivery changes.
pub struct OutputModel {
    pub sender: ChannelModel<RawEvent>,
    pub quarantine: QuarantineModel,
    pub dropped: u64,
}

/// The decision that holds when an event is sent: by its application, window and
/// title, and by the decision that was made before its body was read.
pub open spec fn send_decision(
    policy: CapturePolicy,
    event: RawEvent,
    earlier: Option<TextContentDecision>,
) -> TextContentDecision {
    let (window_id, title) = match event.window {
        Some(window) => (window.id, text::text_view(window.title)),
        None => (None, None),
    };
    policy.spec_decision(event.app, window_id, title).sent_under(earlier)
}

impl OutputModel {
    /// The output after an event was sent as it is.
    pub open spec fn sent(self, event: RawEvent) -> (OutputModel, EmitResult) {
        (
            OutputModel {
                sender: self.sender.offered(event),
                dropped: offer_count(self.sender, self.dropped),
                ..self
            },
            offer_result(self.sender),
        )
    }

    /// The output after an event was routed: sent, or held until the browser
    /// confirms. Nothing to send is filtered.
    pub open spec fn emitted(
        self,
        event: Option<RawEvent>,
        policy: CapturePolicy,
        earlier: Option<TextContentDecision>,
        at: Instant,
    ) -> (OutputModel, EmitResult) {
        match event {
            None => (self, EmitResult::Filtered),
            Some(event) => {
                match routing::routed(event, send_decision(policy, event, earlier)) {
                    TextBodyRoute::Send(event) => self.sent(event),
                    TextBodyRoute::Quarantine { event, key, version, observed_at } => (
                        OutputModel {
                            quarantine: self.quarantine.holding(
                                HeldEvent {
                                    event: RawEvent { observed_at: Some(observed_at), ..event },
                                    key,
                                    version_at_decision: version,
                                    held_at: at,
                                    kind: HeldBodyKind::Text,
                                },
                            ),
                            ..self
                        },
                        EmitResult::Sent,
                    ),
                }
            },
        }
    }
}

/// Sends an event as it is; nothing to send is filtered.
pub fn emit(
    sender: &mut BoundedChannel<RawEvent>,
    event: Option<RawEvent>,
    dropped_events: &mut u64,
) -> (result: EmitResult)
    requires
        old(sender)@.wf(),
    ensures
        final(sender)@.wf(),
        match event {
            None => {
                &&& result is Filtered
                &&& final(sender)@ == old(sender)@
                &&& *final(dropped_events) == *old(dropped_events)
            },
            Some(event) => {
                &&& result == offer_result(old(sender)@)
                &&& final(sender)@ == old(sender)@.offered(event)
                &&& *final(dropped_events) == offer_count(old(sender)@, *old(dropped_events))
            },
        },
{
    match event {
        None => EmitResult::Filtered,
        Some(event) => try_send_counted(sender, event, dropped_events),
    }
}

/// Routes an event under the decision made now and the earlier one, and sends
/// or holds it.
pub fn emit_or_quarantine(
    sender: &mut BoundedChannel<RawEvent>,
    event: Option<RawEvent>,
    policy: &CapturePolicy,
    earlier: Option<&TextContentDecision>,
    quarantine: &mut TextQuarantine,
    at: Instant,
    dropped_events: &mut u64,
) -> (result: EmitResult)
    requires
        old(sender)@.wf(),
    ensures
        final(sender)@.wf(),
        (
            (OutputModel {
                sender: final(sender)@,
                quarantine: final(quarantine)@,
                dropped: *final(dropped_events),
            }),
            result,
        ) == (OutputModel {
            sender: old(sender)@,
            quarantine: old(quarantine)@,
            dropped: *old(dropped_events),
        }).emitted(
            event,
            *policy,
            match earlier {
                Some(before) => Some(*before),
                None => None,
            },
            at,
        ),
{
    let event = match event {
        None => {
            return EmitResult::Filtered;
        },
        Some(event) => event,
    };
    let (window_id, title) = match &event.window {
        Some(window) => (window.id, as_text(&window.title)),
        None => (None, None),
    };
    let current = policy.decision(&event.app, window_id, title);
    match route_text_body(event, current, earlier) {
        TextBodyRoute::Send(event) => try_send_counted(sender, event, dropped_events),
        TextBodyRoute::Quarantine { event, key, version, observed_at } => {
            quarantine.hold_text(event, key, version, observed_at, at);
            EmitResult::Sent
        },
    }
}

/// Sends or holds a clipboard event.
pub fn emit_clipboard(
    sender: &mut BoundedChannel<RawEvent>,
    output: Option<ClipboardOutput>,
    policy: &CapturePolicy,
    quarantine: &mut TextQuarantine,
    at: Instant,
    dropped_events: &mut u64,
) -> (result: EmitResult)
    requires
        old(sender)@.wf(),
    ensures
        final(sender)@.wf(),
        (
            (OutputModel {
                sender: final(sender)@,
                quarantine: final(quarantine)@,
                dropped: *final(dropped_events),
            }),
            result,
        ) == (OutputModel {
            sender: old(sender)@,
            quarantine: old(quarantine)@,
            dropped: *old(dropped_events),
        }).emitted(
            match output {
                Some(output) => Some(output.event),
                None => None,
            },
            *policy,
            match output {
                Some(output) => output.decision,
                None => None,
            },
            at,
        ),
{
    match output {
        None => EmitResult::Filtered,
        Some(output) => {
            let ClipboardOutput { event, decision } = output;
            emit_or_quarantine(
                sender,
                Some(event),
                policy,
                decision.as_ref(),
                quarantine,
                at,
                dropped_events,
            )
        },
    }
}

/// The queue after the first `count` released events were offered to it.
pub open spec fn offered_all(
    queue: ChannelModel<RawEvent>,
    events: Seq<ReleasedEvent>,
    count: nat,
) -> ChannelModel<RawEvent>
    decreases count,
{
    if count == 0 {
        queue
    } else {
        offered_all(queue, events, (count - 1) as nat).offered(events[count - 1].event)
    }
}

/// The count of lost events after the first `count` were offered.
pub open spec fn lost_all(
    queue: ChannelModel<RawEvent>,
    events: Seq<ReleasedEvent>,
    count: nat,
    dropped: u64,
) -> u64
    decreases count,
{
    if count == 0 {
        dropped
    } else {
        offer_count(
            offered_all(queue, events, (count - 1) as nat),
            lost_all(queue, events, (count - 1) as nat, dropped),
        )
    }
}

/// Sends released events in order; stops at the first one that finds the
/// consumer gone.
pub fn emit_released(
    sender: &mut BoundedChannel<RawEvent>,
    events: Vec<ReleasedEvent>,
    dropped_events: &mut u64,
) -> (continues: bool)
    requires
        old(sender)@.wf(),
    ensures
        final(sender)@.wf(),
        continues == (old(sender)@.connected || events@.len() == 0),
        old(sender)@.connected ==> {
            &&& final(sender)@ == offered_all(old(sender)@, events@, events@.len())
            &&& *final(dropped_events) == lost_all(
                old(sender)@,
                events@,
                events@.len(),
                *old(dropped_events),
            )
        },
        !old(sender)@.connected ==> {
            &&& final(sender)@ == old(sender)@
            &&& *final(dropped_events) == if events@.len() == 0 {
                *old(dropped_events)
            } else {
                channel::next_count(*old(dropped_events))
            }
        },
{
    let ghost all = events@;
    let ghost before = sender@;
    let ghost count = *dropped_events;
    let ghost mut taken: nat = 0;
    let mut waiting = events;
    assert(waiting@ =~= all.skip(0));
    while waiting.len() > 0
        invariant
            before.wf(),
            sender@.wf(),
            taken <= all.len(),
            waiting@ == all.skip(taken as int),
            sender@ == offered_all(before, all, taken),
            *dropped_events == lost_all(before, all, taken, count),
            sender@.connected == before.connected,
            taken > 0 ==> before.connected,
            before == old(sender)@,
            count == *old(dropped_events),
            all == events@,
        decreases waiting.len(),
    {
        let released = waiting.remove(0);
        let (event, _) = released.into_parts();
        assert(event == all[taken as int].event);
        let result = try_send_counted(sender, event, dropped_events);
        if !result.continues() {
            assert(taken == 0);
            return false;
        }
        proof {
            taken = taken + 1;
            assert(waiting@ =~= all.skip(taken as int));
        }
    }
    true
}

/// The ledger after the worker decided about a keystroke: confirmed when its
/// event was sent, rejected otherwise.
pub open spec fn resolved_ledger(
    ledger: LedgerModel,
    emit_result: EmitResult,
    authorization: Option<InputAuthorization>,
) -> LedgerModel {
    match authorization {
        Some(authorization) => ledger.settled(
            authorization.slot,
            if emit_result is Sent {
                AuthorizationState::Confirmed
            } else {
                AuthorizationState::Rejected
            },
        ),
        None => ledger,
    }
}

/// Confirms or rejects the reservation of a keystroke.
pub fn resolve_input_authorization(
    emit_result: EmitResult,
    authorization: Option<&InputAuthorization>,
    authorizations: &mut InputAuthorizations,
)
    ensures
        final(authorizations)@ == resolved_ledger(
            old(authorizations)@,
            emit_result,
            match authorization {
                Some(authorization) => Some(*authorization),
                None => None,
            },
        ),
{
    match authorization {
        None => {},
        Some(authorization) => {
            if matches!(emit_result, EmitResult::Sent) {
                authorization.confirm(authorizations);
            } else {
                authorization.reject(authorizations);
            }
        },
    }
}

/// A body that the policy denies now never leaves through routing: what is
/// queued or held of it carries no body.
pub proof fn law_denied_body_is_not_emitted(
    output: OutputModel,
    event: RawEvent,
    policy: CapturePolicy,
    earlier: Option<TextContentDecision>,
    at: Instant,
)
    requires
        output.sender.accepts(),
        !send_decision(policy, event, earlier).allowed,
    ensures
        output.emitted(Some(event), policy, earlier, at).0.quarantine == output.quarantine,
        !routing::has_body(output.emitted(Some(event), policy, earlier, at).0.sender.items.last()),
{
    routing::law_denied_body_never_leaves(event, send_decision(policy, event, earlier));
}

/// A keystroke authorizes values only when its own event was sent.
pub proof fn law_only_a_sent_keystroke_is_confirmed(
    ledger: LedgerModel,
    emit_result: EmitResult,
    authorization: InputAuthorization,
)
    requires
        !(ledger.state_of(authorization.slot) is Confirmed),
        resolved_ledger(ledger, emit_result, Some(authorization)).state_of(
            authorization.slot,
        ) is Confirmed,
    ensures
        emit_result is Sent,
        ledger.state_of(authorization.slot) is Pending,
{
}

/// An input event is made exactly where its window is known. It names its application and
/// window, when and as what it was observed, and carries its payload unchanged.
pub proof fn law_input_events_name_their_place(
    event_type: &str,
    context: NativeContext,
    data: EventData,
    policy: CapturePolicy,
    observed_at: OffsetDateTime,
    event: Option<RawEvent>,
)
    requires
        call_ensures(raw_event, (event_type, &context, data, &policy, observed_at), event),
    ensures
        event is Some <==> context.window is Some,
        event matches Some(made) ==> {
            &&& made.event_type@ == event_type@
            &&& made.data == data
            &&& made.observed_at == Some(observed_at)
            &&& made.source@ == "macos.eventtap"@
            &&& made.app.name == context.app.name
            &&& made.app.bundle_id == context.app.bundle_id
            &&& made.app.pid == Some(context.app.pid)
            &&& made.window is Some
            &&& made.window->0.title == context.window->0.title
            &&& made.window->0.id == context.window->0.id
            &&& made.element is None
        },
{
}

/// A change of the clipboard without a known place is reported as a copy of nobody.
pub proof fn law_unplaced_copies_name_nobody(
    data: EventData,
    observed_at: OffsetDateTime,
    event: RawEvent,
)
    requires
        call_ensures(unknown_clipboard_event, (data, observed_at), event),
    ensures
        event.event_type@ == "clipboard.copy"@,
        event.data == data,
        event.observed_at == Some(observed_at),
        event.app.pid is None && event.app.bundle_id is None,
        event.window is None && event.element is None,
        event.capture_context.url is None && event.capture_context.website_host is None,
{
}

/// A value is queued last where there is room, and its loss is counted once where there is
/// not; only a gone consumer stops the work.
pub proof fn law_offers_are_sent_or_counted<T>(
    sender: Subject<BoundedChannel<T>>,
    value: T,
    dropped: Subject<u64>,
    result: EmitResult,
    continues: bool,
)
    requires
        sender.on@.wf(),
        call_ensures(try_send_counted::<T>, (sender.on, value, dropped.on), result),
        call_ensures(EmitResult::continues, (result,), continues),
    ensures
        result is Sent <==> old(sender.on)@.connected && old(sender.on)@.items.len() < old(
            sender.on,
        )@.capacity,
        result is Disconnected <==> !old(sender.on)@.connected,
        result !is Filtered,
        result is Sent ==> final(sender.on)@.items == old(sender.on)@.items.push(value)
            && *final(dropped.on) == *old(dropped.on),
        result !is Sent ==> final(sender.on)@ == old(sender.on)@ && (*old(dropped.on) < u64::MAX
            ==> *final(dropped.on) == *old(dropped.on) + 1),
        continues <==> old(sender.on)@.connected,
{
}

/// What becomes of an event on its way out, by the policy's answer for its application,
/// window and title: denied text never leaves, text that awaits a confirmation is held and
/// not sent, and text that awaits none leaves as it is, but never from Chrome. Without an
/// event nothing happens.
pub proof fn law_events_leave_as_the_policy_says(
    output: OutputModel,
    event: Option<RawEvent>,
    policy: CapturePolicy,
    at: Instant,
    after: OutputModel,
    result: EmitResult,
)
    requires
        output.sender.connected && output.sender.items.len() < output.sender.capacity,
        output.emitted(event, policy, None, at) == (after, result),
    ensures
        event is None ==> after == output && result is Filtered,
        event matches Some(event) ==> {
            let title = match event.window {
                Some(window) => text::text_view(window.title),
                None => None,
            };
            let id = match event.window {
                Some(window) => window.id,
                None => None,
            };
            let answer = policy.spec_decision(event.app, id, title);
            let chrome = event.app.bundle_id matches Some(bundle) && bundle@
                == "com.google.Chrome"@;
            &&& result is Sent
            &&& after.dropped == output.dropped
            &&& !answer.allowed || !routing::has_body(event) ==> {
                &&& after.quarantine == output.quarantine
                &&& after.sender.items.len() == output.sender.items.len() + 1
                &&& !routing::has_body(after.sender.items.last())
                &&& after.sender.items.last().event_type == event.event_type
                &&& after.sender.items.last().app == event.app
            }
            &&& answer.allowed && answer.chrome_version is None && !chrome ==> {
                &&& after.quarantine == output.quarantine
                &&& after.sender.items.len() == output.sender.items.len() + 1
                &&& after.sender.items.last().data == event.data
                &&& after.sender.items.last().element == event.element
            }
            &&& answer.allowed && answer.chrome_version is Some && routing::has_body(event)
                && event.app.pid is Some && id is Some && event.observed_at is Some ==> {
                &&& after.sender == output.sender
                &&& after.quarantine.held.len() == output.quarantine.held.len() + 1
                &&& after.quarantine.held.last().event.data == event.data
                &&& after.quarantine.held.last().version_at_decision == answer.chrome_version->0
                &&& after.quarantine.held.last().key.pid == event.app.pid->0
                &&& after.quarantine.held.last().key.window_id == id->0
                &&& after.quarantine.held.last().held_at == at
                &&& after.quarantine.held.last().kind is Text
            }
        },
{
    if let Some(event) = event {
        routing::law_suppressed_event_has_no_body(
            RawEvent {
                capture_context: send_decision(policy, event, None).capture_context,
                ..event
            },
        );
    }
}

/// A waiting keystroke is confirmed exactly where its event was sent, and rejected where it
/// was filtered, dropped or had nobody to go to.
pub proof fn law_keystrokes_are_decided_by_their_event(
    emit_result: EmitResult,
    authorization: InputAuthorization,
    call: Subject<InputAuthorizations>,
)
    requires
        call_ensures(
            resolve_input_authorization,
            (emit_result, Some(&authorization), call.on),
            (),
        ),
        call.on@.state_of(authorization.slot) is Pending,
    ensures
        final(call.on)@.state_of(authorization.slot) is Confirmed <==> emit_result is Sent,
        final(call.on)@.state_of(authorization.slot) is Rejected <==> emit_result !is Sent,
{
}

/// Released events are offered in their order: as long as there is room for all of them, all
/// are queued, none is lost, and work goes on.
pub proof fn law_released_events_keep_their_order(
    queue: ChannelModel<RawEvent>,
    events: Seq<ReleasedEvent>,
    count: nat,
    dropped: u64,
    index: int,
)
    requires
        queue.connected,
        count <= events.len(),
        queue.items.len() + count <= queue.capacity,
        0 <= index < count,
    ensures
        offered_all(queue, events, count).items.len() == queue.items.len() + count,
        offered_all(queue, events, count).items[queue.items.len() + index] == events[index].event,
        lost_all(queue, events, count, dropped) == dropped,
    decreases count,
{
    lemma_room_for_all(queue, events, (count - 1) as nat, dropped);
    if index < count - 1 {
        law_released_events_keep_their_order(queue, events, (count - 1) as nat, dropped, index);
    }
}

proof fn lemma_room_for_all(
    queue: ChannelModel<RawEvent>,
    events: Seq<ReleasedEvent>,
    count: nat,
    dropped: u64,
)
    requires
        queue.connected,
        queue.items.len() + count <= queue.capacity,
    ensures
        offered_all(queue, events, count).items.len() == queue.items.len() + count,
        offered_all(queue, events, count).connected,
        offered_all(queue, events, count).capacity == queue.capacity,
        lost_all(queue, events, count, dropped) == dropped,
    decreases count,
{
    if count > 0 {
        lemma_room_for_all(queue, events, (count - 1) as nat, dropped);
    }
}

} // verus!
