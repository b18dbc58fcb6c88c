//! Attribution of clipboard changes to copy shortcuts.

use time::OffsetDateTime;
use vstd::prelude::*;

use super::logic;
use super::logic::{clipboard_copy, clipboard_paste, PasteboardContent};
use super::native::{NativeContext, NativeInputTarget};
use super::output;
use super::output::{raw_event, unknown_clipboard_event};
use crate::clock::Instant;
use crate::focus_context::FocusSnapshot;
use crate::schema::{ClipboardOrigin, ClipboardPasteData, EventData, FieldKind, RawEvent};
use crate::subject::Subject;
use crate::text;
use crate::text::{same_str, same_text};
use crate::text_capture::policy::{CapturePolicy, TextContentDecision};
use crate::window_list;
use crate::window_list::{same_window, window_id, window_title};

verus! {

/// Longest time between a copy shortcut and the change it caused, in nanoseconds.
pub const COPY_CORRELATION_WINDOW: u64 = 500_000_000;

/// A copy shortcut that waits for its clipboard change.
#[derive(Debug, PartialEq, Eq)]
pub struct CopyIntent {
    pub context: NativeContext,
    pub focus_generation: u64,
    pub field_generation: u64,
    pub observed_monotonic_at: Instant,
    pub observed_at: OffsetDateTime,
    pub text_allowed: bool,
    pub decision: TextContentDecision,
}

impl CopyIntent {
    /// Whether the focus is still the one that the shortcut was made in.
    pub open spec fn same_target(self, focus: FocusSnapshot) -> bool {
        &&& focus.generation == self.focus_generation
        &&& focus.field_generation == self.field_generation
        &&& focus.app.pid == self.context.app.pid
        &&& text::text_view(focus.app.bundle_id) == text::text_view(self.context.app.bundle_id)
        &&& focus.app.name@ == self.context.app.name@
        &&& window_list::equal_windows(focus.window, self.context.window)
    }

    /// Whether a change seen now, with this focus, came from the shortcut.
    pub open spec fn explains(self, focus: Option<FocusSnapshot>, now: Instant) -> bool {
        &&& focus matches Some(current) && self.same_target(current)
        &&& now.since(self.observed_monotonic_at) <= COPY_CORRELATION_WINDOW
    }
}

/// A clipboard event with the decision that its body was read under.
#[derive(Debug, PartialEq)]
pub struct ClipboardOutput {
    pub event: RawEvent,
    pub decision: Option<TextContentDecision>,
}

/// When something was observed, on both clocks.
#[derive(Clone, Copy, Debug, PartialEq, Eq)]
pub struct ClipboardObservationTime {
    pub monotonic: Instant,
    pub wall: OffsetDateTime,
}

/// What a clipboard change came from.
#[derive(Debug, PartialEq, Eq)]
pub enum ClipboardChange {
    Matched(CopyIntent),
    Unknown,
}

/// The last clipboard state seen and the copy shortcut that waits.
pub struct TrackerModel {
    pub last_change_count: i64,
    pub pending: Option<CopyIntent>,
}

impl TrackerModel {
    /// What a change count means: nothing when it did not move.
    pub open spec fn change(
        self,
        current_change_count: i64,
        focus: Option<FocusSnapshot>,
        now: Instant,
    ) -> Option<ClipboardChange> {
        if current_change_count == self.last_change_count {
            None
        } else {
            match self.pending {
                Some(intent) => if intent.explains(focus, now) {
                    Some(ClipboardChange::Matched(intent))
                } else {
                    Some(ClipboardChange::Unknown)
                },
                None => Some(ClipboardChange::Unknown),
            }
        }
    }

    /// The tracker once a change count was seen: a change uses up the shortcut.
    pub open spec fn seen(self, current_change_count: i64) -> TrackerModel {
        if current_change_count == self.last_change_count {
            self
        } else {
            TrackerModel { last_change_count: current_change_count, pending: None }
        }
    }

    /// The decision that holds for a matched copy when its body is read.
    pub open spec fn copy_decision(
        intent: CopyIntent,
        focus: FocusSnapshot,
        policy: CapturePolicy,
    ) -> TextContentDecision {
        policy.spec_decision(
            focus.app.spec_raw_app(),
            window_list::window_id_of(focus.window),
            window_list::window_title_of(focus.window),
        ).sent_under(Some(intent.decision))
    }

    /// Whether the body of a change may be read.
    pub open spec fn includes_content(
        change: ClipboardChange,
        focus: Option<FocusSnapshot>,
        policy: CapturePolicy,
        secure_input: bool,
    ) -> bool {
        match (change, focus) {
            (ClipboardChange::Matched(intent), Some(focus)) => !secure_input
                && intent.text_allowed && TrackerModel::copy_decision(
                intent,
                focus,
                policy,
            ).allowed,
            _ => false,
        }
    }

    /// Whether `output` is what a change with this content is reported as.
    pub open spec fn reports(
        change: ClipboardChange,
        focus: Option<FocusSnapshot>,
        policy: CapturePolicy,
        wall: OffsetDateTime,
        content: PasteboardContent,
        output: Option<ClipboardOutput>,
    ) -> bool {
        match change {
            ClipboardChange::Matched(intent) => {
                &&& output::built(
                    match output {
                        Some(output) => Some(output.event),
                        None => None,
                    },
                    "clipboard.copy"@,
                    intent.context,
                    EventData::ClipboardCopy(
                        logic::copy_of(content, ClipboardOrigin::CopyShortcut),
                    ),
                    policy,
                    intent.observed_at,
                )
                &&& output matches Some(sent) ==> sent.decision == Some(
                    TrackerModel::copy_decision(intent, focus->0, policy),
                )
            },
            ClipboardChange::Unknown => {
                &&& output matches Some(sent) && output::is_unknown_clipboard_event(
                    sent.event,
                    EventData::ClipboardCopy(logic::copy_of(content, ClipboardOrigin::Unknown)),
                    wall,
                )
                &&& output matches Some(sent) && sent.decision is None
            },
        }
    }
}

/// Follows the clipboard and the copy shortcuts.
#[derive(Debug)]
pub struct ClipboardTracker {
    last_change_count: i64,
    pending: Option<CopyIntent>,
}

impl View for ClipboardTracker {
    type V = TrackerModel;

    closed spec fn view(&self) -> TrackerModel {
        TrackerModel { last_change_count: self.last_change_count, pending: self.pending }
    }
}

impl ClipboardTracker {
    /// A tracker that starts from the current clipboard.
    pub fn new(initial_change_count: i64) -> (tracker: Self)
        ensures
            tracker@ == (TrackerModel { last_change_count: initial_change_count, pending: None }),
    {
        ClipboardTracker { last_change_count: initial_change_count, pending: None }
    }

    /// Whether the clipboard changed since it was last seen.
    pub fn has_changed(&self, current_change_count: i64) -> (changed: bool)
        ensures
            changed == (current_change_count != self@.last_change_count),
    {
        current_change_count != self.last_change_count
    }

    /// Remembers a copy shortcut; an earlier one is forgotten.
    pub fn observe_copy(
        &mut self,
        target: &NativeInputTarget,
        observed_at: ClipboardObservationTime,
        text_allowed: bool,
        decision: TextContentDecision,
    )
        ensures
            final(self)@ == (TrackerModel {
                pending: Some(
                    CopyIntent {
                        context: target.context,
                        focus_generation: target.focus_generation,
                        field_generation: target.field_generation,
                        observed_monotonic_at: observed_at.monotonic,
                        observed_at: observed_at.wall,
                        text_allowed,
                        decision,
                    },
                ),
                ..old(self)@
            }),
    {
        self.pending =
        Some(
            CopyIntent {
                context: target.context.clone(),
                focus_generation: target.focus_generation,
                field_generation: target.field_generation,
                observed_monotonic_at: observed_at.monotonic,
                observed_at: observed_at.wall,
                text_allowed,
                decision,
            },
        );
    }

    /// Takes in a change count and tells what a change came from.
    pub fn take_change(
        &mut self,
        current_change_count: i64,
        focus_at_change: &Option<FocusSnapshot>,
        now: Instant,
    ) -> (change: Option<ClipboardChange>)
        ensures
            change == old(self)@.change(current_change_count, *focus_at_change, now),
            final(self)@ == old(self)@.seen(current_change_count),
    {
        if !self.has_changed(current_change_count) {
            return None;
        }
        self.last_change_count = current_change_count;
        let intent = match self.pending.take() {
            None => {
                return Some(ClipboardChange::Unknown);
            },
            Some(intent) => intent,
        };
        let same_target = match focus_at_change {
            None => false,
            Some(focus) => focus.generation == intent.focus_generation && focus.field_generation
                == intent.field_generation && focus.app.pid == intent.context.app.pid && same_text(
                &focus.app.bundle_id,
                &intent.context.app.bundle_id,
            ) && same_str(focus.app.name.as_str(), intent.context.app.name.as_str())
                && same_window(&focus.window, &intent.context.window),
        };
        let timely = now.saturating_nanos_since(intent.observed_monotonic_at)
            <= COPY_CORRELATION_WINDOW;
        if same_target && timely {
            Some(ClipboardChange::Matched(intent))
        } else {
            Some(ClipboardChange::Unknown)
        }
    }

    /// The event of a clipboard change. The body is read only for a change that
    /// a copy shortcut explains, outside secure input, where text was allowed
    /// then and is allowed now.
    pub fn copy_event<F: FnOnce(bool) -> PasteboardContent>(
        &mut self,
        current_change_count: i64,
        focus_at_change: &Option<FocusSnapshot>,
        observed_at: ClipboardObservationTime,
        read_content: F,
        secure_input: bool,
        policy: &CapturePolicy,
    ) -> (output: Option<ClipboardOutput>)
        requires
            old(self)@.change(current_change_count, *focus_at_change, observed_at.monotonic)
                matches Some(change) ==> call_requires(
                read_content,
                (TrackerModel::includes_content(change, *focus_at_change, *policy, secure_input),),
            ),
        ensures
            final(self)@ == old(self)@.seen(current_change_count),
            match old(self)@.change(current_change_count, *focus_at_change, observed_at.monotonic) {
                None => output is None,
                Some(change) => exists|content: PasteboardContent|
                    {
                        &&& #[trigger] call_ensures(
                            read_content,
                            (TrackerModel::includes_content(
                                change,
                                *focus_at_change,
                                *policy,
                                secure_input,
                            ),),
                            content,
                        )
                        &&& TrackerModel::reports(
                            change,
                            *focus_at_change,
                            *policy,
                            observed_at.wall,
                            content,
                            output,
                        )
                    },
            },
    {
        let change = self.take_change(
            current_change_count,
            focus_at_change,
            observed_at.monotonic,
        );
        match change {
            None => None,
            Some(ClipboardChange::Matched(intent)) => {
                let (decision, include_content) = match focus_at_change {
                    None => {
                        return None;
                    },
                    Some(focus) => {
                        let app = focus.app.raw_app();
                        let current = policy.decision(
                            &app,
                            window_id(&focus.window),
                            window_title(&focus.window),
                        );
                        let decision = current.at_send(Some(&intent.decision));
                        let include_content = !secure_input && intent.text_allowed
                            && decision.is_allowed();
                        (decision, include_content)
                    },
                };
                let content = read_content(include_content);
                let event = raw_event(
                    "clipboard.copy",
                    &intent.context,
                    EventData::ClipboardCopy(
                        clipboard_copy(content, ClipboardOrigin::CopyShortcut),
                    ),
                    policy,
                    intent.observed_at,
                );
                match event {
                    None => None,
                    Some(event) => Some(ClipboardOutput { event, decision: Some(decision) }),
                }
            },
            Some(ClipboardChange::Unknown) => {
                let content = read_content(false);
                let event = unknown_clipboard_event(
                    EventData::ClipboardCopy(clipboard_copy(content, ClipboardOrigin::Unknown)),
                    observed_at.wall,
                );
                Some(ClipboardOutput { event, decision: None })
            },
        }
    }
}

/// The payload of a paste; its body is read where text is allowed.
pub fn paste_data<F: FnOnce(bool) -> PasteboardContent>(
    read_content: F,
    text_allowed: bool,
    field_kind: Option<FieldKind>,
) -> (data: ClipboardPasteData)
    requires
        call_requires(read_content, (text_allowed,)),
    ensures
        exists|content: PasteboardContent|
            {
                &&& #[trigger] call_ensures(read_content, (text_allowed,), content)
                &&& data == logic::paste_of(content, field_kind)
            },
{
    let content = read_content(text_allowed);
    clipboard_paste(content, field_kind)
}

/// A change is attributed to a shortcut at most once, and never to one made in
/// another process or longer ago than the window.
pub proof fn law_copy_intent_is_used_once(
    tracker: TrackerModel,
    first: i64,
    second: i64,
    focus: Option<FocusSnapshot>,
    now: Instant,
)
    requires
        first != tracker.last_change_count,
    ensures
        !(tracker.seen(first).change(second, focus, now) matches Some(ClipboardChange::Matched(_))),
        tracker.pending matches Some(intent) && (focus is None || focus->0.app.pid
            != intent.context.app.pid || now.since(intent.observed_monotonic_at)
            > COPY_CORRELATION_WINDOW) ==> tracker.change(first, focus, now) == Some(
            ClipboardChange::Unknown,
        ),
{
}

/// Under secure input, or without a matching shortcut, no body is read.
pub proof fn law_clipboard_body_is_gated(
    change: ClipboardChange,
    focus: Option<FocusSnapshot>,
    policy: CapturePolicy,
    secure_input: bool,
)
    requires
        TrackerModel::includes_content(change, focus, policy, secure_input),
    ensures
        !secure_input,
        focus is Some && policy.spec_decision(
            focus->0.app.spec_raw_app(),
            window_list::window_id_of(focus->0.window),
            window_list::window_title_of(focus->0.window),
        ).allowed,
        change matches ClipboardChange::Matched(intent) && intent.text_allowed
            && intent.decision.allowed,
{
}

/// A changed clipboard is attributed to the last copy shortcut exactly where the focus is still
/// where it was made, on the same field of the same window of the same application, at most half
/// a second later. Another change is of unknown origin, and the same count is no change.
pub proof fn law_changes_are_attributed_to_a_recent_shortcut(
    call: Subject<ClipboardTracker>,
    change_count: i64,
    focus: Option<FocusSnapshot>,
    now: Instant,
    change: Option<ClipboardChange>,
)
    requires
        call_ensures(ClipboardTracker::take_change, (call.on, change_count, &focus, now), change),
    ensures
        change is None <==> change_count == old(call.on)@.last_change_count,
        change matches Some(ClipboardChange::Matched(intent)) ==> old(call.on)@.pending == Some(intent),
        (change matches Some(ClipboardChange::Matched(_))) <==> change_count
            != old(call.on)@.last_change_count && (old(call.on)@.pending matches Some(intent) && (
        focus matches Some(current) && {
            &&& now.nanos <= intent.observed_monotonic_at.nanos + 500_000_000
            &&& current.generation == intent.focus_generation
            &&& current.field_generation == intent.field_generation
            &&& current.app.pid == intent.context.app.pid
            &&& current.app.name@ == intent.context.app.name@
            &&& text::text_view(current.app.bundle_id) == text::text_view(
                intent.context.app.bundle_id,
            )
            &&& current.window is Some <==> intent.context.window is Some
            &&& current.window is Some && intent.context.window is Some ==> current.window->0.id
                == intent.context.window->0.id && text::text_view(current.window->0.title)
                == text::text_view(intent.context.window->0.title)
        })),
        final(call.on)@.last_change_count == change_count,
        change is Some ==> final(call.on)@.pending is None,
        change is None ==> final(call.on)@ == old(call.on)@,
{
}

/// A copy shortcut is remembered with the place, the times and the decision it was made under,
/// until a change uses it up.
pub proof fn law_shortcuts_are_remembered(
    call: Subject<ClipboardTracker>,
    target: NativeInputTarget,
    observed_at: ClipboardObservationTime,
    text_allowed: bool,
    decision: TextContentDecision,
)
    requires
        call_ensures(
            ClipboardTracker::observe_copy,
            (call.on, &target, observed_at, text_allowed, decision),
            (),
        ),
    ensures
        final(call.on)@.last_change_count == old(call.on)@.last_change_count,
        final(call.on)@.pending is Some,
        final(call.on)@.pending->0.context == target.context,
        final(call.on)@.pending->0.focus_generation == target.focus_generation,
        final(call.on)@.pending->0.field_generation == target.field_generation,
        final(call.on)@.pending->0.observed_monotonic_at == observed_at.monotonic,
        final(call.on)@.pending->0.observed_at == observed_at.wall,
        final(call.on)@.pending->0.text_allowed == text_allowed,
        final(call.on)@.pending->0.decision == decision,
{
}

/// The body of the clipboard is read exactly for a copy by shortcut, outside secure input, where
/// the shortcut was made on allowed text and is allowed now, by the title too, and confirmed in
/// the same way.
pub proof fn law_only_allowed_copies_are_read(
    change: ClipboardChange,
    focus: Option<FocusSnapshot>,
    policy: CapturePolicy,
    secure_input: bool,
)
    ensures
        TrackerModel::includes_content(change, focus, policy, secure_input) <==> !secure_input && (
        change matches ClipboardChange::Matched(intent) && (focus matches Some(current) && {
            let answer = policy.spec_decision(
                crate::schema::App {
                    name: current.app.name,
                    bundle_id: current.app.bundle_id,
                    pid: Some(current.app.pid),
                },
                window_list::window_id_of(current.window),
                window_list::window_title_of(current.window),
            );
            &&& intent.text_allowed
            &&& intent.decision.allowed
            &&& answer.allowed
            &&& answer.chrome_version.is_some() == intent.decision.chrome_version.is_some()
        })),
{
}

/// A copy by shortcut is reported at the place and time of the shortcut, any other change as one
/// of unknown origin at the time it is found; both say what was read of the clipboard. An
/// unchanged clipboard is not reported.
pub proof fn law_copies_are_reported_by_their_origin<F: FnOnce(bool) -> PasteboardContent>(
    call: Subject<ClipboardTracker>,
    change_count: i64,
    focus: Option<FocusSnapshot>,
    observed_at: ClipboardObservationTime,
    read_content: F,
    secure_input: bool,
    policy: CapturePolicy,
    output: Option<ClipboardOutput>,
)
    requires
        call_ensures(
            ClipboardTracker::copy_event::<F>,
            (call.on, change_count, &focus, observed_at, read_content, secure_input, &policy),
            output,
        ),
    ensures
        change_count == old(call.on)@.last_change_count ==> output is None && final(call.on)@
            == old(call.on)@,
        change_count != old(call.on)@.last_change_count ==> final(call.on)@.last_change_count
            == change_count && final(call.on)@.pending is None,
        output matches Some(sent) ==> {
            &&& sent.event.event_type@ == "clipboard.copy"@
            &&& sent.event.data is ClipboardCopy
            &&& sent.event.data->ClipboardCopy_0.origin is CopyShortcut || sent.event.app.pid is None
            &&& sent.event.data->ClipboardCopy_0.origin is Unknown ==> sent.event.observed_at
                == Some(observed_at.wall) && sent.event.window is None && sent.decision is None
            &&& sent.event.data->ClipboardCopy_0.origin is CopyShortcut ==> {
                &&& old(call.on)@.pending is Some
                &&& sent.event.observed_at == Some(old(call.on)@.pending->0.observed_at)
                &&& sent.event.app.pid == Some(old(call.on)@.pending->0.context.app.pid)
                &&& sent.event.app.name == old(call.on)@.pending->0.context.app.name
                &&& sent.decision is Some
            }
            &&& exists|body: bool, content: PasteboardContent|
                {
                    &&& #[trigger] call_ensures(read_content, (body,), content)
                    &&& body ==> !secure_input && sent.event.data->ClipboardCopy_0.origin
                        is CopyShortcut
                    &&& sent.event.data->ClipboardCopy_0.text == content.text
                    &&& sent.event.data->ClipboardCopy_0.size_bytes == content.size_bytes
                }
        },
        change_count != old(call.on)@.last_change_count && old(call.on)@.pending is None ==> output is Some,
{
    let before = call.on@;
    if let Some(change) = before.change(change_count, focus, observed_at.monotonic) {
        let body = TrackerModel::includes_content(change, focus, policy, secure_input);
        let content = choose|content: PasteboardContent|
            {
                &&& #[trigger] call_ensures(read_content, (body,), content)
                &&& TrackerModel::reports(
                    change,
                    focus,
                    policy,
                    observed_at.wall,
                    content,
                    output,
                )
            };
        assert(call_ensures(read_content, (body,), content));
    }
}

/// A paste says what was read of the clipboard, with its body exactly where that is allowed.
pub proof fn law_pastes_say_what_was_read<F: FnOnce(bool) -> PasteboardContent>(
    read_content: F,
    text_allowed: bool,
    field_kind: Option<FieldKind>,
    data: ClipboardPasteData,
)
    requires
        call_ensures(paste_data::<F>, (read_content, text_allowed, field_kind), data),
    ensures
        data.field_kind == field_kind,
        exists|content: PasteboardContent| #[trigger]
            call_ensures(read_content, (text_allowed,), content) && data.text == content.text
                && data.size_bytes == content.size_bytes,
{
}

/// A clipboard changed exactly where its count did; a new tracker knows no shortcut.
pub proof fn law_changes_are_told_by_the_count(
    count: i64,
    tracker: ClipboardTracker,
    current: i64,
    changed: bool,
)
    requires
        call_ensures(ClipboardTracker::new, (count,), tracker),
        call_ensures(ClipboardTracker::has_changed, (&tracker, current), changed),
    ensures
        changed <==> current != count,
        tracker@.pending is None,
{
}

} // verus!
