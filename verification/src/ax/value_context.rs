//! The value state of a focused element, and of one that lost the focus.

use time::OffsetDateTime;
use vstd::prelude::*;

use super::element::{ValueFieldSnapshot, ValueSnapshot};
use super::types::{copy_decision, NativeAxEvent, NativeElement, NativeUiValueEvent};
use crate::clock::Instant;
use crate::focused_field::FieldClass;
use crate::subject::Subject;
use crate::text::copy_text;
use crate::text_capture::authorization::{InputAuthorizations, LedgerModel};
use crate::text_capture::policy::TextContentDecision;
use crate::text_capture::value::{CaptureModel, ValueCapture, ValueEmission, ValueObservation};
use crate::window_list::{copy_window, NativeWindow};

verus! {

/// Resolves the previous target once the next one is prepared; a failed
/// preparation leaves the previous one untouched.
pub fn after_target_preparation<T, E, R, F: FnOnce() -> R>(
    prepared: Result<T, E>,
    resolve_previous: F,
) -> (outcome: Result<(T, R), E>)
    requires
        prepared is Ok ==> call_requires(resolve_previous, ()),
    ensures
        match prepared {
            Ok(target) => exists|resolved: R| #[trigger]
                call_ensures(resolve_previous, (), resolved) && outcome == Ok::<(T, R), E>(
                    (target, resolved),
                ),
            Err(error) => outcome == Err::<(T, R), E>(error),
        },
{
    match prepared {
        Ok(target) => {
            let resolved = resolve_previous();
            Ok((target, resolved))
        },
        Err(error) => Err(error),
    }
}

/// A classification that can be relied on: none where a read failed.
pub fn classified_field_snapshot(snapshot: ValueFieldSnapshot) -> (classified: Option<
    ValueFieldSnapshot,
>)
    ensures
        classified == if snapshot.failure is None {
            Some(snapshot)
        } else {
            None
        },
{
    if snapshot.failure.is_none() {
        Some(snapshot)
    } else {
        None
    }
}

/// What is known of a focused element and its value.
pub struct ContextModel {
    pub window: Option<NativeWindow>,
    pub element: NativeElement,
    pub capture: CaptureModel,
    pub generation: u64,
    pub field_class: FieldClass,
    pub observed_at: Option<OffsetDateTime>,
}

impl ContextModel {
    /// The element without what it holds; its roles are not known any more.
    pub open spec fn bare_element(self) -> NativeElement {
        NativeElement {
            role: None,
            subrole: None,
            value: None,
            value_len: None,
            capture_decision: None,
            ..self.element
        }
    }

    /// The context once the class of its element is `field_class` and nothing
    /// else of it may be kept.
    pub open spec fn suppressed(self, field_class: FieldClass) -> ContextModel {
        ContextModel {
            element: self.bare_element(),
            field_class,
            capture: if field_class.known_text() {
                self.capture
            } else {
                self.capture.bounded()
            },
            ..self
        }
    }

    /// The ledger once a class was suppressed.
    pub open spec fn suppressed_ledger(
        self,
        pid: i32,
        field_class: FieldClass,
        ledger: LedgerModel,
    ) -> LedgerModel {
        if field_class.known_text() {
            ledger
        } else {
            ledger.without_target(pid, self.generation)
        }
    }

    /// The element as a snapshot shows it.
    pub open spec fn shown_element(
        self,
        snapshot: ValueSnapshot,
        decision: Option<TextContentDecision>,
    ) -> NativeElement {
        let value = if snapshot.field_class is KnownSafeNonText {
            snapshot.value
        } else {
            None
        };
        NativeElement {
            role: snapshot.role,
            subrole: snapshot.subrole,
            value,
            value_len: snapshot.value_len,
            capture_decision: if value is Some {
                decision
            } else {
                None
            },
            ..self.element
        }
    }

    /// The context once a snapshot was taken in, before its value is captured.
    pub open spec fn shown(
        self,
        snapshot: ValueSnapshot,
        decision: Option<TextContentDecision>,
        observed_at: OffsetDateTime,
    ) -> ContextModel {
        ContextModel {
            element: self.shown_element(snapshot, decision),
            field_class: snapshot.field_class,
            observed_at: Some(observed_at),
            ..self
        }
    }

    /// The observation that a snapshot is.
    pub open spec fn observed(
        self,
        pid: i32,
        notification_at: Instant,
        snapshot: ValueSnapshot,
        decision: Option<TextContentDecision>,
    ) -> ValueObservation {
        ValueObservation {
            pid,
            target_generation: self.generation,
            notification_at,
            value: snapshot.value,
            value_len: snapshot.value_len,
            field_class: snapshot.field_class,
            capture_decision: decision,
        }
    }

    /// The event of an emission.
    pub open spec fn event(self, pid: i32, emission: ValueEmission) -> NativeAxEvent {
        NativeAxEvent::UiValueChanged(
            NativeUiValueEvent {
                pid,
                window: self.window,
                element: NativeElement {
                    value: emission.element_value,
                    value_len: emission.value_len,
                    capture_decision: if emission.element_value is Some {
                        emission.capture_decision
                    } else {
                        None
                    },
                    ..self.element
                },
                change: emission.change,
                capture_decision: emission.capture_decision,
                observed_at: self.observed_at,
            },
        )
    }

    /// The event of an emission, if there is one.
    pub open spec fn event_for(self, pid: i32, emission: Option<ValueEmission>) -> Option<
        NativeAxEvent,
    > {
        match emission {
            Some(emission) => Some(self.event(pid, emission)),
            None => None,
        }
    }

    /// The context once its held value is out.
    pub open spec fn flushed(self) -> ContextModel {
        ContextModel { capture: self.capture.flushed(), ..self }
    }

    /// The context, the ledger and the event once due values were looked for.
    pub open spec fn due(
        self,
        pid: i32,
        now: Instant,
        secure_input: bool,
        ledger: LedgerModel,
    ) -> (ContextModel, LedgerModel, Option<NativeAxEvent>) {
        if secure_input {
            (
                self.suppressed(FieldClass::SecureText),
                self.suppressed_ledger(pid, FieldClass::SecureText, ledger),
                None,
            )
        } else if self.capture.has_due(now) {
            (
                self.flushed(),
                ledger.delivered(),
                self.event_for(pid, self.capture.emission(ledger.delivered())),
            )
        } else {
            (self, ledger, None)
        }
    }

    /// The context, the ledger and the event once the held value was flushed.
    pub open spec fn emptied(
        self,
        pid: i32,
        secure_input: bool,
        ledger: LedgerModel,
    ) -> (ContextModel, LedgerModel, Option<NativeAxEvent>) {
        if secure_input {
            (
                self.suppressed(FieldClass::SecureText),
                self.suppressed_ledger(pid, FieldClass::SecureText, ledger),
                None,
            )
        } else {
            (
                self.flushed(),
                ledger.delivered(),
                self.event_for(pid, self.capture.emission(ledger.delivered())),
            )
        }
    }
}

/// A focused element and its value.
#[derive(Debug)]
pub struct FocusedValueContext {
    pub window: Option<NativeWindow>,
    pub element: NativeElement,
    pub capture: ValueCapture,
    pub generation: u64,
    pub field_class: FieldClass,
    pub observed_at: Option<OffsetDateTime>,
}

impl View for FocusedValueContext {
    type V = ContextModel;

    open spec fn view(&self) -> ContextModel {
        ContextModel {
            window: self.window,
            element: self.element,
            capture: self.capture@,
            generation: self.generation,
            field_class: self.field_class,
            observed_at: self.observed_at,
        }
    }
}

impl FocusedValueContext {
    /// The context of a freshly focused element.
    pub fn new(
        window: Option<NativeWindow>,
        element: NativeElement,
        capture_text_content: bool,
        text_baseline: Option<String>,
        generation: u64,
        field_class: FieldClass,
    ) -> (context: Self)
        ensures
            context@ == (ContextModel {
                window,
                element,
                capture: CaptureModel {
                    enabled: capture_text_content,
                    baseline: text_baseline,
                    pending: None,
                    requires_rebaseline: capture_text_content && (!field_class.known_text()
                        || text_baseline is None),
                },
                generation,
                field_class,
                observed_at: None,
            }),
            context@.capture.wf(),
    {
        FocusedValueContext {
            window,
            element,
            capture: ValueCapture::new(capture_text_content, text_baseline, field_class),
            generation,
            field_class,
            observed_at: None,
        }
    }

    /// Forgets what the element holds; a class that is not known text ends its
    /// capture and withdraws its keystrokes.
    pub fn suppress(
        &mut self,
        pid: i32,
        field_class: FieldClass,
        authorizations: &mut InputAuthorizations,
    )
        requires
            old(self)@.capture.wf(),
            old(authorizations)@.wf(),
        ensures
            final(self)@.capture.wf(),
            final(authorizations)@.wf(),
            final(self)@ == old(self)@.suppressed(field_class),
            final(authorizations)@ == old(self)@.suppressed_ledger(
                pid,
                field_class,
                old(authorizations)@,
            ),
    {
        self.element.role = None;
        self.element.subrole = None;
        self.element.value = None;
        self.element.value_len = None;
        self.element.capture_decision = None;
        self.field_class = field_class;
        self.capture.transition_class(pid, self.generation, field_class, authorizations);
    }

    /// Takes in a snapshot and tells what was observed.
    pub fn observation(
        &mut self,
        pid: i32,
        notification_at: Instant,
        observed_at: OffsetDateTime,
        snapshot: ValueSnapshot,
        capture_decision: Option<TextContentDecision>,
    ) -> (observation: ValueObservation)
        ensures
            final(self)@ == old(self)@.shown(snapshot, capture_decision, observed_at),
            observation == old(self)@.observed(pid, notification_at, snapshot, capture_decision),
    {
        let value = if matches!(snapshot.field_class, FieldClass::KnownSafeNonText) {
            copy_text(&snapshot.value)
        } else {
            None
        };
        self.element.capture_decision =
        if value.is_some() {
            copy_decision(&capture_decision)
        } else {
            None
        };
        self.element.role = snapshot.role;
        self.element.subrole = snapshot.subrole;
        self.element.value = value;
        self.element.value_len = snapshot.value_len;
        self.field_class = snapshot.field_class;
        self.observed_at = Some(observed_at);
        ValueObservation {
            pid,
            target_generation: self.generation,
            notification_at,
            value: snapshot.value,
            value_len: snapshot.value_len,
            field_class: snapshot.field_class,
            capture_decision,
        }
    }

    /// The event of an emission.
    pub fn value_event(&self, pid: i32, emission: ValueEmission) -> (event: NativeAxEvent)
        ensures
            event == self@.event(pid, emission),
    {
        let mut element = self.element.clone();
        element.capture_decision =
        if emission.element_value.is_some() {
            copy_decision(&emission.capture_decision)
        } else {
            None
        };
        element.value = emission.element_value;
        element.value_len = emission.value_len;
        NativeAxEvent::UiValueChanged(
            NativeUiValueEvent {
                pid,
                window: copy_window(&self.window),
                element,
                change: emission.change,
                capture_decision: emission.capture_decision,
                observed_at: self.observed_at,
            },
        )
    }

    /// Emits a due value; secure input discards everything held.
    pub fn take_due(
        &mut self,
        pid: i32,
        now: Instant,
        secure_input: bool,
        authorizations: &mut InputAuthorizations,
    ) -> (event: Option<NativeAxEvent>)
        requires
            old(self)@.capture.wf(),
            old(authorizations)@.wf(),
        ensures
            final(self)@.capture.wf(),
            final(authorizations)@.wf(),
            (final(self)@, final(authorizations)@, event) == old(self)@.due(
                pid,
                now,
                secure_input,
                old(authorizations)@,
            ),
    {
        if secure_input {
            self.suppress(pid, FieldClass::SecureText, authorizations);
            return None;
        }
        match self.capture.take_due(now, authorizations) {
            Some(emission) => Some(self.value_event(pid, emission)),
            None => None,
        }
    }

    /// Emits the held value, due or not; secure input discards it.
    pub fn flush(
        &mut self,
        pid: i32,
        secure_input: bool,
        authorizations: &mut InputAuthorizations,
    ) -> (event: Option<NativeAxEvent>)
        requires
            old(self)@.capture.wf(),
            old(authorizations)@.wf(),
        ensures
            final(self)@.capture.wf(),
            final(authorizations)@.wf(),
            (final(self)@, final(authorizations)@, event) == old(self)@.emptied(
                pid,
                secure_input,
                old(authorizations)@,
            ),
    {
        if secure_input {
            self.suppress(pid, FieldClass::SecureText, authorizations);
            return None;
        }
        match self.capture.flush_pending(authorizations) {
            Some(emission) => Some(self.value_event(pid, emission)),
            None => None,
        }
    }
}

/// What came of looking for a due value.
#[derive(Debug, PartialEq, Eq)]
pub enum DeferredResolution {
    Pending,
    Complete(Option<NativeAxEvent>),
}

/// An element that lost the focus while its value was held.
#[derive(Debug)]
pub struct DeferredValueContext {
    pid: i32,
    context: FocusedValueContext,
}

impl DeferredValueContext {
    pub closed spec fn spec_pid(self) -> i32 {
        self.pid
    }

    pub closed spec fn spec_context(self) -> FocusedValueContext {
        self.context
    }

    /// Defers the value of a context.
    pub fn new(pid: i32, context: FocusedValueContext) -> (deferred: Self)
        ensures
            deferred.spec_pid() == pid,
            deferred.spec_context() == context,
    {
        DeferredValueContext { pid, context }
    }

    /// The context back.
    pub fn into_context(self) -> (context: FocusedValueContext)
        ensures
            context == self.spec_context(),
    {
        self.context
    }

    /// Whether the worker still may confirm the held value.
    pub fn authorization_is_pending(&self, authorizations: &InputAuthorizations) -> (pending: bool)
        ensures
            pending == self.spec_context()@.capture.awaits_worker(authorizations@),
    {
        self.context.capture.pending_authorization_is_pending(authorizations)
    }

    /// Emits a due value. A context that holds nothing any more is complete.
    pub fn take_due(
        &mut self,
        now: Instant,
        secure_input: bool,
        authorizations: &mut InputAuthorizations,
    ) -> (resolution: DeferredResolution)
        requires
            old(self).spec_context()@.capture.wf(),
            old(authorizations)@.wf(),
        ensures
            final(self).spec_context()@.capture.wf(),
            final(authorizations)@.wf(),
            final(self).spec_pid() == old(self).spec_pid(),
            ({
                let (context, ledger, event) = old(self).spec_context()@.due(
                    old(self).spec_pid(),
                    now,
                    secure_input,
                    old(authorizations)@,
                );
                &&& final(self).spec_context()@ == context
                &&& final(authorizations)@ == ledger
                &&& resolution == if waits(context, event, secure_input) {
                    DeferredResolution::Pending
                } else {
                    DeferredResolution::Complete(event)
                }
            }),
    {
        let event = self.context.take_due(self.pid, now, secure_input, authorizations);
        if !secure_input && event.is_none() && self.context.capture.has_pending() {
            DeferredResolution::Pending
        } else {
            DeferredResolution::Complete(event)
        }
    }

    /// Emits the held value, due or not.
    pub fn flush(&mut self, secure_input: bool, authorizations: &mut InputAuthorizations) -> (event:
        Option<NativeAxEvent>)
        requires
            old(self).spec_context()@.capture.wf(),
            old(authorizations)@.wf(),
        ensures
            final(self).spec_context()@.capture.wf(),
            final(authorizations)@.wf(),
            final(self).spec_pid() == old(self).spec_pid(),
            (final(self).spec_context()@, final(authorizations)@, event) == old(
                self,
            ).spec_context()@.emptied(old(self).spec_pid(), secure_input, old(authorizations)@),
    {
        self.context.flush(self.pid, secure_input, authorizations)
    }
}

/// Whether a context still holds a value that is not due.
pub open spec fn waits(
    context: ContextModel,
    event: Option<NativeAxEvent>,
    secure_input: bool,
) -> bool {
    !secure_input && event is None && context.capture.pending is Some
}

/// Secure input never lets a value out, and leaves nothing held behind.
pub proof fn law_secure_input_discards_values(
    context: ContextModel,
    pid: i32,
    now: Instant,
    ledger: LedgerModel,
)
    ensures
        context.due(pid, now, true, ledger).2 is None,
        context.due(pid, now, true, ledger).0.capture.pending is None,
        context.due(pid, now, true, ledger).0.element.value is None,
        context.emptied(pid, true, ledger).2 is None,
        context.emptied(pid, true, ledger).0.capture.pending is None,
{
}

/// A context is complete only once it holds nothing: a held value is either
/// emitted, discarded or still waited for.
pub proof fn law_completion_loses_nothing(
    context: ContextModel,
    pid: i32,
    now: Instant,
    secure_input: bool,
    ledger: LedgerModel,
)
    ensures
        ({
            let (after, _, event) = context.due(pid, now, secure_input, ledger);
            !waits(after, event, secure_input) ==> after.capture.pending is None
        }),
        !secure_input && context.capture.pending is Some ==> {
            let (after, _, event) = context.due(pid, now, secure_input, ledger);
            event is Some <==> after.capture.pending is None
        },
        context.emptied(pid, secure_input, ledger).0.capture.pending is None,
{
}

/// The previous target is resolved exactly where the next one was prepared, and both come out; a failed
/// preparation comes out as it is.
pub proof fn law_preparation_comes_first<T, E, R, F: FnOnce() -> R>(
    prepared: Result<T, E>,
    resolve_previous: F,
    outcome: Result<(T, R), E>,
    snapshot: ValueFieldSnapshot,
    classified: Option<ValueFieldSnapshot>,
)
    requires
        call_ensures(
            after_target_preparation::<T, E, R, F>,
            (prepared, resolve_previous),
            outcome,
        ),
        call_ensures(classified_field_snapshot, (snapshot,), classified),
    ensures
        prepared is Ok <==> outcome is Ok,
        outcome matches Ok(both) ==> prepared == Ok::<T, E>(both.0) && call_ensures(
            resolve_previous,
            (),
            both.1,
        ),
        outcome matches Err(error) ==> prepared == Err::<T, E>(error),
        classified is Some <==> snapshot.failure is None,
        classified matches Some(kept) ==> kept == snapshot,
{
}

/// Suppressing a context takes roles, value and decision off its element and keeps its title, its window and
/// its generation; unless the field is text, nothing held is left either.
pub proof fn law_suppressed_contexts_hold_nothing(
    call: Subject<FocusedValueContext>,
    pid: i32,
    field_class: FieldClass,
    ledger: Subject<InputAuthorizations>,
)
    requires
        call.on@.capture.wf() && ledger.on@.wf(),
        call_ensures(FocusedValueContext::suppress, (call.on, pid, field_class, ledger.on), ()),
    ensures
        final(call.on)@.element.role is None && final(call.on)@.element.subrole is None,
        final(call.on)@.element.value is None && final(call.on)@.element.value_len is None,
        final(call.on)@.element.capture_decision is None,
        final(call.on)@.element.title == old(call.on)@.element.title,
        final(call.on)@.window == old(call.on)@.window,
        final(call.on)@.generation == old(call.on)@.generation,
        final(call.on)@.field_class == field_class,
        field_class is KnownText ==> final(call.on)@.capture == old(call.on)@.capture
            && final(ledger.on)@ == old(ledger.on)@,
        !(field_class is KnownText) ==> final(call.on)@.capture.pending is None
            && final(call.on)@.capture.baseline is None
            && final(call.on)@.capture.enabled == old(call.on)@.capture.enabled
            && final(call.on)@.capture.requires_rebaseline == old(call.on)@.capture.enabled
            && final(ledger.on)@ == old(ledger.on)@.without_target(pid, old(call.on)@.generation),
{
}

/// A snapshot is observed as it was read, at its moment and for the generation of its context. The context
/// takes its roles, class and length over, and its value only of a safe element.
pub proof fn law_observations_carry_the_snapshot(
    call: Subject<FocusedValueContext>,
    pid: i32,
    notification_at: Instant,
    observed_at: OffsetDateTime,
    snapshot: ValueSnapshot,
    capture_decision: Option<TextContentDecision>,
    observation: ValueObservation,
)
    requires
        call_ensures(
            FocusedValueContext::observation,
            (call.on, pid, notification_at, observed_at, snapshot, capture_decision),
            observation,
        ),
    ensures
        observation.pid == pid && observation.notification_at == notification_at,
        observation.target_generation == old(call.on)@.generation,
        observation.value == snapshot.value && observation.value_len == snapshot.value_len,
        observation.field_class == snapshot.field_class,
        observation.capture_decision == capture_decision,
        final(call.on)@.element.role == snapshot.role && final(call.on)@.element.subrole
            == snapshot.subrole,
        final(call.on)@.element.value_len == snapshot.value_len,
        final(call.on)@.element.title == old(call.on)@.element.title,
        snapshot.field_class is KnownSafeNonText ==> final(call.on)@.element.value == snapshot.value,
        !(snapshot.field_class is KnownSafeNonText) ==> final(call.on)@.element.value is None
            && final(call.on)@.element.capture_decision is None,
        final(call.on)@.element.value is Some ==> final(call.on)@.element.capture_decision
            == capture_decision,
        final(call.on)@.field_class == snapshot.field_class,
        final(call.on)@.observed_at == Some(observed_at),
        final(call.on)@.capture == old(call.on)@.capture && final(call.on)@.window == old(call.on)@.window
            && final(call.on)@.generation == old(call.on)@.generation,
{
}

/// A value event tells the emission, on the element, window and moment of its context.
pub proof fn law_value_events_carry_the_emission(
    context: FocusedValueContext,
    pid: i32,
    emission: ValueEmission,
    event: NativeAxEvent,
)
    requires
        call_ensures(FocusedValueContext::value_event, (&context, pid, emission), event),
    ensures
        event is UiValueChanged,
        ({
            let told = event->UiValueChanged_0;
            &&& told.pid == pid && told.window == context.window
            &&& told.observed_at == context.observed_at
            &&& told.change == emission.change && told.capture_decision == emission.capture_decision
            &&& told.element.role == context.element.role && told.element.subrole
                == context.element.subrole && told.element.title == context.element.title
            &&& told.element.value == emission.element_value
            &&& told.element.value_len == emission.value_len
            &&& told.element.capture_decision == if emission.element_value is Some {
                emission.capture_decision
            } else {
                None
            }
        }),
{
}

/// A held value leaves a context a second after its last change or five seconds after its first, and a
/// flush makes it leave at once; under secure input it never leaves and is dropped.
pub proof fn law_contexts_send_what_is_due(
    looked: Subject<FocusedValueContext>,
    flushed: Subject<FocusedValueContext>,
    pid: i32,
    now: Instant,
    secure_input: bool,
    ledger: Subject<InputAuthorizations>,
    flush_ledger: Subject<InputAuthorizations>,
    due: Option<NativeAxEvent>,
    sent: Option<NativeAxEvent>,
)
    requires
        looked.on@.capture.wf() && flushed.on@.capture.wf() && ledger.on@.wf()
            && flush_ledger.on@.wf(),
        call_ensures(
            FocusedValueContext::take_due,
            (looked.on, pid, now, secure_input, ledger.on),
            due,
        ),
        call_ensures(
            FocusedValueContext::flush,
            (flushed.on, pid, secure_input, flush_ledger.on),
            sent,
        ),
    ensures
        due is Some <==> !secure_input && (old(looked.on)@.capture.pending matches Some(held) && (now.nanos
            >= held.last_observed_at.nanos + 1_000_000_000 || now.nanos
            >= held.first_observed_at.nanos + 5_000_000_000)),
        sent is Some <==> !secure_input && old(flushed.on)@.capture.pending is Some,
        due is Some ==> final(looked.on)@.capture.pending is None && due->0 is UiValueChanged
            && due->0->UiValueChanged_0.pid == pid && due->0->UiValueChanged_0.element.value_len
            == old(looked.on)@.capture.pending->0.value_len && due->0->UiValueChanged_0.window
            == old(looked.on)@.window,
        sent is Some ==> sent->0 is UiValueChanged && sent->0->UiValueChanged_0.pid == pid
            && sent->0->UiValueChanged_0.element.value_len
            == old(flushed.on)@.capture.pending->0.value_len && sent->0->UiValueChanged_0.window
            == old(flushed.on)@.window,
        final(flushed.on)@.capture.pending is None,
        !secure_input && due is None ==> final(looked.on)@ == old(looked.on)@ && final(ledger.on)@
            == old(ledger.on)@,
        secure_input ==> final(looked.on)@.capture.pending is None
            && final(looked.on)@.field_class is SecureText && final(looked.on)@.element.value is None
            && final(flushed.on)@.field_class is SecureText,
        final(looked.on)@.generation == old(looked.on)@.generation,
{
}

/// A deferred value keeps its process and its context. It stays pending exactly while it is held and not
/// due outside secure input.
pub proof fn law_deferred_values_wait_until_due(
    pid: i32,
    context: FocusedValueContext,
    deferred: DeferredValueContext,
    back: FocusedValueContext,
    call: Subject<DeferredValueContext>,
    now: Instant,
    secure_input: bool,
    ledger: Subject<InputAuthorizations>,
    resolution: DeferredResolution,
)
    requires
        call_ensures(DeferredValueContext::new, (pid, context), deferred),
        call_ensures(DeferredValueContext::into_context, (deferred,), back),
        call.on.spec_context()@.capture.wf() && ledger.on@.wf(),
        call_ensures(
            DeferredValueContext::take_due,
            (call.on, now, secure_input, ledger.on),
            resolution,
        ),
    ensures
        back == context,
        deferred.spec_pid() == pid,
        resolution is Pending <==> !secure_input && (old(call.on).spec_context()@.capture.pending
            matches Some(held) && now.nanos < held.last_observed_at.nanos + 1_000_000_000
            && now.nanos < held.first_observed_at.nanos + 5_000_000_000),
        resolution matches DeferredResolution::Complete(event) ==> (event is Some <==> !secure_input
            && old(call.on).spec_context()@.capture.pending is Some),
        resolution is Pending ==> final(call.on).spec_context()@ == old(call.on).spec_context()@,
        !(resolution is Pending) ==> final(call.on).spec_context()@.capture.pending is None,
{
}

/// A context starts from its first reading, for its generation, with nothing held.
pub proof fn law_contexts_start_from_their_reading(
    window: Option<NativeWindow>,
    element: NativeElement,
    capture_text_content: bool,
    text_baseline: Option<String>,
    generation: u64,
    field_class: FieldClass,
    context: FocusedValueContext,
)
    requires
        call_ensures(
            FocusedValueContext::new,
            (window, element, capture_text_content, text_baseline, generation, field_class),
            context,
        ),
    ensures
        context@.window == window && context@.element == element && context@.generation == generation,
        context@.field_class == field_class && context@.observed_at is None,
        context@.capture.enabled == capture_text_content,
        context@.capture.baseline == text_baseline && context@.capture.pending is None,
        context@.capture.requires_rebaseline <==> capture_text_content && !(field_class is KnownText
            && text_baseline is Some),
{
}

} // verus!
