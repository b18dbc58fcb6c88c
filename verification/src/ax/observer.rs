//! The observer of one application: its window, its focused element and the
//! values that are held for both.

use time::OffsetDateTime;
use vstd::prelude::*;

use super::accessibility::{manual_accessibility_setting, AccessibilityActivation};
use super::element::{ReadWindow, ValueFieldSnapshot, ValueSnapshot};
use super::health::{AxFailureState, AxRecoverySite};
use super::initial_snapshot::FocusedElementSnapshot;
use super::registration;
use super::registration::{
    NotificationRegistry, RegistrationError, RegistrationStep, RegistryModel,
};
use super::types::{ElementId, NativeAxError, NativeAxEvent, NativeElement};
use super::value_context::{ContextModel, FocusedValueContext};
use crate::channel;
use crate::channel::count_up;
use crate::clock::Instant;
use crate::focused_field;
use crate::focused_field::{field_class, FieldClass};
use crate::schema::App;
use crate::subject::Subject;
use crate::text;
use crate::text_capture::authorization::LedgerModel;
use crate::text_capture::focused_target;
use crate::text_capture::focused_target::FocusedTarget;
use crate::text_capture::policy::{CapturePolicy, TextContentDecision};
use crate::text_capture::value::{CaptureModel, FocusChangeCapture};
use crate::window_list;
use crate::window_list::{copy_window, window_id, window_title, NativeWindow};

verus! {

/// The notification of a changed value.
pub const VALUE_CHANGED: &'static str = "AXValueChanged";

/// The notification of a changed window title.
pub const TITLE_CHANGED: &'static str = "AXTitleChanged";

/// Which target a notification has to come from.
#[derive(Clone, Copy, Debug, PartialEq, Eq, Structural)]
pub enum TargetKind {
    Window,
    Value,
}

/// A focused element with its value state.
#[derive(Debug)]
pub struct RegisteredFocusedTarget {
    pub element: ElementId,
    pub context: FocusedValueContext,
}

/// A focused element with its value state.
pub struct TargetModel {
    pub element: ElementId,
    pub context: ContextModel,
}

impl View for RegisteredFocusedTarget {
    type V = TargetModel;

    open spec fn view(&self) -> TargetModel {
        TargetModel { element: self.element, context: self.context@ }
    }
}

/// A target that may be absent.
pub open spec fn target_view(target: Option<RegisteredFocusedTarget>) -> Option<TargetModel> {
    match target {
        Some(target) => Some(target@),
        None => None,
    }
}

/// The registration of an element's value.
pub open spec fn value_key(element: ElementId) -> (ElementId, Seq<char>) {
    (element, VALUE_CHANGED@)
}

/// The registration of a window's title.
pub open spec fn title_key(element: ElementId) -> (ElementId, Seq<char>) {
    (element, TITLE_CHANGED@)
}

/// When something was notified, on both clocks, and whether secure input was on.
#[derive(Clone, Copy, Debug, PartialEq, Eq)]
pub struct FocusMoment {
    pub notification_at: Instant,
    pub observed_at: OffsetDateTime,
    pub secure_input: bool,
}

/// What a focus change does with the value of the previous element.
#[derive(Debug, PartialEq, Eq)]
pub enum FocusChangeResolution {
    Immediate(Option<NativeAxEvent>),
    Deferred,
}

impl FocusChangeResolution {
    pub open spec fn spec_parts(self) -> (Option<NativeAxEvent>, bool) {
        match self {
            FocusChangeResolution::Immediate(event) => (event, false),
            FocusChangeResolution::Deferred => (None, true),
        }
    }

    /// The event to send, and whether the previous value is deferred.
    pub fn into_parts(self) -> (parts: (Option<NativeAxEvent>, bool))
        ensures
            parts == self.spec_parts(),
    {
        match self {
            FocusChangeResolution::Immediate(event) => (event, false),
            FocusChangeResolution::Deferred => (None, true),
        }
    }
}

/// What an observer knows.
pub struct ObserverModel {
    pub pid: i32,
    pub window_target: Option<ElementId>,
    pub generation: u64,
    pub focused: Option<TargetModel>,
    pub retired: Seq<ContextModel>,
    pub registry: RegistryModel,
    pub degraded: u64,
    pub failures: AxFailureState,
    pub enabled: bool,
    pub app: App,
    pub manual: bool,
    pub activation: AccessibilityActivation,
}

/// The contexts of a list.
pub open spec fn contexts_of(contexts: Seq<FocusedValueContext>) -> Seq<ContextModel> {
    contexts.map_values(|context: FocusedValueContext| context@)
}

impl ObserverModel {
    /// An observer that was told nothing yet.
    pub open spec fn fresh(pid: i32, enabled: bool, app: App, manual: bool) -> ObserverModel {
        ObserverModel {
            pid,
            window_target: None,
            generation: 0,
            focused: None,
            retired: Seq::empty(),
            registry: RegistryModel::empty(),
            degraded: 0,
            failures: AxFailureState { current: None },
            enabled,
            app,
            manual,
            activation: AccessibilityActivation { focused_reconcile_at: None },
        }
    }

    pub open spec fn wf(self) -> bool {
        &&& self.focused matches Some(target) ==> target.context.capture.wf()
        &&& forall|i: int| 0 <= i < self.retired.len() ==> (#[trigger] self.retired[i]).capture.wf()
    }

    /// The observer once one more operation failed.
    pub open spec fn degraded_once(self) -> ObserverModel {
        ObserverModel { degraded: channel::next_count(self.degraded), ..self }
    }

    /// Whether the value of the focused element is delivered.
    pub open spec fn delivering(self) -> bool {
        self.focused matches Some(target) && registration::delivers(
            self.registry,
            value_key(target.element),
        )
    }

    /// What the policy says of a window's content; nothing where content is not
    /// captured.
    pub open spec fn decision(
        self,
        policy: CapturePolicy,
        window: Option<NativeWindow>,
    ) -> Option<TextContentDecision> {
        if self.enabled {
            Some(
                policy.spec_decision(
                    self.app,
                    window_list::window_id_of(window),
                    window_list::window_title_of(window),
                ),
            )
        } else {
            None
        }
    }

    pub open spec fn allowed(self, policy: CapturePolicy, window: Option<NativeWindow>) -> bool {
        self.decision(policy, window) matches Some(decision) && decision.allowed
    }

    /// Whether text is captured in a window, whatever its title.
    pub open spec fn window_allowed(
        self,
        policy: CapturePolicy,
        window: Option<NativeWindow>,
    ) -> bool {
        self.enabled && policy.spec_decision(
            self.app,
            window_list::window_id_of(window),
            None,
        ).allowed
    }

    /// The event that reports the focused element. A secure one is not shown.
    pub open spec fn focus_event(self, observed_at: OffsetDateTime) -> NativeAxEvent {
        NativeAxEvent::UiFocused {
            pid: self.pid,
            generation: self.generation,
            window: match self.focused {
                Some(target) => target.context.window,
                None => None,
            },
            element: match self.focused {
                Some(target) => if target.context.field_class is SecureText {
                    None
                } else {
                    Some(target.context.element)
                },
                None => None,
            },
            observed_at,
        }
    }

    /// The observer once a registration was taken back, if there was one. One
    /// that could not be taken back is counted.
    pub open spec fn unregistered(
        self,
        key: (ElementId, Seq<char>),
        removed: Result<(), NativeAxError>,
    ) -> ObserverModel {
        if self.registry.contains_key(key) {
            let after = ObserverModel {
                registry: registration::after_remove(self.registry, key, removed),
                ..self
            };
            if registration::removed(removed) {
                after
            } else {
                after.degraded_once()
            }
        } else {
            self
        }
    }

    /// The observer once a previous target was let go.
    pub open spec fn released(
        self,
        previous: Option<TargetModel>,
        deferred: bool,
        removed: Result<(), NativeAxError>,
    ) -> ObserverModel {
        match previous {
            None => self,
            Some(target) => {
                let after = self.unregistered(value_key(target.element), removed);
                if deferred {
                    ObserverModel { retired: after.retired.push(target.context), ..after }
                } else {
                    after
                }
            },
        }
    }

    /// The observer once a target was installed.
    pub open spec fn committed(
        self,
        prepared: Option<TargetModel>,
        deferred: bool,
        removed: Result<(), NativeAxError>,
    ) -> ObserverModel {
        (ObserverModel {
            generation: focused_target::next_of(self.generation),
            focused: prepared,
            ..self
        }).released(self.focused, deferred, removed)
    }

    /// Whether a window target changes.
    pub open spec fn window_moves(self, target: Option<ElementId>) -> bool {
        !(target is Some && self.window_target == target)
    }

    /// Whether the title of a new window has to be registered.
    pub open spec fn window_registers(self, target: Option<ElementId>) -> bool {
        self.window_moves(target) && (target matches Some(element) && !registration::delivers(
            self.registry,
            title_key(element),
        ))
    }

    /// The observer once the title of the new window was registered.
    pub open spec fn window_added(
        self,
        target: Option<ElementId>,
        added: Result<(), NativeAxError>,
    ) -> ObserverModel {
        if self.window_registers(target) {
            ObserverModel {
                registry: registration::after_add(self.registry, title_key(target->0), added),
                ..self
            }
        } else {
            self
        }
    }

    /// Whether a new window could not be registered.
    pub open spec fn window_refused(
        self,
        target: Option<ElementId>,
        added: Result<(), NativeAxError>,
    ) -> bool {
        self.window_registers(target) && !registration::added(added)
    }

    /// The observer once its window target was replaced: a window that cannot be
    /// registered leaves the previous one in place.
    pub open spec fn window_replaced(
        self,
        target: Option<ElementId>,
        added: Result<(), NativeAxError>,
        removed: Result<(), NativeAxError>,
    ) -> ObserverModel {
        if !self.window_moves(target) || self.window_refused(target, added) {
            self
        } else {
            let after = self.window_added(target, added);
            let freed = match self.window_target {
                Some(previous) => after.unregistered(title_key(previous), removed),
                None => after,
            };
            ObserverModel { window_target: target, ..freed }
        }
    }

    /// What replacing the window target comes to.
    pub open spec fn window_result(
        self,
        target: Option<ElementId>,
        added: Result<(), NativeAxError>,
    ) -> Result<(), NativeAxError> {
        if self.window_refused(target, added) {
            Err(added->Err_0)
        } else {
            Ok(())
        }
    }

    /// Whether the previous window's title has to be taken back.
    pub open spec fn window_unregisters(
        self,
        target: Option<ElementId>,
        added: Result<(), NativeAxError>,
    ) -> bool {
        self.window_moves(target) && !self.window_refused(target, added) && (
        self.window_target matches Some(previous) && self.window_added(
            target,
            added,
        ).registry.contains_key(title_key(previous)))
    }

    /// Whether these are the calls that replacing the window target made.
    pub open spec fn window_called<
        A: Fn(ElementId) -> Result<(), NativeAxError>,
        R: Fn(ElementId) -> Result<(), NativeAxError>,
    >(
        self,
        target: Option<ElementId>,
        add_native: A,
        remove_native: R,
        added: Result<(), NativeAxError>,
        removed: Result<(), NativeAxError>,
    ) -> bool {
        &&& self.window_registers(target) ==> call_ensures(add_native, (target->0,), added)
        &&& self.window_unregisters(target, added) ==> call_ensures(
            remove_native,
            (self.window_target->0,),
            removed,
        )
    }

    /// Whether the calls that replacing the window target makes can be made,
    /// whatever the registration answers.
    pub open spec fn window_ready<
        A: Fn(ElementId) -> Result<(), NativeAxError>,
        R: Fn(ElementId) -> Result<(), NativeAxError>,
    >(self, target: Option<ElementId>, add_native: A, remove_native: R) -> bool {
        &&& self.window_registers(target) ==> call_requires(add_native, (target->0,))
        &&& forall|added: Result<(), NativeAxError>| #[trigger]
            self.window_unregisters(target, added) && (self.window_registers(target)
                ==> call_ensures(add_native, (target->0,), added)) ==> call_requires(
                remove_native,
                (self.window_target->0,),
            )
    }

    /// The observer once the window target was replaced and a failure counted.
    pub open spec fn window_refreshed(
        self,
        target: Option<ElementId>,
        added: Result<(), NativeAxError>,
        removed: Result<(), NativeAxError>,
    ) -> ObserverModel {
        if self.window_refused(target, added) {
            self.window_replaced(target, added, removed).degraded_once()
        } else {
            self.window_replaced(target, added, removed)
        }
    }

    /// Whether a newly focused element has to be registered.
    pub open spec fn registers(
        self,
        target: Option<ElementId>,
        snapshot: Option<FocusedElementSnapshot>,
    ) -> bool {
        target is Some && snapshot is Some && registration::eligible(
            focused_field::class_of(
                text::text_view((snapshot->0).element.role),
                text::text_view((snapshot->0).element.subrole),
            ),
        ) && !registration::delivers(self.registry, value_key(target->0))
    }

    /// The observer once a newly focused element was registered.
    pub open spec fn added(
        self,
        target: Option<ElementId>,
        snapshot: Option<FocusedElementSnapshot>,
        added: Result<(), NativeAxError>,
    ) -> ObserverModel {
        if self.registers(target, snapshot) {
            ObserverModel {
                registry: registration::after_add(self.registry, value_key(target->0), added),
                ..self
            }
        } else {
            self
        }
    }

    /// Whether a newly focused element could not be registered.
    pub open spec fn refused(
        self,
        target: Option<ElementId>,
        snapshot: Option<FocusedElementSnapshot>,
        added: Result<(), NativeAxError>,
    ) -> bool {
        self.registers(target, snapshot) && !registration::added(added)
    }

    /// The target of a newly focused element.
    pub open spec fn prepared(
        self,
        target: Option<ElementId>,
        snapshot: Option<FocusedElementSnapshot>,
        policy: CapturePolicy,
    ) -> Option<TargetModel> {
        match (target, snapshot) {
            (Some(element), Some(snapshot)) => {
                let enabled = self.window_allowed(policy, snapshot.window);
                Some(
                    TargetModel {
                        element,
                        context: ContextModel {
                            window: snapshot.window,
                            element: snapshot.element,
                            capture: CaptureModel {
                                enabled,
                                baseline: snapshot.text_baseline,
                                pending: None,
                                requires_rebaseline: enabled && (!snapshot.field_class.known_text()
                                    || snapshot.text_baseline is None),
                            },
                            generation: focused_target::next_of(self.generation),
                            field_class: snapshot.field_class,
                            observed_at: None,
                        },
                    },
                )
            },
            _ => None,
        }
    }

    /// Whether the focus is still on the same element, or still on none.
    pub open spec fn same_target(self, target: Option<ElementId>) -> bool {
        match self.focused {
            Some(current) => target == Some(current.element),
            None => target is None,
        }
    }

    /// The observer with another focused context.
    pub open spec fn with_context(self, context: ContextModel) -> ObserverModel {
        ObserverModel {
            focused: Some(TargetModel { element: (self.focused->0).element, context }),
            ..self
        }
    }

    /// The step that the registration of the focused element needs.
    pub open spec fn step(self, field_class: Option<FieldClass>) -> RegistrationStep {
        match (self.focused, field_class) {
            (Some(target), Some(class)) => registration::step_for(
                self.registry,
                value_key(target.element),
                class,
            ),
            _ => RegistrationStep::Keep,
        }
    }

    /// The observer once a step was tried.
    pub open spec fn stepped(
        self,
        step: RegistrationStep,
        outcome: Result<(), NativeAxError>,
    ) -> ObserverModel {
        match self.focused {
            Some(target) => ObserverModel {
                registry: registration::after_step(
                    self.registry,
                    value_key(target.element),
                    step,
                    outcome,
                ),
                ..self
            },
            None => self,
        }
    }

    /// The focused context once its element was classified anew. What it held
    /// stays only where it is safe.
    pub open spec fn reclassified(
        context: ContextModel,
        snapshot: ValueFieldSnapshot,
    ) -> ContextModel {
        let safe = snapshot.field_class is KnownSafeNonText;
        ContextModel {
            element: NativeElement {
                role: snapshot.role,
                subrole: snapshot.subrole,
                value: if safe {
                    context.element.value
                } else {
                    None
                },
                value_len: if safe {
                    context.element.value_len
                } else {
                    None
                },
                capture_decision: if safe {
                    context.element.capture_decision
                } else {
                    None
                },
                ..context.element
            },
            field_class: snapshot.field_class,
            capture: if snapshot.field_class.known_text() {
                context.capture
            } else {
                context.capture.bounded()
            },
            ..context
        }
    }

    /// The class that the registration goes by: none where a read failed.
    pub open spec fn registration_class(snapshot: ValueFieldSnapshot) -> Option<FieldClass> {
        if snapshot.failure is None {
            snapshot.registration_class
        } else {
            None
        }
    }

    /// The observer, the ledger and the result once the focused element was
    /// classified anew. A failed read changes nothing, and neither does an
    /// element that cannot be registered.
    pub open spec fn refreshed(
        self,
        snapshot: ValueFieldSnapshot,
        outcome: Result<(), NativeAxError>,
        ledger: LedgerModel,
    ) -> (ObserverModel, LedgerModel, Result<(), RegistrationError>) {
        let step = self.step(ObserverModel::registration_class(snapshot));
        let result = registration::step_result(step, outcome);
        let after = self.stepped(step, outcome);
        if snapshot.failure is Some {
            (self, ledger, Ok(()))
        } else if result matches Err(RegistrationError::Register(_)) {
            (after, ledger, result)
        } else {
            match self.focused {
                None => (after, ledger, result),
                Some(target) => (
                    after.with_context(ObserverModel::reclassified(target.context, snapshot)),
                    if snapshot.field_class.known_text() {
                        ledger
                    } else {
                        ledger.without_target(self.pid, target.context.generation)
                    },
                    result,
                ),
            }
        }
    }

    /// The observer with every failure of a refresh counted.
    pub open spec fn refreshed_counted(
        self,
        snapshot: ValueFieldSnapshot,
        outcome: Result<(), NativeAxError>,
        ledger: LedgerModel,
    ) -> (ObserverModel, LedgerModel) {
        if self.focused is None {
            (self, ledger)
        } else {
            let start = if snapshot.failure is Some {
                self.degraded_once()
            } else {
                self
            };
            let (after, ledger_after, result) = start.refreshed(snapshot, outcome, ledger);
            (
                if result is Err {
                    after.degraded_once()
                } else {
                    after
                },
                ledger_after,
            )
        }
    }

    /// The observer, the ledger and the resolution of the focused value when the
    /// focus moves on.
    pub open spec fn left(
        self,
        value: ValueSnapshot,
        policy: CapturePolicy,
        moment: FocusMoment,
        ledger: LedgerModel,
    ) -> (ObserverModel, LedgerModel, FocusChangeResolution) {
        if !self.delivering() {
            (self, ledger, FocusChangeResolution::Immediate(None))
        } else {
            let context = (self.focused->0).context;
            let decision = self.decision(policy, context.window);
            if value.failure is Some {
                let (capture, ledger_after, resolution) = context.capture.resolved_unread(ledger);
                (
                    self.with_context(ContextModel { capture, ..context }).degraded_once(),
                    ledger_after,
                    ObserverModel::resolution(context, self.pid, resolution),
                )
            } else {
                let shown = context.shown(value, decision, moment.observed_at);
                let (capture, ledger_after, resolution) = context.capture.resolved(
                    context.observed(self.pid, moment.notification_at, value, decision),
                    ledger,
                );
                (
                    self.with_context(ContextModel { capture, ..shown }),
                    ledger_after,
                    ObserverModel::resolution(shown, self.pid, resolution),
                )
            }
        }
    }

    pub open spec fn resolution(
        context: ContextModel,
        pid: i32,
        resolution: FocusChangeCapture,
    ) -> FocusChangeResolution {
        match resolution {
            FocusChangeCapture::Emit(emission) => FocusChangeResolution::Immediate(
                context.event_for(pid, emission),
            ),
            FocusChangeCapture::Defer => FocusChangeResolution::Deferred,
        }
    }

    /// The observer, the ledger and the events of a focus that moved to another
    /// element, or to none.
    pub open spec fn moved(
        self,
        target: Option<ElementId>,
        outcomes: FocusOutcomes,
        policy: CapturePolicy,
        moment: FocusMoment,
        ledger: LedgerModel,
    ) -> (ObserverModel, LedgerModel, Result<Seq<NativeAxEvent>, NativeAxError>) {
        if outcomes.snapshot is Err {
            (self, ledger, Err(outcomes.snapshot->Err_0))
        } else {
            let snapshot = outcomes.snapshot->Ok_0;
            let registered = self.added(target, snapshot, outcomes.added);
            if self.refused(target, snapshot, outcomes.added) {
                (registered, ledger, Err(outcomes.added->Err_0))
            } else {
                let (resolved, ledger_after, resolution) = registered.left(
                    outcomes.value,
                    policy,
                    moment,
                    ledger,
                );
                let (event, deferred) = resolution.spec_parts();
                let committed = resolved.committed(
                    self.prepared(target, snapshot, policy),
                    deferred,
                    outcomes.removed,
                );
                (
                    committed,
                    ledger_after,
                    Ok(
                        (match event {
                            Some(event) => seq![event],
                            None => Seq::empty(),
                        }).push(committed.focus_event(moment.observed_at)),
                    ),
                )
            }
        }
    }

    /// The observer, the ledger and the events once the focused element was read.
    pub open spec fn focused_events(
        self,
        target: Result<Option<ElementId>, NativeAxError>,
        outcomes: FocusOutcomes,
        policy: CapturePolicy,
        moment: FocusMoment,
        ledger: LedgerModel,
    ) -> (ObserverModel, LedgerModel, Result<Seq<NativeAxEvent>, NativeAxError>) {
        match target {
            Err(error) => (self, ledger, Err(error)),
            Ok(target) => if self.same_target(target) {
                let (after, ledger_after) = self.refreshed_counted(
                    outcomes.field,
                    outcomes.registered,
                    ledger,
                );
                (after, ledger_after, Ok(seq![after.focus_event(moment.observed_at)]))
            } else {
                self.moved(target, outcomes, policy, moment, ledger)
            },
        }
    }

    /// The observer once its focus could not be read: it has none.
    pub open spec fn focus_lost(self, removed: Result<(), NativeAxError>) -> ObserverModel {
        self.degraded_once().committed(None, true, removed)
    }

    /// The observer, the ledger and the events of a focus change; a failure
    /// clears the focus.
    pub open spec fn focused_or_cleared(
        self,
        target: Result<Option<ElementId>, NativeAxError>,
        outcomes: FocusOutcomes,
        policy: CapturePolicy,
        moment: FocusMoment,
        ledger: LedgerModel,
    ) -> (ObserverModel, LedgerModel, Seq<NativeAxEvent>) {
        let (after, ledger_after, events) = self.focused_events(
            target,
            outcomes,
            policy,
            moment,
            ledger,
        );
        match events {
            Ok(events) => (after, ledger_after, events),
            Err(_) => {
                let cleared = after.focus_lost(outcomes.removed);
                (cleared, ledger_after, seq![cleared.focus_event(moment.observed_at)])
            },
        }
    }
}

/// What the policy says of a window's content; nothing while none is captured.
pub fn content_decision(
    capture_text_content: bool,
    app: &App,
    policy: &CapturePolicy,
    window: &Option<NativeWindow>,
) -> (decision: Option<TextContentDecision>)
    ensures
        decision == if capture_text_content {
            Some(
                policy.spec_decision(
                    *app,
                    window_list::window_id_of(*window),
                    window_list::window_title_of(*window),
                ),
            )
        } else {
            None
        },
{
    if capture_text_content {
        Some(policy.decision(app, window_id(window), window_title(window)))
    } else {
        None
    }
}

/// What the native side answered while a focus change was handled.
pub struct FocusOutcomes {
    pub field: ValueFieldSnapshot,
    pub registered: Result<(), NativeAxError>,
    pub snapshot: Result<Option<FocusedElementSnapshot>, NativeAxError>,
    pub added: Result<(), NativeAxError>,
    pub value: ValueSnapshot,
    pub removed: Result<(), NativeAxError>,
}

/// The observer of one application.
#[derive(Debug)]
pub struct AppObserver {
    pub pid: i32,
    pub window_target: Option<ElementId>,
    pub focused_target: FocusedTarget<RegisteredFocusedTarget>,
    pub retired_contexts: Vec<FocusedValueContext>,
    pub notifications: NotificationRegistry,
    pub degraded: u64,
    pub failures: AxFailureState,
    pub capture_text_content: bool,
    pub app: App,
    pub manual_accessibility: bool,
    pub accessibility_activation: AccessibilityActivation,
}

impl View for AppObserver {
    type V = ObserverModel;

    open spec fn view(&self) -> ObserverModel {
        ObserverModel {
            pid: self.pid,
            window_target: self.window_target,
            generation: self.focused_target.spec_generation(),
            focused: target_view(self.focused_target.spec_current()),
            retired: contexts_of(self.retired_contexts@),
            registry: self.notifications@,
            degraded: self.degraded,
            failures: self.failures,
            enabled: self.capture_text_content,
            app: self.app,
            manual: self.manual_accessibility,
            activation: self.accessibility_activation,
        }
    }
}

impl AppObserver {
    pub open spec fn wf(&self) -> bool {
        self@.wf() && self.notifications.wf()
    }

    /// An observer that has seen nothing yet.
    pub fn new(pid: i32, capture_text_content: bool, app: App, manual_accessibility: bool) -> (
        observer: Self)
        ensures
            observer.wf(),
            observer@ == ObserverModel::fresh(
                pid,
                capture_text_content,
                app,
                manual_accessibility,
            ),
    {
        let observer = AppObserver {
            pid,
            window_target: None,
            focused_target: FocusedTarget::new(),
            retired_contexts: Vec::new(),
            notifications: NotificationRegistry::default(),
            degraded: 0,
            failures: AxFailureState::default(),
            capture_text_content,
            app,
            manual_accessibility,
            accessibility_activation: AccessibilityActivation::default(),
        };
        assert(observer@.retired =~= Seq::empty());
        observer
    }

    /// The setting to write when the full tree is switched on or off.
    pub fn set_manual_accessibility(&self, enabled: bool) -> (setting: Option<bool>)
        ensures
            setting == if self@.manual {
                Some(enabled)
            } else {
                None
            },
    {
        manual_accessibility_setting(self.manual_accessibility, enabled)
    }

    /// Takes over what an attach says of an application that is observed already;
    /// tells which setting to write.
    pub fn update_attach(&mut self, app: App, manual_accessibility: bool) -> (setting: Option<bool>)
        requires
            old(self).wf(),
        ensures
            final(self).wf(),
            final(self)@ == (ObserverModel { app, manual: manual_accessibility, ..old(self)@ }),
            setting == if old(self)@.manual == manual_accessibility {
                None
            } else {
                Some(manual_accessibility)
            },
    {
        self.app = app;
        self.reconcile_manual_accessibility(manual_accessibility)
    }

    /// The observed application.
    pub fn app(&self) -> (app: &App)
        ensures
            *app == self@.app,
    {
        &self.app
    }

    /// Switches the full tree on or off; tells which setting to write.
    pub fn reconcile_manual_accessibility(&mut self, manual_accessibility: bool) -> (setting:
        Option<bool>)
        requires
            old(self).wf(),
        ensures
            final(self).wf(),
            final(self)@ == (ObserverModel { manual: manual_accessibility, ..old(self)@ }),
            setting == if old(self)@.manual == manual_accessibility {
                None
            } else {
                Some(manual_accessibility)
            },
    {
        if self.manual_accessibility == manual_accessibility {
            return None;
        }
        let off = self.set_manual_accessibility(false);
        self.manual_accessibility = manual_accessibility;
        let on = self.set_manual_accessibility(true);
        if off.is_some() {
            off
        } else {
            on
        }
    }

    /// Whether a notification comes from the current target. A value has to be
    /// registered, too.
    pub fn is_current_target(&self, kind: TargetKind, element: ElementId) -> (current: bool)
        requires
            self.wf(),
        ensures
            current == match kind {
                TargetKind::Window => self@.window_target == Some(element),
                TargetKind::Value => self@.delivering() && (self@.focused->0).element == element,
            },
    {
        match kind {
            TargetKind::Window => match self.window_target {
                Some(target) => target == element,
                None => false,
            },
            TargetKind::Value => match self.focused_target.current() {
                Some(target) => target.element == element && self.notifications.accepts_delivery(
                    target.element,
                    VALUE_CHANGED,
                ),
                None => false,
            },
        }
    }

    /// What the policy says of a window's content.
    pub fn text_content_decision(
        &self,
        policy: &CapturePolicy,
        window: &Option<NativeWindow>,
    ) -> (decision: Option<TextContentDecision>)
        ensures
            decision == self@.decision(*policy, *window),
    {
        content_decision(self.capture_text_content, &self.app, policy, window)
    }

    /// Whether a window's content may be captured, whatever its title.
    pub fn text_content_allowed(
        &self,
        policy: &CapturePolicy,
        window: &Option<NativeWindow>,
    ) -> (allowed: bool)
        ensures
            allowed == self@.window_allowed(*policy, *window),
    {
        self.capture_text_content && policy.decision(
            &self.app,
            window_id(window),
            None,
        ).is_allowed()
    }

    /// Counts a failed operation.
    pub fn record_degraded(&mut self)
        requires
            old(self).wf(),
        ensures
            final(self).wf(),
            final(self)@ == old(self)@.degraded_once(),
    {
        self.degraded = count_up(self.degraded);
    }

    /// Notes that a call succeeded.
    pub fn recover(&mut self, site: AxRecoverySite)
        requires
            old(self).wf(),
        ensures
            final(self).wf(),
            final(self)@ == (ObserverModel {
                failures: old(self)@.failures.recovered(site),
                ..old(self)@
            }),
    {
        self.failures.recover(site);
    }

    /// Notes and counts that a call failed.
    pub fn record_native(&mut self, site: AxRecoverySite)
        requires
            old(self).wf(),
        ensures
            final(self).wf(),
            final(self)@ == (ObserverModel {
                failures: AxFailureState::failed(site),
                ..old(self)@
            }).degraded_once(),
    {
        self.failures.record(site);
        self.record_degraded();
    }

    /// The event that reports the focused element.
    pub fn focus_event(&self, observed_at: OffsetDateTime) -> (event: NativeAxEvent)
        ensures
            event == self@.focus_event(observed_at),
    {
        let (window, element) = match self.focused_target.current() {
            Some(target) => (
                copy_window(&target.context.window),
                if matches!(target.context.field_class, FieldClass::SecureText) {
                    None
                } else {
                    Some(target.context.element.clone())
                },
            ),
            None => (None, None),
        };
        NativeAxEvent::UiFocused {
            pid: self.pid,
            generation: self.focused_target.generation(),
            window,
            element,
            observed_at,
        }
    }

    /// Wakes up the accessibility tree of a freshly attached application: its
    /// role was asked for, and the focus is read again after a while.
    pub fn activate_accessibility_tree(
        &mut self,
        now: Instant,
        role: Result<String, NativeAxError>,
    )
        requires
            old(self).wf(),
        ensures
            final(self).wf(),
            final(self)@.activation.focused_reconcile_at is Some,
            ({
                let planned = ObserverModel { activation: final(self)@.activation, ..old(self)@ };
                final(self)@ == if role is Ok {
                    ObserverModel {
                        failures: planned.failures.recovered(AxRecoverySite::ApplicationRole),
                        ..planned
                    }
                } else {
                    (ObserverModel {
                        failures: AxFailureState::failed(AxRecoverySite::ApplicationRole),
                        ..planned
                    }).degraded_once()
                }
            }),
            ({
                let deadline = (final(self)@.activation.focused_reconcile_at)->0;
                deadline.nanos == if now.nanos
                    + super::accessibility::APPLICATION_ROLE_RECONCILE_DELAY <= u64::MAX {
                    now.nanos + super::accessibility::APPLICATION_ROLE_RECONCILE_DELAY
                } else {
                    u64::MAX as int
                }
            }),
    {
        self.accessibility_activation.schedule_reconcile(now);
        match role {
            Ok(_) => {
                self.recover(AxRecoverySite::ApplicationRole);
            },
            Err(_) => {
                self.record_native(AxRecoverySite::ApplicationRole);
            },
        }
    }

    pub(crate) fn unregister_target<R: Fn(ElementId) -> Result<(), NativeAxError>>(
        &mut self,
        element: ElementId,
        notification: &str,
        remove_native: &R,
    )
        requires
            old(self).wf(),
            old(self)@.registry.contains_key((element, notification@)) ==> call_requires(
                *remove_native,
                (element,),
            ),
        ensures
            final(self).wf(),
            exists|removed: Result<(), NativeAxError>|
                {
                    &&& old(self)@.registry.contains_key((element, notification@))
                        ==> call_ensures(*remove_native, (element,), removed)
                    &&& final(self)@ == #[trigger] old(self)@.unregistered(
                        (element, notification@),
                        removed,
                    )
                },
    {
        if !self.notifications.is_registered(element, notification) {
            let ghost removed: Result<(), NativeAxError> = Ok(());
            assert(self@ == old(self)@.unregistered((element, notification@), removed));
            return ;
        }
        let removed = remove_native(element);
        let ghost outcome = removed;
        if self.notifications.record_remove(element, notification, removed).is_err() {
            self.record_degraded();
        }
        assert(self@ == old(self)@.unregistered((element, notification@), outcome));
    }

    /// Replaces the window whose title is observed.
    pub fn replace_window_target<
        A: Fn(ElementId) -> Result<(), NativeAxError>,
        R: Fn(ElementId) -> Result<(), NativeAxError>,
    >(
        &mut self,
        target: Option<ElementId>,
        add_native: &A,
        remove_native: &R,
    ) -> (result: Result<(), NativeAxError>)
        requires
            old(self).wf(),
            old(self)@.window_ready(target, *add_native, *remove_native),
        ensures
            final(self).wf(),
            exists|added: Result<(), NativeAxError>, removed: Result<(), NativeAxError>|
                {
                    &&& #[trigger] old(self)@.window_called(
                        target,
                        *add_native,
                        *remove_native,
                        added,
                        removed,
                    )
                    &&& final(self)@ == old(self)@.window_replaced(target, added, removed)
                    &&& result == old(self)@.window_result(target, added)
                },
    {
        let ghost before = self@;
        let ghost mut added: Result<(), NativeAxError> = Ok(());
        let ghost mut removed: Result<(), NativeAxError> = Ok(());
        let unchanged = match (self.window_target, target) {
            (Some(current), Some(element)) => current == element,
            _ => false,
        };
        if unchanged {
            assert(before.window_called(target, *add_native, *remove_native, added, removed));
            return Ok(());
        }
        if let Some(element) = target {
            if !self.notifications.accepts_delivery(element, TITLE_CHANGED) {
                let outcome = add_native(element);
                proof {
                    added = outcome;
                }
                if let Err(error) = self.notifications.record_add(element, TITLE_CHANGED, outcome) {
                    assert(before.window_called(
                        target,
                        *add_native,
                        *remove_native,
                        added,
                        removed,
                    ));
                    return match error {
                        RegistrationError::Register(error) => Err(error),
                        RegistrationError::Unregister(error) => Err(error),
                    };
                }
            }
        }
        assert(self@ == before.window_added(target, added));
        let ghost registered = self@;
        if let Some(previous) = self.window_target {
            assert(registered.registry.contains_key(title_key(previous))
                ==> before.window_unregisters(target, added));
            self.unregister_target(previous, TITLE_CHANGED, remove_native);
            proof {
                removed =
                choose|removed: Result<(), NativeAxError>|
                    {
                        &&& registered.registry.contains_key(title_key(previous)) ==> call_ensures(
                            *remove_native,
                            (previous,),
                            removed,
                        )
                        &&& self@ == #[trigger] registered.unregistered(
                            title_key(previous),
                            removed,
                        )
                    };
            }
        }
        self.window_target = target;
        assert(before.window_called(target, *add_native, *remove_native, added, removed));
        assert(self@ == before.window_replaced(target, added, removed));
        Ok(())
    }

    /// Reads the focused window and reports it. A window that cannot be
    /// registered is counted and still reported.
    pub fn focused_window_event<
        W: FnOnce(ElementId) -> ReadWindow,
        A: Fn(ElementId) -> Result<(), NativeAxError>,
        R: Fn(ElementId) -> Result<(), NativeAxError>,
    >(
        &mut self,
        target: Result<Option<ElementId>, NativeAxError>,
        observed_at: OffsetDateTime,
        read_window: W,
        add_native: &A,
        remove_native: &R,
    ) -> (event: Result<Option<NativeAxEvent>, NativeAxError>)
        requires
            old(self).wf(),
            target matches Ok(Some(element)) ==> call_requires(read_window, (element,)),
            target matches Ok(found) ==> old(self)@.window_ready(
                found,
                *add_native,
                *remove_native,
            ),
        ensures
            final(self).wf(),
            match target {
                Err(error) => final(self)@ == old(self)@ && event == Err::<
                    Option<NativeAxEvent>,
                    NativeAxError,
                >(error),
                Ok(target) => exists|
                    window: ReadWindow,
                    added: Result<(), NativeAxError>,
                    removed: Result<(), NativeAxError>,
                |
                    {
                        &&& #[trigger] window_read(target, read_window, window)
                        &&& #[trigger] old(self)@.window_called(
                            target,
                            *add_native,
                            *remove_native,
                            added,
                            removed,
                        )
                        &&& final(self)@ == old(self)@.window_refreshed(target, added, removed)
                        &&& event == match window {
                            Err(error) => Err(error),
                            Ok(None) => Ok(None),
                            Ok(Some(window)) => Ok(
                                Some(
                                    NativeAxEvent::WindowFocused {
                                        pid: old(self)@.pid,
                                        window,
                                        observed_at,
                                    },
                                ),
                            ),
                        }
                    },
            },
    {
        let target = match target {
            Err(error) => {
                return Err(error);
            },
            Ok(target) => target,
        };
        let window = match target {
            Some(element) => read_window(element),
            None => Ok(None),
        };
        assert(window_read(target, read_window, window));
        self.refresh_target(target, add_native, remove_native);
        match window {
            Err(error) => Err(error),
            Ok(None) => Ok(None),
            Ok(Some(window)) => Ok(
                Some(NativeAxEvent::WindowFocused { pid: self.pid, window, observed_at }),
            ),
        }
    }

    fn refresh_target<
        A: Fn(ElementId) -> Result<(), NativeAxError>,
        R: Fn(ElementId) -> Result<(), NativeAxError>,
    >(&mut self, target: Option<ElementId>, add_native: &A, remove_native: &R)
        requires
            old(self).wf(),
            old(self)@.window_ready(target, *add_native, *remove_native),
        ensures
            final(self).wf(),
            exists|added: Result<(), NativeAxError>, removed: Result<(), NativeAxError>|
                {
                    &&& #[trigger] old(self)@.window_called(
                        target,
                        *add_native,
                        *remove_native,
                        added,
                        removed,
                    )
                    &&& final(self)@ == old(self)@.window_refreshed(target, added, removed)
                },
    {
        if self.replace_window_target(target, add_native, remove_native).is_err() {
            self.record_degraded();
        }
    }

    /// Reads the focused window again, without reporting it.
    pub fn refresh_window_target<
        A: Fn(ElementId) -> Result<(), NativeAxError>,
        R: Fn(ElementId) -> Result<(), NativeAxError>,
    >(
        &mut self,
        target: Result<Option<ElementId>, NativeAxError>,
        add_native: &A,
        remove_native: &R,
    )
        requires
            old(self).wf(),
            target matches Ok(found) ==> old(self)@.window_ready(
                found,
                *add_native,
                *remove_native,
            ),
        ensures
            final(self).wf(),
            match target {
                Err(_) => final(self)@ == old(self)@.degraded_once(),
                Ok(target) => exists|
                    added: Result<(), NativeAxError>,
                    removed: Result<(), NativeAxError>,
                |
                    {
                        &&& #[trigger] old(self)@.window_called(
                            target,
                            *add_native,
                            *remove_native,
                            added,
                            removed,
                        )
                        &&& final(self)@ == old(self)@.window_refreshed(target, added, removed)
                    },
            },
    {
        match target {
            Err(_) => {
                self.record_degraded();
            },
            Ok(target) => {
                self.refresh_target(target, add_native, remove_native);
            },
        }
    }
}

/// Whether `window` is what reading the window of a target gave; without a
/// target there is none.
pub open spec fn window_read<W: FnOnce(ElementId) -> ReadWindow>(
    target: Option<ElementId>,
    read_window: W,
    window: ReadWindow,
) -> bool {
    match target {
        Some(element) => call_ensures(read_window, (element,), window),
        None => window == Ok::<Option<NativeWindow>, NativeAxError>(None),
    }
}

/// An observer starts with nothing observed, for its process and application.
pub proof fn law_observers_start_empty(
    pid: i32,
    capture_text_content: bool,
    app: App,
    manual_accessibility: bool,
    observer: AppObserver,
)
    requires
        call_ensures(
            AppObserver::new,
            (pid, capture_text_content, app, manual_accessibility),
            observer,
        ),
    ensures
        observer@.pid == pid && observer@.app == app,
        observer@.enabled == capture_text_content && observer@.manual == manual_accessibility,
        observer@.window_target is None && observer@.focused is None && observer@.retired.len() == 0,
        observer@.generation == 0 && observer@.degraded == 0,
        forall|key: (ElementId, Seq<char>)| !(#[trigger] observer@.registry.contains_key(key)),
{
}

/// Whether the full tree is asked for changes with each attach, and only a change is written: the new state
/// itself. Nothing else of an observer changes but its application.
pub proof fn law_only_changed_settings_are_written(
    call: Subject<AppObserver>,
    app: App,
    manual_accessibility: bool,
    setting: Option<bool>,
    observer: AppObserver,
    enabled: bool,
    written: Option<bool>,
)
    requires
        call.on.wf(),
        call_ensures(AppObserver::update_attach, (call.on, app, manual_accessibility), setting),
        call_ensures(AppObserver::set_manual_accessibility, (&observer, enabled), written),
    ensures
        setting is Some <==> old(call.on)@.manual != manual_accessibility,
        setting matches Some(value) ==> value == manual_accessibility,
        final(call.on)@.manual == manual_accessibility && final(call.on)@.app == app,
        final(call.on)@.focused == old(call.on)@.focused && final(call.on)@.registry == old(call.on)@.registry
            && final(call.on)@.window_target == old(call.on)@.window_target
            && final(call.on)@.degraded == old(call.on)@.degraded,
        written is Some <==> observer@.manual,
        written matches Some(value) ==> value == enabled,
{
}

/// A window notification is current for the window target, a value notification for the focused element
/// whose value notification delivers.
pub proof fn law_current_targets_deliver(
    observer: AppObserver,
    kind: TargetKind,
    element: ElementId,
    current: bool,
)
    requires
        observer.wf(),
        call_ensures(AppObserver::is_current_target, (&observer, kind, element), current),
    ensures
        kind is Window ==> (current <==> observer@.window_target == Some(element)),
        kind is Value ==> (current <==> observer@.focused is Some && observer@.focused->0.element
            == element && observer@.registry.contains_key((element, "AXValueChanged"@))
            && observer@.registry[(element, "AXValueChanged"@)] is Active),
{
}

/// A failed call is counted once and remembered; a success ends the failure of its own place only and is
/// not counted.
pub proof fn law_failed_calls_are_counted(
    failed: Subject<AppObserver>,
    recovered: Subject<AppObserver>,
    site: AxRecoverySite,
)
    requires
        failed.on.wf() && recovered.on.wf(),
        call_ensures(AppObserver::record_native, (failed.on, site), ()),
        call_ensures(AppObserver::recover, (recovered.on, site), ()),
        failed.on@.degraded < u64::MAX,
    ensures
        final(failed.on)@.degraded == old(failed.on)@.degraded + 1,
        final(failed.on)@.failures.current is Some && final(failed.on)@.failures.current->0.site == site,
        final(failed.on)@.focused == old(failed.on)@.focused && final(failed.on)@.registry
            == old(failed.on)@.registry,
        final(recovered.on)@.degraded == old(recovered.on)@.degraded,
        old(recovered.on)@.failures.current is Some && old(recovered.on)@.failures.current->0.site == site
            ==> final(recovered.on)@.failures.current is None,
        old(recovered.on)@.failures.current is Some && old(recovered.on)@.failures.current->0.site != site
            ==> final(recovered.on)@.failures == old(recovered.on)@.failures,
{
}

/// A focus event tells the process, the generation and the moment, and the window and element that have the
/// focus; a secure field is told without its element.
pub proof fn law_focus_events_tell_the_focus(
    observer: AppObserver,
    observed_at: OffsetDateTime,
    event: NativeAxEvent,
)
    requires
        call_ensures(AppObserver::focus_event, (&observer, observed_at), event),
    ensures
        event matches NativeAxEvent::UiFocused {
            pid,
            generation,
            window,
            element,
            observed_at: told_at,
        } && pid == observer@.pid && generation == observer@.generation && told_at == observed_at && (
        observer@.focused is None ==> window is None && element is None) && (
        observer@.focused is Some ==> window == observer@.focused->0.context.window && (
        element is None <==> observer@.focused->0.context.field_class is SecureText) && (
        element is Some ==> element == Some(observer@.focused->0.context.element))),
{
}

/// An attached application has its focus read again one second later; an unreadable role is counted as a
/// failure.
pub proof fn law_attached_trees_are_read_again(
    call: Subject<AppObserver>,
    now: Instant,
    role: Result<String, NativeAxError>,
)
    requires
        call.on.wf(),
        call_ensures(AppObserver::activate_accessibility_tree, (call.on, now, role), ()),
        now.nanos + 1_000_000_000 <= u64::MAX,
        call.on@.degraded < u64::MAX,
    ensures
        final(call.on)@.activation.focused_reconcile_at == Some(
            Instant { nanos: (now.nanos + 1_000_000_000) as u64 },
        ),
        role is Ok ==> final(call.on)@.degraded == old(call.on)@.degraded,
        role is Err ==> final(call.on)@.degraded == old(call.on)@.degraded + 1
            && final(call.on)@.failures.current is Some
            && final(call.on)@.failures.current->0.site is ApplicationRole,
        final(call.on)@.focused == old(call.on)@.focused && final(call.on)@.registry == old(call.on)@.registry,
{
}

/// Whether content may be captured is asked of the policy for the application and window, and only while
/// content is captured at all.
pub proof fn law_decisions_need_capture(
    observer: AppObserver,
    policy: CapturePolicy,
    window: Option<NativeWindow>,
    decision: Option<TextContentDecision>,
    allowed: bool,
)
    requires
        call_ensures(AppObserver::text_content_decision, (&observer, &policy, &window), decision),
        call_ensures(AppObserver::text_content_allowed, (&observer, &policy, &window), allowed),
    ensures
        decision is Some <==> observer@.enabled,
        decision is Some && window is Some ==> decision->0 == policy.spec_decision(
            observer@.app,
            window->0.id,
            text::text_view(window->0.title),
        ),
        decision is Some && window is None ==> decision->0 == policy.spec_decision(
            observer@.app,
            None,
            None,
        ),
        allowed ==> observer@.enabled,
        observer@.enabled && window is Some ==> allowed == policy.spec_decision(
            observer@.app,
            window->0.id,
            None,
        ).allowed,
{
}

/// Replacing the window target succeeds unless its title notification is refused, and then the old target
/// stays. After a success the new window's title delivers and the old one's does not.
pub proof fn law_replaced_windows_deliver_their_title<
    A: Fn(ElementId) -> Result<(), NativeAxError>,
    R: Fn(ElementId) -> Result<(), NativeAxError>,
>(
    call: Subject<AppObserver>,
    target: Option<ElementId>,
    add_native: &A,
    remove_native: &R,
    result: Result<(), NativeAxError>,
)
    requires
        call.on.wf(),
        call_ensures(
            AppObserver::replace_window_target::<A, R>,
            (call.on, target, add_native, remove_native),
            result,
        ),
    ensures
        result is Ok ==> final(call.on)@.window_target == target,
        result matches Err(error) ==> final(call.on)@ == old(call.on)@ && target is Some && call_ensures(
            *add_native,
            (target->0,),
            Err::<(), NativeAxError>(error),
        ) && error.code != -25_209,
        result is Ok && target is Some && old(call.on)@.window_target != target
            ==> final(call.on)@.registry.contains_key((target->0, "AXTitleChanged"@))
            && final(call.on)@.registry[(target->0, "AXTitleChanged"@)] is Active,
        result is Ok && old(call.on)@.window_target is Some && old(call.on)@.window_target != target ==> !(
        final(call.on)@.registry.contains_key((old(call.on)@.window_target->0, "AXTitleChanged"@))
            && final(call.on)@.registry[(old(call.on)@.window_target->0, "AXTitleChanged"@)] is Active),
        target is Some && old(call.on)@.window_target == target ==> result is Ok && final(call.on)@
            == old(call.on)@,
        final(call.on)@.focused == old(call.on)@.focused && final(call.on)@.retired == old(call.on)@.retired
            && final(call.on)@.generation == old(call.on)@.generation,
{
}

/// A focused window is told with the process and moment as soon as it can be read, whether or not its title
/// can be observed; one that cannot be read is an error, and without a window nothing is told.
pub proof fn law_focused_windows_are_told<
    W: FnOnce(ElementId) -> ReadWindow,
    A: Fn(ElementId) -> Result<(), NativeAxError>,
    R: Fn(ElementId) -> Result<(), NativeAxError>,
>(
    call: Subject<AppObserver>,
    target: Result<Option<ElementId>, NativeAxError>,
    observed_at: OffsetDateTime,
    read_window: W,
    add_native: &A,
    remove_native: &R,
    event: Result<Option<NativeAxEvent>, NativeAxError>,
)
    requires
        call.on.wf(),
        call_ensures(
            AppObserver::focused_window_event::<W, A, R>,
            (call.on, target, observed_at, read_window, add_native, remove_native),
            event,
        ),
    ensures
        target matches Err(error) ==> event == Err::<Option<NativeAxEvent>, NativeAxError>(error)
            && final(call.on)@ == old(call.on)@,
        target is Ok && target->Ok_0 is None ==> event == Ok::<Option<NativeAxEvent>, NativeAxError>(
            None,
        ) && final(call.on)@.window_target is None,
        event is Ok && event->Ok_0 is Some ==> {
            &&& event->Ok_0->0 matches NativeAxEvent::WindowFocused { pid, window, observed_at: told_at }
                && pid == old(call.on)@.pid && told_at == observed_at && call_ensures(
                read_window,
                (target->Ok_0->0,),
                Ok::<Option<NativeWindow>, NativeAxError>(Some(window)),
            )
        },
        event is Err && target is Ok ==> call_ensures(
            read_window,
            (target->Ok_0->0,),
            Err::<Option<NativeWindow>, NativeAxError>(event->Err_0),
        ),
        final(call.on)@.focused == old(call.on)@.focused,
{
}

/// A window that cannot be found, or whose title is refused, is counted once and leaves the window target as it
/// was; any other becomes the target.
pub proof fn law_refused_windows_are_counted<
    A: Fn(ElementId) -> Result<(), NativeAxError>,
    R: Fn(ElementId) -> Result<(), NativeAxError>,
>(
    call: Subject<AppObserver>,
    target: Result<Option<ElementId>, NativeAxError>,
    add_native: &A,
    remove_native: &R,
)
    requires
        call.on.wf(),
        call_ensures(
            AppObserver::refresh_window_target::<A, R>,
            (call.on, target, add_native, remove_native),
            (),
        ),
        call.on@.degraded < u64::MAX,
    ensures
        target is Err ==> final(call.on)@.degraded == old(call.on)@.degraded + 1
            && final(call.on)@.window_target == old(call.on)@.window_target && final(call.on)@.registry
            == old(call.on)@.registry,
        target is Ok && final(call.on)@.window_target != target->Ok_0 ==> final(call.on)@.degraded
            == old(call.on)@.degraded + 1 && final(call.on)@.window_target == old(call.on)@.window_target
            && final(call.on)@.registry == old(call.on)@.registry,
        target is Ok && target->Ok_0 is Some && old(call.on)@.window_target == target->Ok_0
            ==> final(call.on)@ == old(call.on)@,
        final(call.on)@.focused == old(call.on)@.focused && final(call.on)@.generation
            == old(call.on)@.generation,
{
}

} // verus!
