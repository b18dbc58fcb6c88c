//! Debounced value capture with fail-closed authorization.

use vstd::prelude::*;

use super::authorization;
use super::authorization::{
    InputAuthorization, InputAuthorizations, InputWindowMatch, LedgerModel,
    AUTHORIZATION_QUEUE_CAPACITY,
};
use super::policy::TextContentDecision;
use crate::clock::Instant;
use crate::focused_field::FieldClass;
use crate::subject::Subject;
use crate::text;
use crate::text::{copy_text, same_text};

verus! {

/// Quiet time after which an observed value is emitted, in nanoseconds.
pub const VALUE_DEBOUNCE: u64 = 1_000_000_000;

/// Longest time an observed value is held back, in nanoseconds.
pub const VALUE_MAX_HOLD: u64 = 5_000_000_000;

/// The value before the authorized edits and after them. The text that was
/// typed is the difference between both.
#[derive(Debug, PartialEq, Eq)]
pub struct TextChange {
    pub before: String,
    pub after: String,
}

/// One value to send.
#[derive(Debug, PartialEq, Eq)]
pub struct ValueEmission {
    pub element_value: Option<String>,
    pub value_len: Option<u64>,
    pub change: Option<TextChange>,
    pub capture_decision: Option<TextContentDecision>,
}

impl ValueEmission {
    /// The typed text to send, given the difference found between both values:
    /// none unless the edits were authorized.
    pub fn text(&self, difference: Option<String>) -> (typed: Option<String>)
        ensures
            typed == if self.change is Some {
                difference
            } else {
                None
            },
    {
        if self.change.is_some() {
            difference
        } else {
            None
        }
    }
}

/// A value read after a change notification.
#[derive(Debug, PartialEq, Eq)]
pub struct ValueObservation {
    pub pid: i32,
    pub target_generation: u64,
    pub notification_at: Instant,
    pub value: Option<String>,
    pub value_len: Option<u64>,
    pub field_class: FieldClass,
    pub capture_decision: Option<TextContentDecision>,
}

/// What a focus change does to the value that was being held.
#[derive(Debug, PartialEq, Eq)]
pub enum FocusChangeCapture {
    Emit(Option<ValueEmission>),
    Defer,
}

/// One observed text with the keystrokes that may authorize it.
pub struct StepModel {
    pub value: Option<String>,
    pub window: Option<Seq<InputAuthorization>>,
}

impl StepModel {
    /// Whether a confirmed keystroke stands behind this text.
    pub open spec fn authorized(self, ledger: LedgerModel) -> bool {
        self.window matches Some(candidates) && authorization::any_in_state(
            ledger,
            candidates,
            authorization::AuthorizationState::Confirmed,
        )
    }

    /// Whether the worker still may confirm this text.
    pub open spec fn awaits_worker(self, ledger: LedgerModel) -> bool {
        self.window matches Some(candidates) && authorization::awaits_worker(ledger, candidates)
    }
}

/// The text that the authorized edits started from: the last one without a
/// confirmed keystroke, or the baseline.
pub open spec fn authorized_start(
    baseline: Option<String>,
    steps: Seq<StepModel>,
    ledger: LedgerModel,
) -> Option<String>
    decreases steps.len(),
{
    if steps.len() == 0 {
        baseline
    } else if steps.last().authorized(ledger) {
        authorized_start(baseline, steps.drop_last(), ledger)
    } else {
        steps.last().value
    }
}

/// A value waiting for its quiet time.
pub struct PendingModel {
    pub first_observed_at: Instant,
    pub last_observed_at: Instant,
    pub value: Option<String>,
    pub value_len: Option<u64>,
    pub field_class: FieldClass,
    pub capture_decision: Option<TextContentDecision>,
    pub steps: Seq<StepModel>,
}

impl PendingModel {
    pub open spec fn wf(self) -> bool {
        self.steps.len() <= AUTHORIZATION_QUEUE_CAPACITY
    }

    /// A freshly observed value.
    pub open spec fn first(
        observation: ValueObservation,
        window: Option<Seq<InputAuthorization>>,
    ) -> PendingModel {
        PendingModel {
            first_observed_at: observation.notification_at,
            last_observed_at: observation.notification_at,
            value: observation.value,
            value_len: observation.value_len,
            field_class: observation.field_class,
            capture_decision: observation.capture_decision,
            steps: if observation.field_class.known_text() {
                seq![StepModel { value: observation.value, window }]
            } else {
                seq![]
            },
        }
    }

    /// The steps that remain when one more arrives: a full history is replaced
    /// by one unauthorized step with the arriving text.
    pub open spec fn trimmed(self, value: Option<String>) -> Seq<StepModel> {
        if self.steps.len() == AUTHORIZATION_QUEUE_CAPACITY {
            seq![StepModel { value, window: None }]
        } else {
            self.steps
        }
    }

    /// The held value after another observation.
    pub open spec fn coalesced(
        self,
        observation: ValueObservation,
        window: Option<Seq<InputAuthorization>>,
    ) -> PendingModel {
        PendingModel {
            first_observed_at: self.first_observed_at,
            last_observed_at: observation.notification_at,
            value: observation.value,
            value_len: observation.value_len,
            field_class: observation.field_class,
            capture_decision: observation.capture_decision,
            steps: self.trimmed(observation.value).push(
                StepModel { value: observation.value, window },
            ),
        }
    }

    /// Due after a quiet second, and after five seconds in any case.
    pub open spec fn due(self, now: Instant) -> bool {
        now.reached(self.last_observed_at, VALUE_DEBOUNCE) || now.reached(
            self.first_observed_at,
            VALUE_MAX_HOLD,
        )
    }

    pub open spec fn awaits_worker(self, ledger: LedgerModel) -> bool {
        exists|i: int| 0 <= i < self.steps.len() && (#[trigger] self.steps[i]).awaits_worker(ledger)
    }
}

/// What a capture knows of its target.
pub struct CaptureModel {
    pub enabled: bool,
    pub baseline: Option<String>,
    pub pending: Option<PendingModel>,
    pub requires_rebaseline: bool,
}

impl CaptureModel {
    pub open spec fn wf(self) -> bool {
        self.pending matches Some(pending) ==> pending.wf()
    }

    pub open spec fn awaits_worker(self, ledger: LedgerModel) -> bool {
        self.pending matches Some(pending) && pending.awaits_worker(ledger)
    }

    /// The boundary at a field that is not known text: nothing observed before
    /// it is kept.
    pub open spec fn bounded(self) -> CaptureModel {
        CaptureModel {
            baseline: None,
            pending: None,
            requires_rebaseline: self.enabled,
            ..self
        }
    }

    /// The keystrokes that may authorize an observation, while capture is on.
    pub open spec fn window(
        self,
        observation: ValueObservation,
        ledger: LedgerModel,
    ) -> Option<Seq<InputAuthorization>> {
        let candidates = ledger.delivered().candidates(
            observation.pid,
            observation.target_generation,
            observation.notification_at,
        );
        if self.enabled && candidates.len() > 0 {
            Some(candidates)
        } else {
            None
        }
    }

    /// The capture after taking in an observation.
    pub open spec fn staged(
        self,
        observation: ValueObservation,
        ledger: LedgerModel,
    ) -> CaptureModel {
        if observation.field_class is SecureText || observation.field_class is Unknown {
            self.bounded()
        } else if !observation.field_class.known_text() {
            CaptureModel {
                pending: Some(PendingModel::first(observation, None)),
                ..self.bounded()
            }
        } else if self.requires_rebaseline {
            CaptureModel {
                baseline: observation.value,
                pending: Some(PendingModel::first(observation, None)),
                requires_rebaseline: false,
                ..self
            }
        } else {
            let window = self.window(observation, ledger);
            CaptureModel {
                pending: Some(
                    match self.pending {
                        Some(pending) => if pending.field_class.known_text() {
                            pending.coalesced(observation, window)
                        } else {
                            PendingModel::first(observation, window)
                        },
                        None => PendingModel::first(observation, window),
                    },
                ),
                ..self
            }
        }
    }

    /// The ledger after taking in an observation: a boundary or a new baseline
    /// withdraws the keystrokes of the target.
    pub open spec fn staged_ledger(
        self,
        observation: ValueObservation,
        ledger: LedgerModel,
    ) -> LedgerModel {
        if !observation.field_class.known_text() || self.requires_rebaseline {
            ledger.without_target(observation.pid, observation.target_generation)
        } else if self.enabled {
            ledger.delivered().pruned(observation.notification_at)
        } else {
            ledger
        }
    }

    /// The change to send: from the authorized start to the held value, when a
    /// confirmed keystroke stands behind the latest text.
    pub open spec fn change(self, pending: PendingModel, ledger: LedgerModel) -> Option<
        (String, String),
    > {
        let start = authorized_start(self.baseline, pending.steps, ledger);
        if self.enabled && pending.field_class.known_text() && pending.steps.len() > 0
            && pending.steps.last().authorized(ledger) && start is Some && pending.value is Some {
            Some((start->0, pending.value->0))
        } else {
            None
        }
    }

    /// What a held value becomes when it is sent under `ledger`.
    pub open spec fn sent(self, pending: PendingModel, ledger: LedgerModel) -> ValueEmission {
        ValueEmission {
            element_value: if self.enabled && pending.field_class is KnownSafeNonText {
                pending.value
            } else {
                None
            },
            value_len: pending.value_len,
            change: match self.change(pending, ledger) {
                Some((before, after)) => Some(TextChange { before, after }),
                None => None,
            },
            capture_decision: pending.capture_decision,
        }
    }

    /// The capture once the held value is out: a known text becomes the baseline.
    pub open spec fn flushed(self) -> CaptureModel {
        match self.pending {
            Some(pending) => CaptureModel {
                baseline: if pending.field_class.known_text() {
                    pending.value
                } else {
                    self.baseline
                },
                pending: None,
                ..self
            },
            None => self,
        }
    }

    /// What the held value becomes when it is flushed under `ledger`.
    pub open spec fn emission(self, ledger: LedgerModel) -> Option<ValueEmission> {
        match self.pending {
            Some(pending) => Some(self.sent(pending, ledger)),
            None => None,
        }
    }

    pub open spec fn has_due(self, now: Instant) -> bool {
        self.pending matches Some(pending) && pending.due(now)
    }

    /// Whether an observation arrives where no earlier value may be emitted.
    pub open spec fn at_boundary(self, observation: ValueObservation) -> bool {
        !observation.field_class.known_text() || self.requires_rebaseline
    }

    /// The capture, the ledger and the due value once an observation was taken in.
    pub open spec fn observed(
        self,
        observation: ValueObservation,
        ledger: LedgerModel,
    ) -> (CaptureModel, LedgerModel, Option<ValueEmission>) {
        if self.at_boundary(observation) || !self.has_due(observation.notification_at) {
            (self.staged(observation, ledger), self.staged_ledger(observation, ledger), None)
        } else {
            (
                self.flushed().staged(observation, ledger.delivered()),
                self.flushed().staged_ledger(observation, ledger.delivered()),
                self.emission(ledger.delivered()),
            )
        }
    }

    /// The capture, the ledger and what becomes of the held value when it cannot
    /// be read again.
    pub open spec fn resolved_unread(self, ledger: LedgerModel) -> (
        CaptureModel,
        LedgerModel,
        FocusChangeCapture,
    ) {
        if self.awaits_worker(ledger) {
            (self, ledger, FocusChangeCapture::Defer)
        } else {
            (
                self.flushed(),
                ledger.delivered(),
                FocusChangeCapture::Emit(self.emission(ledger.delivered())),
            )
        }
    }

    /// The capture, the ledger and what becomes of the held value when the focus
    /// moves and its element reads as observed.
    pub open spec fn resolved(
        self,
        observation: ValueObservation,
        ledger: LedgerModel,
    ) -> (CaptureModel, LedgerModel, FocusChangeCapture) {
        if self.repeats(observation) {
            self.resolved_unread(ledger)
        } else if self.at_boundary(observation) {
            (
                self.staged(observation, ledger),
                self.staged_ledger(observation, ledger),
                FocusChangeCapture::Emit(None),
            )
        } else if self.pending is None && !self.differs(observation) {
            (self, ledger, FocusChangeCapture::Emit(None))
        } else {
            self.staged(observation, ledger).resolved_unread(
                self.staged_ledger(observation, ledger),
            )
        }
    }

    /// Whether a focus change reads back the value already held.
    pub open spec fn repeats(self, observation: ValueObservation) -> bool {
        observation.field_class.known_text() && (self.pending matches Some(pending)
            && pending.field_class.known_text() && text::text_view(pending.value)
            == text::text_view(observation.value))
    }

    /// Whether the value differs from the baseline, both being known.
    pub open spec fn differs(self, observation: ValueObservation) -> bool {
        self.enabled && self.baseline is Some && observation.value is Some && text::text_view(
            self.baseline,
        ) != text::text_view(observation.value)
    }
}

/// The value state of one focused target.
#[derive(Debug)]
pub struct ValueCapture {
    capture_text_content: bool,
    baseline: Option<String>,
    pending: Option<PendingValue>,
    requires_rebaseline: bool,
}

#[derive(Debug)]
struct PendingValue {
    first_observed_at: Instant,
    last_observed_at: Instant,
    value: Option<String>,
    value_len: Option<u64>,
    field_class: FieldClass,
    capture_decision: Option<TextContentDecision>,
    text_steps: Vec<PendingTextStep>,
}

#[derive(Debug)]
struct PendingTextStep {
    value: Option<String>,
    window_match: Option<InputWindowMatch>,
}

impl PendingTextStep {
    spec fn model(self) -> StepModel {
        StepModel {
            value: self.value,
            window: window_view(self.window_match),
        }
    }
}

spec fn window_view(window_match: Option<InputWindowMatch>) -> Option<Seq<InputAuthorization>> {
    match window_match {
        Some(window) => Some(window@),
        None => None,
    }
}

spec fn step_models(steps: Seq<PendingTextStep>) -> Seq<StepModel> {
    steps.map_values(|step: PendingTextStep| step.model())
}

impl PendingValue {
    spec fn model(self) -> PendingModel {
        PendingModel {
            first_observed_at: self.first_observed_at,
            last_observed_at: self.last_observed_at,
            value: self.value,
            value_len: self.value_len,
            field_class: self.field_class,
            capture_decision: self.capture_decision,
            steps: step_models(self.text_steps@),
        }
    }

    fn new(observation: ValueObservation, window_match: Option<InputWindowMatch>) -> (pending: Self)
        ensures
            pending.model() == PendingModel::first(
                observation,
                window_view(window_match),
            ),
            pending.model().wf(),
    {
        let ghost window = window_view(window_match);
        let mut text_steps: Vec<PendingTextStep> = Vec::new();
        if observation.field_class.is_known_text() {
            text_steps.push(
                PendingTextStep { value: copy_text(&observation.value), window_match },
            );
        }
        let pending = PendingValue {
            first_observed_at: observation.notification_at,
            last_observed_at: observation.notification_at,
            value: observation.value,
            value_len: observation.value_len,
            field_class: observation.field_class,
            capture_decision: observation.capture_decision,
            text_steps,
        };
        proof {
            assert(pending.model().steps =~= PendingModel::first(observation, window).steps);
        }
        pending
    }

    fn coalesce(
        &mut self,
        observation: ValueObservation,
        window_match: Option<InputWindowMatch>,
    )
        requires
            old(self).model().wf(),
        ensures
            final(self).model() == old(self).model().coalesced(
                observation,
                window_view(window_match),
            ),
            final(self).model().wf(),
    {
        let ghost before = self.model();
        let ghost window = window_view(window_match);
        self.last_observed_at = observation.notification_at;
        self.value_len = observation.value_len;
        self.field_class = observation.field_class;
        self.capture_decision = observation.capture_decision;
        if self.text_steps.len() == AUTHORIZATION_QUEUE_CAPACITY {
            self.text_steps.clear();
            self.text_steps.push(
                PendingTextStep { value: copy_text(&observation.value), window_match: None },
            );
        }
        assert(step_models(self.text_steps@) =~= before.trimmed(observation.value));
        self.text_steps.push(
            PendingTextStep { value: copy_text(&observation.value), window_match },
        );
        self.value = observation.value;
        proof {
            assert(self.model().steps =~= before.coalesced(observation, window).steps);
        }
    }

    fn is_due(&self, now: Instant) -> (due: bool)
        ensures
            due == self.model().due(now),
    {
        now.has_reached(self.last_observed_at, VALUE_DEBOUNCE) || now.has_reached(
            self.first_observed_at,
            VALUE_MAX_HOLD,
        )
    }

    fn awaits_worker(&self, authorizations: &InputAuthorizations) -> (pending: bool)
        ensures
            pending == self.model().awaits_worker(authorizations@),
    {
        let mut index: usize = 0;
        let ghost steps = self.model().steps;
        while index < self.text_steps.len()
            invariant
                0 <= index <= self.text_steps.len(),
                steps == self.model().steps,
                forall|i: int|
                    0 <= i < index ==> !(#[trigger] steps[i]).awaits_worker(authorizations@),
            decreases self.text_steps.len() - index,
        {
            let pending = match &self.text_steps[index].window_match {
                Some(window) => window.is_pending(authorizations),
                None => false,
            };
            assert(steps[index as int] == self.text_steps@[index as int].model());
            if pending {
                assert(steps[index as int].awaits_worker(authorizations@));
                return true;
            }
            index = index + 1;
        }
        false
    }
}

impl View for ValueCapture {
    type V = CaptureModel;

    closed spec fn view(&self) -> CaptureModel {
        CaptureModel {
            enabled: self.capture_text_content,
            baseline: self.baseline,
            pending: match self.pending {
                Some(pending) => Some(pending.model()),
                None => None,
            },
            requires_rebaseline: self.requires_rebaseline,
        }
    }
}

impl ValueCapture {
    /// A capture of a target that just got the focus. Without a readable text
    /// the first observation only sets the baseline.
    pub fn new(
        capture_text_content: bool,
        baseline: Option<String>,
        field_class: FieldClass,
    ) -> (capture: Self)
        ensures
            capture@ == (CaptureModel {
                enabled: capture_text_content,
                baseline,
                pending: None,
                requires_rebaseline: capture_text_content && (!field_class.known_text()
                    || baseline is None),
            }),
            capture@.wf(),
    {
        let requires_rebaseline = capture_text_content && (!field_class.is_known_text()
            || baseline.is_none());
        ValueCapture { capture_text_content, baseline, pending: None, requires_rebaseline }
    }

    /// Takes in an observed value, emitting the held one first when it is due.
    pub fn observe(
        &mut self,
        observation: ValueObservation,
        authorizations: &mut InputAuthorizations,
    ) -> (due: Option<ValueEmission>)
        requires
            old(self)@.wf(),
            old(authorizations)@.wf(),
        ensures
            final(self)@.wf(),
            final(authorizations)@.wf(),
            (final(self)@, final(authorizations)@, due) == old(self)@.observed(
                observation,
                old(authorizations)@,
            ),
    {
        if !observation.field_class.is_known_text() || self.requires_rebaseline {
            self.stage(observation, authorizations);
            return None;
        }
        let due = self.take_due(observation.notification_at, authorizations);
        self.stage(observation, authorizations);
        due
    }

    /// Ends text capture at a change to a class that is not known text.
    pub fn transition_class(
        &mut self,
        pid: i32,
        target_generation: u64,
        field_class: FieldClass,
        authorizations: &mut InputAuthorizations,
    )
        requires
            old(self)@.wf(),
            old(authorizations)@.wf(),
        ensures
            final(self)@.wf(),
            final(authorizations)@.wf(),
            final(self)@ == if field_class.known_text() {
                old(self)@
            } else {
                old(self)@.bounded()
            },
            final(authorizations)@ == if field_class.known_text() {
                old(authorizations)@
            } else {
                old(authorizations)@.without_target(pid, target_generation)
            },
    {
        if !field_class.is_known_text() {
            self.discard_text_boundary(pid, target_generation, authorizations);
        }
    }

    /// Emits the held value when it is due.
    pub fn take_due(
        &mut self,
        now: Instant,
        authorizations: &mut InputAuthorizations,
    ) -> (due: Option<ValueEmission>)
        requires
            old(self)@.wf(),
            old(authorizations)@.wf(),
        ensures
            final(self)@.wf(),
            final(authorizations)@.wf(),
            if old(self)@.has_due(now) {
                &&& due == old(self)@.emission(old(authorizations)@.delivered())
                &&& final(self)@ == old(self)@.flushed()
                &&& final(authorizations)@ == old(authorizations)@.delivered()
            } else {
                &&& due is None
                &&& final(self)@ == old(self)@
                &&& final(authorizations)@ == old(authorizations)@
            },
    {
        let due = match &self.pending {
            Some(pending) => pending.is_due(now),
            None => false,
        };
        if due {
            self.flush_pending(authorizations)
        } else {
            None
        }
    }

    /// Resolves the held value when the focus leaves with a readable value: a
    /// value whose keystroke the worker has not decided on is deferred.
    pub fn resolve_focus_change(
        &mut self,
        observation: ValueObservation,
        authorizations: &mut InputAuthorizations,
    ) -> (resolution: FocusChangeCapture)
        requires
            old(self)@.wf(),
            old(authorizations)@.wf(),
        ensures
            final(self)@.wf(),
            final(authorizations)@.wf(),
            (final(self)@, final(authorizations)@, resolution) == old(self)@.resolved(
                observation,
                old(authorizations)@,
            ),
    {
        let repeated = match &self.pending {
            Some(pending) => observation.field_class.is_known_text()
                && pending.field_class.is_known_text() && same_text(
                &pending.value,
                &observation.value,
            ),
            None => false,
        };
        if repeated {
            return self.resolve_unreadable_focus_change(authorizations);
        }
        if !observation.field_class.is_known_text() || self.requires_rebaseline {
            self.stage(observation, authorizations);
            return FocusChangeCapture::Emit(None);
        }
        let value_changed = self.capture_text_content && self.baseline.is_some()
            && observation.value.is_some() && !same_text(&self.baseline, &observation.value);
        if self.pending.is_none() && !value_changed {
            return FocusChangeCapture::Emit(None);
        }
        self.stage(observation, authorizations);
        self.resolve_unreadable_focus_change(authorizations)
    }

    /// Resolves the held value when the focus leaves and nothing can be read.
    pub fn resolve_unreadable_focus_change(
        &mut self,
        authorizations: &mut InputAuthorizations,
    ) -> (resolution: FocusChangeCapture)
        requires
            old(self)@.wf(),
            old(authorizations)@.wf(),
        ensures
            final(self)@.wf(),
            final(authorizations)@.wf(),
            (final(self)@, final(authorizations)@, resolution) == old(self)@.resolved_unread(
                old(authorizations)@,
            ),
    {
        if self.pending_authorization_is_pending(authorizations) {
            FocusChangeCapture::Defer
        } else {
            FocusChangeCapture::Emit(self.flush_pending(authorizations))
        }
    }

    /// Emits the held value now.
    pub fn flush_pending(
        &mut self,
        authorizations: &mut InputAuthorizations,
    ) -> (emission: Option<ValueEmission>)
        requires
            old(self)@.wf(),
            old(authorizations)@.wf(),
        ensures
            final(self)@.wf(),
            final(authorizations)@.wf(),
            emission == old(self)@.emission(old(authorizations)@.delivered()),
            final(self)@ == old(self)@.flushed(),
            final(authorizations)@ == old(authorizations)@.delivered(),
    {
        authorizations.receive_pending();
        let pending = self.pending.take();
        match pending {
            Some(pending) => Some(self.emit(pending, authorizations)),
            None => None,
        }
    }

    /// Whether the worker still may confirm a keystroke behind the held value.
    pub fn pending_authorization_is_pending(
        &self,
        authorizations: &InputAuthorizations,
    ) -> (pending: bool)
        ensures
            pending == self@.awaits_worker(authorizations@),
    {
        match &self.pending {
            Some(pending) => pending.awaits_worker(authorizations),
            None => false,
        }
    }

    /// Whether a value is held.
    pub fn has_pending(&self) -> (pending: bool)
        ensures
            pending == (self@.pending is Some),
    {
        self.pending.is_some()
    }

    fn stage(&mut self, observation: ValueObservation, authorizations: &mut InputAuthorizations)
        requires
            old(self)@.wf(),
            old(authorizations)@.wf(),
        ensures
            final(self)@.wf(),
            final(authorizations)@.wf(),
            final(self)@ == old(self)@.staged(observation, old(authorizations)@),
            final(authorizations)@ == old(self)@.staged_ledger(observation, old(authorizations)@),
    {
        if !observation.field_class.is_known_text() {
            self.discard_text_boundary(
                observation.pid,
                observation.target_generation,
                authorizations,
            );
            if matches!(observation.field_class, FieldClass::SecureText | FieldClass::Unknown) {
                return ;
            }
            self.pending = Some(PendingValue::new(observation, None));
            return ;
        }
        if self.requires_rebaseline {
            authorizations.invalidate(observation.pid, observation.target_generation);
            self.baseline = copy_text(&observation.value);
            self.requires_rebaseline = false;
            self.pending = Some(PendingValue::new(observation, None));
            return ;
        }
        let window_match = if self.capture_text_content {
            authorizations.matching(
                observation.pid,
                observation.target_generation,
                observation.notification_at,
            )
        } else {
            None
        };
        match self.pending.take() {
            Some(mut pending) => {
                if pending.field_class.is_known_text() {
                    pending.coalesce(observation, window_match);
                    self.pending = Some(pending);
                } else {
                    self.pending = Some(PendingValue::new(observation, window_match));
                }
            },
            None => {
                self.pending = Some(PendingValue::new(observation, window_match));
            },
        }
    }

    fn discard_text_boundary(
        &mut self,
        pid: i32,
        target_generation: u64,
        authorizations: &mut InputAuthorizations,
    )
        requires
            old(authorizations)@.wf(),
        ensures
            final(self)@.wf(),
            final(authorizations)@.wf(),
            final(self)@ == old(self)@.bounded(),
            final(authorizations)@ == old(authorizations)@.without_target(pid, target_generation),
    {
        self.pending = None;
        self.baseline = None;
        self.requires_rebaseline = self.capture_text_content;
        authorizations.invalidate(pid, target_generation);
    }

    fn emit(&mut self, pending: PendingValue, authorizations: &InputAuthorizations) -> (emission:
        ValueEmission)
        requires
            old(self)@.pending is None,
        ensures
            emission == old(self)@.sent(pending.model(), authorizations@),
            final(self)@ == (CaptureModel {
                baseline: if pending.field_class.known_text() {
                    pending.value
                } else {
                    old(self)@.baseline
                },
                ..old(self)@
            }),
    {
        let ghost steps = pending.model().steps;
        let ghost ledger = authorizations@;
        let mut authorized_baseline = copy_text(&self.baseline);
        let mut authorized_suffix = false;
        let mut index: usize = 0;
        assert(steps.take(0) =~= Seq::empty());
        while index < pending.text_steps.len()
            invariant
                ledger == authorizations@,
                steps == pending.model().steps,
                steps.len() == pending.text_steps.len(),
                0 <= index <= steps.len(),
                authorized_baseline == authorized_start(
                    self.baseline,
                    steps.take(index as int),
                    ledger,
                ),
                authorized_suffix == (index > 0 && steps[index - 1].authorized(ledger)),
            decreases pending.text_steps.len() - index,
        {
            let authorized = match &pending.text_steps[index].window_match {
                Some(window) => window.resolve_for_flush(authorizations),
                None => false,
            };
            proof {
                let next = steps.take(index + 1);
                assert(next.drop_last() =~= steps.take(index as int));
                assert(next.last() == pending.text_steps@[index as int].model());
                assert(authorized == next.last().authorized(ledger));
            }
            if authorized {
                authorized_suffix = true;
            } else {
                authorized_baseline = copy_text(&pending.text_steps[index].value);
                authorized_suffix = false;
            }
            index = index + 1;
        }
        assert(steps.take(index as int) =~= steps);
        let known_text = pending.field_class.is_known_text();
        let change = if self.capture_text_content && known_text && authorized_suffix {
            match (authorized_baseline, copy_text(&pending.value)) {
                (Some(before), Some(after)) => Some(TextChange { before, after }),
                _ => None,
            }
        } else {
            None
        };
        let element_value = if self.capture_text_content && matches!(
            pending.field_class,
            FieldClass::KnownSafeNonText
        ) {
            copy_text(&pending.value)
        } else {
            None
        };
        if known_text {
            self.baseline = pending.value;
        }
        ValueEmission {
            element_value,
            value_len: pending.value_len,
            change,
            capture_decision: pending.capture_decision,
        }
    }
}

/// Typed text starts at the last text that no confirmed keystroke stands behind:
/// nothing observed without a confirmed keystroke is ever part of it.
pub proof fn law_change_starts_after_unauthorized_text(
    baseline: Option<String>,
    steps: Seq<StepModel>,
    ledger: LedgerModel,
    last: int,
)
    requires
        -1 <= last < steps.len(),
        last >= 0 ==> !steps[last].authorized(ledger),
        forall|i: int| last < i < steps.len() ==> (#[trigger] steps[i]).authorized(ledger),
    ensures
        authorized_start(baseline, steps, ledger) == if last < 0 {
            baseline
        } else {
            steps[last].value
        },
    decreases steps.len(),
{
    if steps.len() > 0 && last < steps.len() - 1 {
        assert(steps.last() == steps[steps.len() - 1]);
        assert forall|i: int| last < i < steps.drop_last().len() implies (
        #[trigger] steps.drop_last()[i]).authorized(ledger) by {
            assert(steps.drop_last()[i] == steps[i]);
        }
        law_change_starts_after_unauthorized_text(baseline, steps.drop_last(), ledger, last);
    } else if steps.len() > 0 {
        assert(steps.last() == steps[last]);
    }
}

/// No text leaves a capture unless capture is on, the field is known text and a
/// confirmed keystroke stands behind the latest value.
pub proof fn law_text_needs_a_confirmed_keystroke(
    capture: CaptureModel,
    ledger: LedgerModel,
    emission: ValueEmission,
)
    requires
        capture.emission(ledger) == Some(emission),
        emission.change is Some,
    ensures
        capture.enabled,
        capture.pending matches Some(pending) && pending.field_class.known_text()
            && pending.steps.last().authorized(ledger) && pending.value == Some(
            emission.change->0.after,
        ),
{
}

/// With capture off neither typed text nor an element value leaves.
pub proof fn law_disabled_capture_sends_no_body(
    capture: CaptureModel,
    ledger: LedgerModel,
    emission: ValueEmission,
)
    requires
        !capture.enabled,
        capture.emission(ledger) == Some(emission),
    ensures
        emission.change is None,
        emission.element_value is None,
{
}

/// After a boundary the first text only sets the baseline, whatever keystrokes
/// were confirmed before.
pub proof fn law_boundary_rebaselines(
    capture: CaptureModel,
    observation: ValueObservation,
    ledger: LedgerModel,
    later: LedgerModel,
    emission: ValueEmission,
)
    requires
        capture.enabled,
        observation.field_class.known_text(),
        capture.bounded().staged(observation, ledger).emission(later) == Some(emission),
    ensures
        capture.bounded().at_boundary(observation),
        emission.change is None,
        capture.bounded().staged(observation, ledger).baseline == observation.value,
{
    let staged = capture.bounded().staged(observation, ledger);
    let pending = staged.pending->0;
    assert(pending.steps.last() == pending.steps[0]);
}

/// A secure or unknown field leaves nothing to emit.
pub proof fn law_private_field_discards_the_value(
    capture: CaptureModel,
    observation: ValueObservation,
    ledger: LedgerModel,
)
    requires
        observation.field_class is SecureText || observation.field_class is Unknown,
    ensures
        capture.staged(observation, ledger).pending is None,
        capture.staged(observation, ledger).baseline is None,
{
}

/// A lost attempt before the flush fails closed: a window matched from the
/// attempts then kept or queued no longer authorizes the held text.
pub proof fn law_lost_attempt_withholds_the_text(
    step: StepModel,
    ledger: LedgerModel,
    source: spec_fn(int) -> int,
)
    requires
        ledger.broken(),
        step.window matches Some(candidates) ==> forall|i: int|
            #![trigger candidates[i]]
            0 <= i < candidates.len() ==> 0 <= source(i) < ledger.arrivals().len()
                && ledger.arrivals()[source(i)].reserves(candidates[i].slot as int),
    ensures
        !step.authorized(ledger.delivered()),
{
    if step.window is Some {
        let candidates = step.window->0;
        assert forall|i: int| 0 <= i < candidates.len() implies !(ledger.delivered().state_of(
            (#[trigger] candidates[i]).slot,
        ) is Confirmed) by {
            authorization::law_lost_attempt_authorizes_nothing(
                ledger,
                0,
                0,
                Instant { nanos: 0 },
                source(i),
            );
        }
    }
}

/// Flushing empties the capture, so a value is emitted once.
pub proof fn law_flush_emits_once(capture: CaptureModel, ledger: LedgerModel)
    ensures
        capture.flushed().pending is None,
        capture.flushed().flushed() == capture.flushed(),
        capture.flushed().emission(ledger) is None,
{
}

/// A focus change whose value differs from the known baseline is never passed over,
/// though no notification of it was taken in before. It waits while a recent keystroke
/// of the target is undecided and none is confirmed. Otherwise one value leaves, as long
/// as the one observed, and it becomes the baseline; it tells what changed from the
/// baseline on exactly where a recent keystroke of the target is confirmed.
pub proof fn law_focus_change_sends_the_changed_value(
    capture: Subject<ValueCapture>,
    observation: ValueObservation,
    ledger: Subject<InputAuthorizations>,
    resolution: FocusChangeCapture,
)
    requires
        capture.on@.wf() && ledger.on@.wf(),
        call_ensures(
            ValueCapture::resolve_focus_change,
            (capture.on, observation, ledger.on),
            resolution,
        ),
        capture.on@.enabled && !capture.on@.requires_rebaseline && capture.on@.pending is None,
        observation.field_class is KnownText,
        capture.on@.baseline is Some && observation.value is Some,
        capture.on@.baseline->0@ != observation.value->0@,
    ensures
        resolution != FocusChangeCapture::Emit(None),
        resolution is Defer <==> authorization::typed_before(
            old(ledger.on)@.delivered(),
            observation.pid,
            observation.target_generation,
            observation.notification_at,
            authorization::AuthorizationState::Pending,
        ) && !authorization::typed_before(
            old(ledger.on)@.delivered(),
            observation.pid,
            observation.target_generation,
            observation.notification_at,
            authorization::AuthorizationState::Confirmed,
        ),
        resolution matches FocusChangeCapture::Emit(Some(emission)) ==> {
            &&& emission.value_len == observation.value_len
            &&& emission.capture_decision == observation.capture_decision
            &&& emission.element_value is None
            &&& emission.change is Some <==> authorization::typed_before(
                old(ledger.on)@.delivered(),
                observation.pid,
                observation.target_generation,
                observation.notification_at,
                authorization::AuthorizationState::Confirmed,
            )
            &&& emission.change matches Some(change) ==> change.before == old(capture.on)@.baseline->0
                && change.after == observation.value->0
            &&& final(capture.on)@.baseline == observation.value
            &&& final(capture.on)@.pending is None
        },
        resolution is Defer ==> {
            &&& final(capture.on)@.baseline == old(capture.on)@.baseline
            &&& final(capture.on)@.pending is Some
            &&& final(capture.on)@.pending->0.value == observation.value
            &&& final(capture.on)@.pending->0.value_len == observation.value_len
        },
{
    let before = capture.on@;
    let known = ledger.on@;
    lemma_first_step(before, observation, known);
    let staged = before.staged(observation, known);
    let after = before.staged_ledger(observation, known);
    assert(staged.pending->0.steps.last() == staged.pending->0.steps[0]);
    reveal_with_fuel(authorized_start, 2);
    assert(staged.pending->0.steps.drop_last().len() == 0);
    if staged.awaits_worker(after) {
        assert(staged.pending->0.steps[0].awaits_worker(after));
    }
}

/// What the keystrokes behind a first value say of it, now and after delivery.
proof fn lemma_first_step(
    capture: CaptureModel,
    observation: ValueObservation,
    ledger: LedgerModel,
)
    requires
        ledger.wf(),
        capture.enabled && !capture.requires_rebaseline && capture.pending is None,
        observation.field_class is KnownText,
    ensures
        ({
            let staged = capture.staged(observation, ledger);
            let after = capture.staged_ledger(observation, ledger);
            let step = staged.pending->0.steps[0];
            let confirmed = authorization::typed_before(
                ledger.delivered(),
                observation.pid,
                observation.target_generation,
                observation.notification_at,
                authorization::AuthorizationState::Confirmed,
            );
            let waiting = authorization::typed_before(
                ledger.delivered(),
                observation.pid,
                observation.target_generation,
                observation.notification_at,
                authorization::AuthorizationState::Pending,
            );
            &&& staged.pending is Some
            &&& staged.pending->0.steps.len() == 1
            &&& step.value == observation.value
            &&& after.delivered() == after
            &&& step.authorized(after) == confirmed
            &&& step.awaits_worker(after) == (waiting && !confirmed)
        }),
{
    let delivered = ledger.delivered();
    let after = capture.staged_ledger(observation, ledger);
    authorization::law_delivery_settles(ledger);
    authorization::law_only_recent_keystrokes_of_the_target_authorize(
        delivered,
        observation.pid,
        observation.target_generation,
        observation.notification_at,
        0,
    );
    authorization::law_pruning_keeps_open_attempts(
        delivered,
        observation.notification_at,
        arbitrary(),
    );
    authorization::lemma_nothing_to_deliver(after);
    let candidates = delivered.candidates(
        observation.pid,
        observation.target_generation,
        observation.notification_at,
    );
    assert forall|state: authorization::AuthorizationState| #[trigger]
        authorization::any_in_state(after, candidates, state) == authorization::any_in_state(
            delivered,
            candidates,
            state,
        ) by {
        assert forall|slot: usize| #[trigger] after.state_of(slot) == delivered.state_of(slot) by {}
    }
}

/// A focus change that reads back the held text, and one that cannot read anything, come
/// to the same. A focus change that reads the baseline while nothing is held, or where no
/// text can be compared, sends nothing and changes nothing.
pub proof fn law_unchanged_focus_changes_send_no_more(
    capture: CaptureModel,
    observation: ValueObservation,
    ledger: LedgerModel,
)
    ensures
        observation.field_class is KnownText && (capture.pending matches Some(pending)
            && pending.field_class is KnownText && text::text_view(pending.value)
            == text::text_view(observation.value)) ==> capture.resolved(observation, ledger)
            == capture.resolved_unread(ledger),
        observation.field_class is KnownText && !capture.requires_rebaseline
            && capture.pending is None && (!capture.enabled || capture.baseline is None
            || observation.value is None || text::text_view(capture.baseline) == text::text_view(
            observation.value,
        )) ==> capture.resolved(observation, ledger) == (
            capture,
            ledger,
            FocusChangeCapture::Emit(None),
        ),
{
}

/// Another text than the one held joins it when the focus changes: it is sent, with its
/// own length, unless a keystroke behind any of the texts is undecided.
pub proof fn law_focus_change_sends_the_latest_text(
    capture: CaptureModel,
    observation: ValueObservation,
    ledger: LedgerModel,
)
    requires
        capture.pending is Some,
        capture.pending->0.field_class is KnownText,
        observation.field_class is KnownText && !capture.requires_rebaseline,
        text::text_view(capture.pending->0.value) != text::text_view(observation.value),
    ensures
        capture.resolved(observation, ledger).2 matches FocusChangeCapture::Emit(sent)
            ==> sent is Some && sent->0.value_len == observation.value_len
            && sent->0.capture_decision == observation.capture_decision && (
        sent->0.change matches Some(change) ==> observation.value == Some(change.after)),
        capture.resolved(observation, ledger).2 is Defer ==> {
            let held = capture.resolved(observation, ledger).0.pending;
            held is Some && held->0.value == observation.value && held->0.first_observed_at
                == capture.pending->0.first_observed_at
        },
{
}

/// Leaving a field without reading it sends what is held, once, or keeps it while a
/// keystroke behind it is undecided; with nothing held nothing is sent.
pub proof fn law_unread_focus_change_keeps_or_sends(
    capture: Subject<ValueCapture>,
    ledger: Subject<InputAuthorizations>,
    resolution: FocusChangeCapture,
)
    requires
        capture.on@.wf() && ledger.on@.wf(),
        call_ensures(
            ValueCapture::resolve_unreadable_focus_change,
            (capture.on, ledger.on),
            resolution,
        ),
    ensures
        old(capture.on)@.pending is None ==> resolution == FocusChangeCapture::Emit(None)
            && final(capture.on)@ == old(capture.on)@,
        resolution matches FocusChangeCapture::Emit(sent) ==> {
            &&& sent is Some <==> old(capture.on)@.pending is Some
            &&& final(capture.on)@.pending is None
            &&& sent is Some ==> sent->0.value_len == old(capture.on)@.pending->0.value_len
        },
        resolution is Defer ==> final(capture.on)@ == old(capture.on)@ && final(ledger.on)@
            == old(ledger.on)@ && old(capture.on)@.pending is Some,
        resolution is Defer <==> old(capture.on)@.pending is Some && exists|i: int|
            0 <= i < old(capture.on)@.pending->0.steps.len() && undecided(
                old(ledger.on)@,
                #[trigger] old(capture.on)@.pending->0.steps[i],
            ),
{
    let before = capture.on@;
    let known = ledger.on@;
    if before.pending is Some {
        let steps = before.pending->0.steps;
        assert forall|i: int| 0 <= i < steps.len() implies (#[trigger] steps[i]).awaits_worker(
            known,
        ) == undecided(known, steps[i]) by {}
    }
}

/// Whether some keystroke behind a text still waits while none is confirmed.
pub open spec fn undecided(ledger: LedgerModel, step: StepModel) -> bool {
    step.window matches Some(window) && (exists|i: int|
        0 <= i < window.len() && ledger.state_of((#[trigger] window[i]).slot) is Pending) && (
    forall|i: int|
        0 <= i < window.len() ==> ledger.state_of((#[trigger] window[i]).slot) !is Confirmed)
}

/// A boundary lets nothing out: at a field that is not known text, and at the first text
/// after one, a focus change sends nothing. A secure or unknown field forgets all that was
/// observed; the first text after a boundary becomes the baseline.
pub proof fn law_boundaries_send_nothing(
    capture: CaptureModel,
    observation: ValueObservation,
    ledger: LedgerModel,
)
    requires
        observation.field_class !is KnownText || (capture.requires_rebaseline
            && capture.pending is None),
    ensures
        capture.resolved(observation, ledger).2 == FocusChangeCapture::Emit(None),
        capture.observed(observation, ledger).2 is None,
        observation.field_class !is KnownText ==> {
            &&& capture.observed(observation, ledger).0.baseline is None
            &&& capture.observed(observation, ledger).0.requires_rebaseline == capture.enabled
        },
        observation.field_class is SecureText || observation.field_class is Unknown
            ==> capture.observed(observation, ledger).0.pending is None
            && capture.resolved(observation, ledger).0.pending is None,
        observation.field_class is KnownSafeNonText ==> capture.observed(
            observation,
            ledger,
        ).0.pending is Some && capture.observed(observation, ledger).0.pending->0.value
            == observation.value,
        observation.field_class is KnownText ==> {
            &&& capture.observed(observation, ledger).0.baseline == observation.value
            &&& !capture.observed(observation, ledger).0.requires_rebaseline
        },
{
}

/// An observed text is held, with its length and the decision it was read under, from its
/// notification on; one that follows a held text before that is due keeps the time at which
/// holding began. What was due leaves first, and becomes the baseline.
pub proof fn law_observed_text_is_held(
    capture: Subject<ValueCapture>,
    observation: ValueObservation,
    ledger: Subject<InputAuthorizations>,
    due: Option<ValueEmission>,
)
    requires
        capture.on@.wf() && ledger.on@.wf(),
        call_ensures(ValueCapture::observe, (capture.on, observation, ledger.on), due),
        observation.field_class is KnownText && !capture.on@.requires_rebaseline,
    ensures
        final(capture.on)@.pending is Some,
        final(capture.on)@.pending->0.value == observation.value,
        final(capture.on)@.pending->0.value_len == observation.value_len,
        final(capture.on)@.pending->0.capture_decision == observation.capture_decision,
        final(capture.on)@.pending->0.field_class == observation.field_class,
        final(capture.on)@.pending->0.last_observed_at == observation.notification_at,
        due is Some <==> (old(capture.on)@.pending matches Some(held) && (
        observation.notification_at.nanos >= held.last_observed_at.nanos + 1_000_000_000
            || observation.notification_at.nanos >= held.first_observed_at.nanos + 5_000_000_000)),
        due matches Some(sent) ==> sent.value_len == old(capture.on)@.pending->0.value_len
            && final(capture.on)@.pending->0.first_observed_at == observation.notification_at,
        due is Some && old(capture.on)@.pending->0.field_class is KnownText
            ==> final(capture.on)@.baseline == old(capture.on)@.pending->0.value,
        due is None ==> final(capture.on)@.baseline == old(capture.on)@.baseline,
        due is None && old(capture.on)@.pending is Some && old(capture.on)@.pending->0.field_class
            is KnownText ==> final(capture.on)@.pending->0.first_observed_at
            == old(capture.on)@.pending->0.first_observed_at,
        old(capture.on)@.pending is None ==> final(capture.on)@.pending->0.first_observed_at
            == observation.notification_at,
{
}

/// A held value is due a second after its last change and five seconds after its first one,
/// not before; a value that is not due stays held and nothing leaves.
pub proof fn law_held_values_leave_when_due(
    capture: Subject<ValueCapture>,
    now: Instant,
    ledger: Subject<InputAuthorizations>,
    due: Option<ValueEmission>,
)
    requires
        capture.on@.wf() && ledger.on@.wf(),
        call_ensures(ValueCapture::take_due, (capture.on, now, ledger.on), due),
    ensures
        due is Some <==> (old(capture.on)@.pending matches Some(held) && (now.nanos
            >= held.last_observed_at.nanos + 1_000_000_000 || now.nanos
            >= held.first_observed_at.nanos + 5_000_000_000)),
        due is Some ==> final(capture.on)@.pending is None && due->0.value_len
            == old(capture.on)@.pending->0.value_len,
        due is None ==> final(capture.on)@ == old(capture.on)@ && final(ledger.on)@ == old(ledger.on)@,
{
}

/// What leaves is what was held: its length and its decision. A text leaves as a change up
/// to it, exactly where capture is on, its latest keystroke is confirmed and both its ends
/// are known; the value of an element that is no text leaves as it is while capture is on.
pub proof fn law_sent_value_is_the_held_one(
    capture: Subject<ValueCapture>,
    ledger: Subject<InputAuthorizations>,
    emission: Option<ValueEmission>,
)
    requires
        capture.on@.wf() && ledger.on@.wf(),
        call_ensures(ValueCapture::flush_pending, (capture.on, ledger.on), emission),
    ensures
        emission is Some <==> old(capture.on)@.pending is Some,
        final(capture.on)@.pending is None,
        final(capture.on)@.enabled == old(capture.on)@.enabled,
        emission matches Some(sent) ==> {
            let held = old(capture.on)@.pending->0;
            &&& sent.value_len == held.value_len
            &&& sent.capture_decision == held.capture_decision
            &&& sent.element_value == if old(capture.on)@.enabled && held.field_class
                is KnownSafeNonText {
                held.value
            } else {
                None
            }
            &&& sent.change is Some ==> held.value == Some(sent.change->0.after)
                && held.field_class is KnownText && old(capture.on)@.enabled
            &&& final(capture.on)@.baseline == if held.field_class is KnownText {
                held.value
            } else {
                old(capture.on)@.baseline
            }
            &&& old(capture.on)@.enabled && held.field_class is KnownText && held.steps.len() == 1
                && old(capture.on)@.baseline is Some && held.value is Some ==> (sent.change is Some
                <==> (held.steps[0].window matches Some(window) && exists|i: int|
                0 <= i < window.len() && old(ledger.on)@.delivered().state_of(
                    (#[trigger] window[i]).slot,
                ) is Confirmed))
            &&& held.steps.len() == 1 && sent.change is Some ==> old(capture.on)@.baseline == Some(
                sent.change->0.before,
            )
        },
{
    reveal_with_fuel(authorized_start, 2);
    let before = capture.on@;
    if before.pending is Some && before.pending->0.steps.len() == 1 {
        let steps = before.pending->0.steps;
        assert(steps.last() == steps[0]);
        assert(steps.drop_last().len() == 0);
    }
}

/// A capture starts with nothing held. It knows its text from the start where the field is
/// known text with a readable value; otherwise, with capture on, the first text only sets
/// the baseline.
pub proof fn law_captures_start_from_their_baseline(
    enabled: bool,
    baseline: Option<String>,
    field_class: FieldClass,
    capture: ValueCapture,
)
    requires
        call_ensures(ValueCapture::new, (enabled, baseline, field_class), capture),
    ensures
        capture@.pending is None,
        capture@.enabled == enabled,
        capture@.baseline == baseline,
        capture@.requires_rebaseline <==> enabled && !(field_class is KnownText && baseline
            is Some),
{
}

/// Typed text is sent exactly where the edits were authorized.
pub proof fn law_typed_text_needs_a_change(
    emission: ValueEmission,
    difference: Option<String>,
    typed: Option<String>,
)
    requires
        call_ensures(ValueEmission::text, (&emission, difference), typed),
    ensures
        typed is Some ==> emission.change is Some && typed == difference,
        emission.change is Some ==> typed == difference,
{
}

/// A capture goes on unchanged while its field is text. On any other class nothing held or known is left, the next
/// text only sets the baseline, and the keystrokes of the target count for nothing.
pub proof fn law_captures_end_with_their_text(
    capture: Subject<ValueCapture>,
    pid: i32,
    target_generation: u64,
    field_class: FieldClass,
    ledger: Subject<InputAuthorizations>,
)
    requires
        capture.on@.wf() && ledger.on@.wf(),
        call_ensures(
            ValueCapture::transition_class,
            (capture.on, pid, target_generation, field_class, ledger.on),
            (),
        ),
    ensures
        field_class is KnownText ==> final(capture.on)@ == old(capture.on)@ && final(ledger.on)@ == old(ledger.on)@,
        !(field_class is KnownText) ==> final(capture.on)@.pending is None
            && final(capture.on)@.baseline is None
            && final(capture.on)@.requires_rebaseline == old(capture.on)@.enabled,
        !(field_class is KnownText) ==> forall|i: int|
            0 <= i < final(ledger.on)@.pending.len() ==> !(
            #[trigger] final(ledger.on)@.pending[i]).serves(pid, Some(target_generation)),
        final(capture.on)@.enabled == old(capture.on)@.enabled,
{
    if !(field_class is KnownText) {
        broadcast use vstd::seq_lib::group_filter_ensures;

        let kept = |attempt: authorization::AuthorizationAttempt|
            !attempt.serves(pid, Some(target_generation));
        let before = ledger.on@.delivered().pending;
        assert(final(ledger.on)@.pending == before.filter(kept));
    }
}

} // verus!
