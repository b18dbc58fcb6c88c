//! The worker that turns native events into output.

use time::OffsetDateTime;
use vstd::prelude::*;

use super::clipboard::{
    paste_data, ClipboardChange, ClipboardObservationTime, ClipboardOutput, ClipboardTracker,
    CopyIntent, TrackerModel,
};
use super::logic;
use super::logic::{
    click_data, is_copy_shortcut, is_paste_shortcut, key_data, scroll_data, KeyObservation,
    MouseObservation, PasteboardContent,
};
use super::native::{NativeContext, NativeEvent, NativeInputTarget};
use super::output;
use super::output::{
    emit, emit_clipboard, emit_or_quarantine, raw_event, resolve_input_authorization,
    try_send_counted, EmitResult, OutputModel,
};
use super::state;
use super::state::{
    Driver, DriverModel, EventTapApi, Input, MonotonicTime, NativeCall, TapState, WATCHDOG_INTERVAL,
};
use super::support;
use super::support::{click_button, current_health, disable_reason, record_degraded_entries};
use crate::channel::{BoundedChannel, ChannelModel};
use crate::clock::Instant;
use crate::focus_context::{FocusContext, FocusModel, FocusSnapshot};
use crate::schema::{ClickButton, DoubleBits, EventData, FieldKind, InputKeyData, RawEvent};
use crate::subject::Subject;
use crate::text_capture::authorization::{InputAuthorization, InputAuthorizations, LedgerModel};
use crate::text_capture::policy::{CapturePolicy, TextContentDecision};
use crate::text_capture::quarantine::TextQuarantine;
use crate::window_list;
use crate::window_list::window_id;

verus! {

/// Native events that wait for the worker.
pub const EVENT_QUEUE_CAPACITY: usize = 4_096;

/// System wake-ups that wait for the worker.
pub const WAKE_QUEUE_CAPACITY: usize = 8;

/// How long the worker waits for native events, in nanoseconds.
pub const WORKER_POLL_INTERVAL: u64 = 100_000_000;

/// A mouse press on its way to the accessibility observer.
#[derive(Clone, Copy, Debug, PartialEq)]
pub struct ClickObservation {
    pub pid: i32,
    pub x: DoubleBits,
    pub y: DoubleBits,
    pub button: ClickButton,
    pub click_count: u64,
    pub observed_at: OffsetDateTime,
}

/// What holds while a batch of native events is handled.
#[derive(Clone, Copy, Debug, PartialEq, Eq)]
pub struct WorkerMoment {
    pub capture_text_content: bool,
    pub now: MonotonicTime,
    pub at: Instant,
    pub ime_active: bool,
    pub secure_input_enabled: bool,
}

/// Whether the focus is still the one that a keystroke was made in.
pub open spec fn still_focused(target: NativeInputTarget, focus: FocusModel) -> bool {
    target.focus_generation == focus.generation && target.field_generation
        == focus.field_generation
}

/// What the policy says of text typed into a target.
pub open spec fn typing_decision(
    target: NativeInputTarget,
    policy: CapturePolicy,
) -> TextContentDecision {
    policy.spec_input_decision(
        target.context.app.spec_raw_app(),
        window_list::window_id_of(target.context.window),
        target.focused_field,
    )
}

/// Whether the text of a keystroke may be read before it is decoded.
pub open spec fn early_read(
    target: Option<NativeInputTarget>,
    policy: CapturePolicy,
    focus: FocusModel,
) -> bool {
    target matches Some(target) && still_focused(target, focus) && typing_decision(
        target,
        policy,
    ).allowed
}

/// Decides whether the text of a keystroke may be read before it is decoded:
/// its target is known and still focused, and the policy allows text there.
pub fn early_text_read_allowed(
    target: &Option<NativeInputTarget>,
    policy: &CapturePolicy,
    focus_context: &FocusContext,
) -> (allowed: bool)
    ensures
        allowed == early_read(*target, *policy, focus_context@),
{
    match target {
        None => false,
        Some(target) => {
            if target.focus_generation != focus_context.generation() || target.field_generation
                != focus_context.field_generation() {
                return false;
            }
            let app = target.context.app.raw_app();
            policy.input_decision(
                &app,
                window_id(&target.context.window),
                target.focused_field,
            ).is_allowed()
        },
    }
}

/// What kind of field a keystroke went to.
pub open spec fn typed_field_kind(target: NativeInputTarget) -> Option<FieldKind> {
    match target.focused_field {
        Some(field) => field.class.spec_field_kind(),
        None => None,
    }
}

/// Whether typed text may be kept.
pub open spec fn typing_allowed(
    target: NativeInputTarget,
    moment: WorkerMoment,
    policy: CapturePolicy,
    focus: FocusModel,
) -> bool {
    moment.capture_text_content && still_focused(target, focus) && typing_decision(
        target,
        policy,
    ).allowed
}

/// What handling events changes besides the tap itself.
pub struct WorkerModel {
    pub output: OutputModel,
    pub clicks: Option<ChannelModel<ClickObservation>>,
    pub clipboard: Option<TrackerModel>,
    pub ledger: LedgerModel,
}

/// One keystroke with everything that was recorded of it.
pub struct KeyInput {
    pub observation: KeyObservation,
    pub target: Option<NativeInputTarget>,
    pub authorization: Option<InputAuthorization>,
    pub ime_active: bool,
    pub observed_at: OffsetDateTime,
}

/// Whether `event` reports a keystroke for its target.
pub open spec fn key_event_of(
    event: Option<RawEvent>,
    data: InputKeyData,
    key: KeyInput,
    target: NativeInputTarget,
    moment: WorkerMoment,
    policy: CapturePolicy,
    focus: FocusModel,
) -> bool {
    &&& logic::is_key_data(
        data,
        key.observation,
        typing_allowed(target, moment, policy, focus),
        typed_field_kind(target),
        moment.ime_active || key.ime_active,
    )
    &&& output::built(
        event,
        "input.key"@,
        target.context,
        EventData::InputKey(data),
        policy,
        key.observed_at,
    )
}

/// Whether `event` reports a paste whose clipboard was read as `content`.
pub open spec fn paste_event_of<P: FnOnce(bool) -> PasteboardContent>(
    event: Option<RawEvent>,
    content: PasteboardContent,
    read_pasteboard: P,
    key: KeyInput,
    target: NativeInputTarget,
    allowed: bool,
    policy: CapturePolicy,
) -> bool {
    &&& call_ensures(read_pasteboard, (allowed,), content)
    &&& output::built(
        event,
        "clipboard.paste"@,
        target.context,
        EventData::ClipboardPaste(logic::paste_of(content, typed_field_kind(target))),
        policy,
        key.observed_at,
    )
}

/// The copy shortcut that a keystroke is remembered as.
pub open spec fn copy_intent_of(
    key: KeyInput,
    target: NativeInputTarget,
    moment: WorkerMoment,
    policy: CapturePolicy,
    focus: FocusModel,
) -> CopyIntent {
    let decision = policy.spec_decision(
        target.context.app.spec_raw_app(),
        window_list::window_id_of(target.context.window),
        None,
    );
    CopyIntent {
        context: target.context,
        focus_generation: target.focus_generation,
        field_generation: target.field_generation,
        observed_monotonic_at: moment.at,
        observed_at: key.observed_at,
        text_allowed: moment.capture_text_content && still_focused(target, focus)
            && decision.allowed,
        decision,
    }
}

impl WorkerModel {
    /// The worker once the event of a keystroke was delivered, and the result.
    pub open spec fn key_delivered(
        self,
        event: Option<RawEvent>,
        key: KeyInput,
        target: NativeInputTarget,
        moment: WorkerMoment,
        policy: CapturePolicy,
        focus: FocusModel,
    ) -> (WorkerModel, EmitResult) {
        let (output, result) = self.output.emitted(
            event,
            policy,
            Some(typing_decision(target, policy)),
            moment.at,
        );
        (
            WorkerModel {
                output,
                clipboard: if result.spec_continues() && logic::copies_with(key.observation) {
                    Some(
                        TrackerModel {
                            pending: Some(copy_intent_of(key, target, moment, policy, focus)),
                            ..self.clipboard->0
                        },
                    )
                } else {
                    self.clipboard
                },
                ledger: output::resolved_ledger(
                    self.ledger,
                    if typing_allowed(target, moment, policy, focus) {
                        result
                    } else {
                        EmitResult::Filtered
                    },
                    key.authorization,
                ),
                ..self
            },
            result,
        )
    }

    /// Whether `after` is what a keystroke makes of the worker.
    pub open spec fn key_handled<P: FnOnce(bool) -> PasteboardContent>(
        self,
        key: KeyInput,
        moment: WorkerMoment,
        policy: CapturePolicy,
        focus: FocusModel,
        read_pasteboard: P,
        after: WorkerModel,
        continues: bool,
    ) -> bool {
        match key.target {
            None => {
                &&& after == (WorkerModel {
                    ledger: output::resolved_ledger(
                        self.ledger,
                        EmitResult::Filtered,
                        key.authorization,
                    ),
                    ..self
                })
                &&& continues
            },
            Some(target) => exists|event: Option<RawEvent>, data: InputKeyData|
                {
                    &&& #[trigger] key_event_of(event, data, key, target, moment, policy, focus)
                    &&& self.key_delivered(event, key, target, moment, policy, focus).0.then_pasted(
                        self.key_delivered(event, key, target, moment, policy, focus).1,
                        key,
                        target,
                        moment,
                        policy,
                        focus,
                        read_pasteboard,
                        after,
                        continues,
                    )
                },
        }
    }

    /// Whether `after` is what follows the event of a keystroke: nothing when the
    /// consumer is gone, the paste when it was one.
    pub open spec fn then_pasted<P: FnOnce(bool) -> PasteboardContent>(
        self,
        key_result: EmitResult,
        key: KeyInput,
        target: NativeInputTarget,
        moment: WorkerMoment,
        policy: CapturePolicy,
        focus: FocusModel,
        read_pasteboard: P,
        after: WorkerModel,
        continues: bool,
    ) -> bool {
        if key_result.spec_continues() && logic::pastes_with(key.observation) {
            exists|event: Option<RawEvent>, content: PasteboardContent|
                {
                    &&& #[trigger] paste_event_of(
                        event,
                        content,
                        read_pasteboard,
                        key,
                        target,
                        typing_allowed(target, moment, policy, focus),
                        policy,
                    )
                    &&& after == (WorkerModel {
                        output: self.output.emitted(
                            event,
                            policy,
                            Some(typing_decision(target, policy)),
                            moment.at,
                        ).0,
                        ..self
                    })
                    &&& continues == self.output.emitted(
                        event,
                        policy,
                        Some(typing_decision(target, policy)),
                        moment.at,
                    ).1.spec_continues()
                }
        } else {
            after == self && continues == key_result.spec_continues()
        }
    }

    /// Whether `after` is what a scroll makes of the worker.
    pub open spec fn scroll_handled(
        self,
        vertical: DoubleBits,
        horizontal: DoubleBits,
        observed_at: OffsetDateTime,
        context: Option<NativeContext>,
        policy: CapturePolicy,
        after: WorkerModel,
        continues: bool,
    ) -> bool {
        match (context, logic::scroll_of(vertical, horizontal)) {
            (Some(context), Some(data)) => exists|event: Option<RawEvent>|
                {
                    &&& #[trigger] output::built(
                        event,
                        "input.scroll"@,
                        context,
                        EventData::InputScroll(data),
                        policy,
                        observed_at,
                    )
                    &&& match event {
                        None => after == self && continues,
                        Some(event) => {
                            &&& after == (WorkerModel { output: self.output.sent(event).0, ..self })
                            &&& continues == self.output.sent(event).1.spec_continues()
                        },
                    }
                },
            _ => after == self && continues,
        }
    }

    /// The worker after a mouse press: it is passed on with the focused process.
    pub open spec fn click_handled(
        self,
        x: DoubleBits,
        y: DoubleBits,
        button: u32,
        click_count: i64,
        observed_at: OffsetDateTime,
        context: Option<NativeContext>,
    ) -> WorkerModel {
        match (self.clicks, context) {
            (Some(clicks), Some(context)) => {
                let mouse = MouseObservation { x, y, button, click_count };
                if logic::reportable(context.app.pid, mouse) {
                    WorkerModel {
                        clicks: Some(
                            clicks.offered(
                                ClickObservation {
                                    pid: context.app.pid as i32,
                                    x,
                                    y,
                                    button: support::button_for(button),
                                    click_count: click_count as u64,
                                    observed_at,
                                },
                            ),
                        ),
                        output: OutputModel {
                            dropped: output::offer_count(clicks, self.output.dropped),
                            ..self.output
                        },
                        ..self
                    }
                } else {
                    self
                }
            },
            _ => self,
        }
    }

    /// Whether `after` is what a native event makes of the worker. A keystroke
    /// under secure input only loses its reservation.
    pub open spec fn handled<P: FnOnce(bool) -> PasteboardContent>(
        self,
        event: NativeEvent,
        moment: WorkerMoment,
        context: Option<NativeContext>,
        policy: CapturePolicy,
        focus: FocusModel,
        read_pasteboard: P,
        after: WorkerModel,
        continues: bool,
    ) -> bool {
        match event {
            NativeEvent::Disabled(_) => after == self && continues,
            NativeEvent::Key {
                observation,
                target,
                authorization,
                secure_input,
                ime_active,
                observed_at,
            } => if moment.secure_input_enabled || secure_input {
                &&& after == (WorkerModel {
                    ledger: output::resolved_ledger(
                        self.ledger,
                        EmitResult::Filtered,
                        authorization,
                    ),
                    ..self
                })
                &&& continues
            } else {
                self.key_handled(
                    KeyInput { observation, target, authorization, ime_active, observed_at },
                    moment,
                    policy,
                    focus,
                    read_pasteboard,
                    after,
                    continues,
                )
            },
            NativeEvent::Scroll { vertical, horizontal, observed_at } => self.scroll_handled(
                vertical,
                horizontal,
                observed_at,
                context,
                policy,
                after,
                continues,
            ),
            NativeEvent::MouseDown { x, y, button, click_count, observed_at } => {
                &&& after == self.click_handled(x, y, button, click_count, observed_at, context)
                &&& continues
            },
        }
    }

    pub open spec fn wf(self) -> bool {
        self.output.sender.wf() && (self.clicks matches Some(clicks) ==> clicks.wf())
    }
}

/// A channel that may be absent.
pub open spec fn clicks_view(clicks: Option<BoundedChannel<ClickObservation>>) -> Option<
    ChannelModel<ClickObservation>,
> {
    match clicks {
        Some(clicks) => Some(clicks@),
        None => None,
    }
}

/// A clipboard tracker that may be absent.
pub open spec fn clipboard_view(clipboard: Option<ClipboardTracker>) -> Option<TrackerModel> {
    match clipboard {
        Some(clipboard) => Some(clipboard@),
        None => None,
    }
}

/// Everything that handling events changes besides the tap itself.
pub struct WorkerState {
    pub sender: BoundedChannel<RawEvent>,
    pub click_sender: Option<BoundedChannel<ClickObservation>>,
    pub clipboard: Option<ClipboardTracker>,
    pub quarantine: TextQuarantine,
    pub authorizations: InputAuthorizations,
    pub dropped_events: u64,
}

impl View for WorkerState {
    type V = WorkerModel;

    open spec fn view(&self) -> WorkerModel {
        WorkerModel {
            output: OutputModel {
                sender: self.sender@,
                quarantine: self.quarantine@,
                dropped: self.dropped_events,
            },
            clicks: clicks_view(self.click_sender),
            clipboard: clipboard_view(self.clipboard),
            ledger: self.authorizations@,
        }
    }
}

/// Whether an event reads the clipboard, and whether with its body.
pub open spec fn pastes_into(
    event: NativeEvent,
    moment: WorkerMoment,
    policy: CapturePolicy,
    focus: FocusModel,
    body: bool,
) -> bool {
    event matches NativeEvent::Key { observation, target: Some(target), secure_input, .. }
        && !moment.secure_input_enabled && !secure_input && logic::pastes_with(observation)
        && body == typing_allowed(target, moment, policy, focus)
}

impl WorkerState {
    fn handle_key<P: FnOnce(bool) -> PasteboardContent>(
        &mut self,
        observation: KeyObservation,
        target: Option<NativeInputTarget>,
        authorization: Option<InputAuthorization>,
        ime_active: bool,
        observed_at: OffsetDateTime,
        read_pasteboard: P,
        moment: WorkerMoment,
        policy: &CapturePolicy,
        focus_context: &FocusContext,
    ) -> (continues: bool)
        requires
            old(self)@.wf(),
            old(self).clipboard is Some,
            target is Some && logic::pastes_with(observation) ==> call_requires(
                read_pasteboard,
                (typing_allowed(target->0, moment, *policy, focus_context@),),
            ),
        ensures
            final(self)@.wf(),
            final(self).clipboard is Some,
            old(self)@.key_handled(
                (KeyInput { observation, target, authorization, ime_active, observed_at }),
                moment,
                *policy,
                focus_context@,
                read_pasteboard,
                final(self)@,
                continues,
            ),
    {
        let ghost key = KeyInput { observation, target, authorization, ime_active, observed_at };
        let ghost before = self@;
        let ghost focus = focus_context@;
        let target = match target {
            None => {
                resolve_input_authorization(
                    EmitResult::Filtered,
                    authorization.as_ref(),
                    &mut self.authorizations,
                );
                return true;
            },
            Some(target) => target,
        };
        let field_kind = match target.focused_field {
            Some(field) => field.field_kind(),
            None => None,
        };
        let window = window_id(&target.context.window);
        let app = target.context.app.raw_app();
        let generation_matches = target.focus_generation == focus_context.generation()
            && target.field_generation == focus_context.field_generation();
        let window_decision = policy.decision(&app, window, None);
        let window_text_allowed = generation_matches && window_decision.is_allowed();
        let input_decision = policy.input_decision(&app, window, target.focused_field);
        let input_text_allowed = moment.capture_text_content && generation_matches
            && input_decision.is_allowed();
        let data = key_data(
            &observation,
            input_text_allowed,
            field_kind,
            moment.ime_active || ime_active,
        );
        let ghost payload = data;
        let key_event = raw_event(
            "input.key",
            &target.context,
            EventData::InputKey(data),
            policy,
            observed_at,
        );
        let ghost event = key_event;
        assert(key_event_of(event, payload, key, target, moment, *policy, focus));
        let key_result = emit_or_quarantine(
            &mut self.sender,
            key_event,
            policy,
            Some(&input_decision),
            &mut self.quarantine,
            moment.at,
            &mut self.dropped_events,
        );
        resolve_input_authorization(
            if input_text_allowed {
                key_result
            } else {
                EmitResult::Filtered
            },
            authorization.as_ref(),
            &mut self.authorizations,
        );
        if !key_result.continues() {
            assert(self@ == before.key_delivered(event, key, target, moment, *policy, focus).0);
            return false;
        }
        if is_copy_shortcut(&observation) {
            match self.clipboard.take() {
                None => {},
                Some(mut clipboard) => {
                    clipboard.observe_copy(
                        &target,
                        ClipboardObservationTime { monotonic: moment.at, wall: observed_at },
                        moment.capture_text_content && window_text_allowed,
                        window_decision,
                    );
                    self.clipboard = Some(clipboard);
                },
            }
        }
        assert(self@ == before.key_delivered(event, key, target, moment, *policy, focus).0);
        if is_paste_shortcut(&observation) {
            let ghost delivered = self@;
            let paste = paste_data(read_pasteboard, input_text_allowed, field_kind);
            let ghost content = choose|content: PasteboardContent|
                {
                    &&& #[trigger] call_ensures(read_pasteboard, (input_text_allowed,), content)
                    &&& paste == logic::paste_of(content, field_kind)
                };
            let paste_event = raw_event(
                "clipboard.paste",
                &target.context,
                EventData::ClipboardPaste(paste),
                policy,
                observed_at,
            );
            let ghost pasted = paste_event;
            assert(paste_event_of(
                pasted,
                content,
                read_pasteboard,
                key,
                target,
                typing_allowed(target, moment, *policy, focus),
                *policy,
            ));
            let continues = emit_or_quarantine(
                &mut self.sender,
                paste_event,
                policy,
                Some(&input_decision),
                &mut self.quarantine,
                moment.at,
                &mut self.dropped_events,
            ).continues();
            assert(delivered.then_pasted(
                key_result,
                key,
                target,
                moment,
                *policy,
                focus,
                read_pasteboard,
                self@,
                continues,
            ));
            return continues;
        }
        true
    }

    fn handle_scroll(
        &mut self,
        vertical: DoubleBits,
        horizontal: DoubleBits,
        observed_at: OffsetDateTime,
        context: Option<&NativeContext>,
        policy: &CapturePolicy,
    ) -> (continues: bool)
        requires
            old(self)@.wf(),
        ensures
            final(self)@.wf(),
            old(self)@.scroll_handled(
                vertical,
                horizontal,
                observed_at,
                match context {
                    Some(context) => Some(*context),
                    None => None,
                },
                *policy,
                final(self)@,
                continues,
            ),
    {
        let context = match context {
            None => {
                return true;
            },
            Some(context) => context,
        };
        let data = match scroll_data(vertical, horizontal) {
            None => {
                return true;
            },
            Some(data) => data,
        };
        let event = raw_event(
            "input.scroll",
            context,
            EventData::InputScroll(data),
            policy,
            observed_at,
        );
        emit(&mut self.sender, event, &mut self.dropped_events).continues()
    }

    fn handle_click(
        &mut self,
        x: DoubleBits,
        y: DoubleBits,
        button: u32,
        click_count: i64,
        observed_at: OffsetDateTime,
        context: Option<&NativeContext>,
    )
        requires
            old(self)@.wf(),
        ensures
            final(self)@.wf(),
            final(self)@ == old(self)@.click_handled(
                x,
                y,
                button,
                click_count,
                observed_at,
                match context {
                    Some(context) => Some(*context),
                    None => None,
                },
            ),
    {
        let context = match context {
            None => {
                return ;
            },
            Some(context) => context,
        };
        match self.click_sender.take() {
            None => {},
            Some(mut clicks) => {
                let click = click_data(
                    context.app.pid,
                    MouseObservation { x, y, button, click_count },
                );
                if let Some(click) = click {
                    let observation = ClickObservation {
                        pid: click.pid,
                        x: click.x,
                        y: click.y,
                        button: click_button(click.button),
                        click_count: click.click_count,
                        observed_at,
                    };
                    try_send_counted(&mut clicks, observation, &mut self.dropped_events);
                }
                self.click_sender = Some(clicks);
            },
        }
    }
}

/// Whether an event is a keystroke outside secure input. Only input capture, which
/// follows the clipboard too, brings them.
pub open spec fn types_into(event: NativeEvent, secure_input_enabled: bool) -> bool {
    event matches NativeEvent::Key { secure_input, .. } && !secure_input && !secure_input_enabled
}

/// Whether `after` is the tap once it was told of an event: only a report that it
/// stopped concerns it.
pub open spec fn told<A: EventTapApi>(
    before: DriverModel<A>,
    event: NativeEvent,
    now: MonotonicTime,
    calls: Seq<NativeCall<A>>,
    after: DriverModel<A>,
) -> bool {
    match event {
        NativeEvent::Disabled(reason) => state::stepped(
            before,
            Input::Disabled(support::reason_of(reason)),
            now,
            calls,
            after,
        ),
        _ => calls.len() == 0 && after == before,
    }
}

/// Handles one native event; tells whether the worker goes on.
///
/// A keystroke needs the clipboard tracker, which exists wherever input is
/// captured. The clipboard's body is read only for a paste into a field that
/// text may be captured from.
pub fn handle_native_event<A: EventTapApi, P: FnOnce(bool) -> PasteboardContent>(
    event: NativeEvent,
    driver: &mut Driver<A>,
    worker: &mut WorkerState,
    read_pasteboard: P,
    context: Option<&NativeContext>,
    moment: WorkerMoment,
    policy: &CapturePolicy,
    focus_context: &FocusContext,
) -> (continues: bool)
    requires
        old(worker)@.wf(),
        types_into(event, moment.secure_input_enabled) ==> old(worker).clipboard is Some,
        forall|body: bool| #[trigger]
            pastes_into(event, moment, *policy, focus_context@, body) ==> call_requires(
                read_pasteboard,
                (body,),
            ),
    ensures
        final(worker)@.wf(),
        final(worker).clipboard is Some <==> old(worker).clipboard is Some,
        exists|calls: Seq<NativeCall<A>>|
            {
                &&& #[trigger] told(old(driver)@, event, moment.now, calls, final(driver)@)
                &&& forall|i: int|
                    0 <= i < calls.len() ==> *final((#[trigger] calls[i]).native) == calls[i].after
            },
        old(worker)@.handled(
            event,
            moment,
            match context {
                Some(context) => Some(*context),
                None => None,
            },
            *policy,
            focus_context@,
            read_pasteboard,
            final(worker)@,
            continues,
        ),
{
    assert(!(event is Disabled) ==> told(
        driver@,
        event,
        moment.now,
        Seq::empty(),
        driver@,
    ));
    match event {
        NativeEvent::Disabled(reason) => {
            driver.disabled(disable_reason(reason), moment.now);
            assert(forall|calls: Seq<NativeCall<A>>| #[trigger]
                state::stepped(
                    old(driver)@,
                    Input::Disabled(support::reason_of(reason)),
                    moment.now,
                    calls,
                    driver@,
                ) ==> told(old(driver)@, event, moment.now, calls, driver@));
            true
        },
        NativeEvent::Key {
            observation,
            target,
            authorization,
            secure_input,
            ime_active,
            observed_at,
        } => {
            if moment.secure_input_enabled || secure_input {
                resolve_input_authorization(
                    EmitResult::Filtered,
                    authorization.as_ref(),
                    &mut worker.authorizations,
                );
                return true;
            }
            proof {
                if target is Some {
                    assert(logic::pastes_with(observation) ==> pastes_into(
                        event,
                        moment,
                        *policy,
                        focus_context@,
                        typing_allowed(target->0, moment, *policy, focus_context@),
                    ));
                }
            }
            worker.handle_key(
                observation,
                target,
                authorization,
                ime_active,
                observed_at,
                read_pasteboard,
                moment,
                policy,
                focus_context,
            )
        },
        NativeEvent::Scroll { vertical, horizontal, observed_at } => worker.handle_scroll(
            vertical,
            horizontal,
            observed_at,
            context,
            policy,
        ),
        NativeEvent::MouseDown { x, y, button, click_count, observed_at } => {
            worker.handle_click(x, y, button, click_count, observed_at, context);
            true
        },
    }
}

/// Whether a batch of events has to know the focus: something was typed,
/// scrolled or pressed, or the clipboard changed.
pub fn needs_context(clipboard_changed: bool, events: &Vec<NativeEvent>) -> (needed: bool)
    ensures
        needed == (clipboard_changed || exists|i: int|
            0 <= i < events@.len() && !(#[trigger] events@[i] is Disabled)),
{
    if clipboard_changed {
        return true;
    }
    let mut index: usize = 0;
    while index < events.len()
        invariant
            index <= events@.len(),
            forall|i: int| 0 <= i < index ==> #[trigger] events@[i] is Disabled,
        decreases events@.len() - index,
    {
        if !matches!(events[index], NativeEvent::Disabled(_)) {
            assert(!(events@[index as int] is Disabled));
            return true;
        }
        index = index + 1;
    }
    false
}

/// Whether `after` is what the worker makes of a clipboard with this change
/// count: a change is reported once, with its body where that may be read.
pub open spec fn copy_reported<P: FnOnce(bool) -> PasteboardContent>(
    before: WorkerModel,
    change_count: i64,
    focus: Option<FocusSnapshot>,
    observed_at: ClipboardObservationTime,
    read_pasteboard: P,
    secure_input: bool,
    policy: CapturePolicy,
    after: WorkerModel,
    continues: bool,
) -> bool {
    match before.clipboard {
        None => after == before && continues,
        Some(tracker) => match tracker.change(change_count, focus, observed_at.monotonic) {
            None => after == before && continues,
            Some(change) => exists|content: PasteboardContent, output: Option<ClipboardOutput>|
                {
                    &&& #[trigger] copy_output_of(
                        content,
                        output,
                        change,
                        focus,
                        observed_at,
                        read_pasteboard,
                        secure_input,
                        policy,
                    )
                    &&& after == (WorkerModel {
                        output: before.output.emitted(
                            output_event(output),
                            policy,
                            output_decision(output),
                            observed_at.monotonic,
                        ).0,
                        clipboard: Some(tracker.seen(change_count)),
                        ..before
                    })
                    &&& continues == before.output.emitted(
                        output_event(output),
                        policy,
                        output_decision(output),
                        observed_at.monotonic,
                    ).1.spec_continues()
                },
        },
    }
}

/// Whether `output` reports a change whose clipboard was read as `content`.
pub open spec fn copy_output_of<P: FnOnce(bool) -> PasteboardContent>(
    content: PasteboardContent,
    output: Option<ClipboardOutput>,
    change: ClipboardChange,
    focus: Option<FocusSnapshot>,
    observed_at: ClipboardObservationTime,
    read_pasteboard: P,
    secure_input: bool,
    policy: CapturePolicy,
) -> bool {
    &&& call_ensures(
        read_pasteboard,
        (TrackerModel::includes_content(change, focus, policy, secure_input),),
        content,
    )
    &&& TrackerModel::reports(change, focus, policy, observed_at.wall, content, output)
}

pub open spec fn output_event(output: Option<ClipboardOutput>) -> Option<RawEvent> {
    match output {
        Some(output) => Some(output.event),
        None => None,
    }
}

pub open spec fn output_decision(output: Option<ClipboardOutput>) -> Option<TextContentDecision> {
    match output {
        Some(output) => output.decision,
        None => None,
    }
}

/// Whether a changed clipboard can be read, with its body only where that may be
/// sent.
pub open spec fn copy_ready<P: FnOnce(bool) -> PasteboardContent>(
    worker: WorkerModel,
    change_count: i64,
    focus: Option<FocusSnapshot>,
    observed_at: ClipboardObservationTime,
    read_pasteboard: P,
    secure_input: bool,
    policy: CapturePolicy,
) -> bool {
    worker.clipboard matches Some(tracker) ==> (tracker.change(
        change_count,
        focus,
        observed_at.monotonic,
    ) matches Some(change) ==> call_requires(
        read_pasteboard,
        (TrackerModel::includes_content(change, focus, policy, secure_input),),
    ))
}

/// Whether a change count is a change that was not reported yet.
pub open spec fn copy_due(worker: WorkerModel, change_count: i64) -> bool {
    worker.clipboard matches Some(tracker) && tracker.last_change_count != change_count
}

/// Whether a change can be reported, at whatever time it is found.
pub open spec fn report_ready<
    T: FnOnce() -> ClipboardObservationTime,
    P: FnOnce(bool) -> PasteboardContent,
>(
    worker: WorkerModel,
    change_count: i64,
    focus: Option<FocusSnapshot>,
    read_time: T,
    read_pasteboard: P,
    secure_input: bool,
    policy: CapturePolicy,
) -> bool {
    copy_due(worker, change_count) ==> {
        &&& call_requires(read_time, ())
        &&& forall|time: ClipboardObservationTime| #[trigger]
            call_ensures(read_time, (), time) ==> copy_ready(
                worker,
                change_count,
                focus,
                time,
                read_pasteboard,
                secure_input,
                policy,
            )
    }
}

/// Whether a change was reported as found at `time`, which was read only for it.
pub open spec fn report_made<
    T: FnOnce() -> ClipboardObservationTime,
    P: FnOnce(bool) -> PasteboardContent,
>(
    before: WorkerModel,
    change_count: i64,
    focus: Option<FocusSnapshot>,
    read_time: T,
    time: ClipboardObservationTime,
    read_pasteboard: P,
    secure_input: bool,
    policy: CapturePolicy,
    after: WorkerModel,
    continues: bool,
) -> bool {
    &&& copy_due(before, change_count) ==> call_ensures(read_time, (), time)
    &&& copy_reported(
        before,
        change_count,
        focus,
        time,
        read_pasteboard,
        secure_input,
        policy,
        after,
        continues,
    )
}

impl WorkerState {
    /// Looks at the clipboard's change count and reports a change; tells whether
    /// the worker goes on. The time is read only where there is a change.
    pub fn report_copy<
        T: FnOnce() -> ClipboardObservationTime,
        P: FnOnce(bool) -> PasteboardContent,
    >(
        &mut self,
        change_count: i64,
        focus: &Option<FocusSnapshot>,
        read_time: T,
        read_pasteboard: P,
        secure_input: bool,
        policy: &CapturePolicy,
    ) -> (continues: bool)
        requires
            old(self)@.wf(),
            report_ready(
                old(self)@,
                change_count,
                *focus,
                read_time,
                read_pasteboard,
                secure_input,
                *policy,
            ),
        ensures
            final(self)@.wf(),
            exists|time: ClipboardObservationTime| #[trigger]
                report_made(
                    old(self)@,
                    change_count,
                    *focus,
                    read_time,
                    time,
                    read_pasteboard,
                    secure_input,
                    *policy,
                    final(self)@,
                    continues,
                ),
    {
        let ghost before = self@;
        match self.clipboard.take() {
            None => {
                assert(report_made(
                    before,
                    change_count,
                    *focus,
                    read_time,
                    arbitrary(),
                    read_pasteboard,
                    secure_input,
                    *policy,
                    self@,
                    true,
                ));
                true
            },
            Some(mut clipboard) => {
                if !clipboard.has_changed(change_count) {
                    self.clipboard = Some(clipboard);
                    assert(self@ == before);
                    assert(report_made(
                        before,
                        change_count,
                        *focus,
                        read_time,
                        arbitrary(),
                        read_pasteboard,
                        secure_input,
                        *policy,
                        self@,
                        true,
                    ));
                    return true;
                }
                let observed_at = read_time();
                let ghost tracker = clipboard@;
                let ghost change = tracker.change(change_count, *focus, observed_at.monotonic)->0;
                let output = clipboard.copy_event(
                    change_count,
                    focus,
                    observed_at,
                    read_pasteboard,
                    secure_input,
                    policy,
                );
                let ghost reported = output;
                let ghost content = choose|content: PasteboardContent|
                    {
                        &&& #[trigger] call_ensures(
                            read_pasteboard,
                            (TrackerModel::includes_content(
                                change,
                                *focus,
                                *policy,
                                secure_input,
                            ),),
                            content,
                        )
                        &&& TrackerModel::reports(
                            change,
                            *focus,
                            *policy,
                            observed_at.wall,
                            content,
                            reported,
                        )
                    };
                assert(copy_output_of(
                    content,
                    reported,
                    change,
                    *focus,
                    observed_at,
                    read_pasteboard,
                    secure_input,
                    *policy,
                ));
                self.clipboard = Some(clipboard);
                let continues = emit_clipboard(
                    &mut self.sender,
                    output,
                    policy,
                    &mut self.quarantine,
                    observed_at.monotonic,
                    &mut self.dropped_events,
                ).continues();
                assert(self@ == (WorkerModel {
                    output: before.output.emitted(
                        output_event(reported),
                        *policy,
                        output_decision(reported),
                        observed_at.monotonic,
                    ).0,
                    clipboard: Some(tracker.seen(change_count)),
                    ..before
                }));
                assert(report_made(
                    before,
                    change_count,
                    *focus,
                    read_time,
                    observed_at,
                    read_pasteboard,
                    secure_input,
                    *policy,
                    self@,
                    continues,
                ));
                continues
            },
        }
    }
}

/// Whether `after` is the tap once its watchdog ran, when it was due.
pub open spec fn watched<A: EventTapApi>(
    before: DriverModel<A>,
    due: bool,
    now: MonotonicTime,
    calls: Seq<NativeCall<A>>,
    after: DriverModel<A>,
) -> bool {
    if due {
        state::checked(before, now, calls, after)
    } else {
        calls.len() == 0 && after == before
    }
}

/// Whether `after` is the tap once a degraded one was tried again.
pub open spec fn retried<A: EventTapApi>(
    before: DriverModel<A>,
    now: MonotonicTime,
    calls: Seq<NativeCall<A>>,
    after: DriverModel<A>,
) -> bool {
    if before.lifecycle.state is Degraded {
        state::stepped(before, Input::RetryDue(now), now, calls, after)
    } else {
        calls.len() == 0 && after == before
    }
}

/// Whether `after` is the tap once the wake-ups were looked at.
pub open spec fn woken<A: EventTapApi>(
    before: DriverModel<A>,
    wakes: Option<ChannelModel<()>>,
    now: MonotonicTime,
    calls: Seq<NativeCall<A>>,
    after: DriverModel<A>,
) -> bool {
    if wakes is Some && wakes->0.items.len() > 0 {
        state::stepped(before, Input::Wake, now, calls, after)
    } else {
        calls.len() == 0 && after == before
    }
}

/// The wake-ups that wait, as far as they are observed.
pub open spec fn wakes_view(wakes: Option<BoundedChannel<()>>) -> Option<ChannelModel<()>> {
    match wakes {
        Some(wakes) => Some(wakes@),
        None => None,
    }
}

/// Takes every wake-up that waits; tells whether there was one.
pub fn take_wake(wakes: &mut BoundedChannel<()>) -> (observed: bool)
    requires
        old(wakes)@.wf(),
    ensures
        observed == (old(wakes)@.items.len() > 0),
        final(wakes)@ == old(wakes)@.drained(),
        final(wakes)@.wf(),
{
    let waiting = wakes.drain();
    waiting.len() > 0
}

/// Rebuilds the tap after a wake-up. Without an observer none is seen.
pub fn recover_from_wake<A: EventTapApi>(
    driver: &mut Driver<A>,
    wakes: &mut Option<BoundedChannel<()>>,
    now: MonotonicTime,
)
    requires
        *old(wakes) is Some ==> (*old(wakes))->0@.wf(),
    ensures
        wakes_view(*final(wakes)) == match wakes_view(*old(wakes)) {
            Some(wakes) => Some(wakes.drained()),
            None => None,
        },
        *final(wakes) is Some ==> (*final(wakes))->0@.wf(),
        exists|calls: Seq<NativeCall<A>>|
            {
                &&& #[trigger] woken(
                    old(driver)@,
                    wakes_view(*old(wakes)),
                    now,
                    calls,
                    final(driver)@,
                )
                &&& forall|i: int|
                    0 <= i < calls.len() ==> *final((#[trigger] calls[i]).native) == calls[i].after
            },
{
    let ghost waiting = wakes_view(*wakes);
    match wakes.take() {
        Some(mut queue) => {
            if take_wake(&mut queue) {
                driver.wake(now);
                assert(forall|calls: Seq<NativeCall<A>>| #[trigger]
                    state::stepped(old(driver)@, Input::Wake, now, calls, driver@) ==> woken(
                        old(driver)@,
                        waiting,
                        now,
                        calls,
                        driver@,
                    ));
            } else {
                assert(woken(old(driver)@, waiting, now, Seq::empty(), driver@));
            }
            *wakes = Some(queue);
        },
        None => {
            assert(woken(old(driver)@, waiting, now, Seq::empty(), driver@));
        },
    }
}

/// What a round of maintenance found.
#[derive(Clone, Copy, Debug, PartialEq, Eq)]
pub struct Maintenance {
    pub watchdog_ran: bool,
    pub degraded: bool,
}

/// Keeps the tap alive at the end of a round: runs the watchdog when it is due,
/// tries a degraded tap again, and counts new entries into degradation.
pub fn maintain<A: EventTapApi>(
    driver: &mut Driver<A>,
    nanos_since_watchdog: u64,
    now: MonotonicTime,
    wake_recovery_degraded: bool,
    observed_degraded_entries: &mut u64,
    degraded_operations: &mut u64,
) -> (maintenance: Maintenance)
    ensures
        maintenance.watchdog_ran == (nanos_since_watchdog >= WATCHDOG_INTERVAL),
        exists|checks: Seq<NativeCall<A>>, checked: DriverModel<A>, retries: Seq<NativeCall<A>>|
            {
                &&& #[trigger] watched(
                    old(driver)@,
                    maintenance.watchdog_ran,
                    now,
                    checks,
                    checked,
                )
                &&& #[trigger] retried(checked, now, retries, final(driver)@)
                &&& forall|i: int|
                    0 <= i < checks.len() ==> *final((#[trigger] checks[i]).native)
                        == checks[i].after
                &&& forall|i: int|
                    0 <= i < retries.len() ==> *final((#[trigger] retries[i]).native)
                        == retries[i].after
            },
        maintenance.degraded == (wake_recovery_degraded
            || final(driver)@.lifecycle.state is Degraded),
        support::recorded(
            final(driver)@.degraded_entries,
            *old(observed_degraded_entries),
            *old(degraded_operations),
            *final(observed_degraded_entries),
            *final(degraded_operations),
        ),
{
    let watchdog_ran = nanos_since_watchdog >= WATCHDOG_INTERVAL;
    if watchdog_ran {
        driver.watchdog(now);
        assert(forall|calls: Seq<NativeCall<A>>| #[trigger]
            state::checked(old(driver)@, now, calls, driver@) ==> watched(
                old(driver)@,
                watchdog_ran,
                now,
                calls,
                driver@,
            ));
    } else {
        assert(watched(old(driver)@, watchdog_ran, now, Seq::empty(), driver@));
    }
    let ghost checked = driver@;
    if matches!(driver.state(), TapState::Degraded { .. }) {
        driver.retry(now);
        assert(forall|calls: Seq<NativeCall<A>>| #[trigger]
            state::stepped(checked, Input::RetryDue(now), now, calls, driver@) ==> retried(
                checked,
                now,
                calls,
                driver@,
            ));
    } else {
        assert(retried(checked, now, Seq::empty(), driver@));
    }
    record_degraded_entries(driver, observed_degraded_entries, degraded_operations);
    Maintenance { watchdog_ran, degraded: current_health(driver, wake_recovery_degraded) }
}

/// Under secure input a keystroke changes nothing but its own reservation, which
/// never becomes confirmed.
pub proof fn law_secure_input_keeps_nothing<P: FnOnce(bool) -> PasteboardContent>(
    worker: WorkerModel,
    event: NativeEvent,
    moment: WorkerMoment,
    context: Option<NativeContext>,
    policy: CapturePolicy,
    focus: FocusModel,
    read_pasteboard: P,
    after: WorkerModel,
    continues: bool,
)
    requires
        event matches NativeEvent::Key { secure_input, .. } && (secure_input
            || moment.secure_input_enabled),
        worker.handled(event, moment, context, policy, focus, read_pasteboard, after, continues),
    ensures
        continues,
        after.output == worker.output,
        after.clipboard == worker.clipboard,
        event matches NativeEvent::Key { authorization: Some(authorization), .. } ==> after.ledger
            == worker.ledger.settled(
            authorization.slot,
            crate::text_capture::authorization::AuthorizationState::Rejected,
        ),
{
}

/// A keystroke in a field that text may not be captured from, or one whose focus
/// has moved on, is reported without its text and authorizes nothing.
pub proof fn law_denied_typing_is_textless(
    key: KeyInput,
    target: NativeInputTarget,
    moment: WorkerMoment,
    policy: CapturePolicy,
    focus: FocusModel,
    event: Option<RawEvent>,
    data: InputKeyData,
    worker: WorkerModel,
)
    requires
        !still_focused(target, focus) || !moment.capture_text_content || !typing_decision(
            target,
            policy,
        ).allowed,
        key_event_of(event, data, key, target, moment, policy, focus),
    ensures
        data.text is None,
        worker.key_delivered(event, key, target, moment, policy, focus).0.ledger
            == output::resolved_ledger(worker.ledger, EmitResult::Filtered, key.authorization),
{
}

/// Outside secure input and browsers that confirm their pages, a keystroke is reported where it
/// went, with its text exactly where text is captured, the filter allows the application and the
/// focus is still on the same known text field. It authorizes values exactly then. A copy shortcut
/// is remembered, and a paste shortcut reports the clipboard right after the keystroke.
#[verifier::spinoff_prover]
#[verifier::rlimit(60)]
pub proof fn law_keystrokes_are_reported_where_they_went<P: FnOnce(bool) -> PasteboardContent>(
    worker: WorkerModel,
    observation: KeyObservation,
    target: NativeInputTarget,
    authorization: InputAuthorization,
    ime_active: bool,
    observed_at: OffsetDateTime,
    moment: WorkerMoment,
    context: Option<NativeContext>,
    policy: CapturePolicy,
    focus: FocusModel,
    read_pasteboard: P,
    after: WorkerModel,
    continues: bool,
)
    requires
        worker.handled(
            NativeEvent::Key {
                observation,
                target: Some(target),
                authorization: Some(authorization),
                secure_input: false,
                ime_active,
                observed_at,
            },
            moment,
            context,
            policy,
            focus,
            read_pasteboard,
            after,
            continues,
        ),
        !moment.secure_input_enabled,
        worker.clipboard is Some,
        worker.ledger.state_of(authorization.slot) is Pending,
        policy.surfaces@.len() == 0 && policy.content.apps@.len() == 0,
        target.context.app.bundle_id matches Some(id) ==> id@ != "com.google.Chrome"@,
        target.context.window is Some,
        worker.output.sender.connected && worker.output.sender.items.len() + 2
            <= worker.output.sender.capacity,
    ensures
        continues,
        after.output.quarantine == worker.output.quarantine,
        after.output.dropped == worker.output.dropped,
        ({
            let first = worker.output.sender.items.len() as int;
            let focused = target.focus_generation == focus.generation && target.field_generation
                == focus.field_generation;
            let filtered = policy.content.app_allowed == Some(true);
            let typed = moment.capture_text_content && focused && filtered && (
            target.focused_field matches Some(field) && field.class is KnownText);
            let pastes = observation.modifiers.cmd && observation.key_code == 0x09;
            let copies = observation.modifiers.cmd && observation.key_code == 0x08;
            let key = after.output.sender.items[first];
            &&& after.output.sender.items.len() == first + if pastes {
                2int
            } else {
                1
            }
            &&& key.event_type@ == "input.key"@
            &&& key.observed_at == Some(observed_at)
            &&& key.app.pid == Some(target.context.app.pid)
            &&& key.window is Some && key.window->0.id == target.context.window->0.id
            &&& key.data is InputKey
            &&& key.data->InputKey_0.kind is Shortcut <==> observation.modifiers.cmd
                || observation.modifiers.ctrl
            &&& key.data->InputKey_0.text is Some ==> typed && !ime_active && !moment.ime_active
                && key.data->InputKey_0.text == observation.text
            &&& typed && !ime_active && !moment.ime_active && key.data->InputKey_0.kind is Text
                ==> key.data->InputKey_0.text == observation.text
            &&& after.ledger.state_of(authorization.slot) is Confirmed <==> typed
            &&& after.ledger.state_of(authorization.slot) is Rejected <==> !typed
            &&& copies ==> {
                &&& after.clipboard is Some && after.clipboard->0.pending is Some
                &&& after.clipboard->0.pending->0.context == target.context
                &&& after.clipboard->0.pending->0.observed_monotonic_at == moment.at
                &&& after.clipboard->0.pending->0.observed_at == observed_at
                &&& after.clipboard->0.pending->0.text_allowed <==> moment.capture_text_content
                    && focused && filtered
            }
            &&& !copies ==> after.clipboard == worker.clipboard
            &&& pastes ==> {
                let paste = after.output.sender.items[first + 1];
                &&& paste.event_type@ == "clipboard.paste"@
                &&& paste.data is ClipboardPaste
                &&& paste.app.pid == Some(target.context.app.pid)
                &&& exists|body: bool, content: PasteboardContent| #[trigger]
                    call_ensures(read_pasteboard, (body,), content) && body == typed && (
                    paste.data->ClipboardPaste_0.text is Some
                        ==> paste.data->ClipboardPaste_0.text == content.text) && (typed
                        ==> paste.data->ClipboardPaste_0.text == content.text)
            }
        }),
{
    let key = KeyInput { observation, target: Some(target), authorization: Some(authorization), ime_active, observed_at };
    let (event, data) = choose|event: Option<RawEvent>, data: InputKeyData|
        {
            &&& #[trigger] key_event_of(event, data, key, target, moment, policy, focus)
            &&& worker.key_delivered(event, key, target, moment, policy, focus).0.then_pasted(
                worker.key_delivered(event, key, target, moment, policy, focus).1,
                key,
                target,
                moment,
                policy,
                focus,
                read_pasteboard,
                after,
                continues,
            )
        };
    let delivered = worker.key_delivered(event, key, target, moment, policy, focus).0;
    assert(event is Some);
    if logic::pastes_with(observation) {
        let (pasted, content) = choose|pasted: Option<RawEvent>, content: PasteboardContent|
            {
                &&& #[trigger] paste_event_of(
                    pasted,
                    content,
                    read_pasteboard,
                    key,
                    target,
                    typing_allowed(target, moment, policy, focus),
                    policy,
                )
                &&& after == (WorkerModel {
                    output: delivered.output.emitted(
                        pasted,
                        policy,
                        Some(typing_decision(target, policy)),
                        moment.at,
                    ).0,
                    ..delivered
                })
                &&& continues == delivered.output.emitted(
                    pasted,
                    policy,
                    Some(typing_decision(target, policy)),
                    moment.at,
                ).1.spec_continues()
            };
        let body = typing_allowed(target, moment, policy, focus);
        assert(call_ensures(read_pasteboard, (body,), content));
        assert(pasted is Some);
    }
    assert(delivered.output.sender.items.len() == worker.output.sender.items.len() + 1);
    assert(delivered.output.sender.items.last().data == event->0.data);
}

/// A scroll that moves is reported at the focused window, as its own kind; without a known window
/// or without motion nothing is reported.
pub proof fn law_scrolls_are_reported_at_the_focus<P: FnOnce(bool) -> PasteboardContent>(
    worker: WorkerModel,
    vertical: DoubleBits,
    horizontal: DoubleBits,
    observed_at: OffsetDateTime,
    moment: WorkerMoment,
    context: Option<NativeContext>,
    policy: CapturePolicy,
    focus: FocusModel,
    read_pasteboard: P,
    after: WorkerModel,
    continues: bool,
)
    requires
        worker.handled(
            NativeEvent::Scroll { vertical, horizontal, observed_at },
            moment,
            context,
            policy,
            focus,
            read_pasteboard,
            after,
            continues,
        ),
        worker.output.sender.connected && worker.output.sender.items.len()
            < worker.output.sender.capacity,
    ensures
        continues,
        after.ledger == worker.ledger && after.clipboard == worker.clipboard && after.clicks
            == worker.clicks,
        after.output.quarantine == worker.output.quarantine,
        context is None || context->0.window is None || !vertical.finite() || !horizontal.finite()
            || (vertical.spec_magnitude() == 0 && horizontal.spec_magnitude() == 0) ==> after
            == worker,
        context is Some && context->0.window is Some && vertical.finite() && horizontal.finite()
            && (vertical.spec_magnitude() != 0 || horizontal.spec_magnitude() != 0) ==> {
            let sent = after.output.sender.items.last();
            &&& after.output.sender.items.len() == worker.output.sender.items.len() + 1
            &&& sent.event_type@ == "input.scroll"@
            &&& sent.data is InputScroll
            &&& sent.observed_at == Some(observed_at)
            &&& sent.app.pid == Some(context->0.app.pid)
            &&& sent.window is Some && sent.window->0.id == context->0.window->0.id
        },
{
}

/// A press of a mouse button goes to those who listen for clicks, with the focused process, the
/// place, the button and the count it was made with, and to nobody else.
pub proof fn law_clicks_go_to_their_listeners<P: FnOnce(bool) -> PasteboardContent>(
    worker: WorkerModel,
    x: DoubleBits,
    y: DoubleBits,
    button: u32,
    click_count: i64,
    observed_at: OffsetDateTime,
    moment: WorkerMoment,
    context: Option<NativeContext>,
    policy: CapturePolicy,
    focus: FocusModel,
    read_pasteboard: P,
    after: WorkerModel,
    continues: bool,
)
    requires
        worker.handled(
            NativeEvent::MouseDown { x, y, button, click_count, observed_at },
            moment,
            context,
            policy,
            focus,
            read_pasteboard,
            after,
            continues,
        ),
    ensures
        continues,
        after.output.sender == worker.output.sender && after.output.quarantine
            == worker.output.quarantine,
        after.ledger == worker.ledger && after.clipboard == worker.clipboard,
        worker.clicks is None || context is None || click_count <= 0 ==> after == worker,
        worker.clicks is Some && context is Some && click_count >= 1 && x.finite() && y.finite()
            && -0x8000_0000 <= context->0.app.pid <= 0x7fff_ffff && worker.clicks->0.connected
            && worker.clicks->0.items.len() < worker.clicks->0.capacity ==> {
            let click = after.clicks->0.items.last();
            &&& after.clicks is Some
            &&& after.clicks->0.items.len() == worker.clicks->0.items.len() + 1
            &&& click.pid == context->0.app.pid
            &&& click.x == x && click.y == y
            &&& click.click_count == click_count
            &&& click.observed_at == observed_at
            &&& click.button is Left <==> button == 0
            &&& click.button is Right <==> button == 1
            &&& after.output.dropped == worker.output.dropped
        },
{
}

/// A keystroke without a known target, and a report that the tap was switched off, send nothing;
/// the keystroke authorizes nothing.
pub proof fn law_untargeted_keystrokes_send_nothing<P: FnOnce(bool) -> PasteboardContent>(
    worker: WorkerModel,
    event: NativeEvent,
    moment: WorkerMoment,
    context: Option<NativeContext>,
    policy: CapturePolicy,
    focus: FocusModel,
    read_pasteboard: P,
    after: WorkerModel,
    continues: bool,
)
    requires
        worker.handled(event, moment, context, policy, focus, read_pasteboard, after, continues),
        event is Disabled || (event matches NativeEvent::Key { target, .. } && target is None),
    ensures
        continues,
        after.output == worker.output && after.clipboard == worker.clipboard && after.clicks
            == worker.clicks,
        event is Disabled ==> after == worker,
        event matches NativeEvent::Key { authorization: Some(reserved), .. }
            ==> after.ledger.state_of(reserved.slot) !is Pending && (worker.ledger.state_of(
            reserved.slot,
        ) is Pending ==> after.ledger.state_of(reserved.slot) is Rejected),
{
}

/// Text may be read early exactly where the keystroke has a target, the focus and its field are
/// still those of the keystroke, and typing into it is allowed.
pub proof fn law_early_reads_need_the_same_focus(
    target: Option<NativeInputTarget>,
    policy: CapturePolicy,
    focus_context: FocusContext,
    allowed: bool,
)
    requires
        call_ensures(early_text_read_allowed, (&target, &policy, &focus_context), allowed),
    ensures
        allowed <==> (target matches Some(found) && found.focus_generation
            == focus_context@.generation && found.field_generation
            == focus_context@.field_generation && (found.focused_field matches Some(field)
            && field.class is KnownText) && policy.spec_decision(
            crate::schema::App {
                name: found.context.app.name,
                bundle_id: found.context.app.bundle_id,
                pid: Some(found.context.app.pid),
            },
            window_list::window_id_of(found.context.window),
            None,
        ).allowed),
{
}

/// The focus is looked up exactly for a changed clipboard or an event that belongs to a place.
pub proof fn law_places_are_looked_up_when_needed(
    clipboard_changed: bool,
    events: Vec<NativeEvent>,
    needed: bool,
)
    requires
        call_ensures(needs_context, (clipboard_changed, &events), needed),
    ensures
        clipboard_changed ==> needed,
        !clipboard_changed && needed ==> exists|i: int|
            0 <= i < events@.len() && ((#[trigger] events@[i]) is Key || events@[i] is Scroll
                || events@[i] is MouseDown),
        forall|i: int| 0 <= i < events@.len() && (#[trigger] events@[i]) !is Disabled ==> needed,
{
}

/// A change of the clipboard that no shortcut explains is reported as one of unknown origin, once;
/// a clipboard that did not change, or is not watched, is not reported.
pub proof fn law_clipboard_changes_are_reported_once<P: FnOnce(bool) -> PasteboardContent>(
    worker: WorkerModel,
    change_count: i64,
    focus: Option<FocusSnapshot>,
    observed_at: ClipboardObservationTime,
    read_pasteboard: P,
    secure_input: bool,
    policy: CapturePolicy,
    after: WorkerModel,
    continues: bool,
)
    requires
        copy_reported(
            worker,
            change_count,
            focus,
            observed_at,
            read_pasteboard,
            secure_input,
            policy,
            after,
            continues,
        ),
    ensures
        worker.clipboard is None || worker.clipboard->0.last_change_count == change_count ==> after
            == worker && continues,
        worker.clipboard is Some && worker.clipboard->0.last_change_count != change_count ==> {
            &&& after.clipboard is Some
            &&& after.clipboard->0.last_change_count == change_count
            &&& after.clipboard->0.pending is None
            &&& after.ledger == worker.ledger
            &&& worker.clipboard->0.pending is None && worker.output.sender.connected
                && worker.output.sender.items.len() < worker.output.sender.capacity ==> {
                let sent = after.output.sender.items.last();
                &&& continues
                &&& after.output.sender.items.len() == worker.output.sender.items.len() + 1
                &&& sent.event_type@ == "clipboard.copy"@
                &&& sent.data is ClipboardCopy
                &&& sent.data->ClipboardCopy_0.origin is Unknown
                &&& sent.app.pid is None
            }
        },
{
    if worker.clipboard is Some && worker.clipboard->0.last_change_count != change_count
        && worker.clipboard->0.pending is None {
        let change = worker.clipboard->0.change(change_count, focus, observed_at.monotonic)->0;
        let (content, output) = choose|content: PasteboardContent, output: Option<ClipboardOutput>|
            {
                &&& #[trigger] copy_output_of(
                    content,
                    output,
                    change,
                    focus,
                    observed_at,
                    read_pasteboard,
                    secure_input,
                    policy,
                )
                &&& after == (WorkerModel {
                    output: worker.output.emitted(
                        output_event(output),
                        policy,
                        output_decision(output),
                        observed_at.monotonic,
                    ).0,
                    clipboard: Some(worker.clipboard->0.seen(change_count)),
                    ..worker
                })
                &&& continues == worker.output.emitted(
                    output_event(output),
                    policy,
                    output_decision(output),
                    observed_at.monotonic,
                ).1.spec_continues()
            };
        let event = output_event(output)->0;
        assert(event.window is None);
        assert(event.app.pid is None);
    }
}

/// Waiting wake-ups are taken together, and tell whether there was any.
pub proof fn law_wakes_are_taken_together(call: Subject<BoundedChannel<()>>, observed: bool)
    requires
        call.on@.wf(),
        call_ensures(take_wake, (call.on,), observed),
    ensures
        observed <==> old(call.on)@.items.len() >= 1,
        final(call.on)@.items.len() == 0,
        final(call.on)@.connected == old(call.on)@.connected,
{
}

/// The watchdog runs every ten seconds; a worker is degraded while its tap is, or while wake-ups
/// cannot be observed.
pub proof fn law_the_watchdog_keeps_its_interval<A: EventTapApi>(
    driver: Subject<Driver<A>>,
    nanos_since_watchdog: u64,
    now: MonotonicTime,
    wakes_missing: bool,
    observed: Subject<u64>,
    operations: Subject<u64>,
    maintenance: Maintenance,
)
    requires
        call_ensures(
            maintain::<A>,
            (driver.on, nanos_since_watchdog, now, wakes_missing, observed.on, operations.on),
            maintenance,
        ),
    ensures
        maintenance.watchdog_ran <==> nanos_since_watchdog >= 10_000_000_000,
        maintenance.degraded <==> wakes_missing || final(driver.on)@.lifecycle.state is Degraded,
{
}

} // verus!
