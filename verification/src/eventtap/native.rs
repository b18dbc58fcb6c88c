//! Native input events: masks, targets, authorization and decoding.

use time::OffsetDateTime;
use vstd::prelude::*;

use super::logic::{KeyModifiers, KeyObservation};
use super::mode::EventTapMode;
use crate::channel;
use crate::channel::{count_up, BoundedChannel, TrySendError};
use crate::clock::Instant;
use crate::focus_context::FocusSnapshot;
use crate::focused_field::FocusedField;
use crate::schema::{App, DoubleBits};
use crate::subject::Subject;
use crate::text;
use crate::text::{copy_text, decode_utf16};
use crate::text_capture::authorization::{
    AttemptKind, AuthorizationAttempt, AuthorizationState, InputAuthorization,
    InputAuthorizationPublisher, InputAuthorizations, LedgerModel,
};
use crate::window_list::{copy_window, NativeWindow};

verus! {

pub const EVENT_LEFT_MOUSE_DOWN: u32 = 1;

pub const EVENT_RIGHT_MOUSE_DOWN: u32 = 3;

pub const EVENT_KEY_DOWN: u32 = 10;

pub const EVENT_SCROLL_WHEEL: u32 = 22;

pub const EVENT_OTHER_MOUSE_DOWN: u32 = 25;

pub const EVENT_DISABLED_TIMEOUT: u32 = 0xffff_fffe;

pub const EVENT_DISABLED_USER_INPUT: u32 = 0xffff_ffff;

/// Where the tap sits: events carry the process that they are meant for.
pub const ANNOTATED_SESSION_EVENT_TAP: u32 = 2;

pub const FLAG_SHIFT: u64 = 0x2_0000;

pub const FLAG_CONTROL: u64 = 0x4_0000;

pub const FLAG_ALTERNATE: u64 = 0x8_0000;

pub const FLAG_COMMAND: u64 = 0x10_0000;

pub const FLAG_SECONDARY_FN: u64 = 0x80_0000;

/// Why the system switched the tap off.
#[derive(Clone, Copy, Debug, PartialEq, Eq, Structural)]
pub enum NativeDisableReason {
    Timeout,
    UserInput,
}

/// An application as the native side names it.
#[derive(Debug, PartialEq, Eq)]
pub struct NativeApp {
    pub name: String,
    pub bundle_id: Option<String>,
    pub pid: i64,
}

impl Clone for NativeApp {
    fn clone(&self) -> (copy: NativeApp)
        ensures
            copy == *self,
    {
        NativeApp { name: self.name.clone(), bundle_id: copy_text(&self.bundle_id), pid: self.pid }
    }
}

impl NativeApp {
    pub open spec fn spec_raw_app(self) -> App {
        App { name: self.name, bundle_id: self.bundle_id, pid: Some(self.pid) }
    }

    /// The application as events name it.
    pub fn raw_app(&self) -> (app: App)
        ensures
            app == self.spec_raw_app(),
    {
        App { name: self.name.clone(), bundle_id: copy_text(&self.bundle_id), pid: Some(self.pid) }
    }
}

/// An application and its window.
#[derive(Debug, PartialEq, Eq)]
pub struct NativeContext {
    pub app: NativeApp,
    pub window: Option<NativeWindow>,
}

impl Clone for NativeContext {
    fn clone(&self) -> (copy: NativeContext)
        ensures
            copy == *self,
    {
        NativeContext { app: self.app.clone(), window: copy_window(&self.window) }
    }
}

/// Where a keystroke went, as the focus was when it was made.
#[derive(Debug, PartialEq, Eq)]
pub struct NativeInputTarget {
    pub context: NativeContext,
    pub focused_field: Option<FocusedField>,
    pub focus_generation: u64,
    pub field_generation: u64,
}

/// One decoded native event.
#[derive(Debug, PartialEq)]
pub enum NativeEvent {
    Key {
        observation: KeyObservation,
        target: Option<NativeInputTarget>,
        authorization: Option<InputAuthorization>,
        secure_input: bool,
        ime_active: bool,
        observed_at: OffsetDateTime,
    },
    Scroll { vertical: DoubleBits, horizontal: DoubleBits, observed_at: OffsetDateTime },
    MouseDown {
        x: DoubleBits,
        y: DoubleBits,
        button: u32,
        click_count: i64,
        observed_at: OffsetDateTime,
    },
    Disabled(NativeDisableReason),
}

/// The bit that selects an event type.
pub fn event_mask(event_type: u32) -> (mask: u64)
    requires
        event_type < 64,
    ensures
        mask == 1u64 << event_type,
{
    1u64 << event_type
}

/// The event types that a mode selects.
pub open spec fn mask_of(mode: EventTapMode) -> u64 {
    let input = if mode.input() {
        (1u64 << EVENT_KEY_DOWN) | (1u64 << EVENT_SCROLL_WHEEL)
    } else {
        0u64
    };
    let clicks = if mode.clicks() {
        (1u64 << EVENT_LEFT_MOUSE_DOWN) | (1u64 << EVENT_RIGHT_MOUSE_DOWN) | (1u64
            << EVENT_OTHER_MOUSE_DOWN)
    } else {
        0u64
    };
    input | clicks
}

/// The event types that a mode selects.
pub fn event_mask_for(mode: EventTapMode) -> (mask: u64)
    ensures
        mask == mask_of(mode),
{
    let input: u64 = if mode.captures_input() {
        event_mask(EVENT_KEY_DOWN) | event_mask(EVENT_SCROLL_WHEEL)
    } else {
        0
    };
    let clicks: u64 = if mode.captures_clicks() {
        event_mask(EVENT_LEFT_MOUSE_DOWN) | event_mask(EVENT_RIGHT_MOUSE_DOWN) | event_mask(
            EVENT_OTHER_MOUSE_DOWN,
        )
    } else {
        0
    };
    input | clicks
}

/// A mode that does not capture input never selects keystrokes, and one that
/// does not capture clicks never selects mouse presses.
pub proof fn law_modes_select_nothing_else(mode: EventTapMode)
    ensures
        mode.input() <==> mask_of(mode) & (1u64 << EVENT_KEY_DOWN) != 0,
        mode.clicks() <==> mask_of(mode) & (1u64 << EVENT_LEFT_MOUSE_DOWN) != 0,
{
    let key = 1u64 << EVENT_KEY_DOWN;
    let scroll = 1u64 << EVENT_SCROLL_WHEEL;
    let left = 1u64 << EVENT_LEFT_MOUSE_DOWN;
    let right = 1u64 << EVENT_RIGHT_MOUSE_DOWN;
    let other = 1u64 << EVENT_OTHER_MOUSE_DOWN;
    assert(1u64 << 10u32 == 0x400u64) by (bit_vector);
    assert(1u64 << 22u32 == 0x40_0000u64) by (bit_vector);
    assert(1u64 << 1u32 == 2u64) by (bit_vector);
    assert(1u64 << 3u32 == 8u64) by (bit_vector);
    assert(1u64 << 25u32 == 0x200_0000u64) by (bit_vector);
    assert(((0x400u64 | 0x40_0000u64) | 0u64) & 0x400u64 != 0) by (bit_vector);
    assert(((0x400u64 | 0x40_0000u64) | 0u64) & 2u64 == 0) by (bit_vector);
    assert((0u64 | ((2u64 | 8u64) | 0x200_0000u64)) & 0x400u64 == 0) by (bit_vector);
    assert((0u64 | ((2u64 | 8u64) | 0x200_0000u64)) & 2u64 != 0) by (bit_vector);
    assert(((0x400u64 | 0x40_0000u64) | ((2u64 | 8u64) | 0x200_0000u64)) & 0x400u64 != 0)
        by (bit_vector);
    assert(((0x400u64 | 0x40_0000u64) | ((2u64 | 8u64) | 0x200_0000u64)) & 2u64 != 0)
        by (bit_vector);
}

/// Whether the text of a keystroke may be read at all.
pub fn should_read_key_text(
    capture_text_content: bool,
    secure_input: bool,
    ime_active: bool,
    known_text_field: bool,
    text_scope_allowed: bool,
) -> (read: bool)
    ensures
        read == (capture_text_content && !secure_input && !ime_active && known_text_field
            && text_scope_allowed),
{
    capture_text_content && !secure_input && !ime_active && known_text_field && text_scope_allowed
}

/// The application and window of a focus.
pub open spec fn context_of(focus: FocusSnapshot) -> NativeContext {
    NativeContext {
        app: NativeApp {
            name: focus.app.name,
            bundle_id: focus.app.bundle_id,
            pid: focus.app.pid,
        },
        window: focus.window,
    }
}

/// The application and window of a focus.
pub fn native_context(focus: FocusSnapshot) -> (context: NativeContext)
    ensures
        context == context_of(focus),
{
    NativeContext {
        app: NativeApp {
            name: focus.app.name,
            bundle_id: focus.app.bundle_id,
            pid: focus.app.pid,
        },
        window: focus.window,
    }
}

/// Where a keystroke for a process goes: the focus, when it is of that process.
pub open spec fn target_of(target_pid: i64, focus: Option<FocusSnapshot>) -> Option<
    NativeInputTarget,
> {
    match focus {
        Some(focus) => if 0 < target_pid <= i32::MAX && focus.app.pid == target_pid {
            Some(
                NativeInputTarget {
                    context: context_of(focus),
                    focused_field: focus.focused_field,
                    focus_generation: focus.generation,
                    field_generation: focus.field_generation,
                },
            )
        } else {
            None
        },
        None => None,
    }
}

/// Finds where a keystroke for a process goes.
pub fn input_target(target_pid: i64, focus: Option<FocusSnapshot>) -> (target: Option<
    NativeInputTarget,
>)
    ensures
        target == target_of(target_pid, focus),
{
    if target_pid <= 0 || target_pid > i32::MAX as i64 {
        return None;
    }
    match focus {
        Some(focus) => {
            if focus.app.pid != target_pid {
                return None;
            }
            let focused_field = focus.focused_field;
            let focus_generation: u64 = focus.generation;
            let field_generation: u64 = focus.field_generation;
            Some(
                NativeInputTarget {
                    context: native_context(focus),
                    focused_field,
                    focus_generation,
                    field_generation,
                },
            )
        },
        None => None,
    }
}

/// The process and field generation that a keystroke may be authorized for: a
/// known text field, outside secure input.
pub open spec fn authorizable(target: Option<NativeInputTarget>, secure_input: bool) -> Option<
    (i32, u64),
> {
    match target {
        Some(target) => match target.focused_field {
            Some(field) => if !secure_input && i32::MIN <= target.context.app.pid <= i32::MAX
                && field.class.known_text() {
                Some((target.context.app.pid as i32, field.generation))
            } else {
                None
            },
            None => None,
        },
        None => None,
    }
}

/// The process that a keystroke without authorization is recorded for.
pub open spec fn rejected_pid(target: Option<NativeInputTarget>, secure_input: bool) -> Option<
    i32,
> {
    match target {
        Some(target) => if !secure_input && i32::MIN <= target.context.app.pid <= i32::MAX {
            Some(target.context.app.pid as i32)
        } else {
            None
        },
        None => None,
    }
}

/// Why a keystroke was not authorized.
pub open spec fn rejection_reason_of(
    target: Option<NativeInputTarget>,
    secure_input: bool,
) -> Seq<char> {
    if secure_input {
        "secure_input"@
    } else {
        match target {
            None => "target_missing"@,
            Some(target) => if target.focused_field is None {
                "focused_field_missing"@
            } else {
                "field_not_text"@
            },
        }
    }
}

/// Why a keystroke was not authorized, for diagnostics.
pub fn rejection_reason(target: &Option<NativeInputTarget>, secure_input: bool) -> (reason:
    &'static str)
    ensures
        reason@ == rejection_reason_of(*target, secure_input),
{
    if secure_input {
        return "secure_input";
    }
    match target {
        None => "target_missing",
        Some(target) => {
            if target.focused_field.is_none() {
                "focused_field_missing"
            } else {
                "field_not_text"
            }
        },
    }
}

/// The ledger after a keystroke: a reservation for a known text field, a record
/// of a rejected input otherwise.
pub open spec fn keystroke_ledger(
    ledger: LedgerModel,
    target: Option<NativeInputTarget>,
    input_at: Instant,
    secure_input: bool,
) -> LedgerModel {
    match authorizable(target, secure_input) {
        Some((pid, generation)) => ledger.reserved(
            ledger.next_reservation(pid, generation, input_at),
        ),
        None => ledger.published(
            AuthorizationAttempt {
                sequence: (ledger.issued + 1) as u64,
                at: input_at,
                kind: AttemptKind::RejectedInput { pid: rejected_pid(target, secure_input) },
            },
        ),
    }
}

/// The authorization that a keystroke gets.
pub open spec fn keystroke_authorization(
    ledger: LedgerModel,
    target: Option<NativeInputTarget>,
    input_at: Instant,
    secure_input: bool,
) -> Option<InputAuthorization> {
    match authorizable(target, secure_input) {
        Some((pid, generation)) => if ledger.inbox.accepts() {
            Some(ledger.next_reservation(pid, generation, input_at))
        } else {
            None
        },
        None => None,
    }
}

/// Reserves an authorization for a keystroke, or records that it must not
/// authorize anything. A refused record is counted.
pub fn prepare_input_authorization(
    publisher: Option<InputAuthorizationPublisher>,
    authorizations: &mut InputAuthorizations,
    target: &Option<NativeInputTarget>,
    input_at: Instant,
    secure_input: bool,
    degraded_operations: &mut u64,
) -> (authorization: Option<InputAuthorization>)
    requires
        old(authorizations)@.wf(),
        old(authorizations)@.issued < u64::MAX,
    ensures
        final(authorizations)@.wf(),
        publisher is None ==> {
            &&& authorization is None
            &&& final(authorizations)@ == old(authorizations)@
            &&& *final(degraded_operations) == *old(degraded_operations)
        },
        publisher is Some ==> {
            &&& final(authorizations)@ == keystroke_ledger(
                old(authorizations)@,
                *target,
                input_at,
                secure_input,
            )
            &&& authorization == keystroke_authorization(
                old(authorizations)@,
                *target,
                input_at,
                secure_input,
            )
            &&& *final(degraded_operations) == if old(authorizations)@.inbox.accepts() {
                *old(degraded_operations)
            } else {
                channel::next_count(*old(degraded_operations))
            }
        },
{
    let publisher = match publisher {
        Some(publisher) => publisher,
        None => {
            return None;
        },
    };
    let pid = match target {
        Some(target) => {
            let pid: i64 = target.context.app.pid;
            if !secure_input && pid >= i32::MIN as i64 && pid <= i32::MAX as i64 {
                Some(pid as i32)
            } else {
                None
            }
        },
        None => None,
    };
    let field = match target {
        Some(target) => target.focused_field,
        None => None,
    };
    let valid_target = match (pid, field) {
        (Some(pid), Some(field)) => {
            if field.class.is_known_text() {
                Some((pid, field.generation))
            } else {
                None
            }
        },
        _ => None,
    };
    match valid_target {
        Some((pid, generation)) => {
            match publisher.prepare(authorizations, pid, generation, input_at) {
                Ok(authorization) => Some(authorization),
                Err(_) => {
                    *degraded_operations = count_up(*degraded_operations);
                    None
                },
            }
        },
        None => {
            if publisher.reject_attempt(authorizations, pid, input_at).is_err() {
                *degraded_operations = count_up(*degraded_operations);
            }
            None
        },
    }
}

/// A native event on its way from the callback to the worker; `E` is whatever
/// the native side keeps of the event itself.
#[derive(Debug, PartialEq, Eq)]
pub enum QueuedEvent<E> {
    Event {
        event: E,
        input_target: Option<NativeInputTarget>,
        authorization: Option<InputAuthorization>,
        secure_input: bool,
        ime_active: bool,
    },
    Disabled(NativeDisableReason),
}

impl<E> QueuedEvent<E> {
    pub open spec fn spec_authorization(self) -> Option<InputAuthorization> {
        match self {
            QueuedEvent::Event { authorization, .. } => authorization,
            QueuedEvent::Disabled(_) => None,
        }
    }
}

/// The reason behind a native event type that reports a stopped tap.
pub open spec fn disable_reason_of(event_type: u32) -> Option<NativeDisableReason> {
    if event_type == EVENT_DISABLED_TIMEOUT {
        Some(NativeDisableReason::Timeout)
    } else if event_type == EVENT_DISABLED_USER_INPUT {
        Some(NativeDisableReason::UserInput)
    } else {
        None
    }
}

/// The reason behind a native event type that reports a stopped tap.
pub fn native_disable_reason(event_type: u32) -> (reason: Option<NativeDisableReason>)
    ensures
        reason == disable_reason_of(event_type),
{
    if event_type == EVENT_DISABLED_TIMEOUT {
        Some(NativeDisableReason::Timeout)
    } else if event_type == EVENT_DISABLED_USER_INPUT {
        Some(NativeDisableReason::UserInput)
    } else {
        None
    }
}

/// The ledger once a reservation is rejected.
pub open spec fn rejected_ledger(
    ledger: LedgerModel,
    authorization: Option<InputAuthorization>,
) -> LedgerModel {
    match authorization {
        Some(authorization) => ledger.settled(authorization.slot, AuthorizationState::Rejected),
        None => ledger,
    }
}

/// Queues an event for the worker. An event that does not fit is counted and
/// its reservation is rejected.
pub fn enqueue_event<E>(
    queue: &mut BoundedChannel<QueuedEvent<E>>,
    queued: QueuedEvent<E>,
    authorizations: &mut InputAuthorizations,
    dropped_events: &mut u64,
)
    requires
        old(queue)@.wf(),
        old(authorizations)@.wf(),
    ensures
        final(queue)@.wf(),
        final(authorizations)@.wf(),
        final(queue)@ == old(queue)@.offered(queued),
        old(queue)@.accepts() ==> final(authorizations)@ == old(authorizations)@
            && *final(dropped_events) == *old(dropped_events),
        !old(queue)@.accepts() ==> final(authorizations)@ == rejected_ledger(
            old(authorizations)@,
            queued.spec_authorization(),
        ) && *final(dropped_events) == channel::next_count(*old(dropped_events)),
{
    match queue.try_send(queued) {
        Ok(()) => {},
        Err(error) => {
            let refused = match error {
                TrySendError::Full(refused) => refused,
                TrySendError::Disconnected(refused) => refused,
            };
            match refused {
                QueuedEvent::Event { authorization: Some(authorization), .. } => {
                    authorization.reject(authorizations);
                },
                _ => {},
            }
            *dropped_events = count_up(*dropped_events);
        },
    }
}

/// What the callback learnt about the moment of a native event.
#[derive(Debug, PartialEq, Eq)]
pub struct CallbackMoment {
    pub occurred_at: Instant,
    pub secure_input: bool,
    pub ime_active: bool,
    pub target_pid: i64,
    pub focus: Option<FocusSnapshot>,
}

/// Whether the moment of an event matters: only for keystrokes.
pub open spec fn is_key(event_type: u32) -> bool {
    event_type == EVENT_KEY_DOWN
}

/// What the callback queues for a native event.
pub open spec fn callback_event<E>(
    ledger: LedgerModel,
    publishes: bool,
    event_type: u32,
    event: E,
    moment: CallbackMoment,
) -> QueuedEvent<E> {
    let target = if is_key(event_type) {
        target_of(moment.target_pid, moment.focus)
    } else {
        None
    };
    let secure_input = is_key(event_type) && moment.secure_input;
    QueuedEvent::Event {
        event,
        input_target: target,
        authorization: if is_key(event_type) && publishes {
            keystroke_authorization(ledger, target, moment.occurred_at, secure_input)
        } else {
            None
        },
        secure_input,
        ime_active: is_key(event_type) && moment.ime_active,
    }
}

/// The ledger after the callback prepared a native event.
pub open spec fn callback_ledger(
    ledger: LedgerModel,
    publishes: bool,
    event_type: u32,
    moment: CallbackMoment,
) -> LedgerModel {
    if is_key(event_type) && publishes {
        keystroke_ledger(
            ledger,
            target_of(moment.target_pid, moment.focus),
            moment.occurred_at,
            moment.secure_input,
        )
    } else {
        ledger
    }
}

/// Handles one native callback: a report that the tap stopped is queued as it
/// is, an event is queued with its target and, for a keystroke, with the
/// reservation that was made for it. A missing event is ignored.
pub fn handle_callback<E>(
    queue: &mut BoundedChannel<QueuedEvent<E>>,
    publisher: Option<InputAuthorizationPublisher>,
    authorizations: &mut InputAuthorizations,
    event_type: u32,
    event: Option<E>,
    moment: CallbackMoment,
    dropped_events: &mut u64,
    degraded_operations: &mut u64,
)
    requires
        old(queue)@.wf(),
        old(authorizations)@.wf(),
        old(authorizations)@.issued < u64::MAX,
    ensures
        final(queue)@.wf(),
        final(authorizations)@.wf(),
        match disable_reason_of(event_type) {
            Some(reason) => {
                &&& final(queue)@ == old(queue)@.offered(QueuedEvent::Disabled(reason))
                &&& final(authorizations)@ == old(authorizations)@
                &&& *final(degraded_operations) == *old(degraded_operations)
                &&& *final(dropped_events) == if old(queue)@.accepts() {
                    *old(dropped_events)
                } else {
                    channel::next_count(*old(dropped_events))
                }
            },
            None => match event {
                None => {
                    &&& final(queue)@ == old(queue)@
                    &&& final(authorizations)@ == old(authorizations)@
                    &&& *final(degraded_operations) == *old(degraded_operations)
                    &&& *final(dropped_events) == *old(dropped_events)
                },
                Some(kept) => {
                    let ledger = old(authorizations)@;
                    let queued = callback_event(
                        ledger,
                        publisher is Some,
                        event_type,
                        kept,
                        moment,
                    );
                    let prepared = callback_ledger(ledger, publisher is Some, event_type, moment);
                    &&& final(queue)@ == old(queue)@.offered(queued)
                    &&& final(authorizations)@ == if old(queue)@.accepts() {
                        prepared
                    } else {
                        rejected_ledger(prepared, queued.spec_authorization())
                    }
                    &&& *final(dropped_events) == if old(queue)@.accepts() {
                        *old(dropped_events)
                    } else {
                        channel::next_count(*old(dropped_events))
                    }
                    &&& *final(degraded_operations) == if is_key(event_type) && publisher is Some
                        && !ledger.inbox.accepts() {
                        channel::next_count(*old(degraded_operations))
                    } else {
                        *old(degraded_operations)
                    }
                },
            },
        },
{
    if let Some(reason) = native_disable_reason(event_type) {
        enqueue_event(queue, QueuedEvent::Disabled(reason), authorizations, dropped_events);
        return ;
    }
    let event = match event {
        Some(event) => event,
        None => {
            return ;
        },
    };
    let key = event_type == EVENT_KEY_DOWN;
    let secure_input = key && moment.secure_input;
    let ime_active = key && moment.ime_active;
    let target = if key {
        input_target(moment.target_pid, moment.focus)
    } else {
        None
    };
    let authorization = if key {
        prepare_input_authorization(
            publisher,
            authorizations,
            &target,
            moment.occurred_at,
            secure_input,
            degraded_operations,
        )
    } else {
        None
    };
    enqueue_event(
        queue,
        QueuedEvent::Event { event, input_target: target, authorization, secure_input, ime_active },
        authorizations,
        dropped_events,
    );
}

/// What the native side reads of an event, apart from its text.
#[derive(Clone, Copy, Debug, PartialEq)]
pub struct EventFields {
    pub event_type: u32,
    pub flags: u64,
    pub key_code: i64,
    pub vertical: DoubleBits,
    pub horizontal: DoubleBits,
    pub x: DoubleBits,
    pub y: DoubleBits,
    pub button: i64,
    pub click_count: i64,
}

/// The modifiers that event flags carry.
pub open spec fn modifiers_in(flags: u64) -> KeyModifiers {
    KeyModifiers {
        cmd: flags & FLAG_COMMAND != 0,
        shift: flags & FLAG_SHIFT != 0,
        opt: flags & FLAG_ALTERNATE != 0,
        ctrl: flags & FLAG_CONTROL != 0,
        function: flags & FLAG_SECONDARY_FN != 0,
    }
}

/// A key code, zero when it is out of range.
pub open spec fn key_code_of(value: i64) -> u16 {
    if 0 <= value <= u16::MAX {
        value as u16
    } else {
        0
    }
}

/// A button number, the largest one when it is out of range.
pub open spec fn button_of(value: i64) -> u32 {
    if 0 <= value <= u32::MAX {
        value as u32
    } else {
        u32::MAX
    }
}

/// Whether a target has a known text field.
pub open spec fn targets_known_text(target: Option<NativeInputTarget>) -> bool {
    target matches Some(target) && (target.focused_field matches Some(field)
        && field.class.known_text())
}

/// Whether `event` is what the fields decode to, with `typed` as the text that was
/// read.
pub open spec fn decoded(
    fields: EventFields,
    target: Option<NativeInputTarget>,
    authorization: Option<InputAuthorization>,
    secure_input: bool,
    ime_active: bool,
    observed_at: OffsetDateTime,
    typed: Option<String>,
    event: NativeEvent,
) -> bool {
    if fields.event_type == EVENT_KEY_DOWN {
        event == (NativeEvent::Key {
            observation: KeyObservation {
                key_code: key_code_of(fields.key_code),
                modifiers: modifiers_in(fields.flags),
                text: typed,
            },
            target,
            authorization,
            secure_input,
            ime_active,
            observed_at,
        })
    } else if fields.event_type == EVENT_SCROLL_WHEEL {
        event == (NativeEvent::Scroll {
            vertical: fields.vertical,
            horizontal: fields.horizontal,
            observed_at,
        })
    } else {
        event == (NativeEvent::MouseDown {
            x: fields.x,
            y: fields.y,
            button: button_of(fields.button),
            click_count: fields.click_count,
            observed_at,
        })
    }
}

/// Whether the text of an event may be read before the policy is asked.
pub open spec fn text_readable(
    fields: EventFields,
    target: Option<NativeInputTarget>,
    secure_input: bool,
    ime_active: bool,
    capture_text_content: bool,
) -> bool {
    fields.event_type == EVENT_KEY_DOWN && capture_text_content && !secure_input && !ime_active
        && targets_known_text(target)
}

/// Whether `typed` is what was read of a keystroke: a text when it was readable
/// and the policy allowed the scope.
pub open spec fn text_gated<
    P: FnOnce(&Option<NativeInputTarget>) -> bool,
    T: FnOnce() -> Vec<u16>,
>(
    key: bool,
    readable: bool,
    text_read_allowed: P,
    target: &Option<NativeInputTarget>,
    read_text: T,
    scope_allowed: bool,
    typed: Option<String>,
) -> bool {
    &&& key ==> call_ensures(text_read_allowed, (target,), scope_allowed)
    &&& typed is Some <==> readable && scope_allowed
    &&& typed matches Some(text) ==> exists|units: Vec<u16>| #[trigger]
        call_ensures(read_text, (), units) && text@ == text::utf16_text(units@)
}

/// Decodes a queued event. Its text is read only where every gate is open: a
/// keystroke into a known text field, with text captured, outside secure input
/// and composition, in a scope that the policy allows. It comes as UTF-16 units.
/// Any other event rejects the reservation that it carries.
pub fn decode_event<P: FnOnce(&Option<NativeInputTarget>) -> bool, T: FnOnce() -> Vec<u16>>(
    fields: EventFields,
    target: Option<NativeInputTarget>,
    authorization: Option<InputAuthorization>,
    secure_input: bool,
    ime_active: bool,
    capture_text_content: bool,
    observed_at: OffsetDateTime,
    text_read_allowed: P,
    read_text: T,
    authorizations: &mut InputAuthorizations,
) -> (event: NativeEvent)
    requires
        old(authorizations)@.wf(),
        fields.event_type == EVENT_KEY_DOWN ==> call_requires(text_read_allowed, (&target,)),
        text_readable(fields, target, secure_input, ime_active, capture_text_content)
            && call_ensures(text_read_allowed, (&target,), true) ==> call_requires(read_text, ()),
    ensures
        final(authorizations)@.wf(),
        final(authorizations)@ == if fields.event_type == EVENT_KEY_DOWN {
            old(authorizations)@
        } else {
            rejected_ledger(old(authorizations)@, authorization)
        },
        exists|scope_allowed: bool, typed: Option<String>|
            {
                &&& decoded(
                    fields,
                    target,
                    authorization,
                    secure_input,
                    ime_active,
                    observed_at,
                    typed,
                    event,
                )
                &&& #[trigger] text_gated(
                    is_key(fields.event_type),
                    text_readable(fields, target, secure_input, ime_active, capture_text_content),
                    text_read_allowed,
                    &target,
                    read_text,
                    scope_allowed,
                    typed,
                )
            },
{
    if fields.event_type == EVENT_KEY_DOWN {
        let known_text_field = match &target {
            Some(target) => match target.focused_field {
                Some(field) => field.class.is_known_text(),
                None => false,
            },
            None => false,
        };
        let scope_allowed = text_read_allowed(&target);
        let text = if should_read_key_text(
            capture_text_content,
            secure_input,
            ime_active,
            known_text_field,
            scope_allowed,
        ) {
            let units = read_text();
            Some(decode_utf16(&units))
        } else {
            None
        };
        let ghost typed = text;
        let key_code: u16 = if fields.key_code >= 0 && fields.key_code <= u16::MAX as i64 {
            fields.key_code as u16
        } else {
            0
        };
        let modifiers = KeyModifiers {
            cmd: fields.flags & FLAG_COMMAND != 0,
            shift: fields.flags & FLAG_SHIFT != 0,
            opt: fields.flags & FLAG_ALTERNATE != 0,
            ctrl: fields.flags & FLAG_CONTROL != 0,
            function: fields.flags & FLAG_SECONDARY_FN != 0,
        };
        assert(text_gated(
            is_key(fields.event_type),
            text_readable(fields, target, secure_input, ime_active, capture_text_content),
            text_read_allowed,
            &target,
            read_text,
            scope_allowed,
            typed,
        ));
        let event = NativeEvent::Key {
            observation: KeyObservation { key_code, modifiers, text },
            target,
            authorization,
            secure_input,
            ime_active,
            observed_at,
        };
        return event;
    }
    if let Some(reserved) = authorization {
        reserved.reject(authorizations);
    }
    let event = if fields.event_type == EVENT_SCROLL_WHEEL {
        NativeEvent::Scroll {
            vertical: fields.vertical,
            horizontal: fields.horizontal,
            observed_at,
        }
    } else {
        let button: u32 = if fields.button >= 0 && fields.button <= u32::MAX as i64 {
            fields.button as u32
        } else {
            u32::MAX
        };
        NativeEvent::MouseDown {
            x: fields.x,
            y: fields.y,
            button,
            click_count: fields.click_count,
            observed_at,
        }
    };
    assert(text_gated(
        is_key(fields.event_type),
        text_readable(fields, target, secure_input, ime_active, capture_text_content),
        text_read_allowed,
        &target,
        read_text,
        false,
        None,
    ));
    event
}

/// Under secure input no keystroke is ever authorized and no text is readable.
pub proof fn law_secure_input_authorizes_nothing(
    ledger: LedgerModel,
    target: Option<NativeInputTarget>,
    input_at: Instant,
    fields: EventFields,
    ime_active: bool,
    capture_text_content: bool,
)
    ensures
        keystroke_authorization(ledger, target, input_at, true) is None,
        !text_readable(fields, target, true, ime_active, capture_text_content),
{
}

/// A tap selects exactly keystrokes and scrolling where input is captured, and the three kinds of
/// mouse presses where clicks are.
pub proof fn law_taps_select_what_their_mode_captures(mode: EventTapMode, mask: u64, event_type: u32)
    requires
        call_ensures(event_mask_for, (mode,), mask),
        event_type < 64,
    ensures
        mask & (1u64 << event_type) != 0 <==> (mode !is ClickOnly && (event_type == 10
            || event_type == 22)) || (mode !is InputOnly && (event_type == 1 || event_type == 3
            || event_type == 25)),
{
    assert(((1u64 << 10u32) | (1u64 << 22u32)) | 0u64 == 0x40_0400u64) by (bit_vector);
    assert(0u64 | ((1u64 << 1u32) | (1u64 << 3u32) | (1u64 << 25u32)) == 0x200_000au64)
        by (bit_vector);
    assert(((1u64 << 10u32) | (1u64 << 22u32)) | ((1u64 << 1u32) | (1u64 << 3u32) | (1u64 << 25u32))
        == 0x240_040au64) by (bit_vector);
    assert(0x40_0400u64 & (1u64 << event_type) != 0 <==> event_type == 10 || event_type == 22)
        by (bit_vector)
        requires
            event_type < 64,
    ;
    assert(0x200_000au64 & (1u64 << event_type) != 0 <==> event_type == 1 || event_type == 3
        || event_type == 25) by (bit_vector)
        requires
            event_type < 64,
    ;
    assert(0x240_040au64 & (1u64 << event_type) != 0 <==> event_type == 10 || event_type == 22
        || event_type == 1 || event_type == 3 || event_type == 25) by (bit_vector)
        requires
            event_type < 64,
    ;
}

/// The text of a keystroke is read only where everything speaks for it.
pub proof fn law_key_text_needs_every_condition(
    capture_text_content: bool,
    secure_input: bool,
    ime_active: bool,
    known_text_field: bool,
    text_scope_allowed: bool,
    read: bool,
)
    requires
        call_ensures(
            should_read_key_text,
            (capture_text_content, secure_input, ime_active, known_text_field, text_scope_allowed),
            read,
        ),
    ensures
        read ==> capture_text_content && known_text_field && text_scope_allowed,
        read ==> !secure_input && !ime_active,
        capture_text_content && known_text_field && text_scope_allowed && !secure_input
            && !ime_active ==> read,
{
}

/// A keystroke belongs to the focus exactly where it went to the focused process; it then names
/// the application, the window, the field and both generations of that focus.
pub proof fn law_keystrokes_belong_to_the_focused_process(
    target_pid: i64,
    focus: Option<FocusSnapshot>,
    target: Option<NativeInputTarget>,
)
    requires
        call_ensures(input_target, (target_pid, focus), target),
    ensures
        target is Some <==> (focus matches Some(current) && current.app.pid == target_pid)
            && target_pid >= 1 && target_pid <= 0x7fff_ffff,
        target matches Some(found) ==> {
            &&& found.context.app.pid == focus->0.app.pid
            &&& found.context.app.name == focus->0.app.name
            &&& found.context.app.bundle_id == focus->0.app.bundle_id
            &&& found.context.window == focus->0.window
            &&& found.focused_field == focus->0.focused_field
            &&& found.focus_generation == focus->0.generation
            &&& found.field_generation == focus->0.field_generation
        },
{
}

/// The context of a focus is its application and its window.
pub proof fn law_contexts_name_the_focus(focus: FocusSnapshot, context: NativeContext)
    requires
        call_ensures(native_context, (focus,), context),
    ensures
        context.app.pid == focus.app.pid,
        context.app.name == focus.app.name,
        context.app.bundle_id == focus.app.bundle_id,
        context.window == focus.window,
{
}

/// Two event types report that the tap was switched off, each for its reason; no other does.
pub proof fn law_switched_off_taps_tell_why(event_type: u32, reason: Option<NativeDisableReason>)
    requires
        call_ensures(native_disable_reason, (event_type,), reason),
    ensures
        reason == Some(NativeDisableReason::Timeout) <==> event_type == 0xffff_fffe,
        reason == Some(NativeDisableReason::UserInput) <==> event_type == 0xffff_ffff,
        reason is None <==> event_type < 0xffff_fffe,
{
}

/// A keystroke is reserved exactly where authorizations are published, secure input is off, the
/// focus is on a known text field of a process and the queue has room; the reservation is for
/// that process and that field. Any other published keystroke is recorded as rejected.
pub proof fn law_only_keystrokes_into_text_are_reserved(
    publisher: Option<InputAuthorizationPublisher>,
    call: Subject<InputAuthorizations>,
    target: Option<NativeInputTarget>,
    input_at: Instant,
    secure_input: bool,
    degraded: Subject<u64>,
    authorization: Option<InputAuthorization>,
)
    requires
        call.on@.wf() && call.on@.issued < u64::MAX && call.on@.states.len() < usize::MAX,
        call_ensures(
            prepare_input_authorization,
            (publisher, call.on, &target, input_at, secure_input, degraded.on),
            authorization,
        ),
    ensures
        publisher is None ==> authorization is None && final(call.on)@ == old(call.on)@,
        authorization is Some <==> publisher is Some && !secure_input && old(call.on)@.inbox.connected
            && old(call.on)@.inbox.items.len() < 1_024 && (target matches Some(found) && (
        found.focused_field matches Some(field) && field.class is KnownText) && -0x8000_0000
            <= found.context.app.pid <= 0x7fff_ffff),
        authorization matches Some(reserved) ==> {
            &&& reserved.pid == target->0.context.app.pid
            &&& reserved.target_generation == target->0.focused_field->0.generation
            &&& reserved.input_at == input_at
            &&& final(call.on)@.state_of(reserved.slot) is Pending
            &&& final(call.on)@.inbox.items.last().kind == AttemptKind::Reservation(reserved)
        },
        publisher is Some && authorization is None && old(call.on)@.inbox.connected
            && old(call.on)@.inbox.items.len() < 1_024 ==> final(call.on)@.inbox.items.len()
            == old(call.on)@.inbox.items.len() + 1 && final(call.on)@.inbox.items.last().kind
            is RejectedInput && final(call.on)@.states == old(call.on)@.states,
{
}

/// An event that the queue refuses is counted, and its keystroke is rejected; an accepted one is
/// queued last and its keystroke keeps waiting.
pub proof fn law_refused_events_reject_their_keystroke<E>(
    queue: Subject<BoundedChannel<QueuedEvent<E>>>,
    event: E,
    input_target: Option<NativeInputTarget>,
    authorization: InputAuthorization,
    secure_input: bool,
    ime_active: bool,
    ledger: Subject<InputAuthorizations>,
    dropped: Subject<u64>,
)
    requires
        queue.on@.wf() && ledger.on@.wf(),
        ledger.on@.state_of(authorization.slot) is Pending,
        call_ensures(
            enqueue_event::<E>,
            (
                queue.on,
                QueuedEvent::Event {
                    event,
                    input_target,
                    authorization: Some(authorization),
                    secure_input,
                    ime_active,
                },
                ledger.on,
                dropped.on,
            ),
            (),
        ),
    ensures
        old(queue.on)@.connected && old(queue.on)@.items.len() < old(queue.on)@.capacity ==> {
            &&& final(queue.on)@.items.len() == old(queue.on)@.items.len() + 1
            &&& final(ledger.on)@.state_of(authorization.slot) is Pending
            &&& *final(dropped.on) == *old(dropped.on)
        },
        !(old(queue.on)@.connected && old(queue.on)@.items.len() < old(queue.on)@.capacity) ==> {
            &&& final(queue.on)@ == old(queue.on)@
            &&& final(ledger.on)@.state_of(authorization.slot) is Rejected
            &&& *old(dropped.on) < u64::MAX ==> *final(dropped.on) == *old(dropped.on) + 1
        },
{
}

/// A native event is queued as it came. A keystroke carries the focus it went to, whether secure
/// input and an input method were on, and its reservation; no other event carries any of these. A
/// report that the tap was switched off is queued as such, without touching any keystroke.
pub proof fn law_callbacks_queue_what_came<E>(
    queue: Subject<BoundedChannel<QueuedEvent<E>>>,
    publisher: Option<InputAuthorizationPublisher>,
    ledger: Subject<InputAuthorizations>,
    event_type: u32,
    event: Option<E>,
    moment: CallbackMoment,
    dropped: Subject<u64>,
    degraded: Subject<u64>,
)
    requires
        queue.on@.wf() && ledger.on@.wf() && ledger.on@.issued < u64::MAX,
        queue.on@.connected && queue.on@.items.len() < queue.on@.capacity,
        call_ensures(
            handle_callback::<E>,
            (
                queue.on,
                publisher,
                ledger.on,
                event_type,
                event,
                moment,
                dropped.on,
                degraded.on,
            ),
            (),
        ),
    ensures
        *final(dropped.on) == *old(dropped.on),
        event_type == 0xffff_fffe ==> final(queue.on)@.items == old(queue.on)@.items.push(
            QueuedEvent::Disabled(NativeDisableReason::Timeout),
        ) && final(ledger.on)@ == old(ledger.on)@,
        event_type == 0xffff_ffff ==> final(queue.on)@.items == old(queue.on)@.items.push(
            QueuedEvent::Disabled(NativeDisableReason::UserInput),
        ) && final(ledger.on)@ == old(ledger.on)@,
        event_type < 0xffff_fffe && event is None ==> final(queue.on)@ == old(queue.on)@
            && final(ledger.on)@ == old(ledger.on)@,
        event_type < 0xffff_fffe && event is Some ==> {
            &&& final(queue.on)@.items.len() == old(queue.on)@.items.len() + 1
            &&& final(queue.on)@.items.last() matches QueuedEvent::Event {
                event: queued,
                input_target,
                authorization,
                secure_input,
                ime_active,
            } && {
                &&& queued == event->0
                &&& event_type == 10 ==> secure_input == moment.secure_input && ime_active
                    == moment.ime_active
                &&& event_type != 10 ==> !secure_input && !ime_active && input_target is None
                    && authorization is None
                &&& authorization is Some ==> publisher is Some && !moment.secure_input
                    && input_target is Some
                &&& event_type == 10 ==> (input_target is Some <==> (moment.focus matches Some(
                    current,
                ) && current.app.pid == moment.target_pid) && moment.target_pid >= 1
                    && moment.target_pid <= 0x7fff_ffff)
            }
        },
        event_type != 10 ==> final(ledger.on)@ == old(ledger.on)@,
{
}

/// Every native event is decoded by its type: a keystroke with its key, its modifiers and, only
/// where everything allows it, its text; a scroll with its motion; anything else as a mouse press
/// with its place, button and count. A reservation of anything but a keystroke is rejected.
pub proof fn law_events_are_decoded_by_their_type<
    P: FnOnce(&Option<NativeInputTarget>) -> bool,
    T: FnOnce() -> Vec<u16>,
>(
    fields: EventFields,
    target: Option<NativeInputTarget>,
    authorization: Option<InputAuthorization>,
    secure_input: bool,
    ime_active: bool,
    capture_text_content: bool,
    observed_at: OffsetDateTime,
    text_read_allowed: P,
    read_text: T,
    ledger: Subject<InputAuthorizations>,
    event: NativeEvent,
)
    requires
        ledger.on@.wf(),
        call_ensures(
            decode_event::<P, T>,
            (
                fields,
                target,
                authorization,
                secure_input,
                ime_active,
                capture_text_content,
                observed_at,
                text_read_allowed,
                read_text,
                ledger.on,
            ),
            event,
        ),
    ensures
        event is Key <==> fields.event_type == 10,
        event is Scroll <==> fields.event_type == 22,
        event !is Disabled,
        event matches NativeEvent::Key {
            observation,
            target: kept,
            authorization: reserved,
            secure_input: secure,
            ime_active: composing,
            observed_at: at,
        } ==> {
            &&& kept == target && reserved == authorization && at == observed_at
            &&& secure == secure_input && composing == ime_active
            &&& 0 <= fields.key_code <= 0xffff ==> observation.key_code == fields.key_code
            &&& !(0 <= fields.key_code <= 0xffff) ==> observation.key_code == 0
            &&& observation.modifiers.cmd <==> fields.flags & 0x10_0000 != 0
            &&& observation.modifiers.shift <==> fields.flags & 0x2_0000 != 0
            &&& observation.modifiers.opt <==> fields.flags & 0x8_0000 != 0
            &&& observation.modifiers.ctrl <==> fields.flags & 0x4_0000 != 0
            &&& observation.modifiers.function <==> fields.flags & 0x80_0000 != 0
            &&& observation.text is Some ==> capture_text_content && !secure_input && !ime_active
                && (target matches Some(found) && (found.focused_field matches Some(field)
                && field.class is KnownText)) && call_ensures(text_read_allowed, (&target,), true)
                && exists|units: Vec<u16>| #[trigger]
                call_ensures(read_text, (), units) && observation.text->0@ == text::utf16_text(
                    units@,
                )
            &&& capture_text_content && !secure_input && !ime_active && (target matches Some(found)
                && (found.focused_field matches Some(field) && field.class is KnownText))
                && observation.text is None ==> call_ensures(text_read_allowed, (&target,), false)
        },
        event matches NativeEvent::Scroll { vertical, horizontal, observed_at: at } ==> vertical
            == fields.vertical && horizontal == fields.horizontal && at == observed_at,
        event matches NativeEvent::MouseDown { x, y, button, click_count, observed_at: at } ==> {
            &&& x == fields.x && y == fields.y && at == observed_at
            &&& click_count == fields.click_count
            &&& 0 <= fields.button <= 0xffff_ffff ==> button == fields.button
        },
        event is Key ==> final(ledger.on)@ == old(ledger.on)@,
        event !is Key && authorization is Some && old(ledger.on)@.state_of(authorization->0.slot)
            is Pending ==> final(ledger.on)@.state_of(authorization->0.slot) is Rejected,
{
}

/// A keystroke is refused for secure input first, then for a missing target, then for a missing field, and
/// otherwise because its field is no text. An application is told by its own name, bundle and process.
pub proof fn law_refusals_name_their_reason(
    target: Option<NativeInputTarget>,
    secure_input: bool,
    reason: &'static str,
    native: NativeApp,
    app: App,
)
    requires
        call_ensures(rejection_reason, (&target, secure_input), reason),
        call_ensures(NativeApp::raw_app, (&native,), app),
    ensures
        secure_input <==> reason@ == "secure_input"@,
        reason@ == "target_missing"@ <==> !secure_input && target is None,
        reason@ == "focused_field_missing"@ <==> !secure_input && target is Some
            && target->0.focused_field is None,
        reason@ == "field_not_text"@ <==> !secure_input && target is Some
            && target->0.focused_field is Some,
        app.name == native.name && app.bundle_id == native.bundle_id && app.pid == Some(native.pid),
{
    reveal_strlit("secure_input");
    reveal_strlit("target_missing");
    reveal_strlit("focused_field_missing");
    reveal_strlit("field_not_text");
    assert("secure_input"@.len() == 12);
    assert("target_missing"@.len() == 14 && "field_not_text"@.len() == 14);
    assert("focused_field_missing"@.len() == 21);
    assert("target_missing"@[0] == 't' && "field_not_text"@[0] == 'f');
}

} // verus!
