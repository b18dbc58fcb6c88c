//! Routing of events that may carry captured text.

use time::OffsetDateTime;
use vstd::prelude::*;

use super::policy;
use super::policy::{TextContentDecision, CHROME_BUNDLE_ID};
use super::quarantine::ChromeWindowKey;
use crate::schema::{
    ClipboardCopyData, ClipboardPasteData, Element, EventData, InputKeyData, RawEvent, UiValueData,
};
use crate::text::{as_text, is_text};

verus! {

/// Where an event goes: out, or into quarantine until the browser confirms.
#[derive(Debug, PartialEq)]
pub enum TextBodyRoute {
    Send(RawEvent),
    Quarantine {
        event: RawEvent,
        key: ChromeWindowKey,
        version: u64,
        observed_at: OffsetDateTime,
    },
}

/// Whether the data of an event holds body text or its size.
pub open spec fn data_has_body(data: EventData) -> bool {
    match data {
        EventData::InputKey(key) => key.text is Some,
        EventData::ClipboardCopy(copy) => copy.text is Some || copy.size_bytes is Some,
        EventData::ClipboardPaste(paste) => paste.text is Some || paste.size_bytes is Some,
        EventData::UiValue(value) => value.text is Some,
        _ => false,
    }
}

/// Whether an event holds body text in its data or its element.
pub open spec fn has_body(event: RawEvent) -> bool {
    data_has_body(event.data) || (event.element matches Some(element) && element.value is Some)
}

/// The data without its body text.
pub open spec fn data_without_body(data: EventData) -> EventData {
    match data {
        EventData::InputKey(key) => EventData::InputKey(InputKeyData { text: None, ..key }),
        EventData::ClipboardCopy(copy) => EventData::ClipboardCopy(
            ClipboardCopyData { text: None, size_bytes: None, ..copy },
        ),
        EventData::ClipboardPaste(paste) => EventData::ClipboardPaste(
            ClipboardPasteData { text: None, size_bytes: None, ..paste },
        ),
        EventData::UiValue(value) => EventData::UiValue(UiValueData { text: None, ..value }),
        other => other,
    }
}

/// The event without its body text; everything else stays.
pub open spec fn without_body(event: RawEvent) -> RawEvent {
    RawEvent {
        data: data_without_body(event.data),
        element: match event.element {
            Some(element) => Some(Element { value: None, ..element }),
            None => None,
        },
        ..event
    }
}

/// Where an event goes under the decision that holds when it is sent.
pub open spec fn routed(event: RawEvent, decision: TextContentDecision) -> TextBodyRoute {
    let placed = RawEvent { capture_context: decision.capture_context, ..event };
    let window_id = match event.window {
        Some(window) => window.id,
        None => None,
    };
    if !has_body(event) {
        TextBodyRoute::Send(placed)
    } else if !decision.allowed {
        TextBodyRoute::Send(without_body(placed))
    } else {
        match decision.chrome_version {
            None => if policy::is_chrome(event.app) {
                TextBodyRoute::Send(without_body(placed))
            } else {
                TextBodyRoute::Send(placed)
            },
            Some(version) => match (event.app.pid, window_id, event.observed_at) {
                (Some(pid), Some(window_id), Some(observed_at)) => TextBodyRoute::Quarantine {
                    event: placed,
                    key: ChromeWindowKey { pid, window_id },
                    version,
                    observed_at,
                },
                _ => TextBodyRoute::Send(without_body(placed)),
            },
        }
    }
}

/// Removes the body text of an event.
pub fn suppress_text_content(event: RawEvent) -> (suppressed: RawEvent)
    ensures
        suppressed == without_body(event),
{
    let data = match event.data {
        EventData::InputKey(key) => EventData::InputKey(InputKeyData { text: None, ..key }),
        EventData::ClipboardCopy(copy) => EventData::ClipboardCopy(
            ClipboardCopyData { text: None, size_bytes: None, ..copy },
        ),
        EventData::ClipboardPaste(paste) => EventData::ClipboardPaste(
            ClipboardPasteData { text: None, size_bytes: None, ..paste },
        ),
        EventData::UiValue(value) => EventData::UiValue(UiValueData { text: None, ..value }),
        other => other,
    };
    let element = match event.element {
        Some(element) => Some(Element { value: None, ..element }),
        None => None,
    };
    RawEvent {
        observed_at: event.observed_at,
        source: event.source,
        event_type: event.event_type,
        app: event.app,
        window: event.window,
        element,
        data,
        capture_context: event.capture_context,
    }
}

/// Whether an event carries body text.
pub fn has_text_body(event: &RawEvent) -> (found: bool)
    ensures
        found == has_body(*event),
{
    data_body(event) || element_body(event)
}

fn data_body(event: &RawEvent) -> (found: bool)
    ensures
        found == data_has_body(event.data),
{
    match &event.data {
        EventData::InputKey(data) => data.text.is_some(),
        EventData::ClipboardCopy(data) => data.text.is_some() || data.size_bytes.is_some(),
        EventData::ClipboardPaste(data) => data.text.is_some() || data.size_bytes.is_some(),
        EventData::UiValue(data) => data.text.is_some(),
        _ => false,
    }
}

fn element_body(event: &RawEvent) -> (found: bool)
    ensures
        found == (event.element matches Some(element) && element.value is Some),
{
    match &event.element {
        Some(element) => element.value.is_some(),
        None => false,
    }
}

/// Routes an event under the decision made now, combined with the one made
/// before its body was read.
pub fn route_text_body(
    event: RawEvent,
    current: TextContentDecision,
    earlier: Option<&TextContentDecision>,
) -> (route: TextBodyRoute)
    ensures
        route == routed(
            event,
            current.sent_under(
                match earlier {
                    Some(before) => Some(*before),
                    None => None,
                },
            ),
        ),
{
    let found_body = has_text_body(&event);
    let decision = current.at_send(earlier);
    let chrome = is_text(as_text(&event.app.bundle_id), CHROME_BUNDLE_ID);
    let window_id = match &event.window {
        Some(window) => window.id,
        None => None,
    };
    let allowed = decision.allowed;
    let chrome_version = decision.chrome_version;
    let placed = RawEvent { capture_context: decision.capture_context, ..event };
    if !found_body {
        return TextBodyRoute::Send(placed);
    }
    if !allowed {
        return TextBodyRoute::Send(suppress_text_content(placed));
    }
    match chrome_version {
        None => if chrome {
            TextBodyRoute::Send(suppress_text_content(placed))
        } else {
            TextBodyRoute::Send(placed)
        },
        Some(version) => match (placed.app.pid, window_id, placed.observed_at) {
            (Some(pid), Some(window_id), Some(observed_at)) => TextBodyRoute::Quarantine {
                event: placed,
                key: ChromeWindowKey { pid, window_id },
                version,
                observed_at,
            },
            _ => TextBodyRoute::Send(suppress_text_content(placed)),
        },
    }
}

/// A suppressed event carries no body, and suppressing again changes nothing.
pub proof fn law_suppressed_event_has_no_body(event: RawEvent)
    ensures
        !has_body(without_body(event)),
        without_body(without_body(event)) == without_body(event),
{
}

/// A denied body never leaves and never waits for a confirmation; a body that
/// Chrome did not version never leaves either.
pub proof fn law_denied_body_never_leaves(event: RawEvent, decision: TextContentDecision)
    requires
        !decision.allowed || (policy::is_chrome(event.app) && decision.chrome_version is None),
    ensures
        routed(event, decision) matches TextBodyRoute::Send(sent) && !has_body(sent),
{
    law_suppressed_event_has_no_body(
        RawEvent { capture_context: decision.capture_context, ..event },
    );
}

/// Under a decision that denies, or that confirms in another way than the earlier
/// one, an event leaves at once and without any text: no typed text, no clipboard
/// text or size, no value of a field or an element. All else of it stays.
pub proof fn law_denied_payload_is_stripped(
    event: RawEvent,
    current: TextContentDecision,
    earlier: Option<&TextContentDecision>,
    route: TextBodyRoute,
)
    requires
        call_ensures(route_text_body, (event, current, earlier), route),
        !current.allowed || (earlier matches Some(before) && (!before.allowed
            || before.chrome_version.is_some() != current.chrome_version.is_some())),
    ensures
        route is Send,
        route matches TextBodyRoute::Send(sent) ==> {
            &&& sent.data matches EventData::InputKey(key) ==> key.text is None
            &&& sent.data matches EventData::ClipboardCopy(copy) ==> copy.text is None
                && copy.size_bytes is None
            &&& sent.data matches EventData::ClipboardPaste(paste) ==> paste.text is None
                && paste.size_bytes is None
            &&& sent.data matches EventData::UiValue(value) ==> value.text is None
            &&& sent.element matches Some(element) ==> element.value is None
            &&& sent.element.is_some() == event.element.is_some()
            &&& sent.app == event.app
            &&& sent.window == event.window
            &&& sent.event_type == event.event_type
            &&& sent.source == event.source
            &&& sent.observed_at == event.observed_at
            &&& sent.capture_context == current.capture_context
        },
{
}

/// What a stripped event still tells: everything of its kind but the text.
pub proof fn law_stripping_keeps_the_rest(event: RawEvent, stripped: RawEvent)
    requires
        call_ensures(suppress_text_content, (event,), stripped),
    ensures
        event.data matches EventData::InputKey(key) ==> (stripped.data matches EventData::InputKey(
            kept,
        ) && kept.text is None && kept.kind == key.kind && kept.modifiers == key.modifiers
            && kept.count == key.count && kept.combo == key.combo && kept.field_kind
            == key.field_kind),
        event.data matches EventData::ClipboardCopy(copy) ==> (stripped.data matches
            EventData::ClipboardCopy(kept) && kept.text is None && kept.size_bytes is None
            && kept.origin == copy.origin && kept.content_kind == copy.content_kind),
        event.data matches EventData::ClipboardPaste(paste) ==> (stripped.data matches
            EventData::ClipboardPaste(kept) && kept.text is None && kept.size_bytes is None
            && kept.content_kind == paste.content_kind && kept.field_kind == paste.field_kind),
        event.data matches EventData::UiValue(value) ==> (stripped.data matches EventData::UiValue(
            kept,
        ) && kept.text is None && kept.value_len == value.value_len),
        !(event.data is InputKey || event.data is ClipboardCopy || event.data is ClipboardPaste
            || event.data is UiValue) ==> stripped.data == event.data,
        event.element matches Some(element) ==> (stripped.element matches Some(kept)
            && kept.value is None && kept.role == element.role && kept.title == element.title),
        event.element is None ==> stripped.element is None,
{
}

/// An event that holds any text and may be sent once its page is confirmed is held
/// back whole, under the window, the time and the version that it was read with: the
/// earlier one where the decision was made before the text was read.
pub proof fn law_text_waits_for_its_confirmation(
    event: RawEvent,
    current: TextContentDecision,
    earlier: Option<&TextContentDecision>,
    route: TextBodyRoute,
)
    requires
        call_ensures(route_text_body, (event, current, earlier), route),
        current.allowed && current.chrome_version is Some,
        earlier matches Some(before) ==> before.allowed && before.chrome_version is Some,
        event.app.pid is Some && event.observed_at is Some,
        event.window matches Some(window) && window.id is Some,
        (event.data matches EventData::InputKey(key) && key.text is Some) || (event.data matches
            EventData::ClipboardCopy(copy) && (copy.text is Some || copy.size_bytes is Some)) || (
        event.data matches EventData::ClipboardPaste(paste) && (paste.text is Some
            || paste.size_bytes is Some)) || (event.data matches EventData::UiValue(value)
            && value.text is Some) || (event.element matches Some(element)
            && element.value is Some),
    ensures
        route is Quarantine,
        route matches TextBodyRoute::Quarantine { event: held, key, version, observed_at } ==> {
            &&& key.pid == event.app.pid->0
            &&& key.window_id == event.window->0.id->0
            &&& observed_at == event.observed_at->0
            &&& version == match earlier {
                Some(before) => before.chrome_version->0,
                None => current.chrome_version->0,
            }
            &&& held.data == event.data
            &&& held.element == event.element
            &&& held.app == event.app
            &&& held.window == event.window
            &&& held.event_type == event.event_type
            &&& held.capture_context == current.capture_context
        },
{
}

/// Where no confirmation is awaited, an allowed event leaves whole, but one of Chrome
/// leaves without text. Where one is awaited, but the process, the window or the time
/// is missing, an event leaves without text too.
pub proof fn law_unconfirmed_text_leaves_only_outside_chrome(
    event: RawEvent,
    current: TextContentDecision,
    route: TextBodyRoute,
)
    requires
        call_ensures(route_text_body, (event, current, None), route),
        current.allowed,
        current.chrome_version is None || event.app.pid is None || event.observed_at is None
            || event.window is None || event.window->0.id is None,
    ensures
        route is Send,
        route matches TextBodyRoute::Send(sent) ==> {
            let chrome = event.app.bundle_id matches Some(id) && id@ == "com.google.Chrome"@;
            &&& sent.app == event.app
            &&& sent.window == event.window
            &&& sent.capture_context == current.capture_context
            &&& current.chrome_version is None && !chrome ==> sent.data == event.data
                && sent.element == event.element
            &&& current.chrome_version is Some || chrome ==> {
                &&& sent.data matches EventData::InputKey(key) ==> key.text is None
                &&& sent.data matches EventData::ClipboardCopy(copy) ==> copy.text is None
                    && copy.size_bytes is None
                &&& sent.data matches EventData::ClipboardPaste(paste) ==> paste.text is None
                    && paste.size_bytes is None
                &&& sent.data matches EventData::UiValue(value) ==> value.text is None
                &&& sent.element matches Some(element) ==> element.value is None
            }
        },
{
}

/// An event without any text is never held back and never changed, whatever the
/// decision is, but for the surface it is placed on.
pub proof fn law_textless_events_pass(
    event: RawEvent,
    current: TextContentDecision,
    earlier: Option<&TextContentDecision>,
    route: TextBodyRoute,
)
    requires
        call_ensures(route_text_body, (event, current, earlier), route),
        event.data matches EventData::InputKey(key) ==> key.text is None,
        event.data matches EventData::ClipboardCopy(copy) ==> copy.text is None
            && copy.size_bytes is None,
        event.data matches EventData::ClipboardPaste(paste) ==> paste.text is None
            && paste.size_bytes is None,
        event.data matches EventData::UiValue(value) ==> value.text is None,
        event.element matches Some(element) ==> element.value is None,
    ensures
        route == TextBodyRoute::Send(
            RawEvent { capture_context: current.capture_context, ..event },
        ),
{
}

/// An event holds text wherever its payload or its element does, and nowhere else.
pub proof fn law_text_is_found_wherever_it_stands(event: RawEvent, found: bool)
    requires
        call_ensures(has_text_body, (&event,), found),
    ensures
        found == has_body(event),
        found <==> (event.data matches EventData::InputKey(key) && key.text is Some) || (
        event.data matches EventData::ClipboardCopy(copy) && (copy.text is Some
            || copy.size_bytes is Some)) || (event.data matches EventData::ClipboardPaste(paste)
            && (paste.text is Some || paste.size_bytes is Some)) || (event.data matches
            EventData::UiValue(value) && value.text is Some) || (event.element matches Some(element)
            && element.value is Some),
{
}

} // verus!
