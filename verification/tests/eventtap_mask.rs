//! Which native events a tap asks for.

use zanei_macos::eventtap::mode::EventTapMode;
use zanei_macos::eventtap::native::{
    event_mask, event_mask_for, should_read_key_text, ANNOTATED_SESSION_EVENT_TAP, EVENT_KEY_DOWN,
    EVENT_LEFT_MOUSE_DOWN, EVENT_OTHER_MOUSE_DOWN, EVENT_RIGHT_MOUSE_DOWN, EVENT_SCROLL_WHEEL,
};

#[test]
fn event_tap_uses_annotated_session_location() {
    assert_eq!(ANNOTATED_SESSION_EVENT_TAP, 2);
}

#[test]
fn ime_active_at_callback_blocks_text_after_layout_switch() {
    let ime_active_at_callback = true;
    let ime_active_during_processing = false;

    let text_was_read = should_read_key_text(true, false, ime_active_at_callback, true, true);

    assert!(!(text_was_read && !ime_active_during_processing));
}

#[test]
fn missing_ax_tracking_blocks_key_text_at_the_callback() {
    assert!(!should_read_key_text(true, false, false, false, true));
    assert!(!should_read_key_text(true, false, false, true, false));
    assert!(should_read_key_text(true, false, false, true, true));
}

#[test]
fn event_tap_modes_select_only_the_required_native_events() {
    let input_mask = event_mask(EVENT_KEY_DOWN) | event_mask(EVENT_SCROLL_WHEEL);
    let click_mask = event_mask(EVENT_LEFT_MOUSE_DOWN)
        | event_mask(EVENT_RIGHT_MOUSE_DOWN)
        | event_mask(EVENT_OTHER_MOUSE_DOWN);

    assert_eq!(
        event_mask_for(EventTapMode::InputOnly {
            capture_text_content: false,
        }),
        input_mask
    );
    assert_eq!(event_mask_for(EventTapMode::ClickOnly), click_mask);
    assert_eq!(
        event_mask_for(EventTapMode::InputAndClicks {
            capture_text_content: true,
        }),
        input_mask | click_mask
    );
}
