//! What keys, clicks, scrolling and the clipboard report.

use zanei_macos::eventtap::logic::{
    click_data, clipboard_copy, clipboard_paste, content_kind, is_copy_shortcut, is_paste_shortcut,
    is_text_keycode, key_data, key_name, scroll_data, KeyModifiers, KeyObservation,
    MouseObservation, PasteboardContent, PasteboardKind, KEYCODE_C, KEYCODE_DELETE, KEYCODE_ESCAPE,
    KEYCODE_LEFT, KEYCODE_V,
};
use zanei_macos::schema::{
    ClipboardOrigin, ContentKind, DoubleBits, FieldKind, InputKeyKind, Modifier, ScrollDirection,
};

fn double(value: f64) -> DoubleBits {
    DoubleBits { bits: value.to_bits() }
}

fn key(key_code: u16, text: Option<&str>, modifiers: KeyModifiers) -> KeyObservation {
    KeyObservation {
        key_code,
        modifiers,
        text: text.map(str::to_owned),
    }
}

#[test]
fn classifies_keys_and_gates_text_content() {
    let printable = key(0, None, KeyModifiers::default());
    assert_eq!(
        key_data(&printable, false, None, false).kind,
        InputKeyKind::Text
    );
    assert_eq!(key_data(&printable, false, None, false).text, None);
    let captured = key(0, Some("a"), KeyModifiers::default());
    assert_eq!(
        key_data(&captured, true, Some(FieldKind::Text), false)
            .text
            .as_deref(),
        Some("a")
    );
    assert_eq!(
        key_data(
            &key(KEYCODE_LEFT, None, KeyModifiers::default()),
            false,
            None,
            false,
        )
        .kind,
        InputKeyKind::Navigation
    );
    assert_eq!(
        key_data(
            &key(KEYCODE_DELETE, None, KeyModifiers::default()),
            false,
            None,
            false,
        )
        .kind,
        InputKeyKind::Delete
    );
    assert_eq!(
        key_data(
            &key(KEYCODE_ESCAPE, None, KeyModifiers::default()),
            false,
            None,
            false,
        )
        .kind,
        InputKeyKind::Other
    );
}

#[test]
fn shortcut_has_ordered_modifiers_and_combo_only() {
    let observation = key(
        KEYCODE_V,
        None,
        KeyModifiers {
            cmd: true,
            shift: true,
            opt: true,
            ctrl: true,
            function: true,
        },
    );
    let data = key_data(&observation, true, None, false);
    assert_eq!(data.kind, InputKeyKind::Shortcut);
    assert_eq!(
        data.modifiers,
        vec![
            Modifier::Cmd,
            Modifier::Shift,
            Modifier::Opt,
            Modifier::Ctrl,
            Modifier::Fn
        ]
    );
    assert_eq!(data.combo.as_deref(), Some("cmd+shift+opt+ctrl+fn+v"));
    assert_eq!(data.text, None);
    assert!(is_paste_shortcut(&observation));
}

#[test]
fn ime_suppresses_only_direct_key_text() {
    let observation = key(0, Some("a"), KeyModifiers::default());
    let direct = key_data(&observation, true, Some(FieldKind::Text), false);
    let ime = key_data(&observation, true, Some(FieldKind::Text), true);

    assert_eq!(direct.text.as_deref(), Some("a"));
    assert_eq!(ime.text, None);
    assert_eq!(ime.kind, direct.kind);
    assert_eq!(ime.count, direct.count);
    assert_eq!(ime.combo, direct.combo);
    assert_eq!(ime.field_kind, direct.field_kind);
}

#[test]
fn mouse_down_keeps_pid_and_emits_one_click_without_another_event() {
    let click = click_data(
        501,
        MouseObservation {
            x: double(12.5),
            y: double(24.0),
            button: 0,
            click_count: 1,
        },
    )
    .expect("valid click");
    assert_eq!(click.pid, 501);
    assert_eq!(click.x, double(12.5));
    assert_eq!(click.y, double(24.0));
    assert_eq!(click.click_count, 1);
}

#[test]
fn scroll_uses_dominant_axis_and_rejects_invalid_values() {
    assert_eq!(scroll_data(double(0.0), double(0.0)), None);
    assert_eq!(scroll_data(double(f64::NAN), double(1.0)), None);
    assert_eq!(
        scroll_data(double(-4.0), double(2.0)).map(|data| data.direction),
        Some(ScrollDirection::Down)
    );
    assert_eq!(
        scroll_data(double(1.0), double(-3.0)).map(|data| data.direction),
        Some(ScrollDirection::Right)
    );
    assert_eq!(scroll_data(double(1.0), double(-3.0)).map(|data| data.amount), Some(double(3.0)));
}

#[test]
fn clipboard_payload_preserves_privacy_gated_values() {
    let content = || PasteboardContent {
        kind: PasteboardKind::Text,
        size_bytes: Some(3),
        text: Some("abc".to_owned()),
    };
    let copy = clipboard_copy(content(), ClipboardOrigin::CopyShortcut);
    let paste = clipboard_paste(content(), Some(FieldKind::Search));
    assert_eq!(copy.content_kind, ContentKind::Text);
    assert_eq!(copy.size_bytes, Some(3));
    assert_eq!(paste.text.as_deref(), Some("abc"));
    assert_eq!(paste.field_kind, Some(FieldKind::Search));
}

#[test]
fn clicks_need_a_process_number_a_place_and_a_count() {
    let observation = MouseObservation {
        x: double(1.0),
        y: double(2.0),
        button: 1,
        click_count: 2,
    };
    assert_eq!(click_data(501, observation).map(|click| click.button), Some(1));
    assert!(click_data(0, observation).is_some());
    let nowhere = MouseObservation { x: double(f64::NAN), ..observation };
    assert_eq!(click_data(501, nowhere), None);
    assert_eq!(click_data(i64::MAX, observation), None);
    assert_eq!(click_data(501, MouseObservation { click_count: -1, ..observation }), None);
}

#[test]
fn scrolling_up_and_left_are_the_other_signs() {
    let up = scroll_data(double(2.5), double(-2.5)).map(|data| (data.direction, data.amount));
    assert_eq!(up, Some((ScrollDirection::Up, double(2.5))));
    let left = scroll_data(double(0.0), double(7.0)).map(|data| (data.direction, data.count));
    assert_eq!(left, Some((ScrollDirection::Left, 1)));
    assert_eq!(scroll_data(double(f64::INFINITY), double(0.0)), None);
    assert_eq!(scroll_data(double(-0.0), double(0.0)), None);
}

#[test]
fn keys_are_named_and_told_apart() {
    assert_eq!(key_name(KEYCODE_V), "v");
    assert_eq!(key_name(KEYCODE_LEFT), "left");
    assert_eq!(key_name(0x0a), "key_0a");
    assert_eq!(key_name(0x17f), "key_17f");
    assert!(is_text_keycode(0));
    assert!(!is_text_keycode(KEYCODE_ESCAPE));
    let cmd = KeyModifiers { cmd: true, ..KeyModifiers::default() };
    assert!(is_copy_shortcut(&key(KEYCODE_C, None, cmd)));
    assert!(!is_copy_shortcut(&key(KEYCODE_C, None, KeyModifiers::default())));
    assert!(!is_paste_shortcut(&key(KEYCODE_C, None, cmd)));
}

#[test]
fn clipboard_kinds_carry_over() {
    assert_eq!(content_kind(PasteboardKind::Text), ContentKind::Text);
    assert_eq!(content_kind(PasteboardKind::Image), ContentKind::Image);
    assert_eq!(content_kind(PasteboardKind::File), ContentKind::File);
    assert_eq!(content_kind(PasteboardKind::Other), ContentKind::Other);
}

#[test]
fn no_two_keys_share_a_name() {
    let mut names: Vec<String> = (0..=u16::MAX).map(key_name).collect();
    names.sort();
    assert!(names.windows(2).all(|pair| pair[0] != pair[1]));
    assert_eq!(key_name(u16::MAX), "key_ffff");
    assert_eq!(key_name(0x0100), "key_100");
}
