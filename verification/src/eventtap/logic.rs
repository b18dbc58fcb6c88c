//! Translation of native input observations to event payloads.

use vstd::prelude::*;

use crate::schema::{
    ClipboardCopyData, ClipboardOrigin, ClipboardPasteData, ContentKind, DoubleBits, FieldKind,
    InputKeyData, InputKeyKind, InputScrollData, Modifier, ScrollDirection,
};
use crate::text;
use crate::text::{copy_text, format_padded_hex};

verus! {

pub const KEYCODE_C: u16 = 0x08;

pub const KEYCODE_V: u16 = 0x09;

pub const KEYCODE_RETURN: u16 = 0x24;

pub const KEYCODE_TAB: u16 = 0x30;

pub const KEYCODE_SPACE: u16 = 0x31;

pub const KEYCODE_DELETE: u16 = 0x33;

pub const KEYCODE_ESCAPE: u16 = 0x35;

pub const KEYCODE_HOME: u16 = 0x73;

pub const KEYCODE_PAGE_UP: u16 = 0x74;

pub const KEYCODE_FORWARD_DELETE: u16 = 0x75;

pub const KEYCODE_END: u16 = 0x77;

pub const KEYCODE_PAGE_DOWN: u16 = 0x79;

pub const KEYCODE_LEFT: u16 = 0x7b;

pub const KEYCODE_RIGHT: u16 = 0x7c;

pub const KEYCODE_DOWN: u16 = 0x7d;

pub const KEYCODE_UP: u16 = 0x7e;

/// The modifier keys held during a keystroke.
#[derive(Clone, Copy, Debug, PartialEq, Eq, Structural)]
pub struct KeyModifiers {
    pub cmd: bool,
    pub shift: bool,
    pub opt: bool,
    pub ctrl: bool,
    pub function: bool,
}

impl Default for KeyModifiers {
    fn default() -> (modifiers: KeyModifiers)
        ensures
            modifiers == (KeyModifiers {
                cmd: false,
                shift: false,
                opt: false,
                ctrl: false,
                function: false,
            }),
    {
        KeyModifiers { cmd: false, shift: false, opt: false, ctrl: false, function: false }
    }
}

/// One keystroke.
#[derive(Debug, PartialEq, Eq)]
pub struct KeyObservation {
    pub key_code: u16,
    pub modifiers: KeyModifiers,
    pub text: Option<String>,
}

/// One mouse press.
#[derive(Clone, Copy, Debug, PartialEq)]
pub struct MouseObservation {
    pub x: DoubleBits,
    pub y: DoubleBits,
    pub button: u32,
    pub click_count: i64,
}

/// A mouse press that can be reported.
#[derive(Clone, Copy, Debug, PartialEq)]
pub struct ClickData {
    pub pid: i32,
    pub x: DoubleBits,
    pub y: DoubleBits,
    pub button: u32,
    pub click_count: u64,
}

/// What a pasteboard holds.
#[derive(Clone, Copy, Debug, PartialEq, Eq, Structural)]
pub enum PasteboardKind {
    Text,
    Image,
    File,
    Other,
}

/// What was read of a pasteboard.
#[derive(Debug, PartialEq, Eq)]
pub struct PasteboardContent {
    pub kind: PasteboardKind,
    pub size_bytes: Option<u64>,
    pub text: Option<String>,
}

/// A modifier when it is held.
pub open spec fn held(present: bool, modifier: Modifier) -> Seq<Modifier> {
    if present {
        seq![modifier]
    } else {
        seq![]
    }
}

/// The held modifiers in their fixed order.
pub open spec fn modifiers_of(value: KeyModifiers) -> Seq<Modifier> {
    held(value.cmd, Modifier::Cmd) + held(value.shift, Modifier::Shift) + held(
        value.opt,
        Modifier::Opt,
    ) + held(value.ctrl, Modifier::Ctrl) + held(value.function, Modifier::Fn)
}

/// Keys that move the cursor or the view.
pub open spec fn is_navigation(key_code: u16) -> bool {
    ||| key_code == KEYCODE_TAB
    ||| key_code == KEYCODE_HOME
    ||| key_code == KEYCODE_PAGE_UP
    ||| key_code == KEYCODE_END
    ||| key_code == KEYCODE_PAGE_DOWN
    ||| key_code == KEYCODE_LEFT
    ||| key_code == KEYCODE_RIGHT
    ||| key_code == KEYCODE_DOWN
    ||| key_code == KEYCODE_UP
}

/// Keys that type a character.
pub open spec fn types_text(key_code: u16) -> bool {
    ||| key_code <= 0x23
    ||| 0x25 <= key_code <= 0x2f
    ||| key_code == KEYCODE_SPACE
    ||| key_code == 0x32
    ||| key_code == 0x41
    ||| key_code == 0x43
    ||| key_code == 0x45
    ||| key_code == 0x4b
    ||| key_code == 0x4e
    ||| 0x51 <= key_code <= 0x59
    ||| 0x5b <= key_code <= 0x5f
}

/// What a keystroke does: command and control make it a shortcut.
pub open spec fn kind_of(key_code: u16, modifiers: KeyModifiers) -> InputKeyKind {
    if modifiers.cmd || modifiers.ctrl {
        InputKeyKind::Shortcut
    } else if is_navigation(key_code) {
        InputKeyKind::Navigation
    } else if key_code == KEYCODE_DELETE || key_code == KEYCODE_FORWARD_DELETE {
        InputKeyKind::Delete
    } else if types_text(key_code) {
        InputKeyKind::Text
    } else {
        InputKeyKind::Other
    }
}

/// The name of a key in a shortcut.
pub open spec fn name_of(key_code: u16) -> Seq<char> {
    match key_code {
        0x00 => "a"@,
        0x01 => "s"@,
        0x02 => "d"@,
        0x03 => "f"@,
        0x04 => "h"@,
        0x05 => "g"@,
        0x06 => "z"@,
        0x07 => "x"@,
        0x08 => "c"@,
        0x09 => "v"@,
        0x0b => "b"@,
        0x0c => "q"@,
        0x0d => "w"@,
        0x0e => "e"@,
        0x0f => "r"@,
        0x10 => "y"@,
        0x11 => "t"@,
        0x1f => "o"@,
        0x20 => "u"@,
        0x22 => "i"@,
        0x23 => "p"@,
        0x25 => "l"@,
        0x26 => "j"@,
        0x28 => "k"@,
        0x2d => "n"@,
        0x2e => "m"@,
        0x24 => "return"@,
        0x30 => "tab"@,
        0x31 => "space"@,
        0x33 => "delete"@,
        0x35 => "escape"@,
        0x73 => "home"@,
        0x74 => "page_up"@,
        0x75 => "forward_delete"@,
        0x77 => "end"@,
        0x79 => "page_down"@,
        0x7b => "left"@,
        0x7c => "right"@,
        0x7d => "down"@,
        0x7e => "up"@,
        _ => "key_"@ + text::padded_hex(key_code as nat),
    }
}

/// The name of a modifier in a shortcut.
pub open spec fn modifier_name_of(modifier: Modifier) -> Seq<char> {
    match modifier {
        Modifier::Cmd => "cmd"@,
        Modifier::Shift => "shift"@,
        Modifier::Opt => "opt"@,
        Modifier::Ctrl => "ctrl"@,
        Modifier::Fn => "fn"@,
    }
}

/// The modifiers of a shortcut, each followed by a plus sign.
pub open spec fn combo_prefix(modifiers: Seq<Modifier>) -> Seq<char>
    decreases modifiers.len(),
{
    if modifiers.len() == 0 {
        seq![]
    } else {
        combo_prefix(modifiers.drop_last()) + modifier_name_of(modifiers.last()) + "+"@
    }
}

/// A shortcut as text: its modifiers and its key, joined by plus signs.
pub open spec fn combo_of(key_code: u16, modifiers: KeyModifiers) -> Seq<char> {
    combo_prefix(modifiers_of(modifiers)) + name_of(key_code)
}

/// Whether `data` is the payload of a keystroke. Its text is kept only for a
/// plain text key, where text may be captured and no input method composes it.
pub open spec fn is_key_data(
    data: InputKeyData,
    observation: KeyObservation,
    text_content: bool,
    field_kind: Option<FieldKind>,
    ime_active: bool,
) -> bool {
    &&& data.kind == kind_of(observation.key_code, observation.modifiers)
    &&& data.modifiers@ == modifiers_of(observation.modifiers)
    &&& data.count == 1
    &&& data.combo is Some <==> data.kind is Shortcut
    &&& data.combo matches Some(combo) ==> combo@ == combo_of(
        observation.key_code,
        observation.modifiers,
    )
    &&& data.text == if text_content && !ime_active && data.kind is Text {
        observation.text
    } else {
        None
    }
    &&& data.field_kind == field_kind
}

/// The payload of a keystroke.
pub fn key_data(
    observation: &KeyObservation,
    text_content: bool,
    field_kind: Option<FieldKind>,
    ime_active: bool,
) -> (data: InputKeyData)
    ensures
        is_key_data(data, *observation, text_content, field_kind, ime_active),
{
    let modifiers = ordered_modifiers(observation.modifiers);
    let kind = classify_key(observation);
    let combo = if matches!(kind, InputKeyKind::Shortcut) {
        Some(shortcut_combo(observation, &modifiers))
    } else {
        None
    };
    let text = if text_content && !ime_active && matches!(kind, InputKeyKind::Text) {
        copy_text(&observation.text)
    } else {
        None
    };
    InputKeyData { kind, modifiers, count: 1, combo, text, field_kind }
}

/// The shortcut that pastes.
pub open spec fn pastes_with(observation: KeyObservation) -> bool {
    observation.key_code == KEYCODE_V && observation.modifiers.cmd
}

/// The shortcut that copies.
pub open spec fn copies_with(observation: KeyObservation) -> bool {
    observation.key_code == KEYCODE_C && observation.modifiers.cmd
}

/// Whether a keystroke pastes.
pub fn is_paste_shortcut(observation: &KeyObservation) -> (pastes: bool)
    ensures
        pastes == pastes_with(*observation),
{
    observation.key_code == KEYCODE_V && observation.modifiers.cmd
}

/// Whether a keystroke copies.
pub fn is_copy_shortcut(observation: &KeyObservation) -> (copies: bool)
    ensures
        copies == copies_with(*observation),
{
    observation.key_code == KEYCODE_C && observation.modifiers.cmd
}

/// Whether a mouse press can be reported.
pub open spec fn reportable(pid: i64, observation: MouseObservation) -> bool {
    &&& i32::MIN <= pid <= i32::MAX
    &&& observation.click_count > 0
    &&& observation.x.finite()
    &&& observation.y.finite()
}

/// A mouse press as it is reported: none for a process number out of range, no
/// click, or a position that is not finite.
pub fn click_data(pid: i64, observation: MouseObservation) -> (click: Option<ClickData>)
    ensures
        click == if reportable(pid, observation) {
            Some(
                ClickData {
                    pid: pid as i32,
                    x: observation.x,
                    y: observation.y,
                    button: observation.button,
                    click_count: observation.click_count as u64,
                },
            )
        } else {
            None
        },
{
    if pid < i32::MIN as i64 || pid > i32::MAX as i64 || observation.click_count <= 0
        || !observation.x.is_finite() || !observation.y.is_finite() {
        return None;
    }
    Some(
        ClickData {
            pid: pid as i32,
            x: observation.x,
            y: observation.y,
            button: observation.button,
            click_count: observation.click_count as u64,
        },
    )
}

/// A scroll as it is reported: along the axis that moved more, the vertical one
/// on a tie; none for a scroll that did not move or is not finite.
pub open spec fn scroll_of(vertical: DoubleBits, horizontal: DoubleBits) -> Option<
    InputScrollData,
> {
    let vertical_amount = vertical.spec_magnitude();
    let horizontal_amount = horizontal.spec_magnitude();
    if !vertical.finite() || !horizontal.finite() {
        None
    } else if vertical_amount >= horizontal_amount && vertical_amount != 0 {
        Some(
            InputScrollData {
                direction: if vertical.negative() {
                    ScrollDirection::Down
                } else {
                    ScrollDirection::Up
                },
                amount: DoubleBits { bits: vertical_amount },
                count: 1,
            },
        )
    } else if horizontal_amount != 0 {
        Some(
            InputScrollData {
                direction: if horizontal.negative() {
                    ScrollDirection::Right
                } else {
                    ScrollDirection::Left
                },
                amount: DoubleBits { bits: horizontal_amount },
                count: 1,
            },
        )
    } else {
        None
    }
}

/// The payload of a scroll.
pub fn scroll_data(vertical: DoubleBits, horizontal: DoubleBits) -> (data: Option<InputScrollData>)
    ensures
        data == scroll_of(vertical, horizontal),
{
    if !vertical.is_finite() || !horizontal.is_finite() {
        return None;
    }
    let vertical_amount = vertical.magnitude();
    let horizontal_amount = horizontal.magnitude();
    if vertical_amount.bits >= horizontal_amount.bits && vertical_amount.bits != 0 {
        let direction = if vertical.is_negative() {
            ScrollDirection::Down
        } else {
            ScrollDirection::Up
        };
        Some(InputScrollData { direction, amount: vertical_amount, count: 1 })
    } else if horizontal_amount.bits != 0 {
        let direction = if horizontal.is_negative() {
            ScrollDirection::Right
        } else {
            ScrollDirection::Left
        };
        Some(InputScrollData { direction, amount: horizontal_amount, count: 1 })
    } else {
        None
    }
}

/// The schema kind of a pasteboard kind.
pub open spec fn content_kind_of(kind: PasteboardKind) -> ContentKind {
    match kind {
        PasteboardKind::Text => ContentKind::Text,
        PasteboardKind::Image => ContentKind::Image,
        PasteboardKind::File => ContentKind::File,
        PasteboardKind::Other => ContentKind::Other,
    }
}

pub open spec fn copy_of(content: PasteboardContent, origin: ClipboardOrigin) -> ClipboardCopyData {
    ClipboardCopyData {
        origin,
        content_kind: content_kind_of(content.kind),
        size_bytes: content.size_bytes,
        text: content.text,
    }
}

pub open spec fn paste_of(
    content: PasteboardContent,
    field_kind: Option<FieldKind>,
) -> ClipboardPasteData {
    ClipboardPasteData {
        content_kind: content_kind_of(content.kind),
        size_bytes: content.size_bytes,
        text: content.text,
        field_kind,
    }
}

/// The payload of a copy.
pub fn clipboard_copy(content: PasteboardContent, origin: ClipboardOrigin) -> (data:
    ClipboardCopyData)
    ensures
        data == copy_of(content, origin),
{
    ClipboardCopyData {
        origin,
        content_kind: content_kind(content.kind),
        size_bytes: content.size_bytes,
        text: content.text,
    }
}

/// The payload of a paste.
pub fn clipboard_paste(content: PasteboardContent, field_kind: Option<FieldKind>) -> (data:
    ClipboardPasteData)
    ensures
        data == paste_of(content, field_kind),
{
    ClipboardPasteData {
        content_kind: content_kind(content.kind),
        size_bytes: content.size_bytes,
        text: content.text,
        field_kind,
    }
}

fn classify_key(observation: &KeyObservation) -> (kind: InputKeyKind)
    ensures
        kind == kind_of(observation.key_code, observation.modifiers),
{
    let key_code: u16 = observation.key_code;
    if observation.modifiers.cmd || observation.modifiers.ctrl {
        InputKeyKind::Shortcut
    } else if key_code == KEYCODE_TAB || key_code == KEYCODE_HOME || key_code == KEYCODE_PAGE_UP
        || key_code == KEYCODE_END || key_code == KEYCODE_PAGE_DOWN || key_code == KEYCODE_LEFT
        || key_code == KEYCODE_RIGHT || key_code == KEYCODE_DOWN || key_code == KEYCODE_UP {
        InputKeyKind::Navigation
    } else if key_code == KEYCODE_DELETE || key_code == KEYCODE_FORWARD_DELETE {
        InputKeyKind::Delete
    } else if is_text_keycode(key_code) {
        InputKeyKind::Text
    } else {
        InputKeyKind::Other
    }
}

fn ordered_modifiers(value: KeyModifiers) -> (modifiers: Vec<Modifier>)
    ensures
        modifiers@ == modifiers_of(value),
{
    let mut modifiers: Vec<Modifier> = Vec::new();
    if value.cmd {
        modifiers.push(Modifier::Cmd);
    }
    if value.shift {
        modifiers.push(Modifier::Shift);
    }
    if value.opt {
        modifiers.push(Modifier::Opt);
    }
    if value.ctrl {
        modifiers.push(Modifier::Ctrl);
    }
    if value.function {
        modifiers.push(Modifier::Fn);
    }
    assert(modifiers@ =~= modifiers_of(value));
    modifiers
}

fn modifier_name(modifier: Modifier) -> (name: &'static str)
    ensures
        name@ == modifier_name_of(modifier),
{
    match modifier {
        Modifier::Cmd => "cmd",
        Modifier::Shift => "shift",
        Modifier::Opt => "opt",
        Modifier::Ctrl => "ctrl",
        Modifier::Fn => "fn",
    }
}

fn shortcut_combo(observation: &KeyObservation, modifiers: &Vec<Modifier>) -> (combo: String)
    ensures
        combo@ == combo_prefix(modifiers@) + name_of(observation.key_code),
{
    let mut combo = String::new();
    let mut index: usize = 0;
    assert(modifiers@.take(0) =~= seq![]);
    while index < modifiers.len()
        invariant
            0 <= index <= modifiers.len(),
            combo@ == combo_prefix(modifiers@.take(index as int)),
        decreases modifiers.len() - index,
    {
        let ghost seen = modifiers@.take(index as int);
        let ghost next = modifiers@.take(index + 1);
        combo.append(modifier_name(modifiers[index]));
        combo.append("+");
        proof {
            assert(next.drop_last() =~= seen);
            assert(next.last() == modifiers@[index as int]);
        }
        index = index + 1;
    }
    assert(modifiers@.take(index as int) =~= modifiers@);
    let name = key_name(observation.key_code);
    combo.append(name.as_str());
    combo
}

/// The name of a key in a shortcut.
pub fn key_name(key_code: u16) -> (name: String)
    ensures
        name@ == name_of(key_code),
{
    let known = match key_code {
        0x00 => "a",
        0x01 => "s",
        0x02 => "d",
        0x03 => "f",
        0x04 => "h",
        0x05 => "g",
        0x06 => "z",
        0x07 => "x",
        0x08 => "c",
        0x09 => "v",
        0x0b => "b",
        0x0c => "q",
        0x0d => "w",
        0x0e => "e",
        0x0f => "r",
        0x10 => "y",
        0x11 => "t",
        0x1f => "o",
        0x20 => "u",
        0x22 => "i",
        0x23 => "p",
        0x25 => "l",
        0x26 => "j",
        0x28 => "k",
        0x2d => "n",
        0x2e => "m",
        0x24 => "return",
        0x30 => "tab",
        0x31 => "space",
        0x33 => "delete",
        0x35 => "escape",
        0x73 => "home",
        0x74 => "page_up",
        0x75 => "forward_delete",
        0x77 => "end",
        0x79 => "page_down",
        0x7b => "left",
        0x7c => "right",
        0x7d => "down",
        0x7e => "up",
        _ => {
            let mut name = "key_".to_owned();
            let code = format_padded_hex(key_code as u64);
            name.append(code.as_str());
            return name;
        },
    };
    known.to_owned()
}

/// Whether a key types a character.
pub fn is_text_keycode(key_code: u16) -> (types: bool)
    ensures
        types == types_text(key_code),
{
    key_code <= 0x23 || (0x25 <= key_code && key_code <= 0x2f) || key_code == KEYCODE_SPACE
        || key_code == 0x32 || key_code == 0x41 || key_code == 0x43 || key_code == 0x45
        || key_code == 0x4b || key_code == 0x4e || (0x51 <= key_code && key_code <= 0x59) || (0x5b
        <= key_code && key_code <= 0x5f)
}

/// The schema kind of a pasteboard kind.
pub fn content_kind(kind: PasteboardKind) -> (schema_kind: ContentKind)
    ensures
        schema_kind == content_kind_of(kind),
{
    match kind {
        PasteboardKind::Text => ContentKind::Text,
        PasteboardKind::Image => ContentKind::Image,
        PasteboardKind::File => ContentKind::File,
        PasteboardKind::Other => ContentKind::Other,
    }
}

/// A reported scroll is finite, moves, and is at least as large as the motion
/// along the other axis.
pub proof fn law_scroll_reports_the_dominant_axis(vertical: DoubleBits, horizontal: DoubleBits)
    ensures
        scroll_of(vertical, horizontal) matches Some(data) ==> {
            &&& data.amount.finite()
            &&& data.amount.bits != 0
            &&& data.amount.bits >= vertical.spec_magnitude()
            &&& data.amount.bits >= horizontal.spec_magnitude()
        },
        vertical.finite() && horizontal.finite() && (vertical.spec_magnitude() != 0
            || horizontal.spec_magnitude() != 0) ==> scroll_of(vertical, horizontal) is Some,
{
}

/// The length and the first letter of a key's name; a key without a name of its
/// own has a longer one.
spec fn name_shape(key_code: u16) -> (nat, char) {
    match key_code {
        0x00 => (1, 'a'),
        0x01 => (1, 's'),
        0x02 => (1, 'd'),
        0x03 => (1, 'f'),
        0x04 => (1, 'h'),
        0x05 => (1, 'g'),
        0x06 => (1, 'z'),
        0x07 => (1, 'x'),
        0x08 => (1, 'c'),
        0x09 => (1, 'v'),
        0x0b => (1, 'b'),
        0x0c => (1, 'q'),
        0x0d => (1, 'w'),
        0x0e => (1, 'e'),
        0x0f => (1, 'r'),
        0x10 => (1, 'y'),
        0x11 => (1, 't'),
        0x1f => (1, 'o'),
        0x20 => (1, 'u'),
        0x22 => (1, 'i'),
        0x23 => (1, 'p'),
        0x25 => (1, 'l'),
        0x26 => (1, 'j'),
        0x28 => (1, 'k'),
        0x2d => (1, 'n'),
        0x2e => (1, 'm'),
        0x24 => (6, 'r'),
        0x30 => (3, 't'),
        0x31 => (5, 's'),
        0x33 => (6, 'd'),
        0x35 => (6, 'e'),
        0x73 => (4, 'h'),
        0x74 => (7, 'p'),
        0x75 => (14, 'f'),
        0x77 => (3, 'e'),
        0x79 => (9, 'p'),
        0x7b => (4, 'l'),
        0x7c => (5, 'r'),
        0x7d => (4, 'd'),
        0x7e => (2, 'u'),
        _ => (name_of(key_code).len(), 'k'),
    }
}

proof fn lemma_name_shape(key_code: u16)
    ensures
        name_of(key_code).len() == name_shape(key_code).0,
        name_of(key_code)[0] == name_shape(key_code).1,
        name_shape(key_code).1 == 'k' ==> key_code == 0x28 || name_shape(key_code).0 >= 4,
{
    reveal_strlit("a");
    reveal_strlit("s");
    reveal_strlit("d");
    reveal_strlit("f");
    reveal_strlit("h");
    reveal_strlit("g");
    reveal_strlit("z");
    reveal_strlit("x");
    reveal_strlit("c");
    reveal_strlit("v");
    reveal_strlit("b");
    reveal_strlit("q");
    reveal_strlit("w");
    reveal_strlit("e");
    reveal_strlit("r");
    reveal_strlit("y");
    reveal_strlit("t");
    reveal_strlit("o");
    reveal_strlit("u");
    reveal_strlit("i");
    reveal_strlit("p");
    reveal_strlit("l");
    reveal_strlit("j");
    reveal_strlit("k");
    reveal_strlit("n");
    reveal_strlit("m");
    reveal_strlit("return");
    reveal_strlit("tab");
    reveal_strlit("space");
    reveal_strlit("delete");
    reveal_strlit("escape");
    reveal_strlit("home");
    reveal_strlit("page_up");
    reveal_strlit("forward_delete");
    reveal_strlit("end");
    reveal_strlit("page_down");
    reveal_strlit("left");
    reveal_strlit("right");
    reveal_strlit("down");
    reveal_strlit("up");
    reveal_strlit("key_");
}

/// Two keys share a name only if they are the same key.
pub proof fn law_key_names_are_unique(first: u16, second: u16)
    requires
        name_of(first) == name_of(second),
    ensures
        first == second,
{
    lemma_name_shape(first);
    lemma_name_shape(second);
    if name_shape(first).1 == 'k' && first != 0x28 {
        assert(name_of(first).skip(4) =~= text::padded_hex(first as nat)) by {
            reveal_strlit("key_");
        }
        assert(name_of(second).skip(4) =~= text::padded_hex(second as nat)) by {
            reveal_strlit("key_");
        }
        text::law_padded_numerals_are_unique(first as nat, second as nat);
    }
}

/// A keystroke is a shortcut if and only if command or control is held, whatever key
/// it is; only a shortcut has a combination. Shift, option and fn never change the
/// kind of a keystroke.
pub proof fn law_only_command_and_control_make_shortcuts(
    observation: KeyObservation,
    other: KeyObservation,
    text_content: bool,
    field_kind: Option<FieldKind>,
    ime_active: bool,
    data: InputKeyData,
    other_data: InputKeyData,
)
    requires
        call_ensures(key_data, (&observation, text_content, field_kind, ime_active), data),
        call_ensures(key_data, (&other, text_content, field_kind, ime_active), other_data),
    ensures
        data.kind is Shortcut <==> observation.modifiers.cmd || observation.modifiers.ctrl,
        data.combo is Some <==> observation.modifiers.cmd || observation.modifiers.ctrl,
        other.key_code == observation.key_code && (other.modifiers.cmd || other.modifiers.ctrl)
            == (observation.modifiers.cmd || observation.modifiers.ctrl) ==> other_data.kind
            == data.kind,
        data.field_kind == field_kind,
        data.count == 1,
{
}

/// The text of a keystroke is what was typed, exactly where text is captured, no
/// input method composes, neither command nor control is held and the key types a
/// character; held shift, option or fn keep it. Anything else carries no text.
pub proof fn law_typed_characters_are_captured(
    observation: KeyObservation,
    text_content: bool,
    field_kind: Option<FieldKind>,
    ime_active: bool,
    data: InputKeyData,
)
    requires
        call_ensures(key_data, (&observation, text_content, field_kind, ime_active), data),
    ensures
        data.text is Some ==> {
            &&& data.text == observation.text
            &&& text_content
            &&& !ime_active
            &&& data.kind is Text
            &&& !observation.modifiers.cmd
            &&& !observation.modifiers.ctrl
        },
        name_of(observation.key_code).len() == 1 && !observation.modifiers.cmd
            && !observation.modifiers.ctrl ==> data.kind is Text,
        data.kind is Text && text_content && !ime_active ==> data.text == observation.text,
        data.kind is Text <==> !observation.modifiers.cmd && !observation.modifiers.ctrl && {
            ||| observation.key_code < 0x30 && observation.key_code != 0x24
            ||| 0x31 <= observation.key_code <= 0x32
            ||| 0x51 <= observation.key_code <= 0x5f && observation.key_code != 0x5a
            ||| observation.key_code == 0x41
            ||| observation.key_code == 0x43
            ||| observation.key_code == 0x45
            ||| observation.key_code == 0x4b
            ||| observation.key_code == 0x4e
        },
{
    lemma_name_shape(observation.key_code);
    if name_shape(observation.key_code).1 == 'k' && observation.key_code != 0x28 {
        reveal_strlit("key_");
        assert(name_of(observation.key_code).len() >= 4);
    }
}

/// Without command and control, the keys that move the cursor or the focus navigate,
/// and the two keys that delete delete; no other key does either.
pub proof fn law_keys_that_type_nothing_are_told_apart(
    observation: KeyObservation,
    text_content: bool,
    field_kind: Option<FieldKind>,
    ime_active: bool,
    data: InputKeyData,
)
    requires
        call_ensures(key_data, (&observation, text_content, field_kind, ime_active), data),
        !observation.modifiers.cmd && !observation.modifiers.ctrl,
    ensures
        data.kind is Delete <==> observation.key_code == 0x33 || observation.key_code == 0x75,
        data.kind is Navigation <==> {
            ||| observation.key_code == 0x30
            ||| 0x73 <= observation.key_code <= 0x74
            ||| observation.key_code == 0x77
            ||| observation.key_code == 0x79
            ||| 0x7b <= observation.key_code <= 0x7e
        },
        observation.key_code == 0x24 || observation.key_code == 0x35 ==> data.kind is Other,
{
}

/// The modifiers of a keystroke are those held, each once, in one order.
pub proof fn law_held_modifiers_are_listed(
    observation: KeyObservation,
    text_content: bool,
    field_kind: Option<FieldKind>,
    ime_active: bool,
    data: InputKeyData,
)
    requires
        call_ensures(key_data, (&observation, text_content, field_kind, ime_active), data),
    ensures
        data.modifiers@.contains(Modifier::Cmd) <==> observation.modifiers.cmd,
        data.modifiers@.contains(Modifier::Shift) <==> observation.modifiers.shift,
        data.modifiers@.contains(Modifier::Opt) <==> observation.modifiers.opt,
        data.modifiers@.contains(Modifier::Ctrl) <==> observation.modifiers.ctrl,
        data.modifiers@.contains(Modifier::Fn) <==> observation.modifiers.function,
        ranked(data.modifiers@),
{
    let value = observation.modifiers;
    let cmd = Seq::<Modifier>::empty() + held(value.cmd, Modifier::Cmd);
    let shift = cmd + held(value.shift, Modifier::Shift);
    let opt = shift + held(value.opt, Modifier::Opt);
    let ctrl = opt + held(value.ctrl, Modifier::Ctrl);
    lemma_held_step(Seq::empty(), value.cmd, Modifier::Cmd);
    lemma_held_step(cmd, value.shift, Modifier::Shift);
    lemma_held_step(shift, value.opt, Modifier::Opt);
    lemma_held_step(opt, value.ctrl, Modifier::Ctrl);
    lemma_held_step(ctrl, value.function, Modifier::Fn);
    assert(cmd =~= held(value.cmd, Modifier::Cmd));
    assert(data.modifiers@ == ctrl + held(value.function, Modifier::Fn));
}

/// Whether modifiers are listed in their order.
pub open spec fn ranked(modifiers: Seq<Modifier>) -> bool {
    forall|i: int, j: int|
        #![trigger modifiers[i], modifiers[j]]
        0 <= i < j < modifiers.len() ==> modifier_rank(modifiers[i]) < modifier_rank(modifiers[j])
}

proof fn lemma_held_step(before: Seq<Modifier>, present: bool, modifier: Modifier)
    requires
        ranked(before),
        forall|i: int|
            0 <= i < before.len() ==> modifier_rank(#[trigger] before[i]) < modifier_rank(modifier),
    ensures
        ranked(before + held(present, modifier)),
        forall|i: int|
            0 <= i < (before + held(present, modifier)).len() ==> modifier_rank(
                #[trigger] (before + held(present, modifier))[i],
            ) <= modifier_rank(modifier),
        forall|other: Modifier| #[trigger]
            (before + held(present, modifier)).contains(other) <==> before.contains(other) || (
            present && other == modifier),
{
    let after = before + held(present, modifier);
    assert forall|other: Modifier| #[trigger] after.contains(other) <==> before.contains(other) || (
    present && other == modifier) by {
        if before.contains(other) {
            let i = choose|i: int| 0 <= i < before.len() && before[i] == other;
            assert(after[i] == other);
        }
        if present && other == modifier {
            assert(after[before.len() as int] == modifier);
        }
    }
}

/// The place of a modifier in a combination.
pub open spec fn modifier_rank(modifier: Modifier) -> int {
    match modifier {
        Modifier::Cmd => 0,
        Modifier::Shift => 1,
        Modifier::Opt => 2,
        Modifier::Ctrl => 3,
        Modifier::Fn => 4,
    }
}

/// A part of a combination, where its modifier is held.
pub open spec fn combo_part(present: bool, part: Seq<char>) -> Seq<char> {
    if present {
        part
    } else {
        Seq::empty()
    }
}

/// A combination spells its held modifiers, each followed by a plus sign, and ends
/// with the name of the key.
pub proof fn law_combination_spells_its_keys(
    observation: KeyObservation,
    text_content: bool,
    field_kind: Option<FieldKind>,
    ime_active: bool,
    data: InputKeyData,
)
    requires
        call_ensures(key_data, (&observation, text_content, field_kind, ime_active), data),
    ensures
        data.combo matches Some(combo) ==> combo@ == combo_part(
            observation.modifiers.cmd,
            seq!['c', 'm', 'd', '+'],
        ) + combo_part(observation.modifiers.shift, seq!['s', 'h', 'i', 'f', 't', '+'])
            + combo_part(observation.modifiers.opt, seq!['o', 'p', 't', '+']) + combo_part(
            observation.modifiers.ctrl,
            seq!['c', 't', 'r', 'l', '+'],
        ) + combo_part(observation.modifiers.function, seq!['f', 'n', '+']) + name_of(
            observation.key_code,
        ),
{
    reveal_strlit("cmd");
    reveal_strlit("shift");
    reveal_strlit("opt");
    reveal_strlit("ctrl");
    reveal_strlit("fn");
    reveal_strlit("+");
    let value = observation.modifiers;
    let cmd = held(value.cmd, Modifier::Cmd);
    let shift = cmd + held(value.shift, Modifier::Shift);
    let opt = shift + held(value.opt, Modifier::Opt);
    let ctrl = opt + held(value.ctrl, Modifier::Ctrl);
    assert("cmd"@ + "+"@ =~= seq!['c', 'm', 'd', '+']);
    assert("shift"@ + "+"@ =~= seq!['s', 'h', 'i', 'f', 't', '+']);
    assert("opt"@ + "+"@ =~= seq!['o', 'p', 't', '+']);
    assert("ctrl"@ + "+"@ =~= seq!['c', 't', 'r', 'l', '+']);
    assert("fn"@ + "+"@ =~= seq!['f', 'n', '+']);
    lemma_combo_step(Seq::empty(), value.cmd, Modifier::Cmd, seq!['c', 'm', 'd', '+']);
    assert(Seq::<Modifier>::empty() + cmd =~= cmd);
    lemma_combo_step(cmd, value.shift, Modifier::Shift, seq!['s', 'h', 'i', 'f', 't', '+']);
    lemma_combo_step(shift, value.opt, Modifier::Opt, seq!['o', 'p', 't', '+']);
    lemma_combo_step(opt, value.ctrl, Modifier::Ctrl, seq!['c', 't', 'r', 'l', '+']);
    lemma_combo_step(ctrl, value.function, Modifier::Fn, seq!['f', 'n', '+']);
    assert(combo_prefix(cmd) =~= combo_part(value.cmd, seq!['c', 'm', 'd', '+']));
}

proof fn lemma_combo_step(
    before: Seq<Modifier>,
    present: bool,
    modifier: Modifier,
    part: Seq<char>,
)
    requires
        modifier_name_of(modifier) + "+"@ == part,
    ensures
        combo_prefix(before + held(present, modifier)) == combo_prefix(before) + combo_part(
            present,
            part,
        ),
{
    if present {
        assert((before + held(present, modifier)).drop_last() =~= before);
        assert(combo_prefix(before) + modifier_name_of(modifier) + "+"@ =~= combo_prefix(before)
            + part);
    } else {
        assert(before + held(present, modifier) =~= before);
        assert(combo_prefix(before) + combo_part(present, part) =~= combo_prefix(before));
    }
}

/// The first keys are named by the letters on them, and every letter names a key.
pub proof fn law_letter_keys_are_named_by_their_letter(key_code: u16)
    ensures
        key_code <= 0x11 && key_code != 0x0a ==> name_of(key_code) == seq![
            "asdfhgzxcv?bqweryt"@[key_code as int],
        ],
        0x7b <= key_code <= 0x7e ==> name_of(key_code)[0] == "lrdu"@[key_code - 0x7b],
{
    reveal_strlit("asdfhgzxcv?bqweryt");
    reveal_strlit("lrdu");
    lemma_name_shape(key_code);
    if key_code <= 0x11 && key_code != 0x0a {
        assert(name_of(key_code) =~= seq!["asdfhgzxcv?bqweryt"@[key_code as int]]);
    }
}

/// Command and V paste, command and C copy, whatever else is held, and nothing else
/// does either; no keystroke does both.
pub proof fn law_clipboard_shortcuts_need_command(
    observation: KeyObservation,
    pastes: bool,
    copies: bool,
)
    requires
        call_ensures(is_paste_shortcut, (&observation,), pastes),
        call_ensures(is_copy_shortcut, (&observation,), copies),
    ensures
        pastes <==> observation.modifiers.cmd && name_of(observation.key_code) == seq!['v'],
        copies <==> observation.modifiers.cmd && name_of(observation.key_code) == seq!['c'],
        !(pastes && copies),
{
    lemma_name_shape(observation.key_code);
    lemma_name_shape(0x09);
    lemma_name_shape(0x08);
    assert(name_of(0x09) =~= seq!['v']);
    assert(name_of(0x08) =~= seq!['c']);
    if name_of(observation.key_code) == seq!['v'] {
        law_key_names_are_unique(observation.key_code, 0x09);
    }
    if name_of(observation.key_code) == seq!['c'] {
        law_key_names_are_unique(observation.key_code, 0x08);
    }
}

/// A click is reported for a real process, at a finite place, with at least one
/// press; what is reported is what was observed.
pub proof fn law_click_keeps_what_was_observed(
    pid: i64,
    observation: MouseObservation,
    click: Option<ClickData>,
)
    requires
        call_ensures(click_data, (pid, observation), click),
    ensures
        click matches Some(click) ==> {
            &&& click.pid == pid
            &&& click.x == observation.x
            &&& click.y == observation.y
            &&& click.button == observation.button
            &&& click.click_count == observation.click_count
            &&& click.click_count >= 1
        },
        click is None <==> observation.click_count <= 0 || pid > 0x7fff_ffff || pid
            < -0x8000_0000 || !observation.x.finite() || !observation.y.finite(),
{
}

/// A scroll goes up or left for a positive motion and down or right for a negative
/// one; it goes sideways only where the motion across is the larger one. Turning a
/// motion round turns the reported direction round and keeps the amount.
pub proof fn law_scroll_follows_the_motion(
    vertical: DoubleBits,
    horizontal: DoubleBits,
    data: Option<InputScrollData>,
)
    requires
        call_ensures(scroll_data, (vertical, horizontal), data),
    ensures
        data matches Some(data) ==> {
            &&& data.count == 1
            &&& data.direction is Up ==> !vertical.negative()
            &&& data.direction is Down ==> vertical.negative()
            &&& data.direction is Left ==> !horizontal.negative()
            &&& data.direction is Right ==> horizontal.negative()
            &&& data.direction is Up || data.direction is Down <==> vertical.spec_magnitude()
                >= horizontal.spec_magnitude()
            &&& data.direction is Up || data.direction is Down ==> data.amount.bits
                == vertical.spec_magnitude()
            &&& data.direction is Left || data.direction is Right ==> data.amount.bits
                == horizontal.spec_magnitude()
        },
        data is None <==> !vertical.finite() || !horizontal.finite() || (vertical.spec_magnitude()
            == 0 && horizontal.spec_magnitude() == 0),
{
}

/// A clipboard event says of the clipboard what was read, no more and no less, and
/// keeps the kinds of content apart.
pub proof fn law_clipboard_events_keep_the_content(
    content: PasteboardContent,
    origin: ClipboardOrigin,
    field_kind: Option<FieldKind>,
    copy: ClipboardCopyData,
    paste: ClipboardPasteData,
)
    requires
        call_ensures(clipboard_copy, (content, origin), copy),
        call_ensures(clipboard_paste, (content, field_kind), paste),
    ensures
        copy.origin == origin,
        copy.text == content.text,
        copy.size_bytes == content.size_bytes,
        paste.field_kind == field_kind,
        paste.text == content.text,
        paste.size_bytes == content.size_bytes,
        copy.content_kind == paste.content_kind,
        copy.content_kind is Text <==> content.kind is Text,
        copy.content_kind is Image <==> content.kind is Image,
        copy.content_kind is File <==> content.kind is File,
        copy.content_kind is Other <==> content.kind is Other,
{
}

/// Every key with a name of one letter types, and so do space and the digits. Return, tab, escape, the deleting
/// keys, the keys that move and every key above the keypad type nothing.
pub proof fn law_typing_keys_are_told_apart(
    key_code: u16,
    types: bool,
    name: String,
    kind: PasteboardKind,
    told: ContentKind,
)
    requires
        call_ensures(is_text_keycode, (key_code,), types),
        call_ensures(key_name, (key_code,), name),
        call_ensures(content_kind, (kind,), told),
    ensures
        name@ == "return"@ <==> key_code == 0x24,
        name@ == "tab"@ <==> key_code == 0x30,
        name@ == "space"@ <==> key_code == 0x31,
        name@ == "delete"@ <==> key_code == 0x33,
        name@ == "escape"@ <==> key_code == 0x35,
        name@ == "home"@ <==> key_code == 0x73,
        name@ == "page_up"@ <==> key_code == 0x74,
        name@ == "forward_delete"@ <==> key_code == 0x75,
        name@ == "end"@ <==> key_code == 0x77,
        name@ == "page_down"@ <==> key_code == 0x79,
        name@ == "left"@ <==> key_code == 0x7b,
        name@ == "right"@ <==> key_code == 0x7c,
        name@ == "down"@ <==> key_code == 0x7d,
        name@ == "up"@ <==> key_code == 0x7e,
        name@.len() == 1 || key_code == 0x31 ==> types,
        0x12 <= key_code <= 0x1d || 0x52 <= key_code <= 0x59 || key_code == 0x5b || key_code == 0x5c
            ==> types,
        key_code == 0x24 || key_code == 0x30 || 0x33 <= key_code <= 0x40 || key_code == 0x42 || key_code
            == 0x44 || 0x46 <= key_code <= 0x4a || key_code == 0x4c || key_code == 0x4d || key_code == 0x4f
            || key_code == 0x50 || key_code == 0x5a || key_code >= 0x60 ==> !types,
        told is Text <==> kind is Text,
        told is Image <==> kind is Image,
        told is File <==> kind is File,
        told is Other <==> kind is Other,
{
    lemma_named_once(key_code, 0x24);
    lemma_named_once(key_code, 0x30);
    lemma_named_once(key_code, 0x31);
    lemma_named_once(key_code, 0x33);
    lemma_named_once(key_code, 0x35);
    lemma_named_once(key_code, 0x73);
    lemma_named_once(key_code, 0x74);
    lemma_named_once(key_code, 0x75);
    lemma_named_once(key_code, 0x77);
    lemma_named_once(key_code, 0x79);
    lemma_named_once(key_code, 0x7b);
    lemma_named_once(key_code, 0x7c);
    lemma_named_once(key_code, 0x7d);
    lemma_named_once(key_code, 0x7e);
    if !types {
        reveal_strlit("return");
        reveal_strlit("tab");
        reveal_strlit("delete");
        reveal_strlit("escape");
        reveal_strlit("home");
        reveal_strlit("page_up");
        reveal_strlit("forward_delete");
        reveal_strlit("end");
        reveal_strlit("page_down");
        reveal_strlit("left");
        reveal_strlit("right");
        reveal_strlit("down");
        reveal_strlit("up");
        reveal_strlit("key_");
        assert(name@.len() != 1);
    }
}

proof fn lemma_named_once(first: u16, second: u16)
    ensures
        name_of(first) == name_of(second) ==> first == second,
{
    if name_of(first) == name_of(second) {
        law_key_names_are_unique(first, second);
    }
}

} // verus!
