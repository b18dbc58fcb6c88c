//! Reading a window's content through accessibility.

use std::cell::Cell;

use zanei_macos::ax::snapshot::{
    ax_error, decode_attribute, AttributeOutcome, ChildValue, MultipleOutcome, NativeList,
    RangeOutcome, RawAttribute, SnapshotAttribute, SnapshotAttributeValue, SnapshotAxApplication,
    SnapshotAxElement, SnapshotAxError, AX_ERROR_CANNOT_COMPLETE,
};
use zanei_macos::ax::types::AxTextRange;
use zanei_macos::schema::DoubleBits;
use zanei_macos::window_list::{AxFrame, AxPoint, AxSize};

#[test]
fn snapshot_error_preserves_operation_code_and_pid() {
    let error = ax_error("operation", -25_206, 42);

    assert_eq!(error.operation(), "operation");
    assert_eq!(error.code(), -25_206);
    assert_eq!(error.pid(), 42);
    assert_eq!(
        error.message(),
        "operation failed with AXError -25206 for pid 42"
    );
    assert!(!error.is_timeout());
    assert!(ax_error("operation", AX_ERROR_CANNOT_COMPLETE, 42).is_timeout());
}

#[test]
fn snapshot_attribute_names_are_explicit() {
    assert_eq!(SnapshotAttribute::Role.name(), "AXRole");
    assert_eq!(SnapshotAttribute::Value.name(), "AXValue");
    assert_eq!(SnapshotAttribute::Position.name(), "AXPosition");
    assert_eq!(SnapshotAttribute::Size.name(), "AXSize");
}

fn ready() -> i32 {
    0
}

fn element() -> SnapshotAxElement {
    SnapshotAxElement::from_owned(42, 7, 0).expect("timeout set")
}

fn read<T>(value: T) -> AttributeOutcome<T> {
    AttributeOutcome { named: true, status: 0, value: Some(value) }
}

fn failed<T>(status: i32) -> AttributeOutcome<T> {
    AttributeOutcome { named: true, status, value: None }
}

fn parts<T: std::fmt::Debug>(result: Result<T, SnapshotAxError>) -> (&'static str, i32, i32) {
    let error = result.expect_err("must fail");
    (error.operation(), error.code(), error.pid())
}

fn double(value: f64) -> DoubleBits {
    DoubleBits { bits: value.to_bits() }
}

fn point() -> AxPoint {
    AxPoint { x: double(1.0), y: double(-2.5) }
}

fn size() -> AxSize {
    AxSize { width: double(640.0), height: double(480.0) }
}

#[test]
fn every_step_of_a_read_has_its_own_error() {
    let element = element();
    assert_eq!(element.window_number(&ready, |attribute| {
            assert_eq!(attribute, "AXWindowNumber");
            read(Some(11))
        }), Ok(Some(11)));
    assert_eq!(element.window_number(&ready, |_| failed(-25_205)), Ok(None));
    assert_eq!(element.window_number(&ready, |_| failed(-25_212)), Ok(None));
    assert_eq!(
        parts(element.window_number(&|| -25_204, |_| panic!("not read without a timeout"))),
        ("AXUIElementSetMessagingTimeout", -25_204, 42)
    );
    assert_eq!(
        parts(element.window_number(&ready, |_| AttributeOutcome {
            named: false,
            status: 0,
            value: None
        })),
        ("CFStringCreateWithCString", -1, 42)
    );
    assert_eq!(
        parts(element.window_number(&ready, |_| failed(-25_200))),
        ("AXUIElementCopyAttributeValue", -25_200, 42)
    );
    assert_eq!(
        parts(element.window_number(&ready, |_| failed(0))),
        ("AXUIElementCopyAttributeValue returned null", -1, 42)
    );
    assert_eq!(
        parts(element.window_number(&ready, |_| read(None))),
        ("AXWindowNumber type", -1, 42)
    );
}

#[test]
fn applications_and_windows_carry_their_process() {
    assert_eq!(
        parts(SnapshotAxApplication::new(42, None, 0)),
        ("AXUIElementCreateApplication", -1, 42)
    );
    assert_eq!(
        parts(SnapshotAxApplication::new(42, Some(1), -25_204)),
        ("AXUIElementSetMessagingTimeout", -25_204, 42)
    );
    let application = SnapshotAxApplication::new(42, Some(1), 0).expect("application");
    assert_eq!(application.pid(), 42);
    let window = application
        .focused_window(&ready, |attribute| {
            assert_eq!(attribute, "AXFocusedWindow");
            read(Some((9, 0)))
        })
        .expect("readable")
        .expect("window");
    assert_eq!((window.pid(), window.element()), (42, 9));
    assert_eq!(application.focused_window(&ready, |_| failed(-25_212)), Ok(None));
    assert_eq!(
        parts(application.focused_window(&ready, |_| read(None))),
        ("AX element attribute type", -1, 42)
    );
    assert_eq!(
        parts(application.focused_window(&ready, |_| read(Some((9, -25_202))))),
        ("AXUIElementSetMessagingTimeout", -25_202, 42)
    );
}

#[test]
fn children_are_read_by_range() {
    let element = element();
    let child = |element| ChildValue::Element { element, timeout_status: 0 };
    let children = element
        .children_range(3, 2, &ready, |attribute, from, count| {
            assert_eq!((attribute, from, count), ("AXChildren", 3, 2));
            read(NativeList::Values(vec![child(20), child(21)]))
        })
        .expect("children");
    assert_eq!(children.iter().map(|child| child.element()).collect::<Vec<_>>(), vec![20, 21]);
    assert_eq!(element.children_range(0, 2, &ready, |_, _, _| failed(-25_205)), Ok(vec![]));
    assert_eq!(
        parts(element.children_range(usize::MAX, 2, &ready, |_, _, _| panic!("not read"))),
        ("AX children range index", -1, 42)
    );
    assert_eq!(
        parts(element.children_range(0, usize::MAX, &ready, |_, _, _| panic!("not read"))),
        ("AX children range count", -1, 42)
    );
    assert_eq!(
        parts(element.children_range(0, 2, &ready, |_, _, _| failed(-25_204))),
        ("AXUIElementCopyAttributeValues", -25_204, 42)
    );
    assert_eq!(
        parts(element.children_range(0, 2, &ready, |_, _, _| read(NativeList::Foreign))),
        ("CFArray result type", -1, 42)
    );
    assert_eq!(
        parts(element.children_range(0, 2, &ready, |_, _, _| read(NativeList::Uncounted))),
        ("CFArrayGetCount", -1, 42)
    );
    let broken = |value| NativeList::Values(vec![child(20), value, ChildValue::Null]);
    assert_eq!(
        parts(element.children_range(0, 3, &ready, |_, _, _| read(broken(ChildValue::Foreign)))),
        ("AX children element type", -1, 42)
    );
    assert_eq!(
        parts(element.children_range(0, 3, &ready, |_, _, _| read(broken(ChildValue::Null)))),
        ("CFArrayGetValueAtIndex", -1, 42)
    );
    let slow = ChildValue::Element { element: 21, timeout_status: -25_202 };
    assert_eq!(
        parts(element.children_range(0, 3, &ready, |_, _, _| read(broken(slow)))),
        ("AXUIElementSetMessagingTimeout", -25_202, 42)
    );
}

fn multiple(values: Vec<Option<RawAttribute>>) -> MultipleOutcome {
    MultipleOutcome {
        named: true,
        listed: true,
        status: 0,
        values: Some(NativeList::Values(values)),
    }
}

#[test]
fn attributes_read_together_are_decoded_one_by_one() {
    let element = element();
    let attributes =
        vec![SnapshotAttribute::Role, SnapshotAttribute::Title, SnapshotAttribute::Value];
    let results = element
        .copy_multiple(&attributes, &ready, |names| {
            assert_eq!(names.len(), 3);
            multiple(vec![
                Some(RawAttribute::Text("AXButton".to_owned())),
                Some(RawAttribute::Error(Some(-25_212))),
                Some(RawAttribute::Error(Some(-25_204))),
            ])
        })
        .expect("attributes");
    assert_eq!(results[0], Ok(Some(SnapshotAttributeValue::Text("AXButton".to_owned()))));
    assert_eq!(results[1], Ok(None));
    assert_eq!(results[2], Err(ax_error("AXValue", -25_204, 42)));
    assert_eq!(
        parts(element.copy_multiple(&attributes, &ready, |_| multiple(vec![]))),
        ("AX multiple attribute result count", -1, 42)
    );
    assert_eq!(
        parts(element.copy_multiple(&attributes, &ready, |_| multiple(vec![None, None, None]))),
        ("CFArrayGetValueAtIndex", -1, 42)
    );
    let outcome = |named, listed, status| MultipleOutcome { named, listed, status, values: None };
    assert_eq!(
        parts(element.copy_multiple(&attributes, &ready, |_| outcome(false, false, 0))),
        ("CFStringCreateWithCString", -1, 42)
    );
    assert_eq!(
        parts(element.copy_multiple(&attributes, &ready, |_| outcome(true, false, 0))),
        ("CFArrayCreate", -1, 42)
    );
    assert_eq!(
        parts(element.copy_multiple(&attributes, &ready, |_| outcome(true, true, -25_205))),
        ("AXUIElementCopyMultipleAttributeValues", -25_205, 42)
    );
    assert_eq!(
        parts(element.copy_multiple(&attributes, &ready, |_| outcome(true, true, 0))),
        ("AXUIElementCopyMultipleAttributeValues returned null", -1, 42)
    );
}

#[test]
fn frames_need_both_parts() {
    let element = element();
    let frame = |position, size| {
        element.frame(&ready, |names| {
            assert_eq!(names, &vec![SnapshotAttribute::Position, SnapshotAttribute::Size]);
            multiple(vec![Some(position), Some(size)])
        })
    };
    assert_eq!(
        frame(RawAttribute::Point(point()), RawAttribute::Size(size())),
        Ok(Some(AxFrame { origin: point(), size: size() }))
    );
    assert_eq!(frame(RawAttribute::Null, RawAttribute::Null), Ok(None));
    assert_eq!(
        parts(frame(RawAttribute::Point(point()), RawAttribute::Null)),
        ("AX frame result", -1, 42)
    );
    assert_eq!(
        parts(frame(RawAttribute::Size(size()), RawAttribute::Size(size()))),
        ("AXPosition type", -1, 42)
    );
    assert_eq!(
        parts(frame(RawAttribute::Point(point()), RawAttribute::Other)),
        ("AXSize type", -1, 42)
    );
    assert_eq!(
        parts(decode_attribute(SnapshotAttribute::Role, RawAttribute::Error(None), 42)),
        ("AXValueGetValue error", -1, 42)
    );
    assert_eq!(
        parts(decode_attribute(SnapshotAttribute::Title, RawAttribute::Other, 42)),
        ("AXTitle", -1, 42)
    );
}

#[test]
fn visible_text_needs_its_range() {
    let element = element();
    let range = AxTextRange { location: 5, length: 3 };
    let string = |value: Option<&str>| RangeOutcome {
        range_created: true,
        read: read(value.map(str::to_owned)),
    };
    let timeouts = Cell::new(0);
    let set_timeout = || {
        timeouts.set(timeouts.get() + 1);
        0
    };
    let text = element.visible_text(
        &set_timeout,
        |attribute| {
            assert_eq!(attribute, "AXVisibleCharacterRange");
            read(Some(range))
        },
        |attribute, asked| {
            assert_eq!((attribute, asked), ("AXStringForRange", range));
            string(Some("abc"))
        },
    );
    assert_eq!(text, Ok(Some("abc".to_owned())));
    assert_eq!(timeouts.get(), 2);
    assert_eq!(
        element.visible_text(&ready, |_| failed(-25_205), |_, _| panic!("no range")),
        Ok(None)
    );
    assert_eq!(
        parts(element.visible_text(&ready, |_| read(None), |_, _| panic!("no range"))),
        ("AXVisibleCharacterRange type", -1, 42)
    );
    assert_eq!(
        parts(element.visible_text(&ready, |_| read(Some(range)), |_, _| string(None))),
        ("AXStringForRange type", -1, 42)
    );
    let outcome = |range_created, status| RangeOutcome { range_created, read: failed(status) };
    assert_eq!(
        parts(element.string_for_range(range, &ready, |_, _| outcome(false, 0))),
        ("AXValueCreate range", -1, 42)
    );
    assert_eq!(element.string_for_range(range, &ready, |_, _| outcome(true, -25_212)), Ok(None));
    assert_eq!(
        parts(element.string_for_range(range, &ready, |_, _| outcome(true, -25_204))),
        ("AXUIElementCopyParameterizedAttributeValue", -25_204, 42)
    );
    assert_eq!(
        parts(element.string_for_range(range, &ready, |_, _| outcome(true, 0))),
        ("AXStringForRange returned null", -1, 42)
    );
}
