//! Windows on the screen and the frames that name them.

use zanei_macos::schema::DoubleBits;
use zanei_macos::window_list::{
    front_window, on_screen_windows, same_window, window_id, window_id_for_frame_in_windows,
    AxFrame, AxPoint, AxSize, NativeWindow, OnScreenWindow, WindowEntry,
};

fn double(value: f64) -> DoubleBits {
    DoubleBits { bits: value.to_bits() }
}

fn value(double: DoubleBits) -> f64 {
    f64::from_bits(double.bits)
}

/// Whether all four edges lie within one point of each other.
fn near(left: AxFrame, right: AxFrame) -> bool {
    let edges = |frame: AxFrame| {
        let (x, y) = (value(frame.origin.x), value(frame.origin.y));
        [x, y, x + value(frame.size.width), y + value(frame.size.height)]
    };
    edges(left).iter().zip(edges(right)).all(|(one, other)| (one - other).abs() <= 1.0)
}

fn frame() -> AxFrame {
    AxFrame {
        origin: AxPoint { x: double(10.0), y: double(20.0) },
        size: AxSize {
            width: double(100.0),
            height: double(200.0),
        },
    }
}

fn window(id: i64, layer: i64, bounds: AxFrame) -> OnScreenWindow {
    OnScreenWindow {
        id,
        layer,
        title: None,
        bounds,
    }
}

fn rect(x: f64, y: f64, width: f64, height: f64) -> AxFrame {
    AxFrame {
        origin: AxPoint { x: double(x), y: double(y) },
        size: AxSize { width: double(width), height: double(height) },
    }
}

#[test]
fn exact_frame_match_returns_window_id() {
    let windows = vec![window(42, 0, rect(10.0, 20.0, 100.0, 200.0))];

    assert_eq!(window_id_for_frame_in_windows(&windows, |bounds| near(bounds, frame())), Some(42));
}

#[test]
fn frame_edges_match_at_one_point_tolerance() {
    let windows = vec![window(42, 0, rect(9.0, 21.0, 102.0, 198.0))];

    assert_eq!(window_id_for_frame_in_windows(&windows, |bounds| near(bounds, frame())), Some(42));
}

#[test]
fn nonzero_layer_is_ignored() {
    let windows = vec![window(42, 1, rect(10.0, 20.0, 100.0, 200.0))];

    assert_eq!(window_id_for_frame_in_windows(&windows, |bounds| near(bounds, frame())), None);
}

#[test]
fn first_matching_window_is_frontmost() {
    let bounds = rect(10.0, 20.0, 100.0, 200.0);
    let windows = vec![window(42, 0, bounds), window(84, 0, bounds)];

    assert_eq!(window_id_for_frame_in_windows(&windows, |bounds| near(bounds, frame())), Some(42));
}

#[test]
fn frame_without_matching_edges_returns_none() {
    let windows = vec![window(42, 0, rect(8.9, 20.0, 100.0, 200.0))];

    assert_eq!(window_id_for_frame_in_windows(&windows, |bounds| near(bounds, frame())), None);
}

fn entry(owner_pid: i64, id: i64, layer: i64) -> WindowEntry {
    WindowEntry {
        owner_pid: Some(owner_pid),
        id: Some(id),
        layer: Some(layer),
        title: Some(format!("window {id}")),
        bounds: Some(frame()),
    }
}

#[test]
fn windows_of_a_process_keep_their_order() {
    let entries = vec![
        entry(8, 1, 0),
        entry(7, 2, 3),
        entry(7, 3, 0),
        WindowEntry { id: None, ..entry(7, 4, 0) },
        WindowEntry { bounds: None, ..entry(7, 5, 0) },
        entry(7, 6, 0),
    ];
    let windows = on_screen_windows(7, &entries);
    let ids: Vec<i64> = windows.iter().map(|window| window.id).collect();
    assert_eq!(ids, vec![2, 3, 6]);
    let front = front_window(&windows);
    assert_eq!(window_id(&front), Some(3));
    assert_eq!(front.and_then(|window| window.title), Some("window 3".to_owned()));
}

#[test]
fn windows_are_compared_by_title_and_number() {
    let window = |title: &str, id: i64| {
        Some(NativeWindow { title: Some(title.to_owned()), id: Some(id) })
    };
    assert!(same_window(&window("a", 1), &window("a", 1)));
    assert!(!same_window(&window("a", 1), &window("b", 1)));
    assert!(!same_window(&window("a", 1), &window("a", 2)));
    assert!(!same_window(&window("a", 1), &None));
    assert!(same_window(&None, &None));
}

#[test]
fn frames_compare_as_numbers() {
    let zero = AxPoint { x: double(0.0), y: double(-0.0) };
    assert_eq!(zero, AxPoint { x: double(-0.0), y: double(0.0) });
    let nowhere = AxSize { width: double(f64::NAN), height: double(1.0) };
    assert_ne!(nowhere, nowhere);
    assert_eq!(double(f64::INFINITY), double(f64::INFINITY));
    assert_ne!(double(f64::INFINITY), double(f64::NEG_INFINITY));
    assert_ne!(double(1.0), double(-1.0));
    assert_eq!(frame(), frame());
}
