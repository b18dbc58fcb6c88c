//! On-screen windows and the identity that events give them.

use vstd::prelude::*;

use crate::schema::{DoubleBits, Window};
use crate::text;
use crate::text::{as_text, copy_text, same_text};

verus! {

/// A point on the screen.
#[derive(Clone, Copy, Debug, PartialEq)]
pub struct AxPoint {
    pub x: DoubleBits,
    pub y: DoubleBits,
}

/// The extent of a rectangle.
#[derive(Clone, Copy, Debug, PartialEq)]
pub struct AxSize {
    pub width: DoubleBits,
    pub height: DoubleBits,
}

/// A rectangle on the screen.
#[derive(Clone, Copy, Debug, PartialEq)]
pub struct AxFrame {
    pub origin: AxPoint,
    pub size: AxSize,
}

/// A window as the native side reports it.
#[derive(Debug, PartialEq, Eq)]
pub struct NativeWindow {
    pub title: Option<String>,
    pub id: Option<i64>,
}

impl Clone for NativeWindow {
    fn clone(&self) -> (copy: NativeWindow)
        ensures
            copy == *self,
    {
        NativeWindow { title: copy_text(&self.title), id: self.id }
    }
}

impl NativeWindow {
    /// The window as events name it.
    pub fn to_window(&self) -> (window: Window)
        ensures
            window == (Window { title: self.title, id: self.id }),
    {
        Window { title: copy_text(&self.title), id: self.id }
    }
}

/// The identifier of an optional window.
pub open spec fn window_id_of(window: Option<NativeWindow>) -> Option<i64> {
    match window {
        Some(window) => window.id,
        None => None,
    }
}

/// The title of an optional window.
pub open spec fn window_title_of(window: Option<NativeWindow>) -> Option<Seq<char>> {
    match window {
        Some(window) => text::text_view(window.title),
        None => None,
    }
}

/// Whether two optional windows are both missing or the same.
pub open spec fn equal_windows(left: Option<NativeWindow>, right: Option<NativeWindow>) -> bool {
    &&& left is Some <==> right is Some
    &&& window_id_of(left) == window_id_of(right)
    &&& window_title_of(left) == window_title_of(right)
}

/// A copy of an optional window.
pub fn copy_window(window: &Option<NativeWindow>) -> (copy: Option<NativeWindow>)
    ensures
        copy == *window,
{
    match window {
        Some(window) => Some(window.clone()),
        None => None,
    }
}

/// The identifier of an optional window.
pub fn window_id(window: &Option<NativeWindow>) -> (id: Option<i64>)
    ensures
        id == window_id_of(*window),
{
    match window {
        Some(window) => window.id,
        None => None,
    }
}

/// The title of an optional window.
pub fn window_title(window: &Option<NativeWindow>) -> (title: Option<&str>)
    ensures
        text::str_view(title) == window_title_of(*window),
{
    match window {
        Some(window) => as_text(&window.title),
        None => None,
    }
}

/// Whether two numbers are both missing or equal.
pub fn same_number(left: Option<i64>, right: Option<i64>) -> (same: bool)
    ensures
        same == (left == right),
{
    match (left, right) {
        (Some(a), Some(b)) => a == b,
        (None, None) => true,
        _ => false,
    }
}

/// Whether the titles of two optional windows are the same.
pub fn same_title(left: &Option<NativeWindow>, right: &Option<NativeWindow>) -> (same: bool)
    ensures
        same == (window_title_of(*left) == window_title_of(*right)),
{
    match (left, right) {
        (Some(a), Some(b)) => same_text(&a.title, &b.title),
        (Some(a), None) => a.title.is_none(),
        (None, Some(b)) => b.title.is_none(),
        (None, None) => true,
    }
}

/// Whether two optional windows are both missing or the same.
pub fn same_window(left: &Option<NativeWindow>, right: &Option<NativeWindow>) -> (same: bool)
    ensures
        same == equal_windows(*left, *right),
{
    left.is_some() == right.is_some() && same_number(window_id(left), window_id(right))
        && same_title(left, right)
}

/// A window on the screen, front to back in its list.
#[derive(Debug, PartialEq)]
pub struct OnScreenWindow {
    pub id: i64,
    pub layer: i64,
    pub title: Option<String>,
    pub bounds: AxFrame,
}

/// What the window server tells of one window, as far as it could be read.
#[derive(Debug, PartialEq)]
pub struct WindowEntry {
    pub owner_pid: Option<i64>,
    pub id: Option<i64>,
    pub layer: Option<i64>,
    pub title: Option<String>,
    pub bounds: Option<AxFrame>,
}

/// Whether an entry is a complete window of the process.
pub open spec fn listed(entry: WindowEntry, pid: i64) -> bool {
    &&& entry.owner_pid == Some(pid)
    &&& entry.id is Some
    &&& entry.layer is Some
    &&& entry.bounds is Some
}

/// The window that a complete entry describes.
pub open spec fn window_of(entry: WindowEntry) -> OnScreenWindow {
    OnScreenWindow {
        id: entry.id->0,
        layer: entry.layer->0,
        title: entry.title,
        bounds: entry.bounds->0,
    }
}

/// The windows of one process, in the order of the list. Entries of other
/// processes and entries that lack an identifier, a layer or bounds are left out.
pub fn on_screen_windows(pid: i64, entries: &Vec<WindowEntry>) -> (windows: Vec<OnScreenWindow>)
    ensures
        windows@ == entries@.filter(|entry: WindowEntry| listed(entry, pid)).map_values(
            |entry: WindowEntry| window_of(entry),
        ),
{
    let mut windows: Vec<OnScreenWindow> = Vec::new();
    let mut index: usize = 0;
    let ghost keep = |entry: WindowEntry| listed(entry, pid);
    let ghost describe = |entry: WindowEntry| window_of(entry);
    assert(entries@.take(0).filter(keep).map_values(describe) =~= Seq::empty()) by {
        reveal(Seq::filter);
    }
    while index < entries.len()
        invariant
            keep == (|entry: WindowEntry| listed(entry, pid)),
            describe == (|entry: WindowEntry| window_of(entry)),
            0 <= index <= entries.len(),
            windows@ == entries@.take(index as int).filter(keep).map_values(describe),
        decreases entries.len() - index,
    {
        let entry = &entries[index];
        proof {
            reveal(Seq::filter);
            assert(entries@.take(index + 1).drop_last() =~= entries@.take(index as int));
            assert(entries@.take(index + 1).last() == entry);
        }
        let owned = match entry.owner_pid {
            Some(owner) => owner == pid,
            None => false,
        };
        if owned {
            match (entry.id, entry.layer, entry.bounds) {
                (Some(id), Some(layer), Some(bounds)) => {
                    windows.push(
                        OnScreenWindow { id, layer, title: copy_text(&entry.title), bounds },
                    );
                },
                _ => {},
            }
        }
        index = index + 1;
        assert(windows@ =~= entries@.take(index as int).filter(keep).map_values(describe));
    }
    assert(entries@.take(index as int) =~= entries@);
    windows
}

/// The frontmost window of the ordinary layer.
pub fn front_window(windows: &Vec<OnScreenWindow>) -> (front: Option<NativeWindow>)
    ensures
        front is None <==> forall|i: int|
            0 <= i < windows@.len() ==> (#[trigger] windows@[i]).layer != 0,
        front matches Some(window) ==> exists|i: int|
            #![trigger windows@[i]]
            {
                &&& 0 <= i < windows@.len()
                &&& windows@[i].layer == 0
                &&& forall|j: int| 0 <= j < i ==> (#[trigger] windows@[j]).layer != 0
                &&& window == (NativeWindow {
                    title: windows@[i].title,
                    id: Some(windows@[i].id),
                })
            },
{
    let mut index: usize = 0;
    while index < windows.len()
        invariant
            0 <= index <= windows.len(),
            forall|j: int| 0 <= j < index ==> (#[trigger] windows@[j]).layer != 0,
        decreases windows.len() - index,
    {
        if windows[index].layer == 0 {
            let front = NativeWindow {
                title: copy_text(&windows[index].title),
                id: Some(windows[index].id),
            };
            assert(windows@[index as int].layer == 0);
            return Some(front);
        }
        index = index + 1;
    }
    None
}

/// The identifier of the first ordinary window whose bounds match a frame.
///
/// `matches_frame` tells whether the bounds of a window match; it is asked only
/// for windows of the ordinary layer.
pub fn window_id_for_frame_in_windows<F: Fn(AxFrame) -> bool>(
    windows: &Vec<OnScreenWindow>,
    matches_frame: F,
) -> (found: Option<i64>)
    requires
        forall|i: int|
            0 <= i < windows@.len() && (#[trigger] windows@[i]).layer == 0 ==> call_requires(
                matches_frame,
                (windows@[i].bounds,),
            ),
    ensures
        found matches Some(id) ==> exists|i: int|
            #![trigger windows@[i]]
            {
                &&& 0 <= i < windows@.len()
                &&& windows@[i].id == id
                &&& windows@[i].layer == 0
                &&& call_ensures(matches_frame, (windows@[i].bounds,), true)
                &&& forall|j: int|
                    0 <= j < i ==> skipped(matches_frame, #[trigger] windows@[j])
            },
        found is None ==> forall|j: int|
            0 <= j < windows@.len() ==> skipped(matches_frame, #[trigger] windows@[j]),
{
    let mut index: usize = 0;
    while index < windows.len()
        invariant
            forall|i: int|
                0 <= i < windows@.len() && (#[trigger] windows@[i]).layer == 0 ==> call_requires(
                    matches_frame,
                    (windows@[i].bounds,),
                ),
            0 <= index <= windows.len(),
            forall|j: int| 0 <= j < index ==> skipped(matches_frame, #[trigger] windows@[j]),
        decreases windows.len() - index,
    {
        if windows[index].layer == 0 && matches_frame(windows[index].bounds) {
            assert(windows@[index as int].layer == 0);
            return Some(windows[index].id);
        }
        index = index + 1;
    }
    None
}

/// Whether a window is passed over: another layer, or bounds that do not match.
pub open spec fn skipped<F: Fn(AxFrame) -> bool>(matches_frame: F, window: OnScreenWindow) -> bool {
    window.layer != 0 || call_ensures(matches_frame, (window.bounds,), false)
}

/// A window belongs to a list exactly where its owner is the process and its number, layer and bounds
/// are known; it keeps them, and its title.
pub proof fn law_listed_windows_belong_to_their_process(
    pid: i64,
    entries: Vec<WindowEntry>,
    windows: Vec<OnScreenWindow>,
    index: int,
)
    requires
        call_ensures(on_screen_windows, (pid, &entries), windows),
    ensures
        windows@.len() <= entries@.len(),
        0 <= index < windows@.len() ==> exists|i: int|
            {
                &&& 0 <= i < entries@.len()
                &&& (#[trigger] entries@[i]).owner_pid == Some(pid)
                &&& entries@[i].id == Some(windows@[index].id)
                &&& entries@[i].layer == Some(windows@[index].layer)
                &&& entries@[i].bounds == Some(windows@[index].bounds)
                &&& entries@[i].title == windows@[index].title
            },
        0 <= index < entries@.len() && entries@[index].owner_pid == Some(pid)
            && entries@[index].id is Some && entries@[index].layer is Some
            && entries@[index].bounds is Some ==> exists|i: int|
            0 <= i < windows@.len() && Some((#[trigger] windows@[i]).id) == entries@[index].id,
{
    let keep = |entry: WindowEntry| listed(entry, pid);
    let kept = entries@.filter(keep);
    lemma_kept(entries@, keep);
    if 0 <= index < windows@.len() {
        assert(kept.contains(kept[index]));
        let i = choose|i: int| 0 <= i < entries@.len() && entries@[i] == kept[index];
        assert(entries@[i].owner_pid == Some(pid));
    }
    if 0 <= index < entries@.len() && keep(entries@[index]) {
        assert(entries@.contains(entries@[index]));
        assert(kept.contains(entries@[index]));
        let i = choose|i: int| 0 <= i < kept.len() && kept[i] == entries@[index];
        assert(windows@[i].id == entries@[index].id->0);
    }
}

proof fn lemma_kept(entries: Seq<WindowEntry>, keep: spec_fn(WindowEntry) -> bool)
    ensures
        entries.filter(keep).len() <= entries.len(),
        forall|entry: WindowEntry| #[trigger]
            entries.filter(keep).contains(entry) <==> entries.contains(entry) && keep(entry),
    decreases entries.len(),
{
    reveal(Seq::filter);
    if entries.len() > 0 {
        let init = entries.drop_last();
        let last = entries.last();
        lemma_kept(init, keep);
        let kept = init.filter(keep);
        assert(entries =~= init.push(last));
        assert forall|entry: WindowEntry| #[trigger]
            entries.filter(keep).contains(entry) <==> entries.contains(entry) && keep(entry) by {
            if entries.contains(entry) && keep(entry) {
                if init.contains(entry) {
                    assert(kept.contains(entry));
                    let i = choose|i: int| 0 <= i < kept.len() && kept[i] == entry;
                    assert(entries.filter(keep)[i] == entry);
                } else {
                    assert(entry == last);
                    assert(entries.filter(keep)[kept.len() as int] == last);
                }
            }
            if entries.filter(keep).contains(entry) {
                let i = choose|i: int|
                    0 <= i < entries.filter(keep).len() && entries.filter(keep)[i] == entry;
                if i < kept.len() {
                    assert(kept.contains(entry));
                    let k = choose|k: int| 0 <= k < init.len() && init[k] == entry;
                    assert(entries[k] == entry);
                } else {
                    assert(entries[entries.len() - 1] == entry);
                }
            }
        }
    }
}

/// The front window is the first one of the ordinary layer; windows of other layers never are.
pub proof fn law_the_front_window_is_ordinary(
    windows: Vec<OnScreenWindow>,
    front: Option<NativeWindow>,
    index: int,
)
    requires
        call_ensures(front_window, (&windows,), front),
        0 <= index < windows@.len() && windows@[index].layer == 0,
        forall|i: int| 0 <= i < index ==> (#[trigger] windows@[i]).layer != 0,
    ensures
        front is Some,
        front->0.id == Some(windows@[index].id),
        front->0.title == windows@[index].title,
{
    if front is Some {
        let i = choose|i: int|
            {
                &&& 0 <= i < windows@.len()
                &&& (#[trigger] windows@[i]).layer == 0
                &&& forall|j: int| 0 <= j < i ==> (#[trigger] windows@[j]).layer != 0
                &&& front->0 == (NativeWindow {
                    title: windows@[i].title,
                    id: Some(windows@[i].id),
                })
            };
        assert(i == index) by {
            if i < index {
                assert(windows@[i].layer != 0);
            } else if index < i {
                assert(windows@[index].layer != 0);
            }
        }
    }
}

/// A window is found by its frame only among those of the ordinary layer, and only where the frame
/// fits; nothing is found only where no frame of such a window fits.
pub proof fn law_frames_find_ordinary_windows<F: Fn(AxFrame) -> bool>(
    windows: Vec<OnScreenWindow>,
    matches_frame: F,
    found: Option<i64>,
    index: int,
)
    requires
        call_ensures(window_id_for_frame_in_windows::<F>, (&windows, matches_frame), found),
        0 <= index < windows@.len(),
    ensures
        found matches Some(id) ==> exists|i: int|
            0 <= i < windows@.len() && (#[trigger] windows@[i]).id == id && windows@[i].layer == 0
                && call_ensures(matches_frame, (windows@[i].bounds,), true),
        found is None && windows@[index].layer == 0 ==> call_ensures(
            matches_frame,
            (windows@[index].bounds,),
            false,
        ),
{
}

/// Two windows are the same where both are missing, or both are there with the same number and title.
pub proof fn law_windows_are_told_by_number_and_title(
    left: Option<NativeWindow>,
    right: Option<NativeWindow>,
    same: bool,
)
    requires
        call_ensures(same_window, (&left, &right), same),
    ensures
        left is None && right is None ==> same,
        left is Some != right is Some ==> !same,
        left is Some && right is Some ==> (same <==> left->0.id == right->0.id && text::text_view(
            left->0.title,
        ) == text::text_view(right->0.title)),
{
}

/// A window is told by its own title and number; without a window there is neither.
pub proof fn law_windows_tell_title_and_number(
    window: NativeWindow,
    told: Window,
    shown: Option<NativeWindow>,
    id: Option<i64>,
    title: Option<&str>,
)
    requires
        call_ensures(NativeWindow::to_window, (&window,), told),
        call_ensures(window_id, (&shown,), id),
        call_ensures(window_title, (&shown,), title),
    ensures
        told.title == window.title && told.id == window.id,
        shown is None ==> id is None && title is None,
        shown is Some ==> id == shown->0.id && (title is Some <==> shown->0.title is Some),
        shown is Some && title is Some ==> title->0@ == shown->0.title->0@,
{
}

} // verus!
