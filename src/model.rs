use vstd::prelude::*;

verus! {

/// Where a window sits and how large it is.
pub struct WindowLayout {
    /// Column and row (both counted from 1) under the scrolling layout, if the
    /// window is tiled there.
    pub pos_in_scrolling_layout: Option<(usize, usize)>,
    /// Width and height of the window, in logical pixels.
    pub window_size: (i32, i32),
}

/// A snapshot of one window as the compositor reports it.
pub struct Window {
    pub id: u64,
    pub app_id: Option<String>,
    pub workspace_id: Option<u64>,
    pub is_focused: bool,
    pub is_floating: bool,
    pub layout: WindowLayout,
}

/// A snapshot of one workspace.
pub struct Workspace {
    pub id: u64,
    pub is_focused: bool,
}

/// `i` is the first position of `s` whose element satisfies `p`.
pub open spec fn is_first_where<T>(s: Seq<T>, p: spec_fn(T) -> bool, i: int) -> bool {
    &&& 0 <= i < s.len()
    &&& p(s[i])
    &&& forall|j: int| 0 <= j < i ==> !p(#[trigger] s[j])
}

/// No element of `s` satisfies `p`.
pub open spec fn none_where<T>(s: Seq<T>, p: spec_fn(T) -> bool) -> bool {
    forall|j: int| 0 <= j < s.len() ==> !p(#[trigger] s[j])
}

/// The first element of `s` that satisfies `p`, if any.
pub open spec fn first_where<T>(s: Seq<T>, p: spec_fn(T) -> bool) -> Option<T> {
    if exists|i: int| is_first_where(s, p, i) {
        Some(s[choose|i: int| is_first_where(s, p, i)])
    } else {
        None
    }
}

/// The first position that satisfies `p` is unique.
pub proof fn lemma_first_where_unique<T>(s: Seq<T>, p: spec_fn(T) -> bool, i: int, k: int)
    requires
        is_first_where(s, p, i),
        is_first_where(s, p, k),
    ensures
        i == k,
{
    if i < k {
        assert(!p(s[i]));
    } else if k < i {
        assert(!p(s[k]));
    }
}

/// Once a first satisfying position is known, `first_where` is its element.
pub proof fn lemma_first_where_at<T>(s: Seq<T>, p: spec_fn(T) -> bool, i: int)
    requires
        is_first_where(s, p, i),
    ensures
        first_where(s, p) == Some(s[i]),
{
    let k = choose|k: int| is_first_where(s, p, k);
    lemma_first_where_unique(s, p, i, k);
}

/// Where any element satisfies `p`, a first one does.
pub proof fn lemma_first_where_exists<T>(s: Seq<T>, p: spec_fn(T) -> bool, k: int)
    requires
        0 <= k < s.len(),
        p(s[k]),
    ensures
        exists|i: int| is_first_where(s, p, i),
    decreases k,
{
    if exists|j: int| 0 <= j < k && p(#[trigger] s[j]) {
        let j = choose|j: int| 0 <= j < k && p(#[trigger] s[j]);
        lemma_first_where_exists(s, p, j);
    } else {
        assert(is_first_where(s, p, k));
    }
}

/// All elements of `s` that satisfy `p` are one and the same value.
pub open spec fn single_where<T>(s: Seq<T>, p: spec_fn(T) -> bool) -> bool {
    forall|i: int, j: int|
        0 <= i < s.len() && 0 <= j < s.len() && p(#[trigger] s[i]) && p(#[trigger] s[j]) ==> s[i]
            == s[j]
}

/// Two sequences with the same elements, where the elements satisfying `p`
/// are all one value, have the same first such element.
pub proof fn lemma_first_where_by_contents<T>(a: Seq<T>, b: Seq<T>, p: spec_fn(T) -> bool)
    requires
        forall|x: T| a.contains(x) <==> b.contains(x),
        single_where(a, p),
    ensures
        first_where(a, p) == first_where(b, p),
{
    if exists|k: int| 0 <= k < a.len() && p(#[trigger] a[k]) {
        let k = choose|k: int| 0 <= k < a.len() && p(#[trigger] a[k]);
        lemma_first_where_exists(a, p, k);
        let i = choose|i: int| is_first_where(a, p, i);
        lemma_first_where_at(a, p, i);
        assert(a.contains(a[i]));
        assert(b.contains(a[i]));
        let kb = choose|kb: int| 0 <= kb < b.len() && b[kb] == a[i];
        lemma_first_where_exists(b, p, kb);
        let ib = choose|ib: int| is_first_where(b, p, ib);
        lemma_first_where_at(b, p, ib);
        assert(b.contains(b[ib]));
        assert(a.contains(b[ib]));
        let ka = choose|ka: int| 0 <= ka < a.len() && a[ka] == b[ib];
        assert(a[ka] == a[i]);
    } else {
        assert forall|kb: int| 0 <= kb < b.len() implies !p(#[trigger] b[kb]) by {
            assert(b.contains(b[kb]));
            assert(a.contains(b[kb]));
        }
        assert(!exists|i: int| is_first_where(a, p, i));
        assert(!exists|i: int| is_first_where(b, p, i));
    }
}

/// `w` reports column `column` under the scrolling layout.
pub open spec fn in_column(w: Window, column: usize) -> bool {
    match w.layout.pos_in_scrolling_layout {
        Some(pos) => pos.0 == column,
        None => false,
    }
}

/// Holds of a focused window.
pub open spec fn focused_pred() -> spec_fn(Window) -> bool {
    |w: Window| w.is_focused
}

/// Holds of a window of workspace `ws` in column `column`.
pub open spec fn column_pred(ws: u64, column: usize) -> spec_fn(Window) -> bool {
    |w: Window| w.workspace_id == Some(ws) && in_column(w, column)
}

/// The workspace of the first focused window, where that window has one.
pub open spec fn focused_window_workspace(windows: Seq<Window>) -> Option<u64> {
    match first_where(windows, focused_pred()) {
        Some(w) => w.workspace_id,
        None => None,
    }
}

/// The first window of workspace `ws` in column `column`.
pub open spec fn window_in_column(windows: Seq<Window>, ws: u64, column: usize) -> Option<Window> {
    first_where(windows, column_pred(ws, column))
}

/// Master (column 1) and slave (column 2) of the focused window's workspace.
pub open spec fn master_slave(windows: Seq<Window>) -> (Option<Window>, Option<Window>) {
    match focused_window_workspace(windows) {
        Some(ws) => (window_in_column(windows, ws, 1), window_in_column(windows, ws, 2)),
        None => (None, None),
    }
}

/// Holds of a focused workspace.
pub open spec fn focused_workspace_pred() -> spec_fn(Workspace) -> bool {
    |w: Workspace| w.is_focused
}

/// The id of the first focused workspace, if any workspace is focused.
pub open spec fn focused_workspace_id(workspaces: Seq<Workspace>) -> Option<u64> {
    match first_where(workspaces, focused_workspace_pred()) {
        Some(w) => Some(w.id),
        None => None,
    }
}

/// `w` is tiled (not floating) on workspace `ws`.
pub open spec fn is_tiled_on(w: Window, ws: u64) -> bool {
    w.workspace_id == Some(ws) && !w.is_floating
}

/// The ids of the windows tiled on workspace `ws`, in snapshot order.
pub open spec fn tiled_ids(windows: Seq<Window>, ws: u64) -> Seq<u64>
    decreases windows.len(),
{
    if windows.len() == 0 {
        Seq::empty()
    } else {
        let rest = tiled_ids(windows.drop_last(), ws);
        if is_tiled_on(windows.last(), ws) {
            rest.push(windows.last().id)
        } else {
            rest
        }
    }
}

/// The ids of the windows tiled on the focused workspace, or nothing when no
/// workspace is focused.
pub open spec fn focused_tiled_ids(windows: Seq<Window>, workspaces: Seq<Workspace>) -> Option<
    Seq<u64>,
> {
    match focused_workspace_id(workspaces) {
        Some(ws) => Some(tiled_ids(windows, ws)),
        None => None,
    }
}

/// The window a borrowed result points at.
pub open spec fn deref_window(o: Option<&Window>) -> Option<Window> {
    match o {
        Some(w) => Some(*w),
        None => None,
    }
}

} // verus!
