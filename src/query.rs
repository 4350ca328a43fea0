use vstd::prelude::*;

use crate::action::{center_window, Action};
use crate::model::{
    column_pred, deref_window, first_where, focused_pred, focused_tiled_ids,
    focused_window_workspace, focused_workspace_id, focused_workspace_pred, is_first_where,
    lemma_first_where_at, lemma_first_where_by_contents, master_slave, none_where, single_where,
    tiled_ids, Window, Workspace,
};

verus! {

/// Position of the first window in workspace `ws` whose column is `column`.
fn find_in_column(windows: &[Window], ws: u64, column: usize) -> (r: Option<usize>)
    ensures
        match r {
            Some(i) => is_first_where(windows@, column_pred(ws, column), i as int),
            None => none_where(windows@, column_pred(ws, column)),
        },
{
    let mut i: usize = 0;
    while i < windows.len()
        invariant
            0 <= i <= windows@.len(),
            forall|j: int| 0 <= j < i ==> !column_pred(ws, column)(#[trigger] windows@[j]),
        decreases windows@.len() - i,
    {
        let w = &windows[i];
        let hit = match w.layout.pos_in_scrolling_layout {
            Some(pos) => w.workspace_id == Some(ws) && pos.0 == column,
            None => false,
        };
        if hit {
            return Some(i);
        }
        i = i + 1;
    }
    None
}

/// Position of the first focused window.
fn find_focused(windows: &[Window]) -> (r: Option<usize>)
    ensures
        match r {
            Some(i) => is_first_where(windows@, focused_pred(), i as int),
            None => none_where(windows@, focused_pred()),
        },
{
    let mut i: usize = 0;
    while i < windows.len()
        invariant
            0 <= i <= windows@.len(),
            forall|j: int| 0 <= j < i ==> !focused_pred()(#[trigger] windows@[j]),
        decreases windows@.len() - i,
    {
        if windows[i].is_focused {
            return Some(i);
        }
        i = i + 1;
    }
    None
}

/// The master window (column 1) and the slave window (column 2) of the
/// workspace that holds the focused window. Where several windows share a
/// column, the first in `windows` is taken. Without a focused window, or when
/// that window has no workspace, both are absent.
pub fn get_master_slave_windows(windows: &[Window]) -> (r: (Option<&Window>, Option<&Window>))
    ensures
        deref_window(r.0) == master_slave(windows@).0,
        deref_window(r.1) == master_slave(windows@).1,
{
    let i = match find_focused(windows) {
        Some(i) => i,
        None => {
            assert(first_where(windows@, focused_pred()) == None::<Window>);
            return (None, None);
        },
    };
    proof {
        lemma_first_where_at(windows@, focused_pred(), i as int);
    }
    let ws = match windows[i].workspace_id {
        Some(ws) => ws,
        None => {
            return (None, None);
        },
    };
    let m = find_in_column(windows, ws, 1);
    let s = find_in_column(windows, ws, 2);
    let ghost pm = column_pred(ws, 1);
    let ghost ps = column_pred(ws, 2);
    let master = match m {
        Some(k) => {
            proof {
                lemma_first_where_at(windows@, pm, k as int);
            }
            Some(&windows[k])
        },
        None => {
            assert(first_where(windows@, pm) == None::<Window>);
            None
        },
    };
    let slave = match s {
        Some(k) => {
            proof {
                lemma_first_where_at(windows@, ps, k as int);
            }
            Some(&windows[k])
        },
        None => {
            assert(first_where(windows@, ps) == None::<Window>);
            None
        },
    };
    (master, slave)
}

/// Id of the first focused workspace.
fn find_focused_workspace(workspaces: &[Workspace]) -> (r: Option<u64>)
    ensures
        r == focused_workspace_id(workspaces@),
{
    let mut i: usize = 0;
    while i < workspaces.len()
        invariant
            0 <= i <= workspaces@.len(),
            forall|j: int| 0 <= j < i ==> !focused_workspace_pred()(#[trigger] workspaces@[j]),
        decreases workspaces@.len() - i,
    {
        if workspaces[i].is_focused {
            proof {
                lemma_first_where_at(workspaces@, focused_workspace_pred(), i as int);
            }
            return Some(workspaces[i].id);
        }
        i = i + 1;
    }
    assert(first_where(workspaces@, focused_workspace_pred()) == None::<Workspace>);
    None
}

/// The ids, in snapshot order, of the windows that are tiled (not floating) on
/// the focused workspace. Without a focused workspace there is no answer.
pub fn non_floating_window_ids_in_focused_workspace(
    windows: &[Window],
    workspaces: &[Workspace],
) -> (r: Option<Vec<u64>>)
    ensures
        match r {
            Some(ids) => focused_tiled_ids(windows@, workspaces@) == Some(ids@),
            None => focused_tiled_ids(windows@, workspaces@) is None,
        },
{
    let ws = match find_focused_workspace(workspaces) {
        Some(ws) => ws,
        None => {
            return None;
        },
    };
    let mut ids: Vec<u64> = Vec::new();
    let mut i: usize = 0;
    while i < windows.len()
        invariant
            0 <= i <= windows@.len(),
            ids@ == tiled_ids(windows@.subrange(0, i as int), ws),
        decreases windows@.len() - i,
    {
        assert(windows@.subrange(0, i + 1).drop_last() == windows@.subrange(0, i as int));
        if windows[i].workspace_id == Some(ws) && !windows[i].is_floating {
            ids.push(windows[i].id);
        }
        i = i + 1;
    }
    assert(windows@.subrange(0, windows@.len() as int) == windows@);
    Some(ids)
}

/// The centering of the focused workspace's only tiled window, if it has
/// exactly one. Without a focused workspace nothing is to be done.
pub fn set_centered_window_if_only_one(windows: &[Window], workspaces: &[Workspace]) -> (r: Option<
    Action,
>)
    ensures
        match focused_tiled_ids(windows@, workspaces@) {
            Some(ids) => if ids.len() == 1 {
                r == Some(Action::CenterWindow { id: ids[0] })
            } else {
                r is None
            },
            None => r is None,
        },
{
    match non_floating_window_ids_in_focused_workspace(windows, workspaces) {
        Some(ids) => {
            if ids.len() == 1 {
                Some(center_window(ids[0]))
            } else {
                None
            }
        },
        None => None,
    }
}

/// No two different windows are focused, and no two different windows of one
/// workspace share column 1 or column 2.
pub open spec fn unambiguous(windows: Seq<Window>) -> bool {
    &&& single_where(windows, focused_pred())
    &&& forall|ws: u64| #[trigger] single_where(windows, column_pred(ws, 1))
    &&& forall|ws: u64| #[trigger] single_where(windows, column_pred(ws, 2))
}

/// The choice of master and slave does not depend on the order of the windows:
/// two snapshots with the same windows give the same pair, as long as neither
/// the focus nor column 1 or 2 of a workspace is claimed by two windows.
pub proof fn lemma_master_slave_order_independent(a: Seq<Window>, b: Seq<Window>)
    requires
        forall|w: Window| a.contains(w) <==> b.contains(w),
        unambiguous(a),
    ensures
        master_slave(a) == master_slave(b),
{
    lemma_first_where_by_contents(a, b, focused_pred());
    if let Some(ws) = focused_window_workspace(a) {
        assert(single_where(a, column_pred(ws, 1)));
        assert(single_where(a, column_pred(ws, 2)));
        lemma_first_where_by_contents(a, b, column_pred(ws, 1));
        lemma_first_where_by_contents(a, b, column_pred(ws, 2));
    }
}

} // verus!
