use std::collections::HashSet;

use vstd::prelude::*;

use crate::action::{center_window, set_window_width, Action, HALF, TWO_THIRDS};
use crate::model::{focused_tiled_ids, Window, Workspace};
use crate::query::non_floating_window_ids_in_focused_workspace;

verus! {

broadcast use vstd::std_specs::hash::group_hash_axioms;

/// A notification from the compositor's event stream, reduced to what the
/// reactor looks at.
pub enum Event {
    /// The layout of some windows changed.
    WindowLayoutsChanged,
    /// A window opened, or one that is open changed.
    WindowOpenedOrChanged { window: Window },
    /// The window with this id closed.
    WindowClosed { id: u64 },
    /// Any other notification.
    Other,
}

/// What to do with the tiled windows of the focused workspace.
#[derive(Clone, Copy, Debug, PartialEq, Eq, Structural)]
pub enum Rule {
    /// Center a sole window.
    CenterSole,
    /// Center a sole window and give it two thirds of the width.
    CenterAndWidenSole,
    /// As `CenterAndWidenSole` for a sole window; two windows get half each.
    ArrangeOpened,
}

/// The actions of `rule` on the tiled window ids `ids` of the focused workspace.
pub open spec fn rule_actions(rule: Rule, ids: Seq<u64>) -> Seq<Action> {
    if ids.len() == 1 {
        match rule {
            Rule::CenterSole => seq![Action::CenterWindow { id: ids[0] }],
            _ => seq![
                Action::CenterWindow { id: ids[0] },
                Action::SetWindowWidth { id: ids[0], proportion: TWO_THIRDS },
            ],
        }
    } else if ids.len() == 2 && rule == Rule::ArrangeOpened {
        seq![
            Action::SetWindowWidth { id: ids[0], proportion: HALF },
            Action::SetWindowWidth { id: ids[1], proportion: HALF },
        ]
    } else {
        Seq::empty()
    }
}

/// The actions of `rule` on a snapshot: none when no workspace is focused.
pub open spec fn snapshot_actions(
    rule: Rule,
    windows: Seq<Window>,
    workspaces: Seq<Workspace>,
) -> Seq<Action> {
    match focused_tiled_ids(windows, workspaces) {
        Some(ids) => rule_actions(rule, ids),
        None => Seq::empty(),
    }
}

/// The application of `w` is one of `excluded`.
pub open spec fn is_excluded(excluded: Seq<Seq<char>>, w: Window) -> bool {
    match w.app_id {
        Some(app) => excluded.contains(app@),
        None => false,
    }
}

/// One step of the reactor: from the ids already seen open and an event, the
/// ids seen afterwards and the rule to apply, if any.
pub open spec fn step(seen: Set<u64>, excluded: Seq<Seq<char>>, event: Event) -> (
    Set<u64>,
    Option<Rule>,
) {
    match event {
        Event::WindowLayoutsChanged => (seen, Some(Rule::CenterSole)),
        Event::WindowClosed { id } => (seen.remove(id), Some(Rule::CenterAndWidenSole)),
        Event::WindowOpenedOrChanged { window } => {
            if seen.contains(window.id) {
                (seen, None)
            } else if is_excluded(excluded, window) || window.is_floating {
                (seen.insert(window.id), None)
            } else {
                (seen.insert(window.id), Some(Rule::ArrangeOpened))
            }
        },
        Event::Other => (seen, None),
    }
}

/// A whole reaction: the step, then the rule's actions on the snapshot.
pub open spec fn reaction(
    seen: Set<u64>,
    excluded: Seq<Seq<char>>,
    event: Event,
    windows: Seq<Window>,
    workspaces: Seq<Workspace>,
) -> (Set<u64>, Seq<Action>) {
    let (next, rule) = step(seen, excluded, event);
    match rule {
        Some(r) => (next, snapshot_actions(r, windows, workspaces)),
        None => (next, Seq::empty()),
    }
}

/// `event` is one the reactor acts on: a layout change, a close, or the
/// opening of a window not seen before that is neither excluded nor floating.
pub open spec fn acts_on(seen: Set<u64>, excluded: Seq<Seq<char>>, event: Event) -> bool {
    match event {
        Event::WindowLayoutsChanged => true,
        Event::WindowClosed { .. } => true,
        Event::WindowOpenedOrChanged { window } => !seen.contains(window.id) && !is_excluded(
            excluded,
            window,
        ) && !window.is_floating,
        Event::Other => false,
    }
}

/// With exactly one tiled window on the focused workspace, each event that the
/// reactor acts on centers that window, once: the centering comes first and
/// no other action centers anything.
pub proof fn lemma_sole_window_centered(
    seen: Set<u64>,
    excluded: Seq<Seq<char>>,
    event: Event,
    windows: Seq<Window>,
    workspaces: Seq<Workspace>,
    id: u64,
)
    requires
        focused_tiled_ids(windows, workspaces) == Some(seq![id]),
        acts_on(seen, excluded, event),
    ensures
        ({
            let actions = reaction(seen, excluded, event, windows, workspaces).1;
            &&& actions.len() >= 1
            &&& actions[0] == (Action::CenterWindow { id })
            &&& forall|k: int| 1 <= k < actions.len() ==> !(actions[k] is CenterWindow)
        }),
{
}

/// When a new window that is neither excluded nor floating opens and the
/// focused workspace then has exactly two tiled windows, each gets half the
/// width.
pub proof fn lemma_opened_pair_halved(
    seen: Set<u64>,
    excluded: Seq<Seq<char>>,
    window: Window,
    windows: Seq<Window>,
    workspaces: Seq<Workspace>,
    a: u64,
    b: u64,
)
    requires
        focused_tiled_ids(windows, workspaces) == Some(seq![a, b]),
        acts_on(seen, excluded, Event::WindowOpenedOrChanged { window }),
    ensures
        reaction(seen, excluded, Event::WindowOpenedOrChanged { window }, windows, workspaces).1
            == seq![
            Action::SetWindowWidth { id: a, proportion: HALF },
            Action::SetWindowWidth { id: b, proportion: HALF },
        ],
{
}

/// When a window opens and the focused workspace has no tiled window, or more
/// than two, nothing is requested.
pub proof fn lemma_opened_other_counts_untouched(
    seen: Set<u64>,
    excluded: Seq<Seq<char>>,
    window: Window,
    windows: Seq<Window>,
    workspaces: Seq<Workspace>,
    ids: Seq<u64>,
)
    requires
        focused_tiled_ids(windows, workspaces) == Some(ids),
        ids.len() == 0 || ids.len() > 2,
    ensures
        reaction(seen, excluded, Event::WindowOpenedOrChanged { window }, windows, workspaces).1
            == Seq::<Action>::empty(),
{
}

/// A window already seen open is ignored when it is reported again: nothing is
/// requested and the reactor's state stays as it was.
pub proof fn lemma_seen_window_ignored(
    seen: Set<u64>,
    excluded: Seq<Seq<char>>,
    window: Window,
    windows: Seq<Window>,
    workspaces: Seq<Workspace>,
)
    requires
        seen.contains(window.id),
    ensures
        reaction(seen, excluded, Event::WindowOpenedOrChanged { window }, windows, workspaces)
            == (seen, Seq::<Action>::empty()),
{
}

/// An excluded application, or a floating window, never leads to an action
/// when it is reported open, whatever the workspace holds.
pub proof fn lemma_excluded_or_floating_untouched(
    seen: Set<u64>,
    excluded: Seq<Seq<char>>,
    window: Window,
    windows: Seq<Window>,
    workspaces: Seq<Workspace>,
)
    requires
        is_excluded(excluded, window) || window.is_floating,
    ensures
        reaction(seen, excluded, Event::WindowOpenedOrChanged { window }, windows, workspaces).1
            == Seq::<Action>::empty(),
{
}

/// Closing a window forgets it: when the same id is reported open afterwards,
/// it is recorded again and handled as a new window.
pub proof fn lemma_closed_window_is_new_again(
    seen: Set<u64>,
    excluded: Seq<Seq<char>>,
    window: Window,
    windows: Seq<Window>,
    workspaces: Seq<Workspace>,
)
    ensures
        ({
            let after_close = reaction(
                seen,
                excluded,
                Event::WindowClosed { id: window.id },
                windows,
                workspaces,
            ).0;
            let reopened = step(after_close, excluded, Event::WindowOpenedOrChanged { window });
            &&& !after_close.contains(window.id)
            &&& reopened.0 == after_close.insert(window.id)
            &&& reopened.1 == if is_excluded(excluded, window) || window.is_floating {
                None
            } else {
                Some(Rule::ArrangeOpened)
            }
        }),
{
}

/// The actions of `rule` on the tiled window ids of the focused workspace.
pub fn actions_for(rule: Rule, ids: &Vec<u64>) -> (r: Vec<Action>)
    ensures
        r@ == rule_actions(rule, ids@),
{
    if ids.len() == 1 {
        match rule {
            Rule::CenterSole => vec![center_window(ids[0])],
            _ => vec![center_window(ids[0]), set_window_width(ids[0], TWO_THIRDS)],
        }
    } else if ids.len() == 2 && rule == Rule::ArrangeOpened {
        vec![set_window_width(ids[0], HALF), set_window_width(ids[1], HALF)]
    } else {
        Vec::new()
    }
}

/// The actions of `rule` on a snapshot of windows and workspaces.
pub fn respond(rule: Rule, windows: &[Window], workspaces: &[Workspace]) -> (r: Vec<Action>)
    ensures
        r@ == snapshot_actions(rule, windows@, workspaces@),
{
    match non_floating_window_ids_in_focused_workspace(windows, workspaces) {
        Some(ids) => actions_for(rule, &ids),
        None => Vec::new(),
    }
}

/// The applications that are never arranged automatically.
pub fn default_excluded_apps() -> (r: Vec<String>)
    ensures
        r@.len() == 2,
        r@[0]@ == "pinentry-qt"@,
        r@[1]@ == "xdg-desktop-portal-gtk"@,
{
    vec!["pinentry-qt".to_owned(), "xdg-desktop-portal-gtk".to_owned()]
}

/// The event reactor's state: the ids of the windows already seen open, and
/// the applications it leaves alone.
pub struct Reactor {
    seen: HashSet<u64>,
    excluded_apps: Vec<String>,
}

impl Reactor {
    /// Ids of the windows seen open and not closed since.
    pub closed spec fn seen_ids(&self) -> Set<u64> {
        self.seen@
    }

    /// The excluded application ids.
    pub closed spec fn excluded(&self) -> Seq<Seq<char>> {
        self.excluded_apps@.map_values(|a: String| a@)
    }

    /// A reactor that has seen no window, leaving the applications
    /// `excluded_apps` alone.
    pub fn new(excluded_apps: Vec<String>) -> (r: Self)
        ensures
            r.seen_ids() == Set::<u64>::empty(),
            r.excluded() == excluded_apps@.map_values(|a: String| a@),
    {
        Reactor { seen: HashSet::new(), excluded_apps }
    }

    /// Whether window `id` has been seen open.
    pub fn has_seen(&self, id: u64) -> (r: bool)
        ensures
            r == self.seen_ids().contains(id),
    {
        self.seen.contains(&id)
    }

    fn excludes(&self, window: &Window) -> (r: bool)
        ensures
            r == is_excluded(self.excluded(), *window),
    {
        match &window.app_id {
            Some(app) => {
                let mut i: usize = 0;
                while i < self.excluded_apps.len()
                    invariant
                        0 <= i <= self.excluded_apps@.len(),
                        window.app_id == Some(*app),
                        forall|j: int| 0 <= j < i ==> self.excluded_apps@[j]@ != app@,
                    decreases self.excluded_apps@.len() - i,
                {
                    if self.excluded_apps[i] == *app {
                        assert(self.excluded()[i as int] == app@);
                        assert(self.excluded().contains(app@));
                        return true;
                    }
                    i = i + 1;
                }
                assert(!self.excluded().contains(app@)) by {
                    if self.excluded().contains(app@) {
                        let j = choose|j: int|
                            0 <= j < self.excluded().len() && self.excluded()[j] == app@;
                        assert(self.excluded_apps@[j]@ == app@);
                    }
                }
                false
            },
            None => false,
        }
    }

    /// Records what `event` says of the open windows and returns the rule to
    /// apply to a fresh snapshot, if any.
    pub fn handle_event(&mut self, event: &Event) -> (r: Option<Rule>)
        ensures
            (final(self).seen_ids(), r) == step(old(self).seen_ids(), old(self).excluded(), *event),
            final(self).excluded() == old(self).excluded(),
    {
        match event {
            Event::WindowLayoutsChanged => Some(Rule::CenterSole),
            Event::WindowClosed { id } => {
                self.seen.remove(id);
                Some(Rule::CenterAndWidenSole)
            },
            Event::WindowOpenedOrChanged { window } => {
                if self.seen.contains(&window.id) {
                    None
                } else {
                    self.seen.insert(window.id);
                    if self.excludes(window) || window.is_floating {
                        None
                    } else {
                        Some(Rule::ArrangeOpened)
                    }
                }
            },
            Event::Other => None,
        }
    }

    /// Handles `event` against a snapshot of windows and workspaces taken
    /// after it, and returns the actions to request.
    pub fn react(&mut self, event: &Event, windows: &[Window], workspaces: &[Workspace]) -> (r: Vec<
        Action,
    >)
        ensures
            (final(self).seen_ids(), r@) == reaction(
                old(self).seen_ids(),
                old(self).excluded(),
                *event,
                windows@,
                workspaces@,
            ),
            final(self).excluded() == old(self).excluded(),
    {
        match self.handle_event(event) {
            Some(rule) => respond(rule, windows, workspaces),
            None => Vec::new(),
        }
    }
}

} // verus!
