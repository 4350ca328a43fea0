use niri_layout::{
    actions_for, default_excluded_apps, respond, Action, Event, Reactor, Rule, Window,
    WindowLayout, Workspace,
};

fn win(id: u64, app: Option<&str>, floating: bool) -> Window {
    Window {
        id,
        app_id: app.map(|a| a.to_string()),
        workspace_id: Some(1),
        is_focused: false,
        is_floating: floating,
        layout: WindowLayout { pos_in_scrolling_layout: None, window_size: (800, 600) },
    }
}

fn focused() -> Vec<Workspace> {
    vec![Workspace { id: 1, is_focused: true }, Workspace { id: 2, is_focused: false }]
}

fn opened(id: u64) -> Event {
    Event::WindowOpenedOrChanged { window: win(id, Some("foot"), false) }
}

fn reactor() -> Reactor {
    Reactor::new(vec!["pavucontrol".to_string()])
}

fn tiled(n: u64) -> Vec<Window> {
    (1..=n).map(|i| win(i, Some("foot"), false)).collect()
}

#[test]
fn sole_window_centered_on_layout_change() {
    let mut r = reactor();
    let actions = r.react(&Event::WindowLayoutsChanged, &tiled(1), &focused());
    assert_eq!(actions, vec![Action::CenterWindow { id: 1 }]);
}

#[test]
fn sole_window_centered_and_widened_on_close() {
    let mut r = reactor();
    let actions = r.react(&Event::WindowClosed { id: 9 }, &tiled(1), &focused());
    assert_eq!(
        actions,
        vec![Action::CenterWindow { id: 1 }, Action::SetWindowWidth { id: 1, proportion: 66667 }]
    );
}

#[test]
fn sole_window_centered_and_widened_on_open() {
    let mut r = reactor();
    let actions = r.react(&opened(1), &tiled(1), &focused());
    assert_eq!(
        actions,
        vec![Action::CenterWindow { id: 1 }, Action::SetWindowWidth { id: 1, proportion: 66667 }]
    );
    assert!(r.has_seen(1));
}

#[test]
fn two_windows_halved_on_open() {
    let mut r = reactor();
    let actions = r.react(&opened(2), &tiled(2), &focused());
    assert_eq!(
        actions,
        vec![
            Action::SetWindowWidth { id: 1, proportion: 50000 },
            Action::SetWindowWidth { id: 2, proportion: 50000 },
        ]
    );
}

#[test]
fn two_windows_untouched_on_layout_change() {
    let mut r = reactor();
    assert!(r.react(&Event::WindowLayoutsChanged, &tiled(2), &focused()).is_empty());
}

#[test]
fn three_or_no_windows_untouched_on_open() {
    let mut r = reactor();
    assert!(r.react(&opened(3), &tiled(3), &focused()).is_empty());
    assert!(r.react(&opened(4), &[], &focused()).is_empty());
}

#[test]
fn floating_windows_do_not_count() {
    let mut r = reactor();
    let windows = vec![win(1, None, false), win(2, None, true)];
    assert_eq!(
        r.react(&Event::WindowLayoutsChanged, &windows, &focused()),
        vec![Action::CenterWindow { id: 1 }]
    );
}

#[test]
fn nothing_without_focused_workspace() {
    let mut r = reactor();
    let none = vec![Workspace { id: 1, is_focused: false }];
    assert!(r.react(&Event::WindowLayoutsChanged, &tiled(1), &none).is_empty());
}

#[test]
fn seen_window_is_ignored() {
    let mut r = reactor();
    assert!(!r.react(&opened(1), &tiled(1), &focused()).is_empty());
    assert!(r.react(&opened(1), &tiled(1), &focused()).is_empty());
    assert!(r.has_seen(1));
}

#[test]
fn excluded_app_is_ignored() {
    let mut r = reactor();
    let event = Event::WindowOpenedOrChanged { window: win(1, Some("pavucontrol"), false) };
    assert!(r.react(&event, &tiled(1), &focused()).is_empty());
    assert!(r.has_seen(1));
}

#[test]
fn floating_window_is_ignored() {
    let mut r = reactor();
    let event = Event::WindowOpenedOrChanged { window: win(5, Some("foot"), true) };
    assert!(r.react(&event, &tiled(2), &focused()).is_empty());
}

#[test]
fn closed_window_is_new_again() {
    let mut r = reactor();
    assert!(!r.react(&opened(1), &tiled(1), &focused()).is_empty());
    r.react(&Event::WindowClosed { id: 1 }, &[], &focused());
    assert!(!r.has_seen(1));
    assert_eq!(r.react(&opened(1), &tiled(1), &focused()).len(), 2);
}

#[test]
fn other_events_are_ignored() {
    let mut r = reactor();
    assert_eq!(r.handle_event(&Event::Other), None);
    assert!(r.react(&Event::Other, &tiled(1), &focused()).is_empty());
}

#[test]
fn rules_on_ids() {
    assert_eq!(actions_for(Rule::CenterSole, &vec![7]), vec![Action::CenterWindow { id: 7 }]);
    assert!(actions_for(Rule::CenterAndWidenSole, &vec![7, 8]).is_empty());
    assert!(actions_for(Rule::ArrangeOpened, &vec![]).is_empty());
    assert_eq!(respond(Rule::CenterSole, &tiled(1), &focused()), vec![Action::CenterWindow { id: 1 }]);
}

#[test]
fn default_exclusions() {
    let apps = default_excluded_apps();
    assert_eq!(apps, vec!["pinentry-qt".to_string(), "xdg-desktop-portal-gtk".to_string()]);
    let mut r = Reactor::new(apps);
    let event = Event::WindowOpenedOrChanged { window: win(1, Some("pinentry-qt"), false) };
    assert!(r.react(&event, &tiled(1), &focused()).is_empty());
}
